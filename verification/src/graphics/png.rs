//! Frames as PNG files, stored without compression.
use vstd::prelude::*;

verus! {

/// A word as four bytes, high byte first.
pub open spec fn be32(v: u32) -> Seq<u8> {
    seq![(v >> 24) as u8, (v >> 16) as u8, (v >> 8) as u8, v as u8]
}

/// A half word as two bytes, low byte first.
pub open spec fn le16(v: u16) -> Seq<u8> {
    seq![v as u8, (v >> 8) as u8]
}

fn push_be32(out: &mut Vec<u8>, v: u32)
    ensures
        final(out)@ == old(out)@ + be32(v),
{
    out.push((v >> 24) as u8);
    out.push((v >> 16) as u8);
    out.push((v >> 8) as u8);
    out.push(v as u8);
    assert(out@ =~= old(out)@ + be32(v));
}

fn push_le16(out: &mut Vec<u8>, v: u16)
    ensures
        final(out)@ == old(out)@ + le16(v),
{
    out.push(v as u8);
    out.push((v >> 8) as u8);
    assert(out@ =~= old(out)@ + le16(v));
}

/// One bit of the reflected CRC-32 division.
#[verifier::allow_in_spec]
pub fn crc_bit(crc: u32) -> u32
    returns
        (if crc & 1 == 1 {
            (crc >> 1) ^ 0xEDB8_8320
        } else {
            crc >> 1
        }),
{
    if crc & 1 == 1 {
        (crc >> 1) ^ 0xEDB8_8320
    } else {
        crc >> 1
    }
}

/// `n` bits of it.
pub open spec fn crc_bits(crc: u32, n: nat) -> u32
    decreases n,
{
    if n == 0 {
        crc
    } else {
        crc_bit(crc_bits(crc, (n - 1) as nat))
    }
}

/// The remainder register after some bytes, before the final inversion.
pub open spec fn crc_register(data: Seq<u8>) -> u32
    decreases data.len(),
{
    if data.len() == 0 {
        0xFFFF_FFFF
    } else {
        crc_bits(crc_register(data.drop_last()) ^ (data.last() as u32), 8)
    }
}

/// The CRC-32 of some bytes.
pub open spec fn crc32_of(data: Seq<u8>) -> u32 {
    !crc_register(data)
}

pub fn crc32(data: &[u8]) -> (crc: u32)
    ensures
        crc == crc32_of(data@),
{
    let mut crc: u32 = 0xFFFF_FFFF;
    let mut i: usize = 0;
    assert(data@.take(0) =~= Seq::<u8>::empty());
    while i < data.len()
        invariant
            i <= data@.len(),
            crc == crc_register(data@.take(i as int)),
        decreases data@.len() - i,
    {
        assert(data@.take(i + 1).drop_last() =~= data@.take(i as int));
        let start: u32 = crc ^ (data[i] as u32);
        crc = start;
        let mut k: u32 = 0;
        while k < 8
            invariant
                k <= 8,
                crc == crc_bits(start, k as nat),
            decreases 8 - k,
        {
            crc = crc_bit(crc);
            k = k + 1;
        }
        i = i + 1;
    }
    assert(data@.take(i as int) =~= data@);
    !crc
}

/// The two sums of Adler-32: of the bytes, and of those sums.
pub open spec fn adler_sums(data: Seq<u8>) -> (int, int)
    decreases data.len(),
{
    if data.len() == 0 {
        (1, 0)
    } else {
        let (a, b) = adler_sums(data.drop_last());
        ((a + data.last()) % 65521, (b + (a + data.last()) % 65521) % 65521)
    }
}

/// The Adler-32 of some bytes.
pub open spec fn adler32_of(data: Seq<u8>) -> u32 {
    let (a, b) = adler_sums(data);
    ((b as u32) << 16) | (a as u32)
}

pub fn adler32(data: &[u8]) -> (r: u32)
    ensures
        r == adler32_of(data@),
{
    let mut a: u32 = 1;
    let mut b: u32 = 0;
    let mut i: usize = 0;
    assert(data@.take(0) =~= Seq::<u8>::empty());
    while i < data.len()
        invariant
            i <= data@.len(),
            a < 65521,
            b < 65521,
            (a as int, b as int) == adler_sums(data@.take(i as int)),
        decreases data@.len() - i,
    {
        assert(data@.take(i + 1).drop_last() =~= data@.take(i as int));
        a = (a + data[i] as u32) % 65521;
        b = (b + a) % 65521;
        i = i + 1;
    }
    assert(data@.take(i as int) =~= data@);
    (b << 16) | a
}

/// The stored blocks that hold `raw` from byte `i` on, at most 65535 bytes
/// each. A block has a flag that marks the last one, its length, and the
/// length's complement.
pub open spec fn stored_blocks(raw: Seq<u8>, i: int) -> Seq<u8>
    decreases raw.len() - i,
{
    if i < 0 || i >= raw.len() {
        Seq::empty()
    } else {
        let n = if raw.len() - i < 0xFFFF {
            raw.len() - i
        } else {
            0xFFFF
        };
        let flag = if i + n == raw.len() {
            1u8
        } else {
            0u8
        };
        seq![flag] + le16(n as u16) + le16(!(n as u16)) + raw.subrange(i, i + n) + stored_blocks(
            raw,
            i + n,
        )
    }
}

/// A zlib stream of stored blocks.
pub open spec fn zlib_of(raw: Seq<u8>) -> Seq<u8> {
    seq![0x78u8, 0x01u8] + stored_blocks(raw, 0) + be32(adler32_of(raw))
}

pub fn zlib_store(raw: &[u8]) -> (out: Vec<u8>)
    ensures
        out@ == zlib_of(raw@),
{
    let mut out: Vec<u8> = Vec::new();
    // The two header bytes as one number are a multiple of 31.
    out.push(0x78);
    out.push(0x01);
    let mut i: usize = 0;
    let ghost head = out@;
    assert(head =~= seq![0x78u8, 0x01u8]);
    assert(head + stored_blocks(raw@, 0) =~= out@ + stored_blocks(raw@, 0));
    while i < raw.len()
        invariant
            i <= raw@.len(),
            out@ + stored_blocks(raw@, i as int) == head + stored_blocks(raw@, 0),
        decreases raw@.len() - i,
    {
        let left: usize = raw.len() - i;
        let n: usize = if left < 0xFFFF {
            left
        } else {
            0xFFFF
        };
        let ghost before = out@;
        let flag: u8 = if i + n == raw.len() {
            1
        } else {
            0
        };
        out.push(flag);
        push_le16(&mut out, n as u16);
        push_le16(&mut out, !(n as u16));
        out.extend_from_slice(vstd::slice::slice_subrange(raw, i, i + n));
        assert(out@ =~= before + (seq![flag] + le16(n as u16) + le16(!(n as u16))
            + raw@.subrange(i as int, i + n)));
        assert(out@ + stored_blocks(raw@, i + n) =~= before + stored_blocks(raw@, i as int));
        i = i + n;
    }
    assert(out@ + stored_blocks(raw@, i as int) =~= out@);
    let sum: u32 = adler32(raw);
    push_be32(&mut out, sum);
    assert(out@ =~= zlib_of(raw@));
    out
}

/// A PNG chunk: length, kind, data, and the checksum of the last two.
pub open spec fn chunk_of(kind: Seq<u8>, data: Seq<u8>) -> Seq<u8> {
    be32(data.len() as u32) + kind + data + be32(crc32_of(kind + data))
}

pub fn write_chunk(out: &mut Vec<u8>, kind: &[u8; 4], data: &[u8])
    ensures
        final(out)@ == old(out)@ + chunk_of(kind@, data@),
{
    push_be32(out, data.len() as u32);
    let mut body: Vec<u8> = Vec::new();
    let mut i: usize = 0;
    while i < 4
        invariant
            i <= 4,
            body@ == kind@.take(i as int),
        decreases 4 - i,
    {
        body.push(kind[i]);
        assert(body@ =~= kind@.take(i + 1));
        i = i + 1;
    }
    assert(kind@.take(4) =~= kind@);
    body.extend_from_slice(data);
    assert(body@ =~= kind@ + data@);
    let crc: u32 = crc32(body.as_slice());
    out.extend_from_slice(body.as_slice());
    push_be32(out, crc);
    assert(out@ =~= old(out)@ + chunk_of(kind@, data@));
}

/// `n` pixels from index `start` on, four bytes each.
pub open spec fn pixel_bytes(frame: Seq<u32>, start: int, n: nat) -> Seq<u8>
    decreases n,
{
    if n == 0 {
        Seq::empty()
    } else {
        pixel_bytes(frame, start, (n - 1) as nat) + be32(frame[start + n - 1])
    }
}

/// The first `n` rows of a picture, each behind a filter byte of zero.
pub open spec fn raw_rows(frame: Seq<u32>, width: int, n: nat) -> Seq<u8>
    decreases n,
{
    if n == 0 {
        Seq::empty()
    } else {
        raw_rows(frame, width, (n - 1) as nat) + (seq![0u8] + pixel_bytes(
            frame,
            (n - 1) * width,
            width as nat,
        ))
    }
}

/// The picture header: size, eight bits a channel, red, green, blue and alpha.
pub open spec fn header_of(width: usize, height: usize) -> Seq<u8> {
    be32(width as u32) + be32(height as u32) + seq![8u8, 6u8, 0u8, 0u8, 0u8]
}

pub open spec fn png_signature() -> Seq<u8> {
    seq![0x89u8, 0x50, 0x4E, 0x47, 0x0D, 0x0A, 0x1A, 0x0A]
}

/// The PNG file of a picture.
pub open spec fn png_of(frame: Seq<u32>, width: usize, height: usize) -> Seq<u8> {
    png_signature() + chunk_of(
        seq![0x49u8, 0x48, 0x44, 0x52],
        header_of(width, height),
    ) + chunk_of(
        seq![0x49u8, 0x44, 0x41, 0x54],
        zlib_of(raw_rows(frame, width as int, height as nat)),
    ) + chunk_of(seq![0x49u8, 0x45, 0x4E, 0x44], Seq::empty())
}

fn build_raw(frame: &[u32], width: usize, height: usize) -> (raw: Vec<u8>)
    requires
        frame@.len() == width * height,
    ensures
        raw@ == raw_rows(frame@, width as int, height as nat),
{
    let mut raw: Vec<u8> = Vec::new();
    let total: usize = frame.len();
    let mut at: usize = 0;
    let mut y: usize = 0;
    assert(0 * width == 0) by (nonlinear_arith);
    while y < height
        invariant
            y <= height,
            at == y * width,
            frame@.len() == total,
            total == width * height,
            raw@ == raw_rows(frame@, width as int, y as nat),
        decreases height - y,
    {
        let ghost before = raw@;
        assert((y + 1) * width == y * width + width) by (nonlinear_arith);
        assert((y + 1) * width <= width * height) by (nonlinear_arith)
            requires
                y + 1 <= height,
        ;
        raw.push(0);
        let mut x: usize = 0;
        while x < width
            invariant
                x <= width,
                frame@.len() == total,
                at + width <= total,
                raw@ == before + (seq![0u8] + pixel_bytes(frame@, at as int, x as nat)),
            decreases width - x,
        {
            let p: u32 = frame[at + x];
            push_be32(&mut raw, p);
            assert(raw@ =~= before + (seq![0u8] + pixel_bytes(frame@, at as int, (x + 1) as nat)));
            x = x + 1;
        }
        at = at + width;
        y = y + 1;
    }
    raw
}

/// Encode a picture.
pub fn frame_to_png(frame: &[u32], width: usize, height: usize) -> (out: Vec<u8>)
    requires
        frame@.len() == width * height,
    ensures
        out@ == png_of(frame@, width, height),
{
    let raw: Vec<u8> = build_raw(frame, width, height);
    let data: Vec<u8> = zlib_store(raw.as_slice());
    let mut out: Vec<u8> = vec![0x89, 0x50, 0x4E, 0x47, 0x0D, 0x0A, 0x1A, 0x0A];
    assert(out@ =~= png_signature());
    let mut header: Vec<u8> = Vec::new();
    push_be32(&mut header, width as u32);
    push_be32(&mut header, height as u32);
    header.push(8);
    header.push(6);
    header.push(0);
    header.push(0);
    header.push(0);
    assert(header@ =~= header_of(width, height));
    let ihdr: [u8; 4] = [0x49, 0x48, 0x44, 0x52];
    let idat: [u8; 4] = [0x49, 0x44, 0x41, 0x54];
    let iend: [u8; 4] = [0x49, 0x45, 0x4E, 0x44];
    let none: [u8; 0] = [];
    assert(ihdr@ =~= seq![0x49u8, 0x48, 0x44, 0x52]);
    assert(idat@ =~= seq![0x49u8, 0x44, 0x41, 0x54]);
    assert(iend@ =~= seq![0x49u8, 0x45, 0x4E, 0x44]);
    assert(none@ =~= Seq::<u8>::empty());
    write_chunk(&mut out, &ihdr, header.as_slice());
    write_chunk(&mut out, &idat, data.as_slice());
    write_chunk(&mut out, &iend, &none);
    out
}

}
