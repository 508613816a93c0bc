use pydmg_neogeo::memory::pcm2::{
    detect_pcm2, exchanged, pcm2_decrypt, pcm2_swap, Pcm2Mode, ADDRS, SWAP_BITS, XORDATA,
};
use pydmg_neogeo::memory::prot::bitswap;

#[test]
fn pcm2_decrypt_is_involution() {
    let orig: Vec<u8> = (0..0x1000usize)
        .map(|i| ((i as u32).wrapping_mul(2654435761) >> 5) as u8)
        .collect();
    for &value in &[4usize, 8, 16] {
        let mut rom = orig.clone();
        pcm2_decrypt(&mut rom, value);
        assert_ne!(rom, orig, "value={value} must change data");
        pcm2_decrypt(&mut rom, value);
        assert_eq!(rom, orig, "value={value} must be an involution");
    }
}

#[test]
fn pcm2_swap_address_map_is_permutation() {
    let mut seen = std::collections::HashSet::new();
    for i in (0..0x1000000u32).step_by(0x1111) {
        let j = bitswap(i, &SWAP_BITS) ^ ADDRS[2].1;
        assert!(j < 0x1000000);
        assert!(seen.insert(j), "collision at i={i:#x}");
    }
}

#[test]
fn pcm2_swap_deterministic() {
    let mut rom: Vec<u8> = (0..0x1000000usize).map(|i| (i >> 3) as u8).collect();
    let mut rom2 = rom.clone();
    pcm2_swap(&mut rom, 2);
    pcm2_swap(&mut rom2, 2);
    assert_eq!(rom, rom2);
}

#[test]
fn blocks_exchange_their_halves() {
    let mut rom: Vec<u8> = (0..20u8).collect();
    pcm2_decrypt(&mut rom, 8);
    assert_eq!(
        rom,
        vec![4, 5, 6, 7, 0, 1, 2, 3, 12, 13, 14, 15, 8, 9, 10, 11, 16, 17, 18, 19]
    );
}

#[test]
fn bytes_move_to_scrambled_addresses() {
    let src: Vec<u8> = (0..0x1000010usize).map(|i| (i % 251) as u8).collect();
    let mut rom = src.clone();
    pcm2_swap(&mut rom, 5);
    for &i in &[0u32, 1, 2, 0x10000, 0x12345, 0xFFFFFF] {
        let j = (bitswap(i, &SWAP_BITS) ^ ADDRS[5].1) as usize;
        let d = ((i + ADDRS[5].0) & 0xFFFFFF) as usize;
        assert_eq!(rom[j], src[d] ^ XORDATA[5][j & 7]);
    }
    assert_eq!(rom[0x1000000..], src[0x1000000..]);
}

#[test]
fn exchange_agrees_with_the_bit_table() {
    for &i in &[0u32, 1, 0x10000, 0x10001, 0xABCDEF, 0xFFFFFF] {
        assert_eq!(bitswap(i, &SWAP_BITS), exchanged(i));
    }
}

#[test]
fn sets_are_told_by_name() {
    assert_eq!(detect_pcm2("mslug4"), Some(Pcm2Mode::Decrypt(8)));
    assert_eq!(detect_pcm2("MS4Plus"), Some(Pcm2Mode::Decrypt(8)));
    assert_eq!(detect_pcm2("rotd"), Some(Pcm2Mode::Decrypt(16)));
    assert_eq!(detect_pcm2("pnyaa"), Some(Pcm2Mode::Decrypt(4)));
    assert_eq!(detect_pcm2("KOF2002"), Some(Pcm2Mode::Swap(0)));
    assert_eq!(detect_pcm2("matrim"), Some(Pcm2Mode::Swap(1)));
    assert_eq!(detect_pcm2("mslug5h"), Some(Pcm2Mode::Swap(2)));
    assert_eq!(detect_pcm2("svc"), Some(Pcm2Mode::Swap(3)));
    assert_eq!(detect_pcm2("samsho5"), Some(Pcm2Mode::Swap(4)));
    assert_eq!(detect_pcm2("kof2003h"), Some(Pcm2Mode::Swap(5)));
    assert_eq!(detect_pcm2("samsh5spho"), Some(Pcm2Mode::Swap(6)));
    assert_eq!(detect_pcm2("mslug"), None);
    assert_eq!(detect_pcm2(""), None);
}
