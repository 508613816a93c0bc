use pydmg_neogeo::bus::NeoGeoBus;
use pydmg_neogeo::host::aaudio::{
    is_running, push, start, stats, stop, AAudioStream, Action, AudioHost, Event,
    AAUDIO_CALLBACK_RESULT_CONTINUE, AAUDIO_PERFORMANCE_MODE_LOW_LATENCY,
    AAUDIO_SHARING_MODE_EXCLUSIVE, AAUDIO_SHARING_MODE_SHARED,
};
use pydmg_neogeo::host::frontend::{
    apply_player_mask, argb_of, feed_ring, hardware_of, repack_argb, set_player_inputs,
    state_checksum, take_samples, Hardware, BTN_A, BTN_COIN, BTN_SELECT, BTN_START, BTN_UP,
};
use pydmg_neogeo::host::ring::StereoRing;

#[test]
fn round_trip_preserves_samples() {
    let mut r = StereoRing::new(16);
    let src = [1i16, -1, 2, -2, 3, -3, 4, -4];
    assert_eq!(r.push_stereo(&src), 4);
    let mut dst = [0i16; 8];
    assert_eq!(r.pop_frames_into(&mut dst, 4), 4);
    assert_eq!(dst, src);
}

#[test]
fn wraparound_is_correct() {
    let mut r = StereoRing::new(4);
    let a = [10i16, 11, 20, 21, 30, 31, 40, 41];
    assert_eq!(r.push_stereo(&a), 4);
    let mut d1 = [0i16; 8];
    r.pop_frames_into(&mut d1, 4);
    assert_eq!(d1, a);
    let b = [50i16, 51, 60, 61, 70, 71, 80, 81];
    assert_eq!(r.push_stereo(&b), 4);
    let mut d2 = [0i16; 8];
    r.pop_frames_into(&mut d2, 4);
    assert_eq!(d2, b);
}

#[test]
fn push_stops_when_full() {
    let mut r = StereoRing::new(4);
    let src = [1i16, 2, 3, 4, 5, 6, 7, 8, 9, 10, 11, 12];
    assert_eq!(r.push_stereo(&src), 4);
    assert_eq!(r.used_frames(), 4);
}

#[test]
fn pop_underflow_is_zero_padded() {
    let mut r = StereoRing::new(8);
    let mut d = [999i16; 8];
    assert_eq!(r.pop_frames_into(&mut d, 4), 0);
    assert_eq!(d, [0, 0, 0, 0, 0, 0, 0, 0]);
}

#[test]
fn interleaved_pushes_and_pops_keep_order() {
    let mut r = StereoRing::new(8);
    let mut next = 0i16;
    let mut expect = 0i16;
    for round in 0..1000usize {
        let n = 1 + round % 5;
        let mut src = Vec::new();
        for i in 0..n as i16 {
            src.push(next.wrapping_add(i));
            src.push(next.wrapping_add(i).wrapping_neg());
        }
        let pushed = r.push_stereo(&src);
        next = next.wrapping_add(pushed as i16);
        let mut dst = [0i16; 8];
        let popped = r.pop_frames_into(&mut dst, 1 + round % 4);
        for i in 0..popped {
            assert_eq!(dst[2 * i], expect);
            assert_eq!(dst[2 * i + 1], expect.wrapping_neg());
            expect = expect.wrapping_add(1);
        }
    }
    assert!(expect > 100);
}

#[test]
fn counters_wrap_without_losing_frames() {
    let mut r = StereoRing::new(4);
    r.head = u32::MAX - 1;
    r.tail = u32::MAX - 1;
    assert_eq!(r.push_stereo(&[1, 2, 3, 4, 5, 6]), 3);
    assert_eq!(r.used_frames(), 3);
    let mut d = [0i16; 6];
    assert_eq!(r.pop_frames_into(&mut d, 3), 3);
    assert_eq!(d, [1, 2, 3, 4, 5, 6]);
}

#[test]
fn streams_start_step_by_step() {
    let mut h = AudioHost::new();
    assert!(!is_running(&h));
    let st = AAudioStream { id: 7 };
    match start(&mut h, 55_555, true) {
        Action::Open(b) => {
            assert_eq!(b.sample_rate, 55_555);
            assert_eq!(b.channels, 2);
            assert_eq!(b.sharing_mode, AAUDIO_SHARING_MODE_EXCLUSIVE);
            assert_eq!(b.performance_mode, AAUDIO_PERFORMANCE_MODE_LOW_LATENCY);
        }
        other => panic!("{:?}", other),
    }
    match h.advance(Event::Opened(None)) {
        Action::Open(b) => assert_eq!(b.sharing_mode, AAUDIO_SHARING_MODE_SHARED),
        other => panic!("{:?}", other),
    }
    assert_eq!(h.advance(Event::Opened(Some(st))), Action::Ask(st));
    assert_eq!(h.advance(Event::Told(96, 48_000, 12, 1)), Action::Resize(st, 288));
    assert_eq!(h.advance(Event::Resized), Action::Launch(st));
    assert_eq!(h.advance(Event::Launched(0)), Action::Ready);
    assert!(is_running(&h));
    assert_eq!(start(&mut h, 44_100, true), Action::Ready);
    assert_eq!(stats(&h, 3), (0, 3, 48_000, 96, 12));
    let d = h.driver.unwrap();
    assert_eq!(d.sample_rate(), 48_000);
    assert_eq!(d.frames_per_burst(), 96);
    assert_eq!(d.perf_mode(), 12);
    assert_eq!(d.sharing_mode(), 1);
    assert_eq!(d.underruns(&h), 0);
    assert_eq!(stop(&mut h), Some(st));
    assert_eq!(stop(&mut h), None);
    assert!(!is_running(&h));
    assert_eq!(stats(&h, 3), (0, 0, 0, 0, 0));
}

#[test]
fn refused_streams_end_the_attempt() {
    let mut h = AudioHost::new();
    assert_eq!(start(&mut h, 48_000, false), Action::Failed);
    let _ = start(&mut h, 48_000, true);
    let _ = h.advance(Event::Opened(None));
    assert_eq!(h.advance(Event::Opened(None)), Action::Failed);
    let st = AAudioStream { id: 1 };
    let _ = start(&mut h, 48_000, true);
    let _ = h.advance(Event::Opened(Some(st)));
    let _ = h.advance(Event::Told(10, 48_000, 12, 0));
    let _ = h.advance(Event::Resized);
    assert_eq!(h.advance(Event::Launched(-899)), Action::Close(st));
    assert_eq!(h.advance(Event::Closed), Action::Failed);
    assert!(!is_running(&h));
}

#[test]
fn dry_ring_gives_silence_and_is_counted() {
    let mut h = AudioHost::new();
    assert_eq!(push(&mut h, &[5, 6]), 1);
    let mut out = [9i16; 6];
    assert_eq!(h.fill(&mut out, 2), AAUDIO_CALLBACK_RESULT_CONTINUE);
    assert_eq!(out, [5, 6, 0, 0, 9, 9]);
    assert_eq!(h.underruns, 1);
}

#[test]
fn samples_go_to_the_ring_only_while_it_plays() {
    let mut h = AudioHost::new();
    let mut buf: Vec<i16> = (0..6000).map(|i| i as i16).collect();
    assert_eq!(feed_ring(&mut h, &mut buf), 6000);
    let st = AAudioStream { id: 1 };
    let _ = start(&mut h, 55_555, true);
    let _ = h.advance(Event::Opened(Some(st)));
    let _ = h.advance(Event::Told(96, 55_555, 12, 0));
    let _ = h.advance(Event::Resized);
    let _ = h.advance(Event::Launched(0));
    assert_eq!(take_samples(&mut buf, 4), vec![0, 1, 2, 3]);
    assert_eq!(buf.len(), 5996);
    assert_eq!(feed_ring(&mut h, &mut buf), 0);
    assert!(buf.is_empty());
    let mut out = vec![0i16; 4096];
    h.fill(&mut out, 2048);
    assert_eq!((out[0], out[4095]), (4, 4099));
    assert_eq!(h.underruns, 0);
}

#[test]
fn controls_are_active_low() {
    let mut bus = NeoGeoBus::new();
    set_player_inputs(&mut bus, BTN_UP | BTN_A | BTN_START | BTN_COIN, BTN_SELECT | BTN_COIN);
    assert_eq!(bus.p1_input, 0xEE);
    assert_eq!(bus.p2_input, 0xFF);
    assert_eq!(bus.start_select, 0xF6);
    assert_eq!(bus.coin_inputs, 0xFC);
    assert_eq!(apply_player_mask(0xFF), 0);
    assert_eq!(hardware_of(1), Hardware::Aes);
    assert_eq!(hardware_of(0), Hardware::Mvs);
}

#[test]
fn pixels_are_repacked() {
    assert_eq!(argb_of(0x112233FF), 0xFF112233);
    let mut out = [0u32; 3];
    repack_argb(&[0x01020304, 0xAABBCCDD], &mut out);
    assert_eq!(out, [0x04010203, 0xDDAABBCC, 0]);
}

#[test]
fn checksum_is_crc32_of_work_ram() {
    let mut bus = NeoGeoBus::new();
    let zero = state_checksum(&bus);
    assert_eq!(zero, 0xD797_8EEB);
    bus.work_ram[0x1234] = 1;
    assert_ne!(state_checksum(&bus), zero);
}
