use flysky_drive::ppm::{is_reading_channels, Ppm};

fn snapshot_values(ppm: &Ppm) -> Vec<u16> {
    let frame = ppm.snapshot();
    let mut out = Vec::new();
    let mut i = 0;
    while i < frame.len() {
        out.push(frame.get(i));
        i += 1;
    }
    out
}

#[test]
fn pulse_gap_threshold() {
    assert!(is_reading_channels(0));
    assert!(is_reading_channels(3999));
    assert!(!is_reading_channels(4000));
    assert!(!is_reading_channels(60000));
}

#[test]
fn snapshot_always_has_six_channels() {
    let mut ppm = Ppm::new();
    assert_eq!(ppm.snapshot().len(), 6);
    let ticks = [1251u16, 1501, 1801, 2176, 2576, 3026, 3526, 3776, 4876, 5151];
    for t in ticks {
        ppm.on_edge(t);
        assert_eq!(ppm.snapshot().len(), 6);
    }
}

#[test]
fn frame_is_stored_in_order() {
    let mut ppm = Ppm::new();
    // A long gap (1250 ticks = 5000 us) aligns the decoder to channel 0.
    ppm.on_edge(1251);
    assert_eq!(ppm.get_current_channel(), 0);
    // Six pulses: 1000, 1200, 1500, 1600, 1800, 2000 us.
    ppm.on_edge(1501);
    assert_eq!(ppm.get_current_channel(), 1);
    ppm.on_edge(1801);
    ppm.on_edge(2176);
    ppm.on_edge(2576);
    ppm.on_edge(3026);
    ppm.on_edge(3526);
    assert_eq!(ppm.get_current_channel(), 6);
    assert_eq!(snapshot_values(&ppm), vec![1000, 1200, 1500, 1600, 1800, 2000]);
}

#[test]
fn extra_pulses_are_dropped() {
    let mut ppm = Ppm::new();
    ppm.on_edge(1251);
    for t in [1501u16, 1801, 2176, 2576, 3026, 3526] {
        ppm.on_edge(t);
    }
    // A seventh pulse (1000 us) arrives before any gap: it is ignored.
    ppm.on_edge(3776);
    assert_eq!(ppm.get_current_channel(), 6);
    assert_eq!(snapshot_values(&ppm), vec![1000, 1200, 1500, 1600, 1800, 2000]);
}

#[test]
fn gap_resyncs_and_keeps_stale_values() {
    let mut ppm = Ppm::new();
    ppm.on_edge(1251);
    for t in [1501u16, 1801, 2176, 2576, 3026, 3526] {
        ppm.on_edge(t);
    }
    // A gap (1100 ticks = 4400 us) realigns to channel 0 without clearing
    // anything.
    ppm.on_edge(4626);
    assert_eq!(ppm.get_current_channel(), 0);
    assert_eq!(snapshot_values(&ppm), vec![1000, 1200, 1500, 1600, 1800, 2000]);
}

#[test]
fn resync_then_second_frame_overwrites_in_order() {
    let mut ppm = Ppm::new();
    ppm.on_edge(1251);
    for t in [1501u16, 1801, 2176, 2576, 3026, 3526] {
        ppm.on_edge(t);
    }
    ppm.on_edge(4626);
    assert_eq!(ppm.get_current_channel(), 0);
    // One pulse of the second frame lands in slot 0; the rest are stale.
    ppm.on_edge(4901);
    assert_eq!(ppm.get_current_channel(), 1);
    assert_eq!(snapshot_values(&ppm), vec![1100, 1200, 1500, 1600, 1800, 2000]);
    // The remaining five pulses (1300, 1500, 1700, 1900, 1000 us) follow.
    ppm.on_edge(5226);
    ppm.on_edge(5601);
    ppm.on_edge(6026);
    ppm.on_edge(6501);
    ppm.on_edge(6751);
    assert_eq!(ppm.get_current_channel(), 6);
    assert_eq!(snapshot_values(&ppm), vec![1100, 1300, 1500, 1700, 1900, 1000]);
}

#[test]
fn timer_wraparound_is_a_plain_difference() {
    let mut ppm = Ppm::new();
    // Align near the top of the 16-bit counter: 5000 us gap to tick 65000.
    ppm.on_edge(63750);
    ppm.on_edge(65000);
    assert_eq!(ppm.get_current_channel(), 0);
    // The counter wraps: 736 ticks from 65000 to 200 is a 2944 us pulse.
    ppm.on_edge(200);
    assert_eq!(ppm.get_current_channel(), 1);
    assert_eq!(snapshot_values(&ppm)[0], 2944);
}

#[test]
fn scaled_elapsed_time_wraps_at_16_bits() {
    let mut ppm = Ppm::new();
    ppm.on_edge(1251);
    assert_eq!(ppm.get_current_channel(), 0);
    // 17000 ticks would be 68000 us, but the microsecond scaling wraps at
    // 65536, leaving 2464 us: the edge counts as a pulse.
    ppm.on_edge(18251);
    assert_eq!(ppm.get_current_channel(), 1);
    assert_eq!(snapshot_values(&ppm)[0], 2464);
}
