use flysky_drive::helper::{map_u16_to_i16, map_u16_to_u8, map_u16_to_u8_2, map_value_to_potency};

#[test]
fn potency_exact_values() {
    assert_eq!(map_value_to_potency(1000), 0);
    assert_eq!(map_value_to_potency(2000), 255);
    assert_eq!(map_value_to_potency(1500), 127);
    assert_eq!(map_value_to_potency(1004), 1);
}

#[test]
fn potency_clamps_out_of_range() {
    assert_eq!(map_value_to_potency(500), map_value_to_potency(1000));
    assert_eq!(map_value_to_potency(3000), map_value_to_potency(2000));
    assert_eq!(map_value_to_potency(0), 0);
    assert_eq!(map_value_to_potency(65535), 255);
}

#[test]
fn folded_exact_values() {
    assert_eq!(map_u16_to_u8_2(1500), 0);
    assert_eq!(map_u16_to_u8_2(1000), 255);
    assert_eq!(map_u16_to_u8_2(2000), 255);
    assert_eq!(map_u16_to_u8_2(1250), 127);
    assert_eq!(map_u16_to_u8_2(1750), 127);
}

#[test]
fn folded_clamps_out_of_range() {
    assert_eq!(map_u16_to_u8_2(500), map_u16_to_u8_2(1000));
    assert_eq!(map_u16_to_u8_2(3000), map_u16_to_u8_2(2000));
}

#[test]
fn signed_exact_values() {
    assert_eq!(map_u16_to_i16(2000, 0), 255);
    assert_eq!(map_u16_to_i16(1000, 0), -255);
    assert_eq!(map_u16_to_i16(1500, 0), 0);
    assert_eq!(map_u16_to_i16(1520, 0), 0);
    assert_eq!(map_u16_to_i16(1480, 0), 0);
    assert_eq!(map_u16_to_i16(1450, 0), 0);
    assert_eq!(map_u16_to_i16(1550, 0), 0);
    // One step past the deadzone scales to 255/450 of a step, which rounds
    // toward zero.
    assert_eq!(map_u16_to_i16(1551, 0), 0);
    assert_eq!(map_u16_to_i16(1449, 0), 0);
    assert_eq!(map_u16_to_i16(1552, 0), 1);
    assert_eq!(map_u16_to_i16(1448, 0), -1);
    assert_eq!(map_u16_to_i16(1775, 0), 127);
}

#[test]
fn signed_clamps_out_of_range() {
    assert_eq!(map_u16_to_i16(500, 0), map_u16_to_i16(1000, 0));
    assert_eq!(map_u16_to_i16(3000, 0), map_u16_to_i16(2000, 0));
    assert_eq!(map_u16_to_i16(0, 0), -255);
    assert_eq!(map_u16_to_i16(65535, 0), 255);
}

#[test]
fn signed_ignores_previous_output() {
    assert_eq!(map_u16_to_i16(1700, 0), map_u16_to_i16(1700, 200));
}

#[test]
fn hysteresis_holds_small_changes() {
    // folded(1400) is 51: one step away from the previous output 50.
    assert_eq!(map_u16_to_u8_2(1400), 51);
    assert_eq!(map_u16_to_u8(1400, 50), 50);
    // folded(1608) is 55: five steps away, past the threshold.
    assert_eq!(map_u16_to_u8_2(1608), 55);
    assert_eq!(map_u16_to_u8(1608, 50), 55);
}

#[test]
fn hysteresis_boundary_is_inclusive() {
    // A change of exactly 2 still holds the previous output.
    assert_eq!(map_u16_to_u8_2(1398), 52);
    assert_eq!(map_u16_to_u8(1398, 50), 50);
    // A change of 3 passes through.
    assert_eq!(map_u16_to_u8_2(1396), 53);
    assert_eq!(map_u16_to_u8(1396, 50), 53);
}

#[test]
fn hysteresis_clamps_out_of_range() {
    assert_eq!(map_u16_to_u8(500, 9), map_u16_to_u8(1000, 9));
    assert_eq!(map_u16_to_u8(3000, 9), map_u16_to_u8(2000, 9));
}
