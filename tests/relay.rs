use pump_relay::{
    deflate_address, handle_message_received, handle_packet, inflate_address, level_messages,
    overinflate_address, pump_address, pump_update, trigger_address, Arg, Incoming, Outgoing,
    Packet, SimulationState, Value, DEAD_ZONE, UNIT,
};

const DEFAULT_MODIFIER: u32 = 50_000;

fn float_msg(addr: String, v: i32) -> Incoming {
    Incoming::new(addr, vec![Arg::Float(v)])
}

fn state(deflate: i32, inflate: i32, overinflate: i32, last_pump: i32) -> SimulationState {
    SimulationState { deflate, inflate, overinflate, last_pump }
}

#[test]
fn dead_zone_returns_nothing() {
    assert_eq!(pump_update(5_000, 0, 300_000, 500_000, 0, UNIT as u32), None);
    assert_eq!(pump_update(0, 9_999, 0, 0, 0, UNIT as u32), None);
    assert_eq!(pump_update(-400_000, -395_000, 0, 0, 0, UNIT as u32), None);
}

#[test]
fn dead_zone_edge_is_outside() {
    // exactly 0.01 is not noise
    assert_eq!(pump_update(DEAD_ZONE, 0, 0, 0, 0, UNIT as u32), Some((0, DEAD_ZONE, 0)));
    assert_eq!(pump_update(0, DEAD_ZONE, 0, 0, 0, UNIT as u32), Some((0, DEAD_ZONE, 0)));
}

#[test]
fn dead_zone_message_keeps_levels_and_sends_nothing() {
    let mut s = state(200_000, 300_000, 100_000, 400_000);
    let out = handle_message_received(&float_msg(pump_address(), 405_000), &mut s, UNIT as u32);
    assert!(out.is_empty());
    assert_eq!(s, state(200_000, 300_000, 100_000, 405_000));
}

#[test]
fn ranges_hold_after_update() {
    let cases = [
        (1_000_000, 0, 0, 0, 0, 1_000_000u32),
        (1_000_000, 0, 1_000_000, 1_000_000, 1_000_000, 1_000_000),
        (0, 1_000_000, 500_000, 999_999, 999_999, 4_000_000),
        (300_000, 0, 0, 0, 0, 50_000),
        (i32::MAX, i32::MIN, 0, 0, 0, u32::MAX),
    ];
    for (p, l, d, i, o, m) in cases {
        let (nd, ni, no) = pump_update(p, l, d, i, o, m).unwrap();
        assert!(nd >= 0);
        assert!(0 <= ni && ni <= UNIT);
        assert!(0 <= no && no <= UNIT);
    }
}

#[test]
fn repeated_reading_changes_nothing() {
    let mut s = state(100_000, 200_000, 300_000, 600_000);
    let before = s;
    let first = handle_message_received(&float_msg(pump_address(), 600_000), &mut s, DEFAULT_MODIFIER);
    let second = handle_message_received(&float_msg(pump_address(), 600_000), &mut s, DEFAULT_MODIFIER);
    assert!(first.is_empty());
    assert!(second.is_empty());
    assert_eq!(s, before);
    assert_eq!(pump_update(600_000, 600_000, 100_000, 200_000, 300_000, DEFAULT_MODIFIER), None);
}

#[test]
fn deflate_is_drained_first() {
    // deflate 0.3, inflate 0.5, modifier 1.0, delta 0.2
    assert_eq!(
        pump_update(200_000, 0, 300_000, 500_000, 0, 1_000_000),
        Some((100_000, 500_000, 0))
    );
}

#[test]
fn drain_subtracts_the_old_deflate() {
    // deflate 0.1, delta 0.3: deflate empties, 0.2 is left to inflate
    assert_eq!(pump_update(300_000, 0, 100_000, 0, 0, 1_000_000), Some((0, 200_000, 0)));
}

#[test]
fn overflow_goes_to_overinflate() {
    // deflate 0, inflate 0.95, overinflate 0, modifier 1.0, delta 0.5
    assert_eq!(
        pump_update(500_000, 0, 0, 950_000, 0, 1_000_000),
        Some((0, 1_000_000, 500_000))
    );
}

#[test]
fn overinflate_stops_at_one() {
    assert_eq!(
        pump_update(800_000, 0, 0, 900_000, 700_000, 1_000_000),
        Some((0, 1_000_000, 1_000_000))
    );
}

#[test]
fn negative_deflate_is_kept() {
    assert_eq!(pump_update(200_000, 0, -50_000, 0, 0, 1_000_000), Some((-50_000, 200_000, 0)));
}

#[test]
fn scaled_delta_rounds_down() {
    // 0.015 * 0.05 = 0.00075
    assert_eq!(pump_update(15_000, 0, 0, 0, 0, DEFAULT_MODIFIER), Some((0, 750, 0)));
    // 0.010001 * 0.000001 rounds down to 0
    assert_eq!(pump_update(10_001, 0, 0, 0, 0, 1), Some((0, 0, 0)));
}

#[test]
fn deflate_message_overwrites() {
    let mut s = state(100_000, 400_000, 200_000, 300_000);
    let out = handle_message_received(&float_msg(deflate_address(), 700_000), &mut s, DEFAULT_MODIFIER);
    assert!(out.is_empty());
    assert_eq!(s, state(700_000, 400_000, 200_000, 300_000));
}

#[test]
fn inflate_and_overinflate_messages_overwrite() {
    let mut s = SimulationState::new();
    handle_message_received(&float_msg(inflate_address(), 1_500_000), &mut s, DEFAULT_MODIFIER);
    handle_message_received(&float_msg(overinflate_address(), -3), &mut s, DEFAULT_MODIFIER);
    assert_eq!(s, state(0, 1_500_000, -3, 0));
}

#[test]
fn unknown_or_non_float_messages_are_ignored() {
    let mut s = state(1, 2, 3, 4);
    let other = Incoming::new("/avatar/parameters/Other".to_string(), vec![Arg::Float(900_000)]);
    assert!(handle_message_received(&other, &mut s, DEFAULT_MODIFIER).is_empty());
    let not_float = Incoming::new(deflate_address(), vec![Arg::Other, Arg::Float(5)]);
    assert!(handle_message_received(&not_float, &mut s, DEFAULT_MODIFIER).is_empty());
    let empty = Incoming::new(pump_address(), vec![]);
    assert!(handle_message_received(&empty, &mut s, DEFAULT_MODIFIER).is_empty());
    let no_base = Incoming::new("Pooltoy/Deflate".to_string(), vec![Arg::Float(5)]);
    assert!(handle_message_received(&no_base, &mut s, DEFAULT_MODIFIER).is_empty());
    assert_eq!(s, state(1, 2, 3, 4));
}

#[test]
fn end_to_end_first_pump_then_move() {
    let mut s = SimulationState::new();
    let first = handle_message_received(&float_msg(pump_address(), 0), &mut s, DEFAULT_MODIFIER);
    assert!(first.is_empty());
    let out = handle_message_received(&float_msg(pump_address(), 500_000), &mut s, DEFAULT_MODIFIER);
    assert_eq!(
        out,
        vec![
            Outgoing { addr: "/avatar/parameters/Pooltoy/Deflate".to_string(), value: Value::Float(0) },
            Outgoing { addr: "/avatar/parameters/Pooltoy/Inflate".to_string(), value: Value::Float(25_000) },
            Outgoing { addr: "/avatar/parameters/Pooltoy/Overinflate".to_string(), value: Value::Float(0) },
            Outgoing {
                addr: "/avatar/parameters/Pump/Deltapump_Inflating".to_string(),
                value: Value::Bool(true)
            },
        ]
    );
    // the levels wait for the peer to report them back
    assert_eq!(s, state(0, 0, 0, 500_000));
}

#[test]
fn first_reading_is_measured_from_zero() {
    let mut s = SimulationState::new();
    let out = handle_message_received(&float_msg(pump_address(), 200_000), &mut s, DEFAULT_MODIFIER);
    assert_eq!(out.len(), 4);
    assert_eq!(out[1].value, Value::Float(10_000));
}

#[test]
fn pump_moving_down_also_inflates() {
    let mut s = state(0, 0, 0, 800_000);
    let out = handle_message_received(&float_msg(pump_address(), 300_000), &mut s, DEFAULT_MODIFIER);
    assert_eq!(out[1].value, Value::Float(25_000));
}

#[test]
fn level_messages_order_and_addresses() {
    let out = level_messages(1, 2, 3);
    assert_eq!(out.len(), 4);
    assert_eq!(out[0], Outgoing { addr: deflate_address(), value: Value::Float(1) });
    assert_eq!(out[1], Outgoing { addr: inflate_address(), value: Value::Float(2) });
    assert_eq!(out[2], Outgoing { addr: overinflate_address(), value: Value::Float(3) });
    assert_eq!(out[3], Outgoing { addr: trigger_address(), value: Value::Bool(true) });
}

#[test]
fn addresses_are_full_paths() {
    assert_eq!(pump_address(), "/avatar/parameters/Pump/Pump_Stretch");
    assert_eq!(deflate_address(), "/avatar/parameters/Pooltoy/Deflate");
    assert_eq!(inflate_address(), "/avatar/parameters/Pooltoy/Inflate");
    assert_eq!(overinflate_address(), "/avatar/parameters/Pooltoy/Overinflate");
    assert_eq!(trigger_address(), "/avatar/parameters/Pump/Deltapump_Inflating");
}

#[test]
fn bundles_are_ignored() {
    let mut s = state(1, 2, 3, 4);
    assert!(handle_packet(&Packet::Bundle, &mut s, DEFAULT_MODIFIER).is_empty());
    assert_eq!(s, state(1, 2, 3, 4));
    let out = handle_packet(&Packet::Message(float_msg(pump_address(), 500_000)), &mut s, DEFAULT_MODIFIER);
    assert_eq!(out.len(), 4);
    assert_eq!(s.last_pump, 500_000);
}

#[test]
fn new_state_is_zero() {
    assert_eq!(SimulationState::new(), state(0, 0, 0, 0));
}
