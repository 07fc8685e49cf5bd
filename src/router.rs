//! Routing of incoming messages to the state, and the messages a pump
//! update sends out.
use vstd::prelude::*;
use crate::engine::{abs_diff, lemma_still_pump_is_noop, pump_update, update_levels, DEAD_ZONE};
use crate::message::{
    deflate_address, deflate_address_spec, inflate_address, lemma_addresses_distinct, inflate_address_spec,
    overinflate_address, overinflate_address_spec, pump_address, pump_address_spec,
    trigger_address, trigger_address_spec, Arg, Incoming, Outgoing, Packet, Value,
};
use crate::state::SimulationState;

verus! {

/// The four messages that report new levels: deflate, inflate and
/// overinflate, then the trigger.
pub open spec fn emitted(deflate: i32, inflate: i32, overinflate: i32) -> Seq<(Seq<char>, Value)> {
    seq![
        (deflate_address_spec(), Value::Float(deflate)),
        (inflate_address_spec(), Value::Float(inflate)),
        (overinflate_address_spec(), Value::Float(overinflate)),
        (trigger_address_spec(), Value::Bool(true)),
    ]
}

/// What a pump reading of `pump` sends: the new levels, or nothing inside the
/// dead zone.
///
/// The levels in the state are left as they are: the peer reports them back
/// at their own addresses.
pub open spec fn pump_output(s: SimulationState, pump: i32, modifier: int) -> Seq<
    (Seq<char>, Value),
> {
    match update_levels(
        pump as int,
        s.last_pump as int,
        s.deflate as int,
        s.inflate as int,
        s.overinflate as int,
        modifier,
    ) {
        None => seq![],
        Some((d, i, o)) => emitted(d as i32, i as i32, o as i32),
    }
}

/// The state after a message at `addr` whose first argument is `first`, and
/// the messages it sends.
///
/// A float at the deflate, inflate or overinflate address overwrites that
/// level. A float at the pump address runs a pump update and then records the
/// reading as the last one. Anything else changes nothing.
pub open spec fn step(s: SimulationState, addr: Seq<char>, first: Option<Arg>, modifier: int) -> (
    SimulationState,
    Seq<(Seq<char>, Value)>,
) {
    match first {
        Some(Arg::Float(v)) => if addr == deflate_address_spec() {
            (SimulationState { deflate: v, ..s }, seq![])
        } else if addr == inflate_address_spec() {
            (SimulationState { inflate: v, ..s }, seq![])
        } else if addr == overinflate_address_spec() {
            (SimulationState { overinflate: v, ..s }, seq![])
        } else if addr == pump_address_spec() {
            (SimulationState { last_pump: v, ..s }, pump_output(s, v, modifier))
        } else {
            (s, seq![])
        },
        _ => (s, seq![]),
    }
}

/// The messages of a list, seen as address and value.
pub open spec fn views(out: Seq<Outgoing>) -> Seq<(Seq<char>, Value)> {
    out.map_values(|o: Outgoing| o@)
}

/// Builds the four messages that report new levels.
pub fn level_messages(deflate: i32, inflate: i32, overinflate: i32) -> (r: Vec<Outgoing>)
    ensures
        views(r@) == emitted(deflate, inflate, overinflate),
{
    let mut r: Vec<Outgoing> = Vec::new();
    r.push(Outgoing { addr: deflate_address(), value: Value::Float(deflate) });
    r.push(Outgoing { addr: inflate_address(), value: Value::Float(inflate) });
    r.push(Outgoing { addr: overinflate_address(), value: Value::Float(overinflate) });
    r.push(Outgoing { addr: trigger_address(), value: Value::Bool(true) });
    assert(views(r@) =~= emitted(deflate, inflate, overinflate));
    r
}

/// Applies one incoming message to the state and returns the messages to
/// send: none, or the four of [`emitted`] after a pump update.
pub fn handle_message_received(
    msg: &Incoming,
    state: &mut SimulationState,
    pump_modifier: u32,
) -> (r: Vec<Outgoing>)
    ensures
        (*final(state), views(r@)) == step(
            *old(state),
            msg.addr@,
            msg.first_arg(),
            pump_modifier as int,
        ),
{
    if msg.args.len() == 0 {
        return Vec::new();
    }
    let val: i32 = match msg.args[0] {
        Arg::Float(f) => f,
        _ => {
            return Vec::new();
        },
    };
    if msg.addr == deflate_address() {
        state.deflate = val;
        Vec::new()
    } else if msg.addr == inflate_address() {
        state.inflate = val;
        Vec::new()
    } else if msg.addr == overinflate_address() {
        state.overinflate = val;
        Vec::new()
    } else if msg.addr == pump_address() {
        let update = pump_update(
            val,
            state.last_pump,
            state.deflate,
            state.inflate,
            state.overinflate,
            pump_modifier,
        );
        state.last_pump = val;
        match update {
            Some((d, i, o)) => level_messages(d, i, o),
            None => Vec::new(),
        }
    } else {
        Vec::new()
    }
}

/// Applies one decoded packet: a message as [`handle_message_received`]
/// does, while a bundle changes nothing and sends nothing.
pub fn handle_packet(packet: &Packet, state: &mut SimulationState, pump_modifier: u32) -> (r: Vec<
    Outgoing,
>)
    ensures
        match packet {
            Packet::Message(msg) => (*final(state), views(r@)) == step(
                *old(state),
                msg.addr@,
                msg.first_arg(),
                pump_modifier as int,
            ),
            Packet::Bundle => *final(state) == *old(state) && r@.len() == 0,
        },
{
    match packet {
        Packet::Message(msg) => handle_message_received(msg, state, pump_modifier),
        Packet::Bundle => Vec::new(),
    }
}

/// A pump reading that moved less than the dead zone from the last one sends
/// nothing and changes nothing but the recorded reading.
pub proof fn lemma_dead_zone_sends_nothing(s: SimulationState, pump: i32, modifier: int)
    requires
        abs_diff(pump as int, s.last_pump as int) < DEAD_ZONE as int,
    ensures
        step(s, pump_address_spec(), Some(Arg::Float(pump)), modifier) == (
        SimulationState { last_pump: pump, ..s },
        Seq::<(Seq<char>, Value)>::empty(),
        ),
{
    lemma_addresses_distinct();
}

/// Repeating the last pump reading, once or twice, leaves the state as it is
/// and sends nothing.
pub proof fn lemma_repeated_reading_is_noop(s: SimulationState, modifier: int)
    ensures
        step(s, pump_address_spec(), Some(Arg::Float(s.last_pump)), modifier) == (
        s,
        Seq::<(Seq<char>, Value)>::empty(),
        ),
        step(
            step(s, pump_address_spec(), Some(Arg::Float(s.last_pump)), modifier).0,
            pump_address_spec(),
            Some(Arg::Float(s.last_pump)),
            modifier,
        ) == (s, Seq::<(Seq<char>, Value)>::empty()),
{
    lemma_addresses_distinct();
    lemma_still_pump_is_noop(
        s.last_pump as int,
        s.deflate as int,
        s.inflate as int,
        s.overinflate as int,
        modifier,
    );
    assert(SimulationState { last_pump: s.last_pump, ..s } == s);
}

/// A float at the deflate address sets the deflate level to it, whatever the
/// level was, and touches nothing else.
pub proof fn lemma_deflate_overwrite(s: SimulationState, v: i32, modifier: int)
    ensures
        step(s, deflate_address_spec(), Some(Arg::Float(v)), modifier) == (
        SimulationState { deflate: v, ..s },
        Seq::<(Seq<char>, Value)>::empty(),
        ),
{
}

} // verus!
