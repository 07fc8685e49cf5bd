//! Incoming and outgoing messages, and the addresses the relay knows.
use vstd::prelude::*;
use vstd::string::StringExecFns;

verus! {

/// The path that every parameter address starts with.
pub const BASE_PARAM: &'static str = "/avatar/parameters/";

/// The pump stretch reading that drives the updates.
pub const PUMP_ADDR: &'static str = "Pump/Pump_Stretch";

pub const DEFLATE_ADDR: &'static str = "Pooltoy/Deflate";

pub const INFLATE_ADDR: &'static str = "Pooltoy/Inflate";

pub const OVERINFLATE_ADDR: &'static str = "Pooltoy/Overinflate";

/// Sent, after the three levels, whenever a pump reading moved them.
pub const SOUND_TRIGGER: &'static str = "Pump/Deltapump_Inflating";

pub open spec fn full_address(name: &str) -> Seq<char> {
    BASE_PARAM@ + name@
}

pub open spec fn pump_address_spec() -> Seq<char> {
    full_address(PUMP_ADDR)
}

pub open spec fn deflate_address_spec() -> Seq<char> {
    full_address(DEFLATE_ADDR)
}

pub open spec fn inflate_address_spec() -> Seq<char> {
    full_address(INFLATE_ADDR)
}

pub open spec fn overinflate_address_spec() -> Seq<char> {
    full_address(OVERINFLATE_ADDR)
}

pub open spec fn trigger_address_spec() -> Seq<char> {
    full_address(SOUND_TRIGGER)
}

fn make_address(name: &str) -> (r: String)
    ensures
        r@ == full_address(name),
{
    String::from_str(BASE_PARAM).concat(name)
}

/// The full address of the pump stretch reading.
pub fn pump_address() -> (r: String)
    ensures
        r@ == pump_address_spec(),
{
    make_address(PUMP_ADDR)
}

/// The full address of the deflate level.
pub fn deflate_address() -> (r: String)
    ensures
        r@ == deflate_address_spec(),
{
    make_address(DEFLATE_ADDR)
}

/// The full address of the inflate level.
pub fn inflate_address() -> (r: String)
    ensures
        r@ == inflate_address_spec(),
{
    make_address(INFLATE_ADDR)
}

/// The full address of the overinflate level.
pub fn overinflate_address() -> (r: String)
    ensures
        r@ == overinflate_address_spec(),
{
    make_address(OVERINFLATE_ADDR)
}

/// The full address of the inflating trigger.
pub fn trigger_address() -> (r: String)
    ensures
        r@ == trigger_address_spec(),
{
    make_address(SOUND_TRIGGER)
}

/// The five addresses are pairwise different.
pub proof fn lemma_addresses_distinct()
    ensures
        pump_address_spec() != deflate_address_spec(),
        pump_address_spec() != inflate_address_spec(),
        pump_address_spec() != overinflate_address_spec(),
        deflate_address_spec() != inflate_address_spec(),
        deflate_address_spec() != overinflate_address_spec(),
        inflate_address_spec() != overinflate_address_spec(),
        trigger_address_spec() != pump_address_spec(),
        trigger_address_spec() != deflate_address_spec(),
        trigger_address_spec() != inflate_address_spec(),
        trigger_address_spec() != overinflate_address_spec(),
{
    reveal_strlit("/avatar/parameters/");
    reveal_strlit("Pump/Pump_Stretch");
    reveal_strlit("Pooltoy/Deflate");
    reveal_strlit("Pooltoy/Inflate");
    reveal_strlit("Pooltoy/Overinflate");
    reveal_strlit("Pump/Deltapump_Inflating");
    let b: int = BASE_PARAM@.len() as int;
    assert(pump_address_spec()[b + 1] != deflate_address_spec()[b + 1]);
    assert(pump_address_spec()[b + 1] != inflate_address_spec()[b + 1]);
    assert(pump_address_spec()[b + 1] != overinflate_address_spec()[b + 1]);
    assert(deflate_address_spec()[b + 8] != inflate_address_spec()[b + 8]);
    assert(deflate_address_spec()[b + 8] != overinflate_address_spec()[b + 8]);
    assert(inflate_address_spec()[b + 8] != overinflate_address_spec()[b + 8]);
    assert(trigger_address_spec()[b + 5] != pump_address_spec()[b + 5]);
    assert(trigger_address_spec()[b + 1] != deflate_address_spec()[b + 1]);
    assert(trigger_address_spec()[b + 1] != inflate_address_spec()[b + 1]);
    assert(trigger_address_spec()[b + 1] != overinflate_address_spec()[b + 1]);
}

/// The first argument of an incoming message, as far as the relay reads it:
/// a float level in millionths, or anything else.
#[derive(Clone, Copy, Debug, PartialEq, Eq, Structural)]
pub enum Arg {
    Float(i32),
    Other,
}

/// A decoded incoming message: its address and its arguments.
#[derive(Clone, Debug, PartialEq, Eq)]
pub struct Incoming {
    pub addr: String,
    pub args: Vec<Arg>,
}

impl Incoming {
    /// The first argument, if there is one.
    pub open spec fn first_arg(self) -> Option<Arg> {
        if self.args@.len() > 0 {
            Some(self.args@[0])
        } else {
            None
        }
    }

    pub fn new(addr: String, args: Vec<Arg>) -> (r: Incoming)
        ensures
            r.addr == addr,
            r.args == args,
    {
        Incoming { addr, args }
    }
}

/// The value of an outgoing message.
#[derive(Clone, Copy, Debug, PartialEq, Eq, Structural)]
pub enum Value {
    Float(i32),
    Bool(bool),
}

/// A message to send: an address and one value.
#[derive(Clone, Debug, PartialEq, Eq)]
pub struct Outgoing {
    pub addr: String,
    pub value: Value,
}

impl View for Outgoing {
    type V = (Seq<char>, Value);

    open spec fn view(&self) -> (Seq<char>, Value) {
        (self.addr@, self.value)
    }
}

/// A decoded packet: one message, or a bundle, which the relay does not read.
#[derive(Clone, Debug, PartialEq, Eq)]
pub enum Packet {
    Message(Incoming),
    Bundle,
}

} // verus!
