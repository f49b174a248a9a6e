//! Protocol codec for networked Yamaha AV receivers.
//!
//! The receiver exposes a proprietary control interface: clients send small
//! XML command documents over HTTP and receive XML response documents
//! describing device state. This crate is the codec for that protocol: it
//! builds command documents for a fixed vocabulary of operations (power,
//! mute, volume, input selection, configuration query), and it decodes the
//! two response document shapes — zone status and system configuration —
//! into typed structures. The codec performs no I/O; a caller supplies the
//! transport and hands raw response text to the decoders.

use vstd::prelude::*;

pub mod commands;
pub mod events;
pub mod normalize;
pub mod text;
pub mod yamaha;

use yamaha::YamahaAvr;

verus! {

/// A handle for the receiver at the given address. The handle builds the
/// command documents and decodes the responses; a transport of the caller's
/// choosing carries them.
pub fn connect(ip: String) -> (r: YamahaAvr)
    ensures
        r@ == ip@,
{
    YamahaAvr::new(ip)
}

/// Receivers found on the local network. The codec probes nothing, so the
/// list is empty: discovery belongs to a network-facing layer.
pub fn discover() -> (r: Vec<YamahaAvr>)
    ensures
        r@.len() == 0,
{
    Vec::new()
}

} // verus!
