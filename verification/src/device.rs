//! The decisions of the loop that talks to the device on behalf of the
//! layer: what to do with the next entry of the queue of requests, and with
//! the reply to a measurement.

use vstd::prelude::*;
use crate::buffer::Position;
use crate::message::{Request, Response};
use crate::packet::{Framing, PacketView};
use crate::wire::{
    decode_response, encode_request, response_in, wire_decoded, wire_encoded, DecodeError,
    DecodeErrorView, OSC_BUF_LEN,
};

verus! {

/// A signed coordinate read as the unsigned number with the same 32 bits.
pub open spec fn spec_unsigned(c: i32) -> u32 {
    if c >= 0 {
        c as u32
    } else {
        (c + 0x1_0000_0000) as u32
    }
}

/// A signed coordinate as the unsigned number with the same 32 bits.
#[verifier::when_used_as_spec(spec_unsigned)]
pub fn unsigned(c: i32) -> (v: u32)
    ensures
        v == spec_unsigned(c),
{
    assert(c >= 0 ==> (c as u32) == c) by (bit_vector);
    assert(c < 0 ==> (c as u32) == c + 0x1_0000_0000) by (bit_vector);
    c as u32
}

/// What the device loop does next.
#[derive(Debug, PartialEq, Eq)]
pub enum DeviceStep {
    /// Transmit the datagram.
    Transmit(Vec<u8>),
    /// Transmit the datagram, then wait for the device's reply: the
    /// measured bit of the slot.
    Measure(Vec<u8>, Position),
    /// Pass the end marker on to the queue of results.
    EndBatch,
    /// Stop: the queue of requests was closed, which a running layer never
    /// does.
    Closed,
}

/// Decides on what the device loop took from the queue of requests: a
/// request, the end marker of a batch (`Some(None)`), or `None` once the
/// queue is closed.
///
/// Every request goes out as the datagram of its bare message. After a
/// measurement the loop waits for the reply; the slot of the result is the
/// measured position.
pub fn device_step(next: Option<Option<Request>>) -> (step: DeviceStep)
    ensures
        match next {
            None => step == DeviceStep::Closed,
            Some(None) => step == DeviceStep::EndBatch,
            Some(Some(Request::Mz(x, y))) => step matches DeviceStep::Measure(datagram, slot)
                && datagram@ == wire_encoded(Request::Mz(x, y).message()) && slot == (
                spec_unsigned(x),
                spec_unsigned(y),
            ),
            Some(Some(request)) => step matches DeviceStep::Transmit(datagram) && datagram@
                == wire_encoded(request.message()),
        },
{
    match next {
        None => DeviceStep::Closed,
        Some(None) => DeviceStep::EndBatch,
        Some(Some(request)) => {
            let datagram = encode_request(&request);
            match request {
                Request::Mz(x, y) => DeviceStep::Measure(datagram, (unsigned(x), unsigned(y))),
                _ => DeviceStep::Transmit(datagram),
            }
        },
    }
}

/// The measured bit in what the wire format read from a reply, or why
/// there is none.
pub open spec fn bit_in(decoded: Option<PacketView>) -> Result<bool, DecodeErrorView> {
    match response_in(decoded) {
        Ok((response, _)) => Ok(response.spec_bit()),
        Err(e) => Err(e),
    }
}

/// The result that the device loop passes on for the reply to a
/// measurement: the slot with the bit of the response.
pub fn result_of(slot: Position, reply: Result<(Response, Framing), DecodeError>) -> (res: Result<
    (Position, bool),
    DecodeError,
>)
    ensures
        match reply {
            Ok((response, _)) => res == Ok::<_, DecodeError>((slot, response.spec_bit())),
            Err(e) => res == Err::<(Position, bool), _>(e),
        },
{
    match reply {
        Ok((response, _)) => Ok((slot, response.bit())),
        Err(e) => Err(e),
    }
}

/// Reads the device's reply to the measurement of a slot.
///
/// Every failure ends the loop, also bytes that are no packet: the reply
/// to a measurement is owed.
pub fn device_reply(slot: Position, reply: &[u8]) -> (res: Result<(Position, bool), DecodeError>)
    requires
        reply.len() <= OSC_BUF_LEN,
    ensures
        match res {
            Ok((at, bit)) => at == slot && bit_in(wire_decoded(reply@)) == Ok::<
                _,
                DecodeErrorView,
            >(bit),
            Err(e) => bit_in(wire_decoded(reply@)) == Err::<bool, _>(e@),
        },
{
    result_of(slot, decode_response(reply))
}

} // verus!
