//! The decisions of the three loops of the server: what to do with a
//! datagram that came in, with a request that is due, and with a response
//! that is to go out. The loops themselves, with their sockets and queues,
//! belong to the program around this library.

use vstd::prelude::*;
use crate::message::{MessageError, Request, Response};
use crate::packet::{Framing, Message};
use crate::wire::{
    decode_request, request_in, wire_decoded, DecodeError, DecodeErrorView, OSC_BUF_LEN,
};

verus! {

/// What the receiver loop does with a datagram.
#[derive(Debug)]
pub enum Inbound {
    /// Hand the request on to the runner.
    Forward(Request, Framing),
    /// Drop the datagram and go on: its bytes are no packet, or its message
    /// has an address that the protocol does not know.
    Skip(DecodeError),
    /// Stop: the packet breaks the protocol.
    Abort(DecodeError),
}

impl DecodeError {
    /// Whether the error only costs the datagram that caused it. That holds
    /// of bytes that are no packet and of a message with an unknown
    /// address; a refused envelope and arguments of the wrong type or number
    /// end the loop that met them.
    pub open spec fn spec_is_transient(&self) -> bool {
        self is Malformed || self matches DecodeError::Message(MessageError::InvalidAddr(_))
    }

    /// Whether the error only costs the datagram that caused it.
    #[verifier::when_used_as_spec(spec_is_transient)]
    pub fn is_transient(&self) -> (b: bool)
        ensures
            b == self.spec_is_transient(),
    {
        match self {
            DecodeError::Malformed(_) => true,
            DecodeError::Message(MessageError::InvalidAddr(_)) => true,
            _ => false,
        }
    }
}

/// Decides on a datagram from the outcome of its decoding.
pub fn route(outcome: Result<(Request, Framing), DecodeError>) -> (step: Inbound)
    ensures
        match outcome {
            Ok((request, framing)) => step == Inbound::Forward(request, framing),
            Err(e) => if e.spec_is_transient() {
                step == Inbound::Skip(e)
            } else {
                step == Inbound::Abort(e)
            },
        },
{
    match outcome {
        Ok((request, framing)) => Inbound::Forward(request, framing),
        Err(e) => if e.is_transient() {
            Inbound::Skip(e)
        } else {
            Inbound::Abort(e)
        },
    }
}

/// Decides on a datagram that the receiver loop has read.
///
/// A request is forwarded. Bytes that are no packet and a message with an
/// unknown address are skipped, and the loop goes on. Everything else stops
/// the loop: an empty envelope, one with several elements, one inside
/// another, arguments of the wrong type or number.
pub fn inbound(bytes: &[u8]) -> (step: Inbound)
    requires
        bytes.len() <= OSC_BUF_LEN,
    ensures
        match step {
            Inbound::Forward(request, framing) => request_in(wire_decoded(bytes@)) == Ok::<
                _,
                DecodeErrorView,
            >((request, framing)),
            Inbound::Skip(e) => e.spec_is_transient() && request_in(wire_decoded(bytes@))
                == Err::<(Request, Framing), _>(e@),
            Inbound::Abort(e) => !e.spec_is_transient() && request_in(wire_decoded(bytes@))
                == Err::<(Request, Framing), _>(e@),
        },
{
    route(decode_request(bytes))
}

/// What the sender loop does next.
#[derive(Debug, PartialEq, Eq)]
pub enum Outbound {
    /// Encode the message and transmit it.
    Transmit(Message),
    /// Stop: the queue of responses was closed, which a running relay never
    /// does.
    Closed,
}

/// Decides on what the sender loop took from the queue of responses: a
/// response, or `None` once the queue is closed.
pub fn outbound(next: Option<Response>) -> (step: Outbound)
    ensures
        match next {
            Some(response) => step matches Outbound::Transmit(msg) && msg@ == response.message(),
            None => step == Outbound::Closed,
        },
{
    match next {
        Some(response) => Outbound::Transmit(response.to_message()),
        None => Outbound::Closed,
    }
}

/// An operation for the execution backend. Positions are grid coordinates
/// as the requests carry them; the program maps them to the backend's
/// qubits and slots.
#[derive(Clone, Copy, Debug, PartialEq, Eq)]
pub enum BackendOp {
    /// Prepare the backend; stands at the head of the first batch only.
    Initialize,
    X(i32, i32),
    Y(i32, i32),
    Z(i32, i32),
    H(i32, i32),
    S(i32, i32),
    Sdg(i32, i32),
    T(i32, i32),
    Tdg(i32, i32),
    /// Controlled X: the control's position, then the target's.
    CX(i32, i32, i32, i32),
    /// Measure the qubit at the first position into the slot at the second.
    Measure((i32, i32), (i32, i32)),
}

/// Why a request cannot be dispatched.
#[derive(Clone, Copy, Debug, PartialEq, Eq, Structural)]
pub enum DispatchError {
    /// The runner has no backend operation for this request.
    Unsupported(Request),
}

/// What the runner does after it has taken a request.
#[derive(Debug, PartialEq, Eq)]
pub enum Dispatch {
    /// Nothing yet: the operation waits in the buffer.
    Buffered,
    /// Execute the batch on the backend, wait for it, read the bit of the
    /// slot and answer with it.
    Execute { batch: Vec<BackendOp>, slot: (i32, i32) },
}

/// The backend operation that a request asks for. A reset of a single
/// qubit has none.
pub open spec fn spec_operation_for(request: Request) -> Option<BackendOp> {
    match request {
        Request::InitZero(..) => None,
        Request::X(x, y) => Some(BackendOp::X(x, y)),
        Request::Y(x, y) => Some(BackendOp::Y(x, y)),
        Request::Z(x, y) => Some(BackendOp::Z(x, y)),
        Request::H(x, y) => Some(BackendOp::H(x, y)),
        Request::S(x, y) => Some(BackendOp::S(x, y)),
        Request::Sdg(x, y) => Some(BackendOp::Sdg(x, y)),
        Request::T(x, y) => Some(BackendOp::T(x, y)),
        Request::Tdg(x, y) => Some(BackendOp::Tdg(x, y)),
        Request::CX(x1, y1, x2, y2) => Some(BackendOp::CX(x1, y1, x2, y2)),
        Request::Mz(x, y) => Some(BackendOp::Measure((x, y), (x, y))),
    }
}

/// The backend operation that a request asks for.
#[verifier::when_used_as_spec(spec_operation_for)]
pub fn operation_for(request: Request) -> (op: Option<BackendOp>)
    ensures
        op == spec_operation_for(request),
        op matches Some(BackendOp::Measure(qubit, slot)) ==> qubit == slot,
{
    match request {
        Request::InitZero(..) => None,
        Request::X(x, y) => Some(BackendOp::X(x, y)),
        Request::Y(x, y) => Some(BackendOp::Y(x, y)),
        Request::Z(x, y) => Some(BackendOp::Z(x, y)),
        Request::H(x, y) => Some(BackendOp::H(x, y)),
        Request::S(x, y) => Some(BackendOp::S(x, y)),
        Request::Sdg(x, y) => Some(BackendOp::Sdg(x, y)),
        Request::T(x, y) => Some(BackendOp::T(x, y)),
        Request::Tdg(x, y) => Some(BackendOp::Tdg(x, y)),
        Request::CX(x1, y1, x2, y2) => Some(BackendOp::CX(x1, y1, x2, y2)),
        Request::Mz(x, y) => Some(BackendOp::Measure((x, y), (x, y))),
    }
}

/// The buffer of operations after a request, seen apart from the runner
/// that holds it: unchanged by a request without an operation, empty after
/// a measurement, one operation longer otherwise.
pub open spec fn pending_after(pending: Seq<BackendOp>, request: Request) -> Seq<BackendOp> {
    match spec_operation_for(request) {
        None => pending,
        Some(BackendOp::Measure(..)) => Seq::empty(),
        Some(op) => pending.push(op),
    }
}

/// The batch that leaves for the backend on a request: on a measurement
/// everything that waits, followed by the measurement; otherwise none.
pub open spec fn flushed(pending: Seq<BackendOp>, request: Request) -> Option<Seq<BackendOp>> {
    match spec_operation_for(request) {
        Some(BackendOp::Measure(qubit, slot)) => Some(
            pending.push(BackendOp::Measure(qubit, slot)),
        ),
        _ => None,
    }
}

/// The buffer of operations after a sequence of requests.
pub open spec fn pending_after_all(pending: Seq<BackendOp>, requests: Seq<Request>) -> Seq<
    BackendOp,
>
    decreases requests.len(),
{
    if requests.len() == 0 {
        pending
    } else {
        pending_after_all(pending_after(pending, requests[0]), requests.skip(1))
    }
}

/// The dispatcher between the queue of requests and the backend. It keeps
/// the operations that wait for the next measurement.
#[derive(Debug)]
pub struct Runner {
    pending: Vec<BackendOp>,
}

impl Runner {
    /// The operations that wait, oldest first.
    pub closed spec fn pending(&self) -> Seq<BackendOp> {
        self.pending@
    }

    /// A runner whose first batch begins by preparing the backend.
    pub fn new() -> (runner: Runner)
        ensures
            runner.pending() == seq![BackendOp::Initialize],
    {
        let mut pending: Vec<BackendOp> = Vec::new();
        pending.push(BackendOp::Initialize);
        Runner { pending }
    }

    /// A copy of the operations that wait, oldest first.
    pub fn waiting(&self) -> (ops: Vec<BackendOp>)
        ensures
            ops@ == self.pending(),
    {
        let mut ops: Vec<BackendOp> = Vec::new();
        let mut i: usize = 0;
        while i < self.pending.len()
            invariant
                0 <= i <= self.pending.len(),
                ops@ == self.pending@.take(i as int),
            decreases self.pending.len() - i,
        {
            ops.push(self.pending[i]);
            proof {
                assert(self.pending@.take(i + 1) == self.pending@.take(i as int).push(
                    self.pending@[i as int],
                ));
            }
            i = i + 1;
        }
        proof {
            assert(self.pending@.take(self.pending@.len() as int) == self.pending@);
        }
        ops
    }

    /// Takes one request.
    ///
    /// A gate is added to the buffer, and nothing else happens. A
    /// measurement is added too, as a measurement of the qubit into the slot
    /// at the same position; the whole buffer then leaves as the batch to
    /// execute, in the order of arrival, and the buffer is empty for the next
    /// batch. A request without a backend operation is refused and changes
    /// nothing.
    pub fn dispatch(&mut self, request: Request) -> (res: Result<Dispatch, DispatchError>)
        ensures
            final(self).pending() == pending_after(old(self).pending(), request),
            match spec_operation_for(request) {
                None => res == Err::<Dispatch, _>(DispatchError::Unsupported(request)),
                Some(BackendOp::Measure(qubit, slot)) => res matches Ok(
                    Dispatch::Execute { batch, slot: at },
                ) && Some(batch@) == flushed(old(self).pending(), request) && at == slot && qubit
                    == slot,
                Some(op) => res == Ok::<_, DispatchError>(Dispatch::Buffered),
            },
    {
        match operation_for(request) {
            None => Err(DispatchError::Unsupported(request)),
            Some(BackendOp::Measure(qubit, slot)) => {
                let mut batch: Vec<BackendOp> = Vec::new();
                std::mem::swap(&mut batch, &mut self.pending);
                batch.push(BackendOp::Measure(qubit, slot));
                Ok(Dispatch::Execute { batch, slot })
            },
            Some(op) => {
                self.pending.push(op);
                Ok(Dispatch::Buffered)
            },
        }
    }

    /// The response to a measurement whose batch the backend has executed:
    /// index zero and the bit that the backend left in the slot.
    pub fn respond(bit: bool) -> (response: Response)
        ensures
            response == Response::measured_spec(bit),
            response.well_formed(),
            response.spec_bit() == bit,
    {
        Response::measured(bit)
    }
}

/// Whether a request is a gate that the runner buffers.
pub open spec fn is_gate(request: Request) -> bool {
    !(request is InitZero) && !(request is Mz)
}

/// The backend operations of a sequence of gates, in the same order.
pub open spec fn operations_for(gates: Seq<Request>) -> Seq<BackendOp> {
    gates.map_values(|r: Request| spec_operation_for(r)->Some_0)
}

/// Gates only lengthen the buffer: after any sequence of gates it holds
/// what it held before, followed by their operations in the order of
/// arrival.
pub proof fn law_gates_accumulate(pending: Seq<BackendOp>, gates: Seq<Request>)
    requires
        forall|i: int| 0 <= i < gates.len() ==> is_gate(#[trigger] gates[i]),
    ensures
        pending_after_all(pending, gates) == pending + operations_for(gates),
    decreases gates.len(),
{
    if gates.len() == 0 {
        assert(pending + operations_for(gates) == pending);
    } else {
        let first = gates[0];
        let rest = gates.skip(1);
        assert(is_gate(first));
        assert forall|i: int| 0 <= i < rest.len() implies is_gate(#[trigger] rest[i]) by {
            assert(rest[i] == gates[i + 1]);
        }
        law_gates_accumulate(pending_after(pending, first), rest);
        assert(operations_for(gates) == seq![spec_operation_for(first)->Some_0] + operations_for(
            rest,
        ));
        assert(pending.push(spec_operation_for(first)->Some_0) + operations_for(rest) == pending
            + operations_for(gates));
    }
}

/// A measurement after any sequence of gates executes every one of them:
/// the batch that leaves is what the buffer held before, then the gates in
/// the order of arrival, then the measurement; and the buffer is empty
/// afterwards.
pub proof fn law_measurement_flushes_in_order(
    pending: Seq<BackendOp>,
    gates: Seq<Request>,
    x: i32,
    y: i32,
)
    requires
        forall|i: int| 0 <= i < gates.len() ==> is_gate(#[trigger] gates[i]),
    ensures
        flushed(pending_after_all(pending, gates), Request::Mz(x, y)) == Some(
            (pending + operations_for(gates)).push(BackendOp::Measure((x, y), (x, y))),
        ),
        pending_after_all(pending, gates.push(Request::Mz(x, y))) == Seq::<BackendOp>::empty(),
{
    law_gates_accumulate(pending, gates);
    lemma_pending_after_last(pending, gates, Request::Mz(x, y));
}

/// Requests are taken one after the other: the last one acts on the buffer
/// that the others left.
proof fn lemma_pending_after_last(pending: Seq<BackendOp>, requests: Seq<Request>, last: Request)
    ensures
        pending_after_all(pending, requests.push(last)) == pending_after(
            pending_after_all(pending, requests),
            last,
        ),
    decreases requests.len(),
{
    let all = requests.push(last);
    if requests.len() == 0 {
        assert(all.skip(1) == Seq::<Request>::empty());
        assert(pending_after_all(pending_after(pending, last), all.skip(1)) == pending_after(
            pending,
            last,
        ));
    } else {
        assert(all[0] == requests[0]);
        assert(all.skip(1) == requests.skip(1).push(last));
        lemma_pending_after_last(pending_after(pending, requests[0]), requests.skip(1), last);
    }
}

} // verus!
