//! The layer adapter: operations of `lay` lowered to the protocol's
//! requests, and the measurement results read back.

use vstd::prelude::*;
use crate::buffer::{MitouOscBuffer, Position, Received};
use crate::message::{Kind, Request};

verus! {

/// The identifiers by which `lay` names its operations.
#[derive(Clone, Copy, Debug, PartialEq, Eq, Structural)]
pub struct OpIds {
    pub init: u16,
    pub meas: u16,
    pub x: u16,
    pub y: u16,
    pub z: u16,
    pub h: u16,
    pub s: u16,
    pub sdg: u16,
    pub t: u16,
    pub tdg: u16,
    pub cx: u16,
}

impl OpIds {
    /// The values that `lay` gives them.
    pub open spec fn lay() -> OpIds {
        OpIds { init: 1, meas: 2, x: 3, y: 4, z: 5, h: 6, s: 7, sdg: 8, t: 9, tdg: 10, cx: 11 }
    }

    /// The one-qubit gate that an identifier names, if it names one.
    pub open spec fn spec_gate(self, id: u16) -> Option<Kind> {
        if id == self.x {
            Some(Kind::X)
        } else if id == self.y {
            Some(Kind::Y)
        } else if id == self.z {
            Some(Kind::Z)
        } else if id == self.h {
            Some(Kind::H)
        } else if id == self.s {
            Some(Kind::S)
        } else if id == self.sdg {
            Some(Kind::Sdg)
        } else if id == self.t {
            Some(Kind::T)
        } else if id == self.tdg {
            Some(Kind::Tdg)
        } else {
            None
        }
    }

    /// The one-qubit gate that an identifier names, if it names one.
    #[verifier::when_used_as_spec(spec_gate)]
    pub fn gate(self, id: u16) -> (g: Option<Kind>)
        ensures
            g == self.spec_gate(id),
    {
        if id == self.x {
            Some(Kind::X)
        } else if id == self.y {
            Some(Kind::Y)
        } else if id == self.z {
            Some(Kind::Z)
        } else if id == self.h {
            Some(Kind::H)
        } else if id == self.s {
            Some(Kind::S)
        } else if id == self.sdg {
            Some(Kind::Sdg)
        } else if id == self.t {
            Some(Kind::T)
        } else if id == self.tdg {
            Some(Kind::Tdg)
        } else {
            None
        }
    }
}

/// Reads the identifiers from `lay::operations::opid`. The contract claims
/// the values of the eleven constants as that module declares them.
#[verifier::external_body]
fn lay_op_ids() -> (ids: OpIds)
    ensures
        ids == OpIds::lay(),
{
    OpIds {
        init: lay::operations::opid::INIT,
        meas: lay::operations::opid::MEAS,
        x: lay::operations::opid::X,
        y: lay::operations::opid::Y,
        z: lay::operations::opid::Z,
        h: lay::operations::opid::H,
        s: lay::operations::opid::S,
        sdg: lay::operations::opid::SDG,
        t: lay::operations::opid::T,
        tdg: lay::operations::opid::TDG,
        cx: lay::operations::opid::CX,
    }
}

/// A gate-level operation as the layer receives it: an identifier and its
/// operands.
#[derive(Clone, Copy, Debug, PartialEq, Eq)]
pub enum Operation {
    /// An operation without operands.
    Empty(u16),
    /// An operation on one qubit.
    Q(u16, Position),
    /// An operation on two qubits: the control, then the target.
    QQ(u16, Position, Position),
    /// An operation on a qubit and a measurement slot.
    QS(u16, Position, Position),
    /// An operation with operands that the protocol cannot carry.
    Other(u16),
}

/// Why a batch of operations is refused.
#[derive(Clone, Copy, Debug, PartialEq, Eq, Structural)]
pub enum SendError {
    /// An operation on one qubit that is none of the protocol's gates.
    UnexpectedGate,
    /// A measurement into a slot that is not the measured qubit.
    SlotMismatch,
    /// An operation of a shape that the protocol does not know.
    UnexpectedOperation,
}

/// A grid coordinate read as the signed number with the same 32 bits.
pub open spec fn spec_signed(v: u32) -> i32 {
    if v <= 0x7fff_ffff {
        v as i32
    } else {
        (v - 0x1_0000_0000) as i32
    }
}

/// A grid coordinate as the signed number with the same 32 bits.
#[verifier::when_used_as_spec(spec_signed)]
pub fn signed(v: u32) -> (c: i32)
    ensures
        c == spec_signed(v),
{
    assert(v <= 0x7fff_ffff ==> (v as i32) == v) by (bit_vector);
    assert(v > 0x7fff_ffff ==> (v as i32) == v - 0x1_0000_0000) by (bit_vector);
    v as i32
}

/// How far a signed coordinate counts on an axis of the given extent: over
/// the whole axis while the extent is itself a signed number, and not at
/// all beyond that.
pub open spec fn spec_reach(extent: u32) -> nat {
    if extent <= 0x7fff_ffff {
        extent as nat
    } else {
        0
    }
}

/// How far a signed coordinate counts on an axis of the given extent.
pub fn reach(extent: u32) -> (n: i32)
    ensures
        n == spec_reach(extent),
{
    let n: i32 = signed(extent);
    if n < 0 {
        0
    } else {
        n
    }
}

/// What the layer is to forward for a batch of operations, and how the
/// batch ends.
#[derive(Debug, PartialEq, Eq)]
pub struct SendPlan {
    /// The requests to forward, in order; `None` is the marker that ends a
    /// batch.
    pub forward: Vec<Option<Request>>,
    /// Whether the batch was accepted as a whole.
    pub outcome: Result<(), SendError>,
}

/// The adapter's own state: the extent of the qubit grid, `(width, height)`.
#[derive(Clone, Copy, Debug, PartialEq, Eq)]
pub struct MitouOscLayer {
    pub size: (u32, u32),
}

impl MitouOscLayer {
    /// A layer over a grid of the given extent.
    pub fn new(size: (u32, u32)) -> (layer: MitouOscLayer)
        ensures
            layer.size == size,
    {
        MitouOscLayer { size }
    }

    /// A buffer of clear bits with one bit for each position of the grid,
    /// whose number of positions is itself a 32-bit number.
    pub fn make_buffer(&self) -> (buf: MitouOscBuffer)
        requires
            self.size.0 * self.size.1 <= u32::MAX,
        ensures
            buf.width() == self.size.0,
            buf.bits() == Seq::new((self.size.0 * self.size.1) as nat, |i: int| false),
    {
        MitouOscBuffer::new(self.size.0, self.size.1)
    }

    /// The resets that initialise the grid: one for each position, row by
    /// row, each row from `x = 0` upwards.
    pub open spec fn init_requests(self) -> Seq<Request> {
        let columns = spec_reach(self.size.0);
        let rows = spec_reach(self.size.1);
        Seq::new(
            columns * rows,
            |i: int| Request::InitZero((i % columns as int) as i32, (i / columns as int) as i32),
        )
    }

    /// The requests that stand for one operation, or why there are none.
    pub open spec fn lowered(self, op: Operation) -> Result<Seq<Request>, SendError> {
        let ids = OpIds::lay();
        match op {
            Operation::Empty(id) => if id == ids.init {
                Ok(self.init_requests())
            } else {
                Err(SendError::UnexpectedOperation)
            },
            Operation::Q(id, q) => match ids.spec_gate(id) {
                Some(kind) => Ok(seq![Request::assemble(kind, seq![spec_signed(q.0), spec_signed(q.1)])]),
                None => Err(SendError::UnexpectedGate),
            },
            Operation::QS(id, q, s) => if id != ids.meas {
                Err(SendError::UnexpectedOperation)
            } else if q != s {
                Err(SendError::SlotMismatch)
            } else {
                Ok(seq![Request::Mz(spec_signed(q.0), spec_signed(q.1))])
            },
            Operation::QQ(id, c, t) => if id == ids.cx {
                Ok(
                    seq![
                        Request::CX(
                            spec_signed(c.0),
                            spec_signed(c.1),
                            spec_signed(t.0),
                            spec_signed(t.1),
                        ),
                    ],
                )
            } else {
                Err(SendError::UnexpectedOperation)
            },
            Operation::Other(_) => Err(SendError::UnexpectedOperation),
        }
    }

    /// The requests forwarded for a batch: those of every operation before
    /// the first one that is refused.
    pub open spec fn forwarded(self, ops: Seq<Operation>) -> Seq<Request>
        decreases ops.len(),
    {
        if ops.len() == 0 {
            Seq::empty()
        } else {
            match self.lowered(ops[0]) {
                Ok(requests) => requests + self.forwarded(ops.skip(1)),
                Err(_) => Seq::empty(),
            }
        }
    }

    /// How a batch ends: with the refusal of its first refused operation, or
    /// accepted.
    pub open spec fn verdict(self, ops: Seq<Operation>) -> Result<(), SendError>
        decreases ops.len(),
    {
        if ops.len() == 0 {
            Ok(())
        } else {
            match self.lowered(ops[0]) {
                Ok(_) => self.verdict(ops.skip(1)),
                Err(e) => Err(e),
            }
        }
    }

    /// Everything that goes out for a batch: the forwarded requests, and
    /// after an accepted batch the end marker.
    pub open spec fn sent(self, ops: Seq<Operation>) -> Seq<Option<Request>> {
        let requests = self.forwarded(ops).map_values(|r: Request| Some(r));
        if self.verdict(ops) is Ok {
            requests.push(None)
        } else {
            requests
        }
    }

    /// Appends the resets of the whole grid.
    fn push_init_requests(&self, out: &mut Vec<Request>)
        ensures
            final(out)@ == old(out)@ + self.init_requests(),
    {
        let columns: i32 = reach(self.size.0);
        let rows: i32 = reach(self.size.1);
        let ghost before = out@;
        let ghost all = self.init_requests();
        let mut y: i32 = 0;
        while y < rows
            invariant
                0 <= y <= rows,
                columns == spec_reach(self.size.0),
                rows == spec_reach(self.size.1),
                all == self.init_requests(),
                out@ == before + all.take(y * columns),
            decreases rows - y,
        {
            let mut x: i32 = 0;
            while x < columns
                invariant
                    0 <= y < rows,
                    0 <= x <= columns,
                    columns == spec_reach(self.size.0),
                    rows == spec_reach(self.size.1),
                    all == self.init_requests(),
                    out@ == before + all.take(y * columns + x),
                decreases columns - x,
            {
                proof {
                    let i = y * columns + x;
                    assert(y * columns + columns == (y + 1) * columns) by (nonlinear_arith);
                    assert((y + 1) * columns <= rows * columns) by (nonlinear_arith)
                        requires
                            y + 1 <= rows,
                            columns >= 0,
                    ;
                    assert(columns * rows == rows * columns) by (nonlinear_arith);
                    assert(0 <= i < all.len());
                    vstd::arithmetic::div_mod::lemma_fundamental_div_mod_converse(
                        i,
                        columns as int,
                        y as int,
                        x as int,
                    );
                    assert(all[i] == Request::InitZero(x, y));
                    assert(all.take(i + 1) == all.take(i).push(all[i]));
                }
                out.push(Request::InitZero(x, y));
                x = x + 1;
            }
            proof {
                assert(y * columns + columns == (y + 1) * columns) by (nonlinear_arith);
            }
            y = y + 1;
        }
        proof {
            assert(columns * rows == rows * columns) by (nonlinear_arith);
            assert(all.take(all.len() as int) == all);
        }
    }

    /// Lowers one operation to the requests that stand for it.
    ///
    /// An initialisation becomes one reset for each position of the grid. A
    /// one-qubit gate, a controlled X and a measurement become one request
    /// each. A measurement must name the measured qubit as its slot. Every
    /// other operation is refused.
    pub fn lower(&self, op: Operation) -> (res: Result<Vec<Request>, SendError>)
        ensures
            match res {
                Ok(requests) => self.lowered(op) == Ok::<_, SendError>(requests@),
                Err(e) => self.lowered(op) == Err::<Seq<Request>, _>(e),
            },
            res == Err::<Vec<Request>, _>(SendError::SlotMismatch) <==> mismatched(op),
    {
        let ids = lay_op_ids();
        let mut out: Vec<Request> = Vec::new();
        match op {
            Operation::Empty(id) => {
                if id != ids.init {
                    return Err(SendError::UnexpectedOperation);
                }
                self.push_init_requests(&mut out);
            },
            Operation::Q(id, q) => {
                match ids.gate(id) {
                    Some(kind) => out.push(Request::at(kind, signed(q.0), signed(q.1))),
                    None => {
                        return Err(SendError::UnexpectedGate);
                    },
                }
            },
            Operation::QS(id, q, s) => {
                if id != ids.meas {
                    return Err(SendError::UnexpectedOperation);
                }
                if q.0 != s.0 || q.1 != s.1 {
                    return Err(SendError::SlotMismatch);
                }
                out.push(Request::Mz(signed(q.0), signed(q.1)));
            },
            Operation::QQ(id, c, t) => {
                if id != ids.cx {
                    return Err(SendError::UnexpectedOperation);
                }
                out.push(Request::CX(signed(c.0), signed(c.1), signed(t.0), signed(t.1)));
            },
            Operation::Other(_) => {
                return Err(SendError::UnexpectedOperation);
            },
        }
        Ok(out)
    }

    /// Takes what came from the queue of results while a batch is read
    /// back: a measured bit with its slot, the end marker (`Some(None)`), or
    /// `None` once the queue is closed. A bit is stored at its slot, which
    /// the buffer must have; the end marker and a closed queue leave the
    /// buffer as it is.
    pub fn receive(&self, buf: &mut MitouOscBuffer, event: Option<Option<(Position, bool)>>) -> (step:
        Received)
        requires
            event matches Some(Some((pos, _))) ==> old(buf).holds(pos),
        ensures
            final(buf).width() == old(buf).width(),
            match event {
                Some(Some((pos, bit))) => step == Received::More && final(buf).bits() == old(
                    buf,
                ).bits().update(old(buf).index_of(pos), bit),
                Some(None) => step == Received::Done && final(buf).bits() == old(buf).bits(),
                None => step == Received::Broken && final(buf).bits() == old(buf).bits(),
            },
    {
        match event {
            Some(Some((pos, bit))) => {
                buf.set(pos, bit);
                Received::More
            },
            Some(None) => Received::Done,
            None => Received::Broken,
        }
    }

    /// Decides what goes out for a batch of operations.
    ///
    /// The operations are lowered in order. The requests of every operation
    /// before the first refused one are forwarded; after a batch without a
    /// refusal the end marker follows them. A batch that holds a
    /// measurement into a slot other than the measured qubit is refused.
    pub fn send(&self, ops: &[Operation]) -> (plan: SendPlan)
        ensures
            plan.forward@ == self.sent(ops@),
            plan.outcome == self.verdict(ops@),
            (exists|i: int| 0 <= i < ops@.len() && mismatched(#[trigger] ops@[i]))
                ==> plan.outcome is Err,
    {
        let mut forward: Vec<Option<Request>> = Vec::new();
        let ghost mut done: Seq<Request> = Seq::empty();
        let mut i: usize = 0;
        proof {
            assert(ops@.skip(0) == ops@);
            assert(Seq::<Request>::empty() + self.forwarded(ops@) == self.forwarded(ops@));
        }
        while i < ops.len()
            invariant
                0 <= i <= ops.len(),
                forward@ == done.map_values(|r: Request| Some(r)),
                self.forwarded(ops@) == done + self.forwarded(ops@.skip(i as int)),
                self.verdict(ops@) == self.verdict(ops@.skip(i as int)),
            decreases ops.len() - i,
        {
            let ghost rest = ops@.skip(i as int);
            proof {
                assert(rest[0] == ops@[i as int]);
                assert(rest.skip(1) == ops@.skip(i + 1));
            }
            match self.lower(ops[i]) {
                Ok(requests) => {
                    let mut j: usize = 0;
                    while j < requests.len()
                        invariant
                            0 <= j <= requests.len(),
                            forward@ == (done + requests@.take(j as int)).map_values(
                                |r: Request| Some(r),
                            ),
                        decreases requests.len() - j,
                    {
                        proof {
                            assert(requests@.take(j + 1) == requests@.take(j as int).push(
                                requests@[j as int],
                            ));
                            assert((done + requests@.take(j + 1)) == (done + requests@.take(
                                j as int,
                            )).push(requests@[j as int]));
                        }
                        forward.push(Some(requests[j]));
                        j = j + 1;
                    }
                    proof {
                        assert(requests@.take(requests@.len() as int) == requests@);
                        assert(done + (requests@ + self.forwarded(rest.skip(1))) == (done
                            + requests@) + self.forwarded(rest.skip(1)));
                        done = done + requests@;
                    }
                },
                Err(e) => {
                    proof {
                        assert(done + Seq::<Request>::empty() == done);
                    }
                    return SendPlan { forward, outcome: Err(e) };
                },
            }
            i = i + 1;
        }
        proof {
            assert(ops@.skip(ops@.len() as int).len() == 0);
            assert(done + Seq::<Request>::empty() == done);
            assert forall|k: int| 0 <= k < ops@.len() implies !mismatched(#[trigger] ops@[k]) by {
                if mismatched(ops@[k]) {
                    law_mismatch_refuses_batch(*self, ops@, k);
                }
            }
        }
        forward.push(None);
        SendPlan { forward, outcome: Ok(()) }
    }
}

/// Whether an operation is a measurement into a slot other than the
/// measured qubit.
pub open spec fn mismatched(op: Operation) -> bool {
    op matches Operation::QS(id, q, s) && id == OpIds::lay().meas && q != s
}

/// A measurement is refused for its slot exactly when the slot is not the
/// measured qubit.
pub proof fn law_slot_must_match(layer: MitouOscLayer, op: Operation)
    ensures
        layer.lowered(op) == Err::<Seq<Request>, _>(SendError::SlotMismatch) <==> mismatched(op),
{
}

/// A batch that holds a measurement into a slot other than the measured
/// qubit is refused, and no end marker goes out for it.
pub proof fn law_mismatch_refuses_batch(layer: MitouOscLayer, ops: Seq<Operation>, at: int)
    requires
        0 <= at < ops.len(),
        mismatched(ops[at]),
    ensures
        layer.verdict(ops) is Err,
        forall|i: int| 0 <= i < layer.sent(ops).len() ==> layer.sent(ops)[i] is Some,
    decreases ops.len(),
{
    if layer.lowered(ops[0]) is Ok {
        assert(at > 0);
        assert(ops.skip(1)[at - 1] == ops[at]);
        law_mismatch_refuses_batch(layer, ops.skip(1), at - 1);
    }
}

/// An accepted batch sends the requests of every operation, in order, and
/// then the end marker, once.
pub proof fn law_accepted_batch_ends_with_marker(layer: MitouOscLayer, ops: Seq<Operation>)
    requires
        layer.verdict(ops) is Ok,
    ensures
        layer.sent(ops).len() == layer.forwarded(ops).len() + 1,
        layer.sent(ops).last() is None,
        forall|i: int|
            0 <= i < layer.forwarded(ops).len() ==> layer.sent(ops)[i] == Some(
                layer.forwarded(ops)[i],
            ),
{
}

} // verus!
