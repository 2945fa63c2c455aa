//! The typed messages of the protocol and their packet form.

use vstd::prelude::*;
use crate::packet::{Arg, Message, MessageView};

verus! {

/// Why a message is not one of the protocol's.
#[derive(Clone, Debug, PartialEq, Eq)]
pub enum MessageError {
    /// The address tag is not in the protocol's table.
    InvalidAddr(String),
    /// The arguments have the wrong type or the wrong count.
    InvalidArgs,
}

/// The mathematical content of a [`MessageError`].
pub ghost enum MessageErrorView {
    InvalidAddr(Seq<char>),
    InvalidArgs,
}

impl View for MessageError {
    type V = MessageErrorView;

    open spec fn view(&self) -> MessageErrorView {
        match self {
            MessageError::InvalidAddr(addr) => MessageErrorView::InvalidAddr(addr@),
            MessageError::InvalidArgs => MessageErrorView::InvalidArgs,
        }
    }
}

/// The instructions that a request can carry, one per address tag.
#[derive(Clone, Copy, Debug, PartialEq, Eq, Structural)]
pub enum Kind {
    InitZero,
    X,
    Y,
    Z,
    H,
    S,
    Sdg,
    T,
    Tdg,
    CX,
    Mz,
}

impl Kind {
    /// The address tag of the instruction.
    pub open spec fn address(self) -> Seq<char> {
        match self {
            Kind::InitZero => "/InitZero"@,
            Kind::X => "/X"@,
            Kind::Y => "/Y"@,
            Kind::Z => "/Z"@,
            Kind::H => "/H"@,
            Kind::S => "/S"@,
            Kind::Sdg => "/Sdg"@,
            Kind::T => "/T"@,
            Kind::Tdg => "/Tdg"@,
            Kind::CX => "/CX"@,
            Kind::Mz => "/Mz"@,
        }
    }

    /// The number of integer arguments: two for each grid position.
    pub open spec fn arity(self) -> nat {
        if self is CX {
            4
        } else {
            2
        }
    }

    /// The instruction with the given address tag, by exact match.
    pub open spec fn named(addr: Seq<char>) -> Option<Kind> {
        if addr == "/InitZero"@ {
            Some(Kind::InitZero)
        } else if addr == "/X"@ {
            Some(Kind::X)
        } else if addr == "/Y"@ {
            Some(Kind::Y)
        } else if addr == "/Z"@ {
            Some(Kind::Z)
        } else if addr == "/H"@ {
            Some(Kind::H)
        } else if addr == "/S"@ {
            Some(Kind::S)
        } else if addr == "/Sdg"@ {
            Some(Kind::Sdg)
        } else if addr == "/T"@ {
            Some(Kind::T)
        } else if addr == "/Tdg"@ {
            Some(Kind::Tdg)
        } else if addr == "/CX"@ {
            Some(Kind::CX)
        } else if addr == "/Mz"@ {
            Some(Kind::Mz)
        } else {
            None
        }
    }

    /// The address tag as a string.
    pub fn tag(self) -> (s: &'static str)
        ensures
            s@ == self.address(),
    {
        match self {
            Kind::InitZero => "/InitZero",
            Kind::X => "/X",
            Kind::Y => "/Y",
            Kind::Z => "/Z",
            Kind::H => "/H",
            Kind::S => "/S",
            Kind::Sdg => "/Sdg",
            Kind::T => "/T",
            Kind::Tdg => "/Tdg",
            Kind::CX => "/CX",
            Kind::Mz => "/Mz",
        }
    }

    /// Looks an address tag up in the table.
    pub fn from_address(addr: &String) -> (k: Option<Kind>)
        ensures
            k == Kind::named(addr@),
    {
        if is_tag(addr, "/InitZero") {
            Some(Kind::InitZero)
        } else if is_tag(addr, "/X") {
            Some(Kind::X)
        } else if is_tag(addr, "/Y") {
            Some(Kind::Y)
        } else if is_tag(addr, "/Z") {
            Some(Kind::Z)
        } else if is_tag(addr, "/H") {
            Some(Kind::H)
        } else if is_tag(addr, "/S") {
            Some(Kind::S)
        } else if is_tag(addr, "/Sdg") {
            Some(Kind::Sdg)
        } else if is_tag(addr, "/T") {
            Some(Kind::T)
        } else if is_tag(addr, "/Tdg") {
            Some(Kind::Tdg)
        } else if is_tag(addr, "/CX") {
            Some(Kind::CX)
        } else if is_tag(addr, "/Mz") {
            Some(Kind::Mz)
        } else {
            None
        }
    }
}

/// An instruction for the device. Every position is a pair of signed grid
/// coordinates, first `x`, then `y`.
#[derive(Clone, Copy, Debug, PartialEq, Eq, Structural)]
pub enum Request {
    /// Reset the qubit to zero.
    InitZero(i32, i32),
    /// Pauli X.
    X(i32, i32),
    /// Pauli Y.
    Y(i32, i32),
    /// Pauli Z.
    Z(i32, i32),
    /// Hadamard.
    H(i32, i32),
    /// S gate, the phase gate.
    S(i32, i32),
    /// The inverse of S.
    Sdg(i32, i32),
    /// T gate.
    T(i32, i32),
    /// The inverse of T.
    Tdg(i32, i32),
    /// Controlled X: the control's position, then the target's.
    CX(i32, i32, i32, i32),
    /// Measure the qubit in the Z basis.
    Mz(i32, i32),
}

impl Request {
    /// The instruction that the request carries.
    pub open spec fn spec_kind(self) -> Kind {
        match self {
            Request::InitZero(..) => Kind::InitZero,
            Request::X(..) => Kind::X,
            Request::Y(..) => Kind::Y,
            Request::Z(..) => Kind::Z,
            Request::H(..) => Kind::H,
            Request::S(..) => Kind::S,
            Request::Sdg(..) => Kind::Sdg,
            Request::T(..) => Kind::T,
            Request::Tdg(..) => Kind::Tdg,
            Request::CX(..) => Kind::CX,
            Request::Mz(..) => Kind::Mz,
        }
    }

    /// The coordinates that the request carries, in wire order.
    pub open spec fn coords(self) -> Seq<i32> {
        match self {
            Request::InitZero(x, y) => seq![x, y],
            Request::X(x, y) => seq![x, y],
            Request::Y(x, y) => seq![x, y],
            Request::Z(x, y) => seq![x, y],
            Request::H(x, y) => seq![x, y],
            Request::S(x, y) => seq![x, y],
            Request::Sdg(x, y) => seq![x, y],
            Request::T(x, y) => seq![x, y],
            Request::Tdg(x, y) => seq![x, y],
            Request::CX(x1, y1, x2, y2) => seq![x1, y1, x2, y2],
            Request::Mz(x, y) => seq![x, y],
        }
    }

    /// The request of the given kind on the given coordinates, of which
    /// there are as many as the kind's arity.
    pub open spec fn assemble(kind: Kind, c: Seq<i32>) -> Request {
        match kind {
            Kind::InitZero => Request::InitZero(c[0], c[1]),
            Kind::X => Request::X(c[0], c[1]),
            Kind::Y => Request::Y(c[0], c[1]),
            Kind::Z => Request::Z(c[0], c[1]),
            Kind::H => Request::H(c[0], c[1]),
            Kind::S => Request::S(c[0], c[1]),
            Kind::Sdg => Request::Sdg(c[0], c[1]),
            Kind::T => Request::T(c[0], c[1]),
            Kind::Tdg => Request::Tdg(c[0], c[1]),
            Kind::CX => Request::CX(c[0], c[1], c[2], c[3]),
            Kind::Mz => Request::Mz(c[0], c[1]),
        }
    }

    /// The instruction that the request carries.
    #[verifier::when_used_as_spec(spec_kind)]
    pub fn kind(self) -> (k: Kind)
        ensures
            k == self.spec_kind(),
    {
        match self {
            Request::InitZero(..) => Kind::InitZero,
            Request::X(..) => Kind::X,
            Request::Y(..) => Kind::Y,
            Request::Z(..) => Kind::Z,
            Request::H(..) => Kind::H,
            Request::S(..) => Kind::S,
            Request::Sdg(..) => Kind::Sdg,
            Request::T(..) => Kind::T,
            Request::Tdg(..) => Kind::Tdg,
            Request::CX(..) => Kind::CX,
            Request::Mz(..) => Kind::Mz,
        }
    }

    /// Builds the one-qubit request of the given kind at a position.
    pub fn at(kind: Kind, x: i32, y: i32) -> (r: Request)
        requires
            kind != Kind::CX,
        ensures
            r == Request::assemble(kind, seq![x, y]),
    {
        match kind {
            Kind::InitZero => Request::InitZero(x, y),
            Kind::X => Request::X(x, y),
            Kind::Y => Request::Y(x, y),
            Kind::Z => Request::Z(x, y),
            Kind::H => Request::H(x, y),
            Kind::S => Request::S(x, y),
            Kind::Sdg => Request::Sdg(x, y),
            Kind::T => Request::T(x, y),
            Kind::Tdg => Request::Tdg(x, y),
            Kind::CX => vstd::pervasive::unreached(),
            Kind::Mz => Request::Mz(x, y),
        }
    }
}

/// Whether every argument is an integer.
pub open spec fn all_ints(args: Seq<Arg>) -> bool {
    forall|i: int| 0 <= i < args.len() ==> (#[trigger] args[i]) is Int
}

/// The values of a sequence of integer arguments.
pub open spec fn ints_of(args: Seq<Arg>) -> Seq<i32> {
    args.map_values(|a: Arg| a->Int_0)
}

/// The values of the arguments if every one of them is an integer.
fn int_values(args: &Vec<Arg>) -> (res: Option<Vec<i32>>)
    ensures
        res is Some <==> all_ints(args@),
        res matches Some(values) ==> values@ == ints_of(args@),
{
    let mut values: Vec<i32> = Vec::new();
    let mut i: usize = 0;
    while i < args.len()
        invariant
            0 <= i <= args.len(),
            all_ints(args@.take(i as int)),
            values@ == ints_of(args@.take(i as int)),
        decreases args.len() - i,
    {
        match args[i] {
            Arg::Int(v) => {
                proof {
                    assert(args@.take(i + 1) == args@.take(i as int).push(args@[i as int]));
                    assert(ints_of(args@.take(i + 1)) == ints_of(args@.take(i as int)).push(v));
                }
                values.push(v);
            },
            _ => {
                return None;
            },
        }
        i = i + 1;
    }
    proof {
        assert(args@.take(args@.len() as int) == args@);
    }
    Some(values)
}

impl Request {
    /// The message that carries the request: the address tag of its kind,
    /// and its coordinates as integer arguments.
    pub open spec fn message(self) -> MessageView {
        MessageView {
            addr: self.spec_kind().address(),
            args: self.coords().map_values(|c: i32| Arg::Int(c)),
        }
    }

    /// The request that a message carries, or why it carries none.
    ///
    /// An address that is not in the table is refused first, whatever the
    /// arguments; then arguments that are not all integers, or not as many
    /// as the instruction takes coordinates.
    pub open spec fn parse(m: MessageView) -> Result<Request, MessageErrorView> {
        match Kind::named(m.addr) {
            None => Err(MessageErrorView::InvalidAddr(m.addr)),
            Some(kind) => if all_ints(m.args) && m.args.len() == kind.arity() {
                Ok(Request::assemble(kind, ints_of(m.args)))
            } else {
                Err(MessageErrorView::InvalidArgs)
            },
        }
    }

    /// Reads a request from a message.
    pub fn try_from(msg: Message) -> (res: Result<Request, MessageError>)
        ensures
            match res {
                Ok(request) => Request::parse(msg@) == Ok::<_, MessageErrorView>(request),
                Err(e) => Request::parse(msg@) == Err::<Request, _>(e@),
            },
    {
        let Message { addr, args } = msg;
        let kind = match Kind::from_address(&addr) {
            Some(kind) => kind,
            None => {
                return Err(MessageError::InvalidAddr(addr));
            },
        };
        let values = match int_values(&args) {
            Some(values) => values,
            None => {
                return Err(MessageError::InvalidArgs);
            },
        };
        match kind {
            Kind::CX => {
                if values.len() == 4 {
                    Ok(Request::CX(values[0], values[1], values[2], values[3]))
                } else {
                    Err(MessageError::InvalidArgs)
                }
            },
            _ => {
                if values.len() == 2 {
                    Ok(Request::at(kind, values[0], values[1]))
                } else {
                    Err(MessageError::InvalidArgs)
                }
            },
        }
    }

    /// Writes the request as a message.
    pub fn to_message(&self) -> (msg: Message)
        ensures
            msg@ == self.message(),
    {
        let mut args: Vec<Arg> = Vec::new();
        match *self {
            Request::CX(x1, y1, x2, y2) => {
                args.push(Arg::Int(x1));
                args.push(Arg::Int(y1));
                args.push(Arg::Int(x2));
                args.push(Arg::Int(y2));
            },
            Request::InitZero(x, y)
            | Request::X(x, y)
            | Request::Y(x, y)
            | Request::Z(x, y)
            | Request::H(x, y)
            | Request::S(x, y)
            | Request::Sdg(x, y)
            | Request::T(x, y)
            | Request::Tdg(x, y)
            | Request::Mz(x, y) => {
                args.push(Arg::Int(x));
                args.push(Arg::Int(y));
            },
        }
        assert(args@ == self.coords().map_values(|c: i32| Arg::Int(c)));
        Message { addr: self.kind().tag().to_owned(), args }
    }
}

/// Reading the message of a request gives the request back.
pub proof fn law_request_round_trip(request: Request)
    ensures
        Request::parse(request.message()) == Ok::<_, MessageErrorView>(request),
{
    let m = request.message();
    lemma_tags_distinct(request.spec_kind());
    assert(all_ints(m.args));
    assert(ints_of(m.args) == request.coords());
}

/// The bit pattern of the number zero: a measured bit that is clear.
pub const BIT_CLEAR: u32 = 0x0000_0000;

/// The bit pattern of the number one: a measured bit that is set.
pub const BIT_SET: u32 = 0x3f80_0000;

/// The bit pattern of the number two, the first that no longer counts as one.
pub const BIT_LIMIT: u32 = 0x4000_0000;

/// An answer of the device.
#[derive(Clone, Copy, Debug, PartialEq, Eq, Structural)]
pub enum Response {
    /// The result of a measurement: an index, always zero in this protocol,
    /// and the measured bit as a 32-bit IEEE-754 number, held as its bit
    /// pattern.
    Mz(i32, u32),
}

impl Response {
    /// Whether the value is one of the two that stand for a bit.
    pub open spec fn well_formed(self) -> bool {
        self matches Response::Mz(_, value) && (value == BIT_CLEAR || value == BIT_SET)
    }

    /// The bit that the value stands for: whether the number, cut down to a
    /// whole number, is one. Those are the numbers from one up to, and
    /// without, two; their bit patterns lie in one range.
    pub open spec fn spec_bit(self) -> bool {
        self matches Response::Mz(_, value) && BIT_SET <= value < BIT_LIMIT
    }

    /// The message that carries the response.
    pub open spec fn message(self) -> MessageView {
        match self {
            Response::Mz(index, value) => MessageView {
                addr: "/Mz"@,
                args: seq![Arg::Int(index), Arg::Float(value)],
            },
        }
    }

    /// The response that a message carries, or why it carries none.
    ///
    /// An address other than the measurement's is refused first; then
    /// arguments that are not exactly an integer and a number.
    pub open spec fn parse(m: MessageView) -> Result<Response, MessageErrorView> {
        if m.addr != "/Mz"@ {
            Err(MessageErrorView::InvalidAddr(m.addr))
        } else if m.args.len() == 2 && m.args[0] is Int && m.args[1] is Float {
            Ok(Response::Mz(m.args[0]->Int_0, m.args[1]->Float_0))
        } else {
            Err(MessageErrorView::InvalidArgs)
        }
    }

    /// The response that reports a measured bit: index zero, and the
    /// number one for a set bit, zero for a clear one.
    pub open spec fn measured_spec(bit: bool) -> Response {
        Response::Mz(0, if bit { BIT_SET } else { BIT_CLEAR })
    }

    /// The response that reports a measured bit.
    pub fn measured(bit: bool) -> (response: Response)
        ensures
            response == Response::measured_spec(bit),
            response.well_formed(),
            response.spec_bit() == bit,
    {
        if bit {
            Response::Mz(0, BIT_SET)
        } else {
            Response::Mz(0, BIT_CLEAR)
        }
    }

    /// The bit that the response reports.
    #[verifier::when_used_as_spec(spec_bit)]
    pub fn bit(self) -> (b: bool)
        ensures
            b == self.spec_bit(),
    {
        match self {
            Response::Mz(_, value) => BIT_SET <= value && value < BIT_LIMIT,
        }
    }

    /// Reads a response from a message.
    pub fn try_from(msg: Message) -> (res: Result<Response, MessageError>)
        ensures
            match res {
                Ok(response) => Response::parse(msg@) == Ok::<_, MessageErrorView>(response),
                Err(e) => Response::parse(msg@) == Err::<Response, _>(e@),
            },
    {
        let Message { addr, args } = msg;
        if !is_tag(&addr, "/Mz") {
            return Err(MessageError::InvalidAddr(addr));
        }
        if args.len() != 2 {
            return Err(MessageError::InvalidArgs);
        }
        match (args[0], args[1]) {
            (Arg::Int(index), Arg::Float(value)) => Ok(Response::Mz(index, value)),
            _ => Err(MessageError::InvalidArgs),
        }
    }

    /// Writes the response as a message.
    pub fn to_message(&self) -> (msg: Message)
        ensures
            msg@ == self.message(),
    {
        let mut args: Vec<Arg> = Vec::new();
        match *self {
            Response::Mz(index, value) => {
                args.push(Arg::Int(index));
                args.push(Arg::Float(value));
            },
        }
        assert(args@ == seq![Arg::Int(self->Mz_0), Arg::Float(self->Mz_1)]);
        Message { addr: "/Mz".to_owned(), args }
    }
}

/// A message whose address is not in the table is refused for its address,
/// whatever its arguments.
pub proof fn law_unknown_address_refused(m: MessageView)
    requires
        Kind::named(m.addr) is None,
    ensures
        Request::parse(m) == Err::<Request, _>(MessageErrorView::InvalidAddr(m.addr)),
{
}

/// A message is read as a request only if it has exactly as many arguments
/// as its instruction takes coordinates.
pub proof fn law_arity_is_exact(m: MessageView)
    requires
        Request::parse(m) is Ok,
    ensures
        m.args.len() == Request::parse(m)->Ok_0.spec_kind().arity(),
        Request::parse(m)->Ok_0.spec_kind().address() == m.addr,
        Request::parse(m)->Ok_0.message() == m,
{
    let r = Request::parse(m)->Ok_0;
    assert(r.coords() == ints_of(m.args));
    assert(r.message().args == m.args);
}

/// Reading the message of a response gives the response back.
pub proof fn law_response_round_trip(response: Response)
    ensures
        Response::parse(response.message()) == Ok::<_, MessageErrorView>(response),
{
}

/// Whether an address is exactly the given tag.
fn is_tag(addr: &String, tag: &str) -> (same: bool)
    ensures
        same == (addr@ == tag@),
{
    let owned: String = tag.to_owned();
    *addr == owned
}

/// Every address tag names its own instruction and no other.
pub proof fn lemma_tags_distinct(k: Kind)
    ensures
        Kind::named(k.address()) == Some(k),
{
    reveal_strlit("/InitZero");
    reveal_strlit("/X");
    reveal_strlit("/Y");
    reveal_strlit("/Z");
    reveal_strlit("/H");
    reveal_strlit("/S");
    reveal_strlit("/Sdg");
    reveal_strlit("/T");
    reveal_strlit("/Tdg");
    reveal_strlit("/CX");
    reveal_strlit("/Mz");
    assert("/InitZero"@.len() == 9 && "/InitZero"@[1] == 'I');
    assert("/X"@.len() == 2 && "/X"@[1] == 'X');
    assert("/Y"@.len() == 2 && "/Y"@[1] == 'Y');
    assert("/Z"@.len() == 2 && "/Z"@[1] == 'Z');
    assert("/H"@.len() == 2 && "/H"@[1] == 'H');
    assert("/S"@.len() == 2 && "/S"@[1] == 'S');
    assert("/Sdg"@.len() == 4 && "/Sdg"@[1] == 'S');
    assert("/T"@.len() == 2 && "/T"@[1] == 'T');
    assert("/Tdg"@.len() == 4 && "/Tdg"@[1] == 'T');
    assert("/CX"@.len() == 3 && "/CX"@[1] == 'C');
    assert("/Mz"@.len() == 3 && "/Mz"@[1] == 'M');
}

} // verus!
