//! Datagrams: packets and typed messages to and from the bytes of the wire
//! format, which the `rosc` crate reads and writes.

use vstd::prelude::*;
use rosc::{OscError, OscMessage, OscPacket, OscType};
use crate::message::{
    all_ints, law_request_round_trip, law_response_round_trip, MessageError, MessageErrorView,
    Request, Response,
};
use crate::packet::{
    Arg, Element, ElementView, EnvelopeError, Framing, Message, MessageView, Packet, PacketView,
};

verus! {

/// The length of the buffer into which the relay reads a datagram: no
/// datagram handed to a decoder is longer. The decoder of the wire format
/// descends once for every envelope inside another, so this length also
/// bounds how deep it goes.
pub const OSC_BUF_LEN: usize = 1000;

/// `rosc::OscError`, carried through as it comes.
#[verifier::external_type_specification]
#[verifier::external_body]
pub struct ExOscError(OscError);

/// The packet that the wire format reads from a datagram, if it reads one.
pub uninterp spec fn wire_decoded(bytes: Seq<u8>) -> Option<PacketView>;

/// The datagram that the wire format writes for a bare message.
pub uninterp spec fn wire_encoded(msg: MessageView) -> Seq<u8>;

/// Reads a datagram with `rosc::decoder::decode_udp` and hands the packet
/// out in the library's own form. The contract claims only that the call
/// returns for a datagram no longer than the relay's buffer, and that its
/// outcome is a function of the bytes: `wire_decoded` names it, and nothing
/// is claimed of what it is. Bytes that follow the packet are dropped, a
/// number is kept as its bit pattern, an argument that is neither an integer
/// nor such a number is kept as `Arg::Other`, and of an envelope inside an
/// envelope only its presence is kept.
#[verifier::external_body]
fn wire_decode(bytes: &[u8]) -> (res: Result<Packet, OscError>)
    requires
        bytes.len() <= OSC_BUF_LEN,
    ensures
        match res {
            Ok(packet) => wire_decoded(bytes@) == Some(packet@),
            Err(_) => wire_decoded(bytes@) is None,
        },
{
    let plain = |m: OscMessage| Message {
        addr: m.addr,
        args: m.args.into_iter().map(|a| match a {
            OscType::Int(i) => Arg::Int(i),
            OscType::Float(x) => Arg::Float(x.to_bits()),
            _ => Arg::Other,
        }).collect(),
    };
    Ok(match rosc::decoder::decode_udp(bytes)?.1 {
        OscPacket::Message(m) => Packet::Message(plain(m)),
        OscPacket::Bundle(b) => Packet::Bundle(b.content.into_iter().map(|p| match p {
            OscPacket::Message(m) => Element::Message(plain(m)),
            OscPacket::Bundle(_) => Element::Bundle,
        }).collect()),
    })
}

/// Writes a bare message of integer arguments with `rosc::encoder::encode`.
/// The contract claims that the call succeeds, as that function does
/// whenever it writes into a vector, and that the bytes are a function of
/// the message: `wire_encoded` names them, and nothing is claimed of what
/// they are.
#[verifier::external_body]
fn wire_encode(msg: &Message) -> (res: Result<Vec<u8>, OscError>)
    requires
        all_ints(msg@.args),
    ensures
        res is Ok,
        res->Ok_0@ == wire_encoded(msg@),
{
    let args = msg.args.iter().map(|a| match a {
        Arg::Int(i) => OscType::Int(*i),
        _ => OscType::Nil,
    }).collect();
    rosc::encoder::encode(&OscPacket::Message(OscMessage { addr: msg.addr.clone(), args }))
}

/// Why a datagram carries no message of the protocol.
#[derive(Debug)]
pub enum DecodeError {
    /// The bytes are no packet of the wire format.
    Malformed(OscError),
    /// The packet is an envelope that is refused.
    Envelope(EnvelopeError),
    /// The message in the packet is not one of the protocol's.
    Message(MessageError),
}

/// The mathematical content of a [`DecodeError`].
pub ghost enum DecodeErrorView {
    Malformed,
    Envelope(EnvelopeError),
    Message(MessageErrorView),
}

impl View for DecodeError {
    type V = DecodeErrorView;

    open spec fn view(&self) -> DecodeErrorView {
        match self {
            DecodeError::Malformed(_) => DecodeErrorView::Malformed,
            DecodeError::Envelope(e) => DecodeErrorView::Envelope(*e),
            DecodeError::Message(e) => DecodeErrorView::Message(e@),
        }
    }
}

/// The packet that a result of the wire format holds.
pub open spec fn packet_in(decoded: Result<Packet, OscError>) -> Option<PacketView> {
    match decoded {
        Ok(packet) => Some(packet@),
        Err(_) => None,
    }
}

/// The request in what the wire format read, with its framing, or why
/// there is none.
pub open spec fn request_in(decoded: Option<PacketView>) -> Result<
    (Request, Framing),
    DecodeErrorView,
> {
    match decoded {
        None => Err(DecodeErrorView::Malformed),
        Some(packet) => match packet.sole_message() {
            Err(e) => Err(DecodeErrorView::Envelope(e)),
            Ok((m, framing)) => match Request::parse(m) {
                Ok(request) => Ok((request, framing)),
                Err(e) => Err(DecodeErrorView::Message(e)),
            },
        },
    }
}

/// The response in what the wire format read, with its framing, or why
/// there is none.
pub open spec fn response_in(decoded: Option<PacketView>) -> Result<
    (Response, Framing),
    DecodeErrorView,
> {
    match decoded {
        None => Err(DecodeErrorView::Malformed),
        Some(packet) => match packet.sole_message() {
            Err(e) => Err(DecodeErrorView::Envelope(e)),
            Ok((m, framing)) => match Response::parse(m) {
                Ok(response) => Ok((response, framing)),
                Err(e) => Err(DecodeErrorView::Message(e)),
            },
        },
    }
}

/// Reads the request out of what the wire format made of a datagram.
pub fn read_request(decoded: Result<Packet, OscError>) -> (res: Result<
    (Request, Framing),
    DecodeError,
>)
    ensures
        match res {
            Ok(found) => request_in(packet_in(decoded)) == Ok::<_, DecodeErrorView>(found),
            Err(e) => request_in(packet_in(decoded)) == Err::<(Request, Framing), _>(e@),
        },
        decoded matches Err(err) ==> res == Err::<(Request, Framing), _>(
            DecodeError::Malformed(err),
        ),
{
    let packet = match decoded {
        Ok(packet) => packet,
        Err(e) => {
            return Err(DecodeError::Malformed(e));
        },
    };
    let (msg, framing) = match packet.into_sole_message() {
        Ok(sole) => sole,
        Err(e) => {
            return Err(DecodeError::Envelope(e));
        },
    };
    match Request::try_from(msg) {
        Ok(request) => Ok((request, framing)),
        Err(e) => Err(DecodeError::Message(e)),
    }
}

/// Reads the response out of what the wire format made of a datagram.
pub fn read_response(decoded: Result<Packet, OscError>) -> (res: Result<
    (Response, Framing),
    DecodeError,
>)
    ensures
        match res {
            Ok(found) => response_in(packet_in(decoded)) == Ok::<_, DecodeErrorView>(found),
            Err(e) => response_in(packet_in(decoded)) == Err::<(Response, Framing), _>(e@),
        },
        decoded matches Err(err) ==> res == Err::<(Response, Framing), _>(
            DecodeError::Malformed(err),
        ),
{
    let packet = match decoded {
        Ok(packet) => packet,
        Err(e) => {
            return Err(DecodeError::Malformed(e));
        },
    };
    let (msg, framing) = match packet.into_sole_message() {
        Ok(sole) => sole,
        Err(e) => {
            return Err(DecodeError::Envelope(e));
        },
    };
    match Response::try_from(msg) {
        Ok(response) => Ok((response, framing)),
        Err(e) => Err(DecodeError::Message(e)),
    }
}

/// Decodes a datagram that carries a request.
pub fn decode_request(bytes: &[u8]) -> (res: Result<(Request, Framing), DecodeError>)
    requires
        bytes.len() <= OSC_BUF_LEN,
    ensures
        match res {
            Ok(found) => request_in(wire_decoded(bytes@)) == Ok::<_, DecodeErrorView>(found),
            Err(e) => request_in(wire_decoded(bytes@)) == Err::<(Request, Framing), _>(e@),
        },
{
    read_request(wire_decode(bytes))
}

/// Decodes a datagram that carries a response.
pub fn decode_response(bytes: &[u8]) -> (res: Result<(Response, Framing), DecodeError>)
    requires
        bytes.len() <= OSC_BUF_LEN,
    ensures
        match res {
            Ok(found) => response_in(wire_decoded(bytes@)) == Ok::<_, DecodeErrorView>(found),
            Err(e) => response_in(wire_decoded(bytes@)) == Err::<(Response, Framing), _>(e@),
        },
{
    read_response(wire_decode(bytes))
}

/// Encodes a request as a datagram that holds its bare message.
pub fn encode_request(request: &Request) -> (bytes: Vec<u8>)
    ensures
        bytes@ == wire_encoded(request.message()),
{
    let msg = request.to_message();
    match wire_encode(&msg) {
        Ok(bytes) => bytes,
        Err(_) => vstd::pervasive::unreached(),
    }
}

/// What the envelope rule makes of a decoded envelope, whichever message is
/// awaited: an empty one is refused as empty, one with two or more elements
/// as multiple, one whose only element is an envelope as nested.
pub proof fn law_envelope_rule(items: Seq<ElementView>)
    ensures
        items.len() == 0 ==> request_in(Some(PacketView::Bundle(items))) == Err::<
            (Request, Framing),
            _,
        >(DecodeErrorView::Envelope(EnvelopeError::Empty)) && response_in(
            Some(PacketView::Bundle(items)),
        ) == Err::<(Response, Framing), _>(DecodeErrorView::Envelope(EnvelopeError::Empty)),
        items.len() >= 2 ==> request_in(Some(PacketView::Bundle(items))) == Err::<
            (Request, Framing),
            _,
        >(DecodeErrorView::Envelope(EnvelopeError::Multiple)) && response_in(
            Some(PacketView::Bundle(items)),
        ) == Err::<(Response, Framing), _>(DecodeErrorView::Envelope(EnvelopeError::Multiple)),
        items.len() == 1 && items[0] is Bundle ==> request_in(Some(PacketView::Bundle(items)))
            == Err::<(Request, Framing), _>(DecodeErrorView::Envelope(EnvelopeError::Nested))
            && response_in(Some(PacketView::Bundle(items))) == Err::<(Response, Framing), _>(
            DecodeErrorView::Envelope(EnvelopeError::Nested),
        ),
{
}

/// A request comes back from any packet that holds its message alone,
/// bare or in an envelope.
pub proof fn law_request_read_back(request: Request)
    ensures
        request_in(Some(PacketView::Message(request.message()))) == Ok::<_, DecodeErrorView>(
            (request, Framing::Bare),
        ),
        request_in(Some(PacketView::Bundle(seq![ElementView::Message(request.message())])))
            == Ok::<_, DecodeErrorView>((request, Framing::Enveloped)),
{
    law_request_round_trip(request);
}

/// A response comes back from any packet that holds its message alone,
/// bare or in an envelope.
pub proof fn law_response_read_back(response: Response)
    ensures
        response_in(Some(PacketView::Message(response.message()))) == Ok::<_, DecodeErrorView>(
            (response, Framing::Bare),
        ),
        response_in(Some(PacketView::Bundle(seq![ElementView::Message(response.message())])))
            == Ok::<_, DecodeErrorView>((response, Framing::Enveloped)),
{
    law_response_round_trip(response);
}

} // verus!
