//! The structured form of a datagram: a message with an address and
//! arguments, alone or wrapped in an envelope of several elements.

use vstd::prelude::*;

verus! {

/// One argument of a message, as far as the protocol reads it.
#[derive(Clone, Copy, Debug, PartialEq, Eq, Structural)]
pub enum Arg {
    /// A 32-bit signed integer.
    Int(i32),
    /// A 32-bit IEEE-754 number, held as its bit pattern.
    Float(u32),
    /// An argument of any other type; the protocol accepts none of them.
    Other,
}

/// A message: an address tag and its arguments.
#[derive(Clone, Debug, PartialEq, Eq)]
pub struct Message {
    pub addr: String,
    pub args: Vec<Arg>,
}

/// The mathematical content of a [`Message`].
pub ghost struct MessageView {
    pub addr: Seq<char>,
    pub args: Seq<Arg>,
}

impl View for Message {
    type V = MessageView;

    open spec fn view(&self) -> MessageView {
        MessageView { addr: self.addr@, args: self.args@ }
    }
}

/// One element of an envelope: a message, or another envelope whose
/// contents are never read.
#[derive(Clone, Debug, PartialEq, Eq)]
pub enum Element {
    Message(Message),
    Bundle,
}

/// The mathematical content of an [`Element`].
pub ghost enum ElementView {
    Message(MessageView),
    Bundle,
}

impl View for Element {
    type V = ElementView;

    open spec fn view(&self) -> ElementView {
        match self {
            Element::Message(m) => ElementView::Message(m@),
            Element::Bundle => ElementView::Bundle,
        }
    }
}

/// A decoded datagram: a bare message, or an envelope of elements.
#[derive(Clone, Debug, PartialEq, Eq)]
pub enum Packet {
    Message(Message),
    Bundle(Vec<Element>),
}

/// The mathematical content of a [`Packet`].
pub ghost enum PacketView {
    Message(MessageView),
    Bundle(Seq<ElementView>),
}

impl View for Packet {
    type V = PacketView;

    open spec fn view(&self) -> PacketView {
        match self {
            Packet::Message(m) => PacketView::Message(m@),
            Packet::Bundle(items) => PacketView::Bundle(items@.map_values(|e: Element| e@)),
        }
    }
}

/// How an accepted message arrived.
#[derive(Clone, Copy, Debug, PartialEq, Eq, Structural)]
pub enum Framing {
    /// Outside any envelope: accepted, though senders should wrap it.
    Bare,
    /// As the only element of an envelope.
    Enveloped,
}

/// Why an envelope is refused.
#[derive(Clone, Copy, Debug, PartialEq, Eq, Structural)]
pub enum EnvelopeError {
    /// The envelope holds no element.
    Empty,
    /// The envelope holds more than one element.
    Multiple,
    /// The only element of the envelope is itself an envelope.
    Nested,
}

impl PacketView {
    /// The one message that a packet carries, with the way it was framed,
    /// or the reason why the packet is refused.
    pub open spec fn sole_message(self) -> Result<(MessageView, Framing), EnvelopeError> {
        match self {
            PacketView::Message(m) => Ok((m, Framing::Bare)),
            PacketView::Bundle(items) => if items.len() == 0 {
                Err(EnvelopeError::Empty)
            } else if items.len() > 1 {
                Err(EnvelopeError::Multiple)
            } else {
                match items[0] {
                    ElementView::Message(m) => Ok((m, Framing::Enveloped)),
                    ElementView::Bundle => Err(EnvelopeError::Nested),
                }
            },
        }
    }
}

impl Packet {
    /// Takes the one message out of a packet. A bare message and an envelope
    /// of exactly one message are accepted; an empty envelope, one with
    /// several elements and one that holds another envelope are refused.
    pub fn into_sole_message(self) -> (res: Result<(Message, Framing), EnvelopeError>)
        ensures
            match res {
                Ok((m, framing)) => self@.sole_message() == Ok::<_, EnvelopeError>((m@, framing)),
                Err(e) => self@.sole_message() == Err::<(MessageView, Framing), _>(e),
            },
    {
        match self {
            Packet::Message(m) => Ok((m, Framing::Bare)),
            Packet::Bundle(mut items) => {
                let ghost before = items@;
                if items.len() == 0 {
                    return Err(EnvelopeError::Empty);
                }
                if items.len() != 1 {
                    return Err(EnvelopeError::Multiple);
                }
                match items.pop() {
                    Some(Element::Message(m)) => {
                        assert(before.map_values(|e: Element| e@)[0] == before[0]@);
                        Ok((m, Framing::Enveloped))
                    },
                    Some(Element::Bundle) => {
                        assert(before.map_values(|e: Element| e@)[0] == before[0]@);
                        Err(EnvelopeError::Nested)
                    },
                    None => vstd::pervasive::unreached(),
                }
            },
        }
    }
}

} // verus!
