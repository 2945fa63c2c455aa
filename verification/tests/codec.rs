use lay_mitouosc::message::{Kind, MessageError, Request, Response, BIT_CLEAR, BIT_SET};
use lay_mitouosc::packet::{Arg, Element, EnvelopeError, Framing, Message, Packet};

fn message(addr: &str, args: Vec<Arg>) -> Message {
    Message { addr: addr.to_string(), args }
}

fn all_requests() -> Vec<Request> {
    vec![
        Request::InitZero(0, 0),
        Request::X(1, 2),
        Request::Y(-1, 7),
        Request::Z(3, -4),
        Request::H(i32::MAX, i32::MIN),
        Request::S(5, 6),
        Request::Sdg(7, 8),
        Request::T(9, 10),
        Request::Tdg(11, 12),
        Request::CX(1, 2, 3, 4),
        Request::Mz(0, 9),
    ]
}

#[test]
fn request_round_trips_through_its_message() {
    for request in all_requests() {
        assert_eq!(Request::try_from(request.to_message()), Ok(request));
    }
}

#[test]
fn response_round_trips_through_its_message() {
    for response in [
        Response::Mz(0, BIT_CLEAR),
        Response::Mz(0, BIT_SET),
        Response::Mz(-3, 0.25f32.to_bits()),
        Response::Mz(i32::MAX, f32::NAN.to_bits()),
    ] {
        assert_eq!(Response::try_from(response.to_message()), Ok(response));
    }
}

#[test]
fn request_message_has_tag_and_integer_arguments() {
    assert_eq!(
        Request::X(0, 0).to_message(),
        message("/X", vec![Arg::Int(0), Arg::Int(0)])
    );
    assert_eq!(
        Request::InitZero(2, 3).to_message(),
        message("/InitZero", vec![Arg::Int(2), Arg::Int(3)])
    );
    assert_eq!(
        Request::CX(1, 2, 3, 4).to_message(),
        message("/CX", vec![Arg::Int(1), Arg::Int(2), Arg::Int(3), Arg::Int(4)])
    );
    assert_eq!(
        Request::Sdg(-1, 5).to_message(),
        message("/Sdg", vec![Arg::Int(-1), Arg::Int(5)])
    );
}

#[test]
fn every_kind_has_its_tag() {
    let tags = [
        (Kind::InitZero, "/InitZero"),
        (Kind::X, "/X"),
        (Kind::Y, "/Y"),
        (Kind::Z, "/Z"),
        (Kind::H, "/H"),
        (Kind::S, "/S"),
        (Kind::Sdg, "/Sdg"),
        (Kind::T, "/T"),
        (Kind::Tdg, "/Tdg"),
        (Kind::CX, "/CX"),
        (Kind::Mz, "/Mz"),
    ];
    for (kind, tag) in tags {
        assert_eq!(kind.tag(), tag);
        assert_eq!(Kind::from_address(&tag.to_string()), Some(kind));
    }
    for request in all_requests() {
        assert_eq!(request.to_message().addr, request.kind().tag());
    }
}

#[test]
fn address_match_is_exact() {
    for addr in ["", "/", "X", "/x", "/X ", "/XX", "/Sdg/", "/Foo", "/mz", "/InitZer"] {
        assert_eq!(Kind::from_address(&addr.to_string()), None);
    }
}

#[test]
fn unknown_address_is_invalid_address() {
    let res = Request::try_from(message("/Foo", vec![Arg::Int(0), Arg::Int(0)]));
    assert_eq!(res, Err(MessageError::InvalidAddr("/Foo".to_string())));
    let res = Request::try_from(message("/Foo", vec![]));
    assert_eq!(res, Err(MessageError::InvalidAddr("/Foo".to_string())));
    // Whatever the arguments are.
    for args in [
        vec![Arg::Float(0)],
        vec![Arg::Other, Arg::Int(1)],
        vec![Arg::Int(0), Arg::Other],
        vec![Arg::Int(0), Arg::Int(1), Arg::Int(2)],
        vec![Arg::Float(1), Arg::Float(2), Arg::Other, Arg::Int(3), Arg::Int(4)],
    ] {
        let res = Request::try_from(message("/Foo", args.clone()));
        assert_eq!(res, Err(MessageError::InvalidAddr("/Foo".to_string())));
        let res = Response::try_from(message("/Foo", args));
        assert_eq!(res, Err(MessageError::InvalidAddr("/Foo".to_string())));
    }
    let res = Response::try_from(message("/Foo", vec![Arg::Int(0), Arg::Float(0)]));
    assert_eq!(res, Err(MessageError::InvalidAddr("/Foo".to_string())));
    let res = Response::try_from(message("/X", vec![Arg::Int(0), Arg::Float(0)]));
    assert_eq!(res, Err(MessageError::InvalidAddr("/X".to_string())));
}

#[test]
fn request_with_argument_of_wrong_type_is_invalid_arguments() {
    let res = Request::try_from(message("/X", vec![Arg::Int(0), Arg::Float(0)]));
    assert_eq!(res, Err(MessageError::InvalidArgs));
    let res = Request::try_from(message("/X", vec![Arg::Other, Arg::Int(0)]));
    assert_eq!(res, Err(MessageError::InvalidArgs));
    let res = Request::try_from(message("/CX", vec![Arg::Int(0), Arg::Int(1), Arg::Other, Arg::Int(3)]));
    assert_eq!(res, Err(MessageError::InvalidArgs));
    // The address is looked at before the arguments.
    let res = Request::try_from(message("/Foo", vec![Arg::Int(0), Arg::Other]));
    assert_eq!(res, Err(MessageError::InvalidAddr("/Foo".to_string())));
}

#[test]
fn request_with_wrong_number_of_arguments_is_invalid_arguments() {
    for args in [
        vec![],
        vec![Arg::Int(1)],
        vec![Arg::Int(1), Arg::Int(2), Arg::Int(3)],
        vec![Arg::Int(1), Arg::Int(2), Arg::Int(3), Arg::Int(4)],
    ] {
        assert_eq!(Request::try_from(message("/X", args.clone())), Err(MessageError::InvalidArgs));
        assert_eq!(Request::try_from(message("/Mz", args)), Err(MessageError::InvalidArgs));
    }
    for args in [
        vec![],
        vec![Arg::Int(1), Arg::Int(2)],
        vec![Arg::Int(1), Arg::Int(2), Arg::Int(3)],
        vec![Arg::Int(1), Arg::Int(2), Arg::Int(3), Arg::Int(4), Arg::Int(5)],
    ] {
        assert_eq!(Request::try_from(message("/CX", args)), Err(MessageError::InvalidArgs));
    }
}

#[test]
fn response_with_wrong_arguments_is_invalid_arguments() {
    for args in [
        vec![],
        vec![Arg::Int(0)],
        vec![Arg::Float(0), Arg::Int(0)],
        vec![Arg::Int(0), Arg::Int(1)],
        vec![Arg::Int(0), Arg::Other],
        vec![Arg::Int(0), Arg::Float(0), Arg::Float(0)],
    ] {
        assert_eq!(Response::try_from(message("/Mz", args)), Err(MessageError::InvalidArgs));
    }
}

#[test]
fn response_message_has_index_and_number() {
    assert_eq!(
        Response::Mz(0, BIT_SET).to_message(),
        message("/Mz", vec![Arg::Int(0), Arg::Float(1.0f32.to_bits())])
    );
    assert_eq!(
        Response::try_from(message("/Mz", vec![Arg::Int(4), Arg::Float(0.5f32.to_bits())])),
        Ok(Response::Mz(4, 0.5f32.to_bits()))
    );
}

#[test]
fn measured_bit_is_zero_or_one() {
    assert_eq!(BIT_CLEAR, 0.0f32.to_bits());
    assert_eq!(BIT_SET, 1.0f32.to_bits());
    assert_eq!(Response::measured(true), Response::Mz(0, 1.0f32.to_bits()));
    assert_eq!(Response::measured(false), Response::Mz(0, 0.0f32.to_bits()));
    assert!(Response::measured(true).bit());
    assert!(!Response::measured(false).bit());
}

#[test]
fn bit_of_a_response_is_whether_its_number_cut_to_an_integer_is_one() {
    let samples = [
        0.0f32,
        -0.0,
        0.5,
        0.999_999_94,
        1.0,
        1.000_000_1,
        1.5,
        1.999_999_9,
        2.0,
        3.0,
        -1.0,
        -1.5,
        1.0e9,
        4.0e9,
        f32::MIN_POSITIVE,
        f32::MAX,
        f32::MIN,
        f32::INFINITY,
        f32::NEG_INFINITY,
        f32::NAN,
        -f32::NAN,
    ];
    for value in samples {
        assert_eq!(
            Response::Mz(0, value.to_bits()).bit(),
            (value as u32) == 1,
            "value {}",
            value
        );
    }
    assert!(Response::Mz(0, 0x3f80_0000).bit());
    assert!(Response::Mz(0, 0x3fff_ffff).bit());
    assert!(!Response::Mz(0, 0x3f7f_ffff).bit());
    assert!(!Response::Mz(0, 0x4000_0000).bit());
    assert!(!Response::Mz(0, 0xbf80_0000).bit());
}

#[test]
fn bare_message_is_accepted() {
    let m = message("/X", vec![Arg::Int(0), Arg::Int(0)]);
    assert_eq!(Packet::Message(m.clone()).into_sole_message(), Ok((m, Framing::Bare)));
}

#[test]
fn envelope_of_one_message_is_accepted() {
    let m = message("/Mz", vec![Arg::Int(0), Arg::Int(1)]);
    let packet = Packet::Bundle(vec![Element::Message(m.clone())]);
    assert_eq!(packet.into_sole_message(), Ok((m, Framing::Enveloped)));
}

#[test]
fn empty_envelope_is_refused() {
    assert_eq!(Packet::Bundle(vec![]).into_sole_message(), Err(EnvelopeError::Empty));
}

#[test]
fn envelope_of_several_is_refused() {
    let m = message("/X", vec![Arg::Int(0), Arg::Int(0)]);
    let two = Packet::Bundle(vec![Element::Message(m.clone()), Element::Message(m.clone())]);
    assert_eq!(two.into_sole_message(), Err(EnvelopeError::Multiple));
    let mixed = Packet::Bundle(vec![Element::Bundle, Element::Message(m.clone()), Element::Bundle]);
    assert_eq!(mixed.into_sole_message(), Err(EnvelopeError::Multiple));
    let nested_twice = Packet::Bundle(vec![Element::Bundle, Element::Bundle]);
    assert_eq!(nested_twice.into_sole_message(), Err(EnvelopeError::Multiple));
}

#[test]
fn nested_envelope_is_refused() {
    assert_eq!(
        Packet::Bundle(vec![Element::Bundle]).into_sole_message(),
        Err(EnvelopeError::Nested)
    );
}

#[test]
fn one_qubit_request_is_built_from_its_kind() {
    assert_eq!(Request::at(Kind::H, 3, 4), Request::H(3, 4));
    assert_eq!(Request::at(Kind::Mz, -3, 4), Request::Mz(-3, 4));
    assert_eq!(Request::at(Kind::InitZero, 0, 1), Request::InitZero(0, 1));
    assert_eq!(Request::CX(0, 1, 2, 3).kind(), Kind::CX);
}
