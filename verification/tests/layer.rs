use lay::operations::opid;
use lay_mitouosc::buffer::{MitouOscBuffer, Received};
use lay_mitouosc::layer::{signed, reach, MitouOscLayer, Operation, SendError};
use lay_mitouosc::message::Request;

#[test]
fn one_qubit_gates_are_lowered_one_to_one() {
    let layer = MitouOscLayer::new((4, 4));
    let q = (2, 3);
    let table = [
        (opid::X, Request::X(2, 3)),
        (opid::Y, Request::Y(2, 3)),
        (opid::Z, Request::Z(2, 3)),
        (opid::H, Request::H(2, 3)),
        (opid::S, Request::S(2, 3)),
        (opid::SDG, Request::Sdg(2, 3)),
        (opid::T, Request::T(2, 3)),
        (opid::TDG, Request::Tdg(2, 3)),
    ];
    for (id, request) in table {
        assert_eq!(layer.lower(Operation::Q(id, q)), Ok(vec![request]));
    }
}

#[test]
fn controlled_x_and_measurement_are_lowered() {
    let layer = MitouOscLayer::new((4, 4));
    assert_eq!(
        layer.lower(Operation::QQ(opid::CX, (0, 1), (2, 3))),
        Ok(vec![Request::CX(0, 1, 2, 3)])
    );
    assert_eq!(layer.lower(Operation::QS(opid::MEAS, (1, 2), (1, 2))), Ok(vec![Request::Mz(1, 2)]));
}

#[test]
fn initialisation_resets_the_grid_row_by_row() {
    let layer = MitouOscLayer::new((3, 2));
    assert_eq!(
        layer.lower(Operation::Empty(opid::INIT)),
        Ok(vec![
            Request::InitZero(0, 0),
            Request::InitZero(1, 0),
            Request::InitZero(2, 0),
            Request::InitZero(0, 1),
            Request::InitZero(1, 1),
            Request::InitZero(2, 1),
        ])
    );
    assert_eq!(MitouOscLayer::new((0, 5)).lower(Operation::Empty(opid::INIT)), Ok(vec![]));
    assert_eq!(MitouOscLayer::new((5, 0)).lower(Operation::Empty(opid::INIT)), Ok(vec![]));
    assert_eq!(
        MitouOscLayer::new((1, 1)).lower(Operation::Empty(opid::INIT)),
        Ok(vec![Request::InitZero(0, 0)])
    );
}

#[test]
fn extent_beyond_the_signed_range_is_not_counted() {
    assert_eq!(reach(0), 0);
    assert_eq!(reach(7), 7);
    assert_eq!(reach(0x7fff_ffff), i32::MAX);
    assert_eq!(reach(0x8000_0000), 0);
    assert_eq!(reach(u32::MAX), 0);
    assert_eq!(MitouOscLayer::new((0x8000_0000, 1)).lower(Operation::Empty(opid::INIT)), Ok(vec![]));
    assert_eq!(MitouOscLayer::new((2, u32::MAX)).lower(Operation::Empty(opid::INIT)), Ok(vec![]));
}

#[test]
fn coordinate_keeps_its_bits() {
    assert_eq!(signed(0), 0);
    assert_eq!(signed(5), 5);
    assert_eq!(signed(0x7fff_ffff), i32::MAX);
    assert_eq!(signed(0x8000_0000), i32::MIN);
    assert_eq!(signed(u32::MAX), -1);
    let layer = MitouOscLayer::new((4, 4));
    assert_eq!(
        layer.lower(Operation::Q(opid::X, (u32::MAX, 0x8000_0001))),
        Ok(vec![Request::X(-1, i32::MIN + 1)])
    );
}

#[test]
fn measurement_into_another_slot_is_refused() {
    let layer = MitouOscLayer::new((4, 4));
    assert_eq!(
        layer.lower(Operation::QS(opid::MEAS, (1, 2), (2, 1))),
        Err(SendError::SlotMismatch)
    );
    assert_eq!(
        layer.lower(Operation::QS(opid::MEAS, (1, 2), (1, 3))),
        Err(SendError::SlotMismatch)
    );
    assert_eq!(
        layer.lower(Operation::QS(opid::MEAS, (1, 2), (0, 2))),
        Err(SendError::SlotMismatch)
    );
}

#[test]
fn unknown_one_qubit_gate_is_refused() {
    let layer = MitouOscLayer::new((4, 4));
    for id in [0, opid::INIT, opid::MEAS, opid::CX, opid::USERDEF, 12, u16::MAX] {
        assert_eq!(layer.lower(Operation::Q(id, (0, 0))), Err(SendError::UnexpectedGate));
    }
}

#[test]
fn operation_of_unknown_shape_is_refused() {
    let layer = MitouOscLayer::new((4, 4));
    for id in [0, opid::MEAS, opid::X, opid::CX, opid::USERDEF] {
        assert_eq!(layer.lower(Operation::Empty(id)), Err(SendError::UnexpectedOperation));
    }
    for id in [0, opid::INIT, opid::X, opid::CX] {
        assert_eq!(
            layer.lower(Operation::QS(id, (0, 0), (0, 0))),
            Err(SendError::UnexpectedOperation)
        );
        assert_eq!(
            layer.lower(Operation::QS(id, (0, 0), (1, 1))),
            Err(SendError::UnexpectedOperation)
        );
    }
    for id in [0, opid::INIT, opid::X, opid::MEAS] {
        assert_eq!(
            layer.lower(Operation::QQ(id, (0, 0), (1, 1))),
            Err(SendError::UnexpectedOperation)
        );
    }
    for id in [opid::INIT, opid::X, opid::MEAS, opid::CX] {
        assert_eq!(layer.lower(Operation::Other(id)), Err(SendError::UnexpectedOperation));
    }
}

#[test]
fn accepted_batch_is_forwarded_in_order_and_ends_with_the_marker() {
    let layer = MitouOscLayer::new((2, 1));
    let plan = layer.send(&[
        Operation::Empty(opid::INIT),
        Operation::Q(opid::H, (0, 0)),
        Operation::QQ(opid::CX, (0, 0), (1, 0)),
        Operation::QS(opid::MEAS, (1, 0), (1, 0)),
    ]);
    assert_eq!(plan.outcome, Ok(()));
    assert_eq!(
        plan.forward,
        vec![
            Some(Request::InitZero(0, 0)),
            Some(Request::InitZero(1, 0)),
            Some(Request::H(0, 0)),
            Some(Request::CX(0, 0, 1, 0)),
            Some(Request::Mz(1, 0)),
            None,
        ]
    );
}

#[test]
fn measurement_is_sent_exactly_when_its_slot_is_its_qubit() {
    let layer = MitouOscLayer::new((4, 4));
    let plan = layer.send(&[Operation::QS(opid::MEAS, (2, 1), (2, 1))]);
    assert_eq!(plan.outcome, Ok(()));
    assert_eq!(plan.forward, vec![Some(Request::Mz(2, 1)), None]);
    for slot in [(1, 2), (2, 0), (3, 1), (0, 0)] {
        let plan = layer.send(&[
            Operation::Q(opid::H, (2, 1)),
            Operation::QS(opid::MEAS, (2, 1), slot),
        ]);
        assert_eq!(plan.outcome, Err(SendError::SlotMismatch));
        assert_eq!(plan.forward, vec![Some(Request::H(2, 1))]);
    }
}

#[test]
fn empty_batch_sends_only_the_marker() {
    let plan = MitouOscLayer::new((2, 2)).send(&[]);
    assert_eq!(plan.outcome, Ok(()));
    assert_eq!(plan.forward, vec![None]);
}

#[test]
fn refused_batch_forwards_what_came_before_and_no_marker() {
    let layer = MitouOscLayer::new((2, 2));
    let plan = layer.send(&[
        Operation::Q(opid::X, (0, 0)),
        Operation::Q(opid::Y, (1, 1)),
        Operation::QS(opid::MEAS, (0, 0), (1, 1)),
        Operation::Q(opid::Z, (0, 0)),
    ]);
    assert_eq!(plan.outcome, Err(SendError::SlotMismatch));
    assert_eq!(plan.forward, vec![Some(Request::X(0, 0)), Some(Request::Y(1, 1))]);

    let plan = layer.send(&[Operation::Q(opid::CX, (0, 0)), Operation::Q(opid::X, (0, 0))]);
    assert_eq!(plan.outcome, Err(SendError::UnexpectedGate));
    assert_eq!(plan.forward, vec![]);

    let plan = layer.send(&[
        Operation::Q(opid::X, (0, 0)),
        Operation::Other(opid::USERDEF),
        Operation::QS(opid::MEAS, (0, 0), (1, 1)),
    ]);
    assert_eq!(plan.outcome, Err(SendError::UnexpectedOperation));
    assert_eq!(plan.forward, vec![Some(Request::X(0, 0))]);
}

#[test]
fn buffer_has_one_clear_bit_for_each_position() {
    let layer = MitouOscLayer::new((3, 2));
    let buf = layer.make_buffer();
    assert_eq!(buf, MitouOscBuffer::new(3, 2));
    for y in 0..2 {
        for x in 0..3 {
            assert!(buf.contains((x, y)));
            assert!(!buf.get((x, y)));
        }
    }
    assert!(!buf.contains((0, 2)));
    assert!(!buf.contains((3, 1)));
    assert!(!buf.contains((u32::MAX, u32::MAX)));
    // A position beyond the end of a row is the one that its index names.
    assert!(buf.contains((3, 0)));
    assert!(!MitouOscBuffer::new(0, 0).contains((0, 0)));
    assert!(!MitouOscBuffer::new(0, 9).contains((0, 0)));
}

#[test]
fn stored_bit_is_read_at_its_slot() {
    let mut buf = MitouOscBuffer::new(3, 2);
    buf.set((1, 1), true);
    for y in 0..2 {
        for x in 0..3 {
            assert_eq!(buf.get((x, y)), (x, y) == (1, 1));
        }
    }
    // Index 4 is that of (1, 1): the width times y, plus x.
    assert!(buf.get((4, 0)));
    buf.set((1, 1), false);
    assert_eq!(buf, MitouOscBuffer::new(3, 2));
}

#[test]
fn results_are_absorbed_until_the_marker() {
    let layer = MitouOscLayer::new((2, 2));
    let mut buf = layer.make_buffer();
    assert_eq!(layer.receive(&mut buf, Some(Some(((1, 0), true)))), Received::More);
    assert_eq!(layer.receive(&mut buf, Some(Some(((0, 1), true)))), Received::More);
    assert_eq!(layer.receive(&mut buf, Some(Some(((1, 0), false)))), Received::More);
    assert_eq!(layer.receive(&mut buf, Some(None)), Received::Done);
    assert!(!buf.get((0, 0)));
    assert!(!buf.get((1, 0)));
    assert!(buf.get((0, 1)));
    assert!(!buf.get((1, 1)));
}

#[test]
fn closed_queue_of_results_breaks_the_batch() {
    let layer = MitouOscLayer::new((2, 2));
    let mut buf = layer.make_buffer();
    assert_eq!(layer.receive(&mut buf, None), Received::Broken);
    assert_eq!(buf, MitouOscBuffer::new(2, 2));
}
