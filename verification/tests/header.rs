use scmi::protocol::field_prep;
use scmi::protocol::genmask;
use scmi::protocol::mask_to_max;
use scmi::protocol::MSG_ID_MASK;
use scmi::protocol::MSG_PROTOCOL_ID_MASK;
use scmi::protocol::MSG_TOKEN_ID_MASK;
use scmi::protocol::MSG_TYPE_MASK;
use scmi::MsgType;
use scmi::ScmiError;
use scmi::ScmiMsgHdr;

fn header(id: u8, type_: MsgType, protocol_id: u8, seq: u16) -> ScmiMsgHdr {
    ScmiMsgHdr {
        id,
        protocol_id,
        type_,
        seq,
        status: 0,
        poll_completion: false,
    }
}

#[test]
fn genmask_builds_the_fixed_masks() {
    assert_eq!(genmask(7, 0), MSG_ID_MASK);
    assert_eq!(genmask(9, 8), MSG_TYPE_MASK);
    assert_eq!(genmask(17, 10), MSG_PROTOCOL_ID_MASK);
    assert_eq!(genmask(27, 18), MSG_TOKEN_ID_MASK);
    assert_eq!(genmask(31, 0), u32::MAX);
    assert_eq!(genmask(0, 0), 1);
}

#[test]
fn genmask_empty_or_overflowing_ranges_are_zero() {
    assert_eq!(genmask(3, 7), 0);
    assert_eq!(genmask(32, 0), 0);
    assert_eq!(genmask(5, 32), 0);
}

#[test]
fn mask_to_max_gives_field_maxima() {
    assert_eq!(mask_to_max(MSG_ID_MASK), 0xff);
    assert_eq!(mask_to_max(MSG_TYPE_MASK), 0x3);
    assert_eq!(mask_to_max(MSG_PROTOCOL_ID_MASK), 0xff);
    assert_eq!(mask_to_max(MSG_TOKEN_ID_MASK), 0x3ff);
    assert_eq!(mask_to_max(0), 0);
}

#[test]
fn field_prep_places_and_truncates() {
    assert_eq!(field_prep(MSG_ID_MASK, 0x42), 0x42);
    assert_eq!(field_prep(MSG_TYPE_MASK, 3), 0x300);
    assert_eq!(field_prep(MSG_TYPE_MASK, 4), 0);
    assert_eq!(field_prep(MSG_TOKEN_ID_MASK, 1), 1 << 18);
}

#[test]
fn pack_round_trips_each_field() {
    let h = header(0xab, MsgType::DelayedResponse, 0x14, 999);
    let packed = h.pack();
    assert_eq!(packed & MSG_ID_MASK, 0xab);
    assert_eq!((packed & MSG_TYPE_MASK) >> 8, 2);
    assert_eq!((packed & MSG_PROTOCOL_ID_MASK) >> 10, 0x14);
    assert_eq!((packed & MSG_TOKEN_ID_MASK) >> 18, 999);
    assert_eq!(packed & 0xf000_0000, 0);
}

#[test]
fn pack_token_boundary_values() {
    let in_range = header(1, MsgType::Command, 2, 1023);
    assert_eq!((in_range.pack() & MSG_TOKEN_ID_MASK) >> 18, 1023);

    // 1024 exceeds the ten-bit field and is truncated, not rejected.
    let truncated = header(1, MsgType::Command, 2, 1024);
    assert_eq!((truncated.pack() & MSG_TOKEN_ID_MASK) >> 18, 0);

    let truncated_high = header(1, MsgType::Command, 2, 0x7fff);
    assert_eq!((truncated_high.pack() & MSG_TOKEN_ID_MASK) >> 18, 0x3ff);
}

#[test]
fn pack_zero_header_is_zero() {
    let h = header(0, MsgType::Command, 0, 0);
    assert_eq!(h.pack(), 0);
}

#[test]
fn clear_status_only_clears_status() {
    let mut h = header(7, MsgType::Notification, 0x11, 5);
    h.status = 0xdead_beef;
    h.clear_status();
    assert_eq!(h.status, 0);
    assert_eq!(h.id, 7);
    assert_eq!(h.protocol_id, 0x11);
    assert_eq!(h.seq, 5);
}

#[test]
fn status_zero_maps_to_success() {
    let mut h = header(0, MsgType::Command, 0, 0);
    h.status = 0;
    assert!(h.to_result().is_ok());
}

#[test]
fn status_mapping_full_table() {
    assert_eq!(ScmiError::from_status(0), Ok(()));
    assert_eq!(ScmiError::from_status(-1), Err(ScmiError::NotSupported));
    assert_eq!(ScmiError::from_status(-2), Err(ScmiError::InvalidParameters));
    assert_eq!(ScmiError::from_status(-3), Err(ScmiError::Denied));
    assert_eq!(ScmiError::from_status(-4), Err(ScmiError::NotFound));
    assert_eq!(ScmiError::from_status(-5), Err(ScmiError::OutOfRange));
    assert_eq!(ScmiError::from_status(-6), Err(ScmiError::Busy));
    assert_eq!(ScmiError::from_status(-7), Err(ScmiError::CommsError));
    assert_eq!(ScmiError::from_status(-8), Err(ScmiError::GenericError));
    assert_eq!(ScmiError::from_status(-9), Err(ScmiError::HardwareError));
    assert_eq!(ScmiError::from_status(-10), Err(ScmiError::ProtocolError));
    // codes outside the table are reported as the generic platform error
    assert_eq!(ScmiError::from_status(-11), Err(ScmiError::GenericError));
    assert_eq!(ScmiError::from_status(-100), Err(ScmiError::GenericError));
    assert_eq!(ScmiError::from_status(1), Err(ScmiError::GenericError));
}

#[test]
fn status_word_is_read_as_signed() {
    let mut h = header(0, MsgType::Command, 0, 0);
    h.status = (-1i32) as u32;
    assert_eq!(h.to_result(), Err(ScmiError::NotSupported));
}

#[test]
fn msg_type_wire_values() {
    assert_eq!(MsgType::Command.value(), 0);
    assert_eq!(MsgType::DelayedResponse.value(), 2);
    assert_eq!(MsgType::Notification.value(), 3);
}

#[test]
fn std_protocol_identifiers() {
    assert_eq!(scmi::ScmiStdProtocol::Base.protocol_id(), 0x10);
    assert_eq!(scmi::ScmiStdProtocol::Clock.protocol_id(), 0x14);
    assert_eq!(scmi::ScmiStdProtocol::Powercap.protocol_id(), 0x18);
}
