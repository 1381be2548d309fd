use ancs_relay::ancs::control_point::{
    ActionID, AppAttributeCmd, AppAttributeID, CategoryID, CommandID, EventID,
    NotificationAttributeCmd, NotificationAttributeID, MAX_ATTRIBUTE_LENGTH,
};
use ancs_relay::ancs::error::AncsError;
use rand::Rng;

#[test]
fn little_endian() {
    for _ in 0..1000 {
        let mut rng = rand::thread_rng();
        let i: u32 = rng.gen();
        let buffer = NotificationAttributeCmd::new(i, Vec::new()).to_buffer();
        assert_eq!(i.to_le_bytes(), buffer.as_slice());
    }
}

#[test]
fn notification_attributes() {
    let buffer =
        NotificationAttributeCmd::new(2, vec![NotificationAttributeID::Title]).to_buffer();
    assert_eq!(buffer, vec![2, 0, 0, 0, 1, 255, 255]);
}

#[test]
fn identifier_follows_the_command_byte() {
    for id in [0u32, 1, 255, 256, 65535, 65536, 0x0403_0201, 0xdead_beef, u32::MAX] {
        let packet = NotificationAttributeCmd::new(id, vec![NotificationAttributeID::Date]).encode();
        assert_eq!(packet[0], 0);
        assert_eq!(&packet[1..5], &id.to_le_bytes());
        assert_eq!(packet.len(), 6);
    }
}

#[test]
fn encode_is_command_byte_then_buffer() {
    let cmd = NotificationAttributeCmd::new(
        0x0403_0201,
        vec![NotificationAttributeID::Title, NotificationAttributeID::Message],
    );
    assert_eq!(cmd.to_buffer(), vec![1, 2, 3, 4, 1, 255, 255, 3, 255, 255]);
    assert_eq!(cmd.encode(), vec![0, 1, 2, 3, 4, 1, 255, 255, 3, 255, 255]);
}

#[test]
fn only_free_text_attributes_carry_a_maximum_length() {
    let all = vec![
        NotificationAttributeID::AppIdentifier,
        NotificationAttributeID::Title,
        NotificationAttributeID::Subtitle,
        NotificationAttributeID::Message,
        NotificationAttributeID::MessageSize,
        NotificationAttributeID::Date,
        NotificationAttributeID::PositiveActionLabel,
        NotificationAttributeID::NegativeActionLabel,
    ];
    let buffer = NotificationAttributeCmd::new(7, all).to_buffer();
    assert_eq!(
        buffer,
        vec![7, 0, 0, 0, 0, 1, 255, 255, 2, 255, 255, 3, 255, 255, 4, 5, 6, 7]
    );
    assert_eq!(MAX_ATTRIBUTE_LENGTH, 0xFFFF);
    assert!(NotificationAttributeID::Title.needs_max_length());
    assert!(NotificationAttributeID::Subtitle.needs_max_length());
    assert!(NotificationAttributeID::Message.needs_max_length());
    assert!(!NotificationAttributeID::AppIdentifier.needs_max_length());
    assert!(!NotificationAttributeID::MessageSize.needs_max_length());
    assert!(!NotificationAttributeID::Date.needs_max_length());
    assert!(!NotificationAttributeID::PositiveActionLabel.needs_max_length());
    assert!(!NotificationAttributeID::NegativeActionLabel.needs_max_length());
}

#[test]
fn encoding_keeps_the_order_given() {
    let forward = NotificationAttributeCmd::new(
        1,
        vec![NotificationAttributeID::Date, NotificationAttributeID::Title],
    )
    .to_buffer();
    let backward = NotificationAttributeCmd::new(
        1,
        vec![NotificationAttributeID::Title, NotificationAttributeID::Date],
    )
    .to_buffer();
    assert_eq!(forward, vec![1, 0, 0, 0, 5, 1, 255, 255]);
    assert_eq!(backward, vec![1, 0, 0, 0, 1, 255, 255, 5]);
    let repeated = NotificationAttributeCmd::new(
        1,
        vec![NotificationAttributeID::Date, NotificationAttributeID::Date],
    )
    .to_buffer();
    assert_eq!(repeated, vec![1, 0, 0, 0, 5, 5]);
}

#[test]
fn request_without_attributes_is_the_identifier() {
    let cmd = NotificationAttributeCmd::new(0x8000_0001, Vec::new());
    assert_eq!(cmd.to_buffer(), vec![1, 0, 0, 0x80]);
    assert_eq!(cmd.encode(), vec![0, 1, 0, 0, 0x80]);
    assert_eq!(cmd.notification_id, 0x8000_0001);
    assert!(cmd.attributes.is_empty());
}

#[test]
fn app_request_carries_identifier_and_attributes() {
    let cmd = AppAttributeCmd::new("com.app\0".to_string(), vec![AppAttributeID::Displayname]);
    assert_eq!(cmd.to_buffer(), b"com.app\0\0".to_vec());
    let mut expected = vec![1u8];
    expected.extend_from_slice(b"com.app\0");
    expected.push(0);
    assert_eq!(cmd.encode(), expected);
}

#[test]
fn app_request_appends_no_terminator() {
    let cmd = AppAttributeCmd::new("ab".to_string(), Vec::new());
    assert_eq!(cmd.to_buffer(), vec![b'a', b'b']);
    assert_eq!(cmd.encode(), vec![1, b'a', b'b']);
    let empty = AppAttributeCmd::new(String::new(), Vec::new());
    assert_eq!(empty.to_buffer(), Vec::<u8>::new());
    assert_eq!(empty.encode(), vec![1]);
}

#[test]
fn app_request_encodes_text_as_utf8() {
    let cmd = AppAttributeCmd::new("é\0".to_string(), vec![AppAttributeID::Displayname]);
    assert_eq!(cmd.to_buffer(), vec![0xc3, 0xa9, 0, 0]);
}

#[test]
fn app_request_from_bytes_refuses_invalid_utf8() {
    let result = AppAttributeCmd::from_bytes(&vec![b'a', 0xff, 0], vec![AppAttributeID::Displayname]);
    assert!(matches!(result, Err(AncsError::EncodingInvalid)));
    let truncated = AppAttributeCmd::from_bytes(&vec![0xc3], Vec::new());
    assert!(matches!(truncated, Err(AncsError::EncodingInvalid)));
}

#[test]
fn app_request_from_bytes_keeps_the_bytes() {
    let bytes = b"com.apple.mobilemail\0".to_vec();
    let cmd = AppAttributeCmd::from_bytes(&bytes, vec![AppAttributeID::Displayname]).unwrap();
    assert_eq!(cmd.app_identifier, "com.apple.mobilemail\0");
    let mut expected = bytes.clone();
    expected.push(0);
    assert_eq!(cmd.to_buffer(), expected);
    let accented = AppAttributeCmd::from_bytes(&vec![0xc3, 0xa9], Vec::new()).unwrap();
    assert_eq!(accented.app_identifier, "é");
}

#[test]
fn identifiers_have_their_wire_values() {
    assert_eq!(EventID::NotificationAdded.to_u8(), 0);
    assert_eq!(EventID::NotificationModified.to_u8(), 1);
    assert_eq!(EventID::NotificationRemoved.to_u8(), 2);
    assert_eq!(CommandID::GetNotificationAttributes.to_u8(), 0);
    assert_eq!(CommandID::GetAppAttributes.to_u8(), 1);
    assert_eq!(CommandID::PerformNotificationAction.to_u8(), 2);
    assert_eq!(ActionID::Positive.to_u8(), 0);
    assert_eq!(ActionID::Negative.to_u8(), 1);
    assert_eq!(AppAttributeID::Displayname.to_u8(), 0);
    assert_eq!(CategoryID::Other.to_u8(), 0);
    assert_eq!(CategoryID::IncomingCall.to_u8(), 1);
    assert_eq!(CategoryID::Email.to_u8(), 6);
    assert_eq!(CategoryID::Entertainment.to_u8(), 11);
    assert_eq!(NotificationAttributeID::AppIdentifier.to_u8(), 0);
    assert_eq!(NotificationAttributeID::Title.to_u8(), 1);
    assert_eq!(NotificationAttributeID::Subtitle.to_u8(), 2);
    assert_eq!(NotificationAttributeID::Message.to_u8(), 3);
    assert_eq!(NotificationAttributeID::MessageSize.to_u8(), 4);
    assert_eq!(NotificationAttributeID::Date.to_u8(), 5);
    assert_eq!(NotificationAttributeID::PositiveActionLabel.to_u8(), 6);
    assert_eq!(NotificationAttributeID::NegativeActionLabel.to_u8(), 7);
}

#[test]
fn identifiers_round_trip_through_their_bytes() {
    for byte in 0..=255u8 {
        match CategoryID::from_u8(byte) {
            Some(category) => assert_eq!(category.to_u8(), byte),
            None => assert!(byte > 11),
        }
        match EventID::from_u8(byte) {
            Some(event) => assert_eq!(event.to_u8(), byte),
            None => assert!(byte > 2),
        }
        match CommandID::from_u8(byte) {
            Some(command) => assert_eq!(command.to_u8(), byte),
            None => assert!(byte > 2),
        }
        match NotificationAttributeID::from_u8(byte) {
            Some(attribute) => assert_eq!(attribute.to_u8(), byte),
            None => assert!(byte > 7),
        }
        match ActionID::from_u8(byte) {
            Some(action) => assert_eq!(action.to_u8(), byte),
            None => assert!(byte > 1),
        }
        match AppAttributeID::from_u8(byte) {
            Some(attribute) => assert_eq!(attribute.to_u8(), byte),
            None => assert!(byte > 0),
        }
    }
    assert_eq!(EventID::from_u8(2), Some(EventID::NotificationRemoved));
    assert_eq!(EventID::from_u8(3), None);
    assert_eq!(CategoryID::from_u8(11), Some(CategoryID::Entertainment));
    assert_eq!(CategoryID::from_u8(12), None);
    assert_eq!(NotificationAttributeID::from_u8(8), None);
}
