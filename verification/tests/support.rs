use ancs_relay::connection::{App, AppState, AppStep};
use ancs_relay::ancs::notification_source::NotificationEvent;
use ancs_relay::text::{decode_text, push_decimal, push_field, push_number};
use ancs_relay::utils::{find_characteristic, GattService};
use ancs_relay::wire::{push_u16_le, push_u32_le, read_u16_le, read_u32_le};

#[test]
fn integers_are_read_least_significant_byte_first() {
    assert_eq!(read_u16_le(0x34, 0x12), 0x1234);
    assert_eq!(read_u16_le(0xff, 0xff), 0xffff);
    assert_eq!(read_u16_le(0, 0), 0);
    assert_eq!(read_u16_le(1, 0), 1);
    assert_eq!(read_u16_le(0, 1), 256);
    let bytes = vec![9, 0x78, 0x56, 0x34, 0x12, 9];
    assert_eq!(read_u32_le(&bytes, 1), 0x1234_5678);
    assert_eq!(read_u32_le(&vec![1, 2, 3, 4], 0), 67305985);
    assert_eq!(read_u32_le(&vec![255, 255, 255, 255], 0), u32::MAX);
}

#[test]
fn integers_are_written_least_significant_byte_first() {
    let mut out = vec![7u8];
    push_u32_le(&mut out, 0x1234_5678);
    assert_eq!(out, vec![7, 0x78, 0x56, 0x34, 0x12]);
    push_u16_le(&mut out, 0xabcd);
    assert_eq!(out, vec![7, 0x78, 0x56, 0x34, 0x12, 0xcd, 0xab]);
    let mut out = Vec::new();
    push_u32_le(&mut out, u32::MAX);
    push_u32_le(&mut out, 0);
    assert_eq!(out, vec![255, 255, 255, 255, 0, 0, 0, 0]);
    for value in [0u32, 1, 255, 256, 65535, 65536, 0x00ff_ff00, u32::MAX] {
        let mut out = Vec::new();
        push_u32_le(&mut out, value);
        assert_eq!(out, value.to_le_bytes());
        assert_eq!(read_u32_le(&out, 0), value);
    }
    for value in [0u16, 1, 255, 256, u16::MAX] {
        let mut out = Vec::new();
        push_u16_le(&mut out, value);
        assert_eq!(out, value.to_le_bytes());
        assert_eq!(read_u16_le(out[0], out[1]), value);
    }
}

#[test]
fn numbers_are_written_in_decimal() {
    for (number, text) in [
        (0u32, "0"),
        (7, "7"),
        (9, "9"),
        (10, "10"),
        (99, "99"),
        (100, "100"),
        (1234567890, "1234567890"),
        (u32::MAX, "4294967295"),
    ] {
        let mut out = String::new();
        push_decimal(&mut out, number);
        assert_eq!(out, text);
    }
    let mut out = "n=".to_string();
    push_decimal(&mut out, 305);
    assert_eq!(out, "n=305");
    push_number(&mut out, " id: ", 12);
    assert_eq!(out, "n=305 id: 12");
}

#[test]
fn fields_are_written_where_they_are_set() {
    let mut out = "x".to_string();
    push_field(&mut out, " title: ", &Some("T".to_string()));
    assert_eq!(out, "x title: T");
    push_field(&mut out, " message: ", &None);
    assert_eq!(out, "x title: T");
}

#[test]
fn text_is_decoded_from_a_range() {
    let bytes = b"..hello..".to_vec();
    assert_eq!(decode_text(&bytes, 2, 7).as_deref(), Some("hello"));
    assert_eq!(decode_text(&bytes, 4, 4).as_deref(), Some(""));
    let bytes = vec![b'a', 0xe2, 0x9c, 0x93, b'b'];
    assert_eq!(decode_text(&bytes, 0, 5).as_deref(), Some("a✓b"));
    assert_eq!(decode_text(&bytes, 1, 4).as_deref(), Some("✓"));
    assert_eq!(decode_text(&bytes, 0, 2), None);
    assert_eq!(decode_text(&bytes, 2, 5), None);
    assert_eq!(decode_text(&vec![0xc0, 0x80], 0, 2), None);
    assert_eq!(decode_text(&vec![0xed, 0xa0, 0x80], 0, 3), None);
}

fn service(uuid: u128, characteristics: &[u128]) -> GattService {
    GattService { uuid, characteristics: characteristics.to_vec() }
}

#[test]
fn characteristic_is_found_in_its_service() {
    let services = vec![service(1, &[10, 11]), service(2, &[20, 21, 22]), service(3, &[])];
    assert_eq!(find_characteristic(&services, 2, 21), Some((1, 1)));
    assert_eq!(find_characteristic(&services, 1, 10), Some((0, 0)));
    assert_eq!(find_characteristic(&services, 2, 22), Some((1, 2)));
}

#[test]
fn characteristic_of_another_service_is_not_found() {
    let services = vec![service(1, &[10, 11]), service(2, &[20, 21, 22]), service(3, &[])];
    assert_eq!(find_characteristic(&services, 1, 20), None);
    assert_eq!(find_characteristic(&services, 3, 10), None);
    assert_eq!(find_characteristic(&services, 4, 10), None);
    assert_eq!(find_characteristic(&Vec::new(), 1, 10), None);
}

#[test]
fn first_characteristic_in_order_of_discovery_is_found() {
    let services = vec![
        service(1, &[10]),
        service(2, &[20]),
        service(1, &[11, 12, 12]),
        service(1, &[12]),
    ];
    assert_eq!(find_characteristic(&services, 1, 12), Some((2, 1)));
    assert_eq!(find_characteristic(&services, 1, 10), Some((0, 0)));
}

#[test]
fn connection_advances_one_step_on_success() {
    let mut app = App::new();
    assert_eq!(app.state(), AppState::Init);
    assert_eq!(app.next_step(), AppStep::FindDevice);
    app.advance(false);
    assert_eq!(app.state(), AppState::Init);
    app.advance(true);
    assert_eq!(app.state(), AppState::FoundDevice);
    assert_eq!(app.next_step(), AppStep::StartListener);
    app.advance(false);
    assert_eq!(app.state(), AppState::FoundDevice);
    app.advance(true);
    assert_eq!(app.state(), AppState::RunningANCS);
    assert_eq!(app.next_step(), AppStep::Receive);
    app.advance(false);
    assert_eq!(app.state(), AppState::RunningANCS);
    app.advance(true);
    assert_eq!(app.state(), AppState::RunningANCS);
}

#[test]
fn connection_records_each_notification_once() {
    let mut app = App::new();
    let event = NotificationEvent {
        event_id: 0,
        event_flags: 0,
        category_id: 0,
        category_count: 0,
        notification_id: 3,
    };
    assert!(app.record(&event));
    assert!(!app.record(&event));
    assert_eq!(app.notifications().len(), 1);
    assert!(app.notifications().contains(3));
    assert_eq!(app.state(), AppState::Init);
}
