use ancs_relay::ancs::control_point::NotificationAttributeID;
use ancs_relay::ancs::data_source::{AppAttributes, DataSourceMessage, NotificationAttributes};
use ancs_relay::ancs::notification::{ANCSNotification, DisplayAction, RecordState};
use ancs_relay::ancs::notification_source::NotificationEvent;
use ancs_relay::correlator::{inbound_of, Action, Correlator, Inbound, CHANNEL_CAPACITY};
use ancs_relay::display_names::DisplayNameCache;
use ancs_relay::registry::NotificationRegistry;

fn event_of(kind: u8, notification_id: u32) -> NotificationEvent {
    NotificationEvent {
        event_id: kind,
        event_flags: 0,
        category_id: 0,
        category_count: 1,
        notification_id,
    }
}

fn answer_of(notification_id: u32, title: Option<&str>, message: Option<&str>) -> NotificationAttributes {
    let mut answer = NotificationAttributes::empty(notification_id);
    answer.title = title.map(str::to_string);
    answer.message = message.map(str::to_string);
    answer
}

#[test]
fn new_record_is_pending() {
    let record = ANCSNotification::new();
    assert_eq!(record.state(), RecordState::Pending);
    assert!(!record.displayable());
    assert!(!record.displayed());
    assert_eq!(record.title(), None);
    assert_eq!(record.message(), None);
    assert_eq!(record.icon(), None);
}

#[test]
fn record_is_shown_once_title_and_message_are_known() {
    let mut record = ANCSNotification::new();
    assert_eq!(record.update(Some("t".to_string()), None), DisplayAction::Wait);
    assert_eq!(record.state(), RecordState::Enriched);
    assert!(!record.displayable());
    assert_eq!(record.update(None, Some("m".to_string())), DisplayAction::Show);
    assert_eq!(record.state(), RecordState::Displayed);
    assert!(record.displayable());
    assert!(record.displayed());
    assert_eq!(record.update(None, None), DisplayAction::Update);
    assert_eq!(record.update(Some("t2".to_string()), None), DisplayAction::Update);
    assert_eq!(record.title().map(String::as_str), Some("t2"));
    assert_eq!(record.message().map(String::as_str), Some("m"));
}

#[test]
fn content_is_given_once_the_record_is_displayed() {
    let mut record = ANCSNotification::new();
    assert!(record.content().is_none());
    record.update(Some("t".to_string()), None);
    assert!(record.content().is_none());
    record.update(None, Some("m".to_string()));
    let content = record.content().unwrap();
    assert_eq!(content.title, "t");
    assert_eq!(content.message, "m");
    assert_eq!(content.icon, None);
}

#[test]
fn update_without_fields_changes_nothing() {
    let mut record = ANCSNotification::new();
    assert_eq!(record.update(None, None), DisplayAction::Wait);
    assert_eq!(record.state(), RecordState::Pending);
}

#[test]
fn merge_overwrites_what_is_given_and_keeps_the_rest() {
    let mut record = ANCSNotification::new();
    let mut first = NotificationAttributes::empty(1);
    first.subtitle = Some("sub".to_string());
    first.title = Some("old".to_string());
    first.message_size = Some(3);
    assert_eq!(record.merge(first), DisplayAction::Wait);
    assert_eq!(record.state(), RecordState::Enriched);
    let mut second = NotificationAttributes::empty(1);
    second.title = Some("new".to_string());
    second.message = Some("body".to_string());
    assert_eq!(record.merge(second), DisplayAction::Show);
    assert_eq!(record.title().map(String::as_str), Some("new"));
    assert_eq!(record.message().map(String::as_str), Some("body"));
    assert_eq!(record.merge(NotificationAttributes::empty(1)), DisplayAction::Update);
    assert_eq!(record.title().map(String::as_str), Some("new"));
    assert_eq!(record.message().map(String::as_str), Some("body"));
}

#[test]
fn record_with_only_other_fields_is_enriched() {
    let mut record = ANCSNotification::new();
    let mut answer = NotificationAttributes::empty(1);
    answer.date = Some("20240101T000000".to_string());
    assert_eq!(record.merge(answer), DisplayAction::Wait);
    assert_eq!(record.state(), RecordState::Enriched);
    let mut record = ANCSNotification::new();
    let mut answer = NotificationAttributes::empty(1);
    answer.message_size = Some(0);
    assert_eq!(record.merge(answer), DisplayAction::Wait);
    assert_eq!(record.state(), RecordState::Enriched);
}

#[test]
fn registry_keeps_one_record_for_an_identifier() {
    let mut registry = NotificationRegistry::new();
    assert_eq!(registry.len(), 0);
    assert!(registry.register(5));
    assert!(!registry.register(5));
    assert_eq!(registry.len(), 1);
    assert!(registry.register(6));
    assert_eq!(registry.len(), 2);
    assert!(registry.contains(5));
    assert!(!registry.contains(7));
    assert_eq!(registry.state(5), Some(RecordState::Pending));
    assert_eq!(registry.state(7), None);
    assert!(registry.get(7).is_none());
}

#[test]
fn repeated_addition_keeps_what_was_gathered() {
    let mut registry = NotificationRegistry::new();
    registry.register(5);
    assert_eq!(registry.merge(answer_of(5, Some("t"), None)), Some(DisplayAction::Wait));
    assert!(!registry.register(5));
    assert_eq!(registry.state(5), Some(RecordState::Enriched));
    assert_eq!(registry.get(5).unwrap().title().map(String::as_str), Some("t"));
}

#[test]
fn answer_after_removal_is_discarded() {
    let mut registry = NotificationRegistry::new();
    assert!(registry.register(5));
    assert!(registry.remove(5));
    let size = registry.len();
    assert_eq!(registry.merge(answer_of(5, Some("t"), Some("m"))), None);
    assert_eq!(registry.len(), size);
    assert_eq!(registry.len(), 0);
    assert!(!registry.contains(5));
    assert!(!registry.remove(5));
}

#[test]
fn answer_for_unknown_notification_is_discarded() {
    let mut registry = NotificationRegistry::new();
    registry.register(1);
    assert_eq!(registry.merge(answer_of(2, Some("t"), Some("m"))), None);
    assert_eq!(registry.len(), 1);
    assert_eq!(registry.state(1), Some(RecordState::Pending));
}

#[test]
fn removal_drops_a_record_in_any_state() {
    let mut registry = NotificationRegistry::new();
    registry.register(1);
    registry.register(2);
    registry.register(3);
    registry.merge(answer_of(2, Some("t"), None));
    registry.merge(answer_of(3, Some("t"), Some("m")));
    assert_eq!(registry.state(1), Some(RecordState::Pending));
    assert_eq!(registry.state(2), Some(RecordState::Enriched));
    assert_eq!(registry.state(3), Some(RecordState::Displayed));
    assert!(registry.remove(1));
    assert!(registry.remove(2));
    assert!(registry.remove(3));
    assert_eq!(registry.len(), 0);
    assert!(registry.register(3));
    assert_eq!(registry.state(3), Some(RecordState::Pending));
}

#[test]
fn two_complete_answers_show_once() {
    let mut registry = NotificationRegistry::new();
    registry.register(5);
    let first = registry.merge(answer_of(5, Some("t"), Some("m")));
    let second = registry.merge(answer_of(5, Some("t"), Some("m")));
    assert_eq!(first, Some(DisplayAction::Show));
    assert_eq!(second, Some(DisplayAction::Update));
    let shows = [first, second].iter().filter(|a| **a == Some(DisplayAction::Show)).count();
    let updates = [first, second].iter().filter(|a| **a == Some(DisplayAction::Update)).count();
    assert_eq!(shows, 1);
    assert!(updates <= 1);
}

#[test]
fn correlator_shows_once_and_then_updates() {
    let mut correlator = Correlator::new(Vec::new());
    correlator.handle(Inbound::Event(event_of(0, 5)));
    let first = correlator.handle(Inbound::NotificationAttributes(answer_of(5, Some("t"), Some("m"))));
    let second =
        correlator.handle(Inbound::NotificationAttributes(answer_of(5, Some("t2"), Some("m2"))));
    match first {
        Action::Show { notification_id, title, message, icon } => {
            assert_eq!(notification_id, 5);
            assert_eq!(title, "t");
            assert_eq!(message, "m");
            assert_eq!(icon, None);
        }
        _ => panic!("the first complete answer shows"),
    }
    match second {
        Action::Update { notification_id, title, message, icon } => {
            assert_eq!(notification_id, 5);
            assert_eq!(title, "t2");
            assert_eq!(message, "m2");
            assert_eq!(icon, None);
        }
        _ => panic!("the second complete answer updates"),
    }
}

#[test]
fn correlator_shows_when_fields_arrive_apart() {
    let mut correlator = Correlator::new(Vec::new());
    correlator.handle_event(event_of(0, 9));
    assert!(matches!(
        correlator.handle_notification_attributes(answer_of(9, None, Some("m"))),
        Action::Idle
    ));
    match correlator.handle_notification_attributes(answer_of(9, Some("t"), None)) {
        Action::Show { notification_id, title, message, .. } => {
            assert_eq!(notification_id, 9);
            assert_eq!(title, "t");
            assert_eq!(message, "m");
        }
        _ => panic!("title and message are known now"),
    }
    match correlator.handle_notification_attributes(NotificationAttributes::empty(9)) {
        Action::Update { title, message, .. } => {
            assert_eq!(title, "t");
            assert_eq!(message, "m");
        }
        _ => panic!("an answer after the display updates"),
    }
}

#[test]
fn addition_requests_title_message_and_extras() {
    let mut correlator = Correlator::new(vec![
        NotificationAttributeID::AppIdentifier,
        NotificationAttributeID::Date,
    ]);
    match correlator.handle_event(event_of(0, 0x0102)) {
        Action::Request(cmd) => {
            assert_eq!(cmd.notification_id, 0x0102);
            assert_eq!(
                cmd.attributes,
                vec![
                    NotificationAttributeID::Title,
                    NotificationAttributeID::Message,
                    NotificationAttributeID::AppIdentifier,
                    NotificationAttributeID::Date,
                ]
            );
            assert_eq!(cmd.encode(), vec![0, 2, 1, 0, 0, 1, 255, 255, 3, 255, 255, 0, 5]);
        }
        _ => panic!("the first addition asks for attributes"),
    }
    assert!(matches!(correlator.handle_event(event_of(0, 0x0102)), Action::Idle));
    assert_eq!(correlator.registry().len(), 1);
}

#[test]
fn addition_without_extras_requests_title_and_message() {
    let mut correlator = Correlator::new(Vec::new());
    match correlator.handle_event(event_of(0, 2)) {
        Action::Request(cmd) => {
            assert_eq!(cmd.to_buffer(), vec![2, 0, 0, 0, 1, 255, 255, 3, 255, 255]);
        }
        _ => panic!("the first addition asks for attributes"),
    }
}

#[test]
fn correlator_discards_late_answer() {
    let mut correlator = Correlator::new(Vec::new());
    assert!(matches!(correlator.handle_event(event_of(0, 5)), Action::Request(_)));
    assert!(matches!(
        correlator.handle_event(event_of(2, 5)),
        Action::Forget { notification_id: 5 }
    ));
    let size = correlator.registry().len();
    assert!(matches!(
        correlator.handle_notification_attributes(answer_of(5, Some("t"), Some("m"))),
        Action::Discard { notification_id: 5 }
    ));
    assert_eq!(correlator.registry().len(), size);
    assert_eq!(size, 0);
    assert!(!correlator.registry().contains(5));
}

#[test]
fn removal_of_unknown_notification_does_nothing() {
    let mut correlator = Correlator::new(Vec::new());
    assert!(matches!(correlator.handle_event(event_of(2, 5)), Action::Idle));
    assert_eq!(correlator.registry().len(), 0);
}

#[test]
fn other_events_do_nothing() {
    let mut correlator = Correlator::new(Vec::new());
    assert!(matches!(correlator.handle_event(event_of(1, 5)), Action::Idle));
    assert!(matches!(correlator.handle_event(event_of(77, 5)), Action::Idle));
    assert_eq!(correlator.registry().len(), 0);
    correlator.handle_event(event_of(0, 5));
    assert!(matches!(correlator.handle_event(event_of(1, 5)), Action::Idle));
    assert_eq!(correlator.registry().state(5), Some(RecordState::Pending));
}

#[test]
fn notification_can_be_added_again_after_removal() {
    let mut correlator = Correlator::new(Vec::new());
    correlator.handle_event(event_of(0, 5));
    correlator.handle_notification_attributes(answer_of(5, Some("t"), Some("m")));
    correlator.handle_event(event_of(2, 5));
    assert!(matches!(correlator.handle_event(event_of(0, 5)), Action::Request(_)));
    assert_eq!(correlator.registry().state(5), Some(RecordState::Pending));
    assert!(matches!(
        correlator.handle_notification_attributes(answer_of(5, Some("t"), Some("m"))),
        Action::Show { .. }
    ));
}

#[test]
fn answers_touch_only_their_notification() {
    let mut correlator = Correlator::new(Vec::new());
    correlator.handle_event(event_of(0, 1));
    correlator.handle_event(event_of(0, 2));
    correlator.handle_notification_attributes(answer_of(1, Some("t"), Some("m")));
    assert_eq!(correlator.registry().state(1), Some(RecordState::Displayed));
    assert_eq!(correlator.registry().state(2), Some(RecordState::Pending));
}

#[test]
fn display_names_are_kept_by_app() {
    let mut correlator = Correlator::new(Vec::new());
    let named = AppAttributes {
        app_identifier: "com.apple.mobilemail".to_string(),
        display_name: Some("Mail".to_string()),
    };
    assert!(matches!(correlator.handle(Inbound::AppAttributes(named)), Action::Idle));
    let unnamed = AppAttributes { app_identifier: "a.b".to_string(), display_name: None };
    assert!(matches!(correlator.handle_app_attributes(unnamed), Action::Idle));
    assert_eq!(correlator.display_names().len(), 1);
    assert_eq!(
        correlator.display_names().get(&"com.apple.mobilemail".to_string()).map(String::as_str),
        Some("Mail")
    );
    assert_eq!(correlator.display_names().get(&"a.b".to_string()), None);
}

#[test]
fn cache_sets_replaces_and_grows() {
    let mut cache = DisplayNameCache::new();
    assert_eq!(cache.len(), 0);
    assert_eq!(cache.get(&"a".to_string()), None);
    cache.insert("a".to_string(), "A".to_string());
    cache.insert("b".to_string(), "B".to_string());
    assert_eq!(cache.len(), 2);
    cache.insert("a".to_string(), "Alpha".to_string());
    assert_eq!(cache.len(), 2);
    assert_eq!(cache.get(&"a".to_string()).map(String::as_str), Some("Alpha"));
    assert_eq!(cache.get(&"b".to_string()).map(String::as_str), Some("B"));
    assert_eq!(cache.get(&"c".to_string()), None);
    cache.insert(String::new(), "empty".to_string());
    assert_eq!(cache.len(), 3);
    assert_eq!(cache.get(&String::new()).map(String::as_str), Some("empty"));
}

#[test]
fn channels_hold_sixty_four_items() {
    assert_eq!(CHANNEL_CAPACITY, 64);
}

#[test]
fn decoded_answers_become_inbound_items() {
    let message = DataSourceMessage::from_buffer(vec![0, 5, 0, 0, 0, 1, 1, 0, b't']).unwrap();
    match inbound_of(message) {
        Inbound::NotificationAttributes(answer) => {
            assert_eq!(answer.notification_id, 5);
            assert_eq!(answer.title.as_deref(), Some("t"));
        }
        _ => panic!("attributes of a notification stay so"),
    }
    let message = DataSourceMessage::from_buffer(vec![1, b'a', 0]).unwrap();
    assert!(matches!(inbound_of(message), Inbound::AppAttributes(_)));
}

#[test]
fn decoded_frames_drive_the_relay() {
    let mut correlator = Correlator::new(Vec::new());
    let event = NotificationEvent::from_buffer(vec![0, 0, 6, 1, 5, 0, 0, 0]).unwrap();
    let request = match correlator.handle(Inbound::Event(event)) {
        Action::Request(cmd) => cmd.encode(),
        _ => panic!("the addition asks for attributes"),
    };
    assert_eq!(request, vec![0, 5, 0, 0, 0, 1, 255, 255, 3, 255, 255]);
    let answer = DataSourceMessage::from_buffer(vec![
        0, 5, 0, 0, 0, 1, 2, 0, b'H', b'i', 3, 3, 0, b'y', b'o', b'u',
    ])
    .unwrap();
    match correlator.handle(inbound_of(answer)) {
        Action::Show { notification_id, title, message, .. } => {
            assert_eq!(notification_id, 5);
            assert_eq!(title, "Hi");
            assert_eq!(message, "you");
        }
        _ => panic!("title and message are known"),
    }
}
