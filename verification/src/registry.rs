//! The registry of live notifications: one record for each notification
//! identifier between its addition and its removal.

use crate::ancs::data_source::{NotificationAttributes, NotificationAttributesView};
use crate::ancs::notification::{
    ANCSNotification,
    ANCSNotificationView,
    DisplayAction,
    RecordState,
};
use std::collections::HashMap;
use vstd::prelude::*;

verus! {

broadcast use vstd::std_specs::hash::group_hash_axioms;

/// The records after a notification was added: a new pending record where the
/// identifier had none, no change where it had one.
pub open spec fn added(records: Map<u32, ANCSNotificationView>, notification_id: u32) -> Map<
    u32,
    ANCSNotificationView,
> {
    if records.contains_key(notification_id) {
        records
    } else {
        records.insert(notification_id, ANCSNotificationView::pending())
    }
}

/// The records after a notification was removed: its record is gone, whatever
/// state it was in.
pub open spec fn removed(records: Map<u32, ANCSNotificationView>, notification_id: u32) -> Map<
    u32,
    ANCSNotificationView,
> {
    records.remove(notification_id)
}

/// The records after an answer arrived: merged into the record of its
/// notification where there is one, no change where there is none.
pub open spec fn answered(
    records: Map<u32, ANCSNotificationView>,
    answer: NotificationAttributesView,
) -> Map<u32, ANCSNotificationView> {
    if records.contains_key(answer.notification_id) {
        records.insert(answer.notification_id, records[answer.notification_id].merged(answer))
    } else {
        records
    }
}

/// What an answer asks of the display: nothing where its notification has no
/// record, so that the answer is discarded, else what the record says.
pub open spec fn answer_outcome(
    records: Map<u32, ANCSNotificationView>,
    answer: NotificationAttributesView,
) -> Option<DisplayAction> {
    if records.contains_key(answer.notification_id) {
        Some(records[answer.notification_id].display_action(answer))
    } else {
        None
    }
}

/// The live notifications, by identifier.
#[derive(Debug)]
pub struct NotificationRegistry {
    records: HashMap<u32, ANCSNotification>,
}

impl View for NotificationRegistry {
    type V = Map<u32, ANCSNotificationView>;

    closed spec fn view(&self) -> Map<u32, ANCSNotificationView> {
        Map::new(|id: u32| self.records@.contains_key(id), |id: u32| self.records@[id]@)
    }
}

impl NotificationRegistry {
    /// Makes a registry without records.
    pub fn new() -> (registry: Self)
        ensures
            registry@ == Map::<u32, ANCSNotificationView>::empty(),
    {
        let registry = Self { records: HashMap::new() };
        assert(registry@ =~= Map::<u32, ANCSNotificationView>::empty());
        registry
    }

    /// The number of live notifications.
    pub fn len(&self) -> (count: usize)
        ensures
            self@.dom().finite(),
            count == self@.dom().len(),
    {
        assert(self@.dom() =~= self.records@.dom());
        self.records.len()
    }

    /// Whether the notification `notification_id` has a record.
    pub fn contains(&self, notification_id: u32) -> (present: bool)
        ensures
            present == self@.contains_key(notification_id),
    {
        self.records.contains_key(&notification_id)
    }

    /// The record of the notification `notification_id`, if it has one.
    pub fn get(&self, notification_id: u32) -> (record: Option<&ANCSNotification>)
        ensures
            match record {
                Some(found) => self@.contains_key(notification_id) && self@[notification_id]
                    == found@,
                None => !self@.contains_key(notification_id),
            },
    {
        self.records.get(&notification_id)
    }

    /// Where the notification `notification_id` stands in its life, or `None`
    /// where it has no record.
    pub fn state(&self, notification_id: u32) -> (state: Option<RecordState>)
        ensures
            state == (if self@.contains_key(notification_id) {
                Some(self@[notification_id].state())
            } else {
                None
            }),
    {
        match self.records.get(&notification_id) {
            Some(record) => Some(record.state()),
            None => None,
        }
    }

    /// Takes note that a notification was added. A first addition creates a
    /// pending record; a repeated one changes nothing. Returns whether a
    /// record was created.
    pub fn register(&mut self, notification_id: u32) -> (created: bool)
        ensures
            final(self)@ == added(old(self)@, notification_id),
            created == !old(self)@.contains_key(notification_id),
    {
        if self.records.contains_key(&notification_id) {
            false
        } else {
            self.records.insert(notification_id, ANCSNotification::new());
            assert(self@ =~= added(old(self)@, notification_id));
            true
        }
    }

    /// Takes note that a notification was removed, and drops its record.
    /// Returns whether there was one.
    pub fn remove(&mut self, notification_id: u32) -> (dropped: bool)
        ensures
            final(self)@ == removed(old(self)@, notification_id),
            dropped == old(self)@.contains_key(notification_id),
    {
        let record = self.records.remove(&notification_id);
        assert(self@ =~= removed(old(self)@, notification_id));
        record.is_some()
    }

    /// Merges an answer into the record of its notification and returns what
    /// the display is asked to do. An answer for a notification without a
    /// record is discarded: nothing changes, no record is created, and `None`
    /// is returned.
    pub fn merge(&mut self, answer: NotificationAttributes) -> (outcome: Option<DisplayAction>)
        ensures
            final(self)@ == answered(old(self)@, answer@),
            outcome == answer_outcome(old(self)@, answer@),
    {
        let notification_id = answer.notification_id;
        match self.records.remove(&notification_id) {
            Some(record) => {
                let mut record = record;
                let action = record.merge(answer);
                self.records.insert(notification_id, record);
                assert(self@ =~= answered(old(self)@, answer@));
                Some(action)
            },
            None => {
                assert(self@ =~= old(self)@);
                None
            },
        }
    }
}

/// An answer that comes after its notification was removed is discarded: it
/// changes nothing, and the notification has no record before or after.
pub proof fn lemma_answer_after_removal(
    records: Map<u32, ANCSNotificationView>,
    answer: NotificationAttributesView,
)
    ensures
        !removed(records, answer.notification_id).contains_key(answer.notification_id),
        answered(removed(records, answer.notification_id), answer) == removed(
            records,
            answer.notification_id,
        ),
        answer_outcome(removed(records, answer.notification_id), answer) is None,
        !removed(added(records, answer.notification_id), answer.notification_id).contains_key(
            answer.notification_id,
        ),
{
}

/// There is at most one record for an identifier, and adding twice is adding
/// once: a repeated addition keeps the record and what it gathered.
pub proof fn lemma_added_twice(records: Map<u32, ANCSNotificationView>, notification_id: u32)
    ensures
        added(records, notification_id).contains_key(notification_id),
        added(added(records, notification_id), notification_id) == added(
            records,
            notification_id,
        ),
        records.contains_key(notification_id) ==> added(records, notification_id)[notification_id]
            == records[notification_id],
{
}

/// No step touches a record other than that of the notification it names.
pub proof fn lemma_other_records_untouched(
    records: Map<u32, ANCSNotificationView>,
    answer: NotificationAttributesView,
    notification_id: u32,
    other: u32,
)
    requires
        other != notification_id,
        other != answer.notification_id,
    ensures
        added(records, notification_id).contains_key(other) == records.contains_key(other),
        removed(records, notification_id).contains_key(other) == records.contains_key(other),
        answered(records, answer).contains_key(other) == records.contains_key(other),
        records.contains_key(other) ==> {
            &&& added(records, notification_id)[other] == records[other]
            &&& removed(records, notification_id)[other] == records[other]
            &&& answered(records, answer)[other] == records[other]
        },
{
}

} // verus!
