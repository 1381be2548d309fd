//! The record kept for one live notification: the attributes gathered so far
//! and whether the notification was handed to the display.

use crate::ancs::data_source::{NotificationAttributes, NotificationAttributesView};
use crate::text::opt_text;
use vstd::prelude::*;

verus! {

/// What the display is asked to do after attributes arrived.
#[derive(Clone, Copy, Debug, PartialEq, Eq, Structural)]
pub enum DisplayAction {
    /// Title or message is still missing: nothing is displayed yet.
    Wait,
    /// Title and message are present for the first time: show the
    /// notification.
    Show,
    /// The notification was shown before: update what is displayed.
    Update,
}

/// Where a record stands in its life.
#[derive(Clone, Copy, Debug, PartialEq, Eq, Structural)]
pub enum RecordState {
    /// Created, no attribute known yet.
    Pending,
    /// One attribute or more is known, title or message is missing.
    Enriched,
    /// Title and message are known and the notification was shown.
    Displayed,
}

/// What the display is given of a record: title, message and icon.
#[derive(Clone, Debug)]
pub struct Content {
    pub title: String,
    pub message: String,
    pub icon: Option<String>,
}

/// The record of one live notification.
#[derive(Debug)]
pub struct ANCSNotification {
    app_identifier: Option<String>,
    title: Option<String>,
    subtitle: Option<String>,
    message: Option<String>,
    message_size: Option<u16>,
    date: Option<String>,
    positive_action_label: Option<String>,
    negative_action_label: Option<String>,
    icon: Option<String>,
    displayed: bool,
}

/// What a record holds, with its strings as characters.
pub struct ANCSNotificationView {
    pub app_identifier: Option<Seq<char>>,
    pub title: Option<Seq<char>>,
    pub subtitle: Option<Seq<char>>,
    pub message: Option<Seq<char>>,
    pub message_size: Option<u16>,
    pub date: Option<Seq<char>>,
    pub positive_action_label: Option<Seq<char>>,
    pub negative_action_label: Option<Seq<char>>,
    pub icon: Option<Seq<char>>,
    pub displayed: bool,
}

/// The value of a field after an answer: the answer's where it has one, the
/// old one where it has none.
pub open spec fn merged_field<T>(known: Option<T>, answer: Option<T>) -> Option<T> {
    if answer is Some {
        answer
    } else {
        known
    }
}

/// Merges one field: the answer's value where it has one, the known one where
/// it has none.
fn merge_field<T>(known: Option<T>, answer: Option<T>) -> (merged: Option<T>)
    ensures
        merged == merged_field(known, answer),
{
    if answer.is_some() {
        answer
    } else {
        known
    }
}

impl ANCSNotificationView {
    /// The record of a notification of which nothing is known yet.
    pub open spec fn pending() -> Self {
        ANCSNotificationView {
            app_identifier: None,
            title: None,
            subtitle: None,
            message: None,
            message_size: None,
            date: None,
            positive_action_label: None,
            negative_action_label: None,
            icon: None,
            displayed: false,
        }
    }

    /// Whether title and message are both known.
    pub open spec fn displayable(self) -> bool {
        self.title is Some && self.message is Some
    }

    /// A record is shown as soon as it can be, and not before.
    pub open spec fn wf(self) -> bool {
        self.displayed == self.displayable()
    }

    /// Whether any attribute is known.
    pub open spec fn enriched(self) -> bool {
        ||| self.app_identifier is Some
        ||| self.title is Some
        ||| self.subtitle is Some
        ||| self.message is Some
        ||| self.message_size is Some
        ||| self.date is Some
        ||| self.positive_action_label is Some
        ||| self.negative_action_label is Some
    }

    /// Where the record stands in its life.
    pub open spec fn state(self) -> RecordState {
        if self.displayed {
            RecordState::Displayed
        } else if self.enriched() {
            RecordState::Enriched
        } else {
            RecordState::Pending
        }
    }

    /// The record after an answer was merged into it: each field that the
    /// answer gives replaces the old value, each that it does not give stays,
    /// and the record counts as displayed once title and message are known.
    pub open spec fn merged(self, answer: NotificationAttributesView) -> Self {
        let title = merged_field(self.title, answer.title);
        let message = merged_field(self.message, answer.message);
        ANCSNotificationView {
            app_identifier: merged_field(self.app_identifier, answer.app_identifier),
            title,
            subtitle: merged_field(self.subtitle, answer.subtitle),
            message,
            message_size: merged_field(self.message_size, answer.message_size),
            date: merged_field(self.date, answer.date),
            positive_action_label: merged_field(
                self.positive_action_label,
                answer.positive_action_label,
            ),
            negative_action_label: merged_field(
                self.negative_action_label,
                answer.negative_action_label,
            ),
            icon: self.icon,
            displayed: self.displayed || (title is Some && message is Some),
        }
    }

    /// What the display is asked to do when an answer is merged: to update
    /// where the record was displayed before, to show where title and message
    /// are now known for the first time, and to wait otherwise.
    pub open spec fn display_action(self, answer: NotificationAttributesView) -> DisplayAction {
        if self.displayed {
            DisplayAction::Update
        } else if self.merged(answer).displayed {
            DisplayAction::Show
        } else {
            DisplayAction::Wait
        }
    }

    /// An answer that gives a title and a message, each where there is one,
    /// and nothing else.
    pub open spec fn title_and_message(
        title: Option<Seq<char>>,
        message: Option<Seq<char>>,
    ) -> NotificationAttributesView {
        NotificationAttributesView { title, message, ..NotificationAttributesView::unset(0) }
    }
}

impl View for ANCSNotification {
    type V = ANCSNotificationView;

    closed spec fn view(&self) -> ANCSNotificationView {
        ANCSNotificationView {
            app_identifier: opt_text(self.app_identifier),
            title: opt_text(self.title),
            subtitle: opt_text(self.subtitle),
            message: opt_text(self.message),
            message_size: self.message_size,
            date: opt_text(self.date),
            positive_action_label: opt_text(self.positive_action_label),
            negative_action_label: opt_text(self.negative_action_label),
            icon: opt_text(self.icon),
            displayed: self.displayed,
        }
    }
}

impl ANCSNotification {
    #[verifier::type_invariant]
    spec fn well_formed(self) -> bool {
        self.displayed == (self.title is Some && self.message is Some)
    }

    /// Makes the record of a notification of which nothing is known yet.
    pub fn new() -> (record: Self)
        ensures
            record@ == ANCSNotificationView::pending(),
    {
        Self {
            app_identifier: None,
            title: None,
            subtitle: None,
            message: None,
            message_size: None,
            date: None,
            positive_action_label: None,
            negative_action_label: None,
            icon: None,
            displayed: false,
        }
    }

    /// Merges an answer into the record and says what the display is asked to
    /// do.
    pub fn merge(&mut self, answer: NotificationAttributes) -> (action: DisplayAction)
        ensures
            final(self)@ == old(self)@.merged(answer@),
            action == old(self)@.display_action(answer@),
            final(self)@.wf(),
    {
        proof {
            use_type_invariant(&*self);
        }
        let mut known = Self::new();
        core::mem::swap(self, &mut known);
        let was_displayed = known.displayed;
        let title = merge_field(known.title, answer.title);
        let message = merge_field(known.message, answer.message);
        let displayed = title.is_some() && message.is_some();
        let merged = Self {
            app_identifier: merge_field(known.app_identifier, answer.app_identifier),
            title,
            subtitle: merge_field(known.subtitle, answer.subtitle),
            message,
            message_size: merge_field(known.message_size, answer.message_size),
            date: merge_field(known.date, answer.date),
            positive_action_label: merge_field(
                known.positive_action_label,
                answer.positive_action_label,
            ),
            negative_action_label: merge_field(
                known.negative_action_label,
                answer.negative_action_label,
            ),
            icon: known.icon,
            displayed,
        };
        *self = merged;
        if was_displayed {
            DisplayAction::Update
        } else if displayed {
            DisplayAction::Show
        } else {
            DisplayAction::Wait
        }
    }

    /// Merges a title and a message into the record, each where it is given,
    /// and says what the display is asked to do.
    pub fn update(&mut self, title: Option<String>, message: Option<String>) -> (action:
        DisplayAction)
        ensures
            final(self)@ == old(self)@.merged(
                ANCSNotificationView::title_and_message(opt_text(title), opt_text(message)),
            ),
            action == old(self)@.display_action(
                ANCSNotificationView::title_and_message(opt_text(title), opt_text(message)),
            ),
    {
        let mut answer = NotificationAttributes::empty(0);
        answer.title = title;
        answer.message = message;
        self.merge(answer)
    }

    /// Whether title and message are both known.
    pub fn displayable(&self) -> (displayable: bool)
        ensures
            displayable == self@.displayable(),
    {
        self.title.is_some() && self.message.is_some()
    }

    /// Whether the notification was handed to the display.
    pub fn displayed(&self) -> (displayed: bool)
        ensures
            displayed == self@.displayed,
            self@.wf(),
    {
        proof {
            use_type_invariant(self);
        }
        self.displayed
    }

    /// What the display is given of the record: title, message and icon
    /// where the record is displayed, nothing where it is not.
    pub fn content(&self) -> (content: Option<Content>)
        ensures
            self@.wf(),
            match content {
                Some(content) => {
                    &&& self@.displayed
                    &&& self@.title == Some(content.title@)
                    &&& self@.message == Some(content.message@)
                    &&& self@.icon == opt_text(content.icon)
                },
                None => !self@.displayed,
            },
    {
        proof {
            use_type_invariant(self);
        }
        match (&self.title, &self.message) {
            (Some(title), Some(message)) => {
                let icon = match &self.icon {
                    Some(icon) => Some(icon.clone()),
                    None => None,
                };
                Some(Content { title: title.clone(), message: message.clone(), icon })
            },
            _ => None,
        }
    }

    /// Where the record stands in its life.
    pub fn state(&self) -> (state: RecordState)
        ensures
            state == self@.state(),
    {
        if self.displayed {
            RecordState::Displayed
        } else if self.app_identifier.is_some() || self.title.is_some() || self.subtitle.is_some()
            || self.message.is_some() || self.message_size.is_some() || self.date.is_some()
            || self.positive_action_label.is_some() || self.negative_action_label.is_some() {
            RecordState::Enriched
        } else {
            RecordState::Pending
        }
    }

    /// The title, where it is known.
    pub fn title(&self) -> (title: Option<&String>)
        ensures
            opt_text_ref(title) == self@.title,
    {
        self.title.as_ref()
    }

    /// The message, where it is known.
    pub fn message(&self) -> (message: Option<&String>)
        ensures
            opt_text_ref(message) == self@.message,
    {
        self.message.as_ref()
    }

    /// The icon, where one is set.
    pub fn icon(&self) -> (icon: Option<&String>)
        ensures
            opt_text_ref(icon) == self@.icon,
    {
        self.icon.as_ref()
    }
}

/// The record after a run of answers was merged into it, one after the other.
pub open spec fn after_answers(
    record: ANCSNotificationView,
    answers: Seq<NotificationAttributesView>,
) -> ANCSNotificationView
    decreases answers.len(),
{
    if answers.len() == 0 {
        record
    } else {
        after_answers(record, answers.drop_last()).merged(answers.last())
    }
}

/// How many answers of a run ask the display to show the notification.
pub open spec fn shows(
    record: ANCSNotificationView,
    answers: Seq<NotificationAttributesView>,
) -> nat
    decreases answers.len(),
{
    if answers.len() == 0 {
        0
    } else {
        let before = after_answers(record, answers.drop_last());
        let shown: nat = if before.display_action(answers.last()) == DisplayAction::Show {
            1
        } else {
            0
        };
        shows(record, answers.drop_last()) + shown
    }
}

/// A record is shown once at most, however many answers arrive: exactly once
/// where it was not displayed and the answers make it so, never otherwise.
/// A displayed record stays displayed, and a record that is shown as soon as
/// it can be stays so.
pub proof fn lemma_shown_once(
    record: ANCSNotificationView,
    answers: Seq<NotificationAttributesView>,
)
    ensures
        shows(record, answers) <= 1,
        shows(record, answers) == 1 <==> !record.displayed && after_answers(
            record,
            answers,
        ).displayed,
        record.displayed ==> after_answers(record, answers).displayed,
        record.wf() ==> after_answers(record, answers).wf(),
    decreases answers.len(),
{
    if answers.len() > 0 {
        lemma_shown_once(record, answers.drop_last());
    }
}

/// Of two answers to a record that is not displayed, each of which gives
/// title and message, the first asks to show and the second to update.
pub proof fn lemma_two_complete_answers(
    record: ANCSNotificationView,
    first: NotificationAttributesView,
    second: NotificationAttributesView,
)
    requires
        !record.displayed,
        first.title is Some && first.message is Some,
        second.title is Some && second.message is Some,
    ensures
        record.display_action(first) == DisplayAction::Show,
        record.merged(first).display_action(second) == DisplayAction::Update,
        shows(record, seq![first, second]) == 1,
{
    let answers = seq![first, second];
    assert(answers.drop_last() =~= seq![first]);
    assert(seq![first].drop_last() =~= Seq::<NotificationAttributesView>::empty());
    reveal_with_fuel(after_answers, 3);
    reveal_with_fuel(shows, 3);
}

/// An answer never clears a field: what was known stays known, and a field
/// that the answer does not give keeps its value.
pub proof fn lemma_merge_keeps(record: ANCSNotificationView, answer: NotificationAttributesView)
    ensures
        record.title is Some ==> record.merged(answer).title is Some,
        record.message is Some ==> record.merged(answer).message is Some,
        answer.title is None ==> record.merged(answer).title == record.title,
        answer.message is None ==> record.merged(answer).message == record.message,
        answer.title is Some ==> record.merged(answer).title == answer.title,
        answer.message is Some ==> record.merged(answer).message == answer.message,
        record.enriched() ==> record.merged(answer).enriched(),
        record.merged(answer).icon == record.icon,
{
}

/// What an optional borrowed string holds, as characters.
pub open spec fn opt_text_ref(text: Option<&String>) -> Option<Seq<char>> {
    match text {
        Some(s) => Some(s@),
        None => None,
    }
}

} // verus!
