//! The correlator: the single consumer that ties events and answers together
//! by notification identifier and decides what is to be done for each.

use crate::ancs::control_point::{EventID, NotificationAttributeCmd, NotificationAttributeID};
use crate::ancs::data_source::{
    AppAttributes,
    AppAttributesView,
    DataSourceMessage,
    NotificationAttributes,
    NotificationAttributesView,
};
use crate::ancs::notification::{ANCSNotificationView, DisplayAction};
use crate::ancs::notification_source::NotificationEvent;
use crate::display_names::DisplayNameCache;
use crate::registry::{added, answer_outcome, answered, removed, NotificationRegistry};
use crate::text::opt_text;
use vstd::prelude::*;

verus! {

/// How many decoded values each channel to the correlator holds. A producer
/// whose channel is full waits; nothing is dropped.
pub const CHANNEL_CAPACITY: usize = 64;

/// What came in on one of the three channels.
#[derive(Debug)]
pub enum Inbound {
    /// An event of the Notification Source.
    Event(NotificationEvent),
    /// An answer with attributes of a notification.
    NotificationAttributes(NotificationAttributes),
    /// An answer with attributes of an app.
    AppAttributes(AppAttributes),
}

/// What came in, with its strings as characters.
pub enum InboundView {
    Event(NotificationEvent),
    NotificationAttributes(NotificationAttributesView),
    AppAttributes(AppAttributesView),
}

impl View for Inbound {
    type V = InboundView;

    open spec fn view(&self) -> InboundView {
        match self {
            Inbound::Event(event) => InboundView::Event(*event),
            Inbound::NotificationAttributes(answer) => InboundView::NotificationAttributes(
                answer@,
            ),
            Inbound::AppAttributes(answer) => InboundView::AppAttributes(answer@),
        }
    }
}

/// What is to be done after an item came in. The caller does it before it
/// takes the next item.
#[derive(Debug)]
pub enum Action {
    /// Nothing.
    Idle,
    /// Write this request to the Control Point.
    Request(NotificationAttributeCmd),
    /// Show the notification for the first time.
    Show { notification_id: u32, title: String, message: String, icon: Option<String> },
    /// Update the notification that is displayed.
    Update { notification_id: u32, title: String, message: String, icon: Option<String> },
    /// The answer named a notification without a record and was dropped:
    /// it lost the race against the removal. To be logged, not an error.
    Discard { notification_id: u32 },
    /// The record of the notification was dropped after its removal.
    Forget { notification_id: u32 },
}

/// What is to be done, with its strings as characters.
pub enum ActionView {
    Idle,
    Request { notification_id: u32, attributes: Seq<NotificationAttributeID> },
    Show { notification_id: u32, title: Seq<char>, message: Seq<char>, icon: Option<Seq<char>> },
    Update { notification_id: u32, title: Seq<char>, message: Seq<char>, icon: Option<Seq<char>> },
    Discard { notification_id: u32 },
    Forget { notification_id: u32 },
}

impl View for Action {
    type V = ActionView;

    open spec fn view(&self) -> ActionView {
        match self {
            Action::Idle => ActionView::Idle,
            Action::Request(cmd) => ActionView::Request {
                notification_id: cmd.notification_id,
                attributes: cmd.attributes@,
            },
            Action::Show { notification_id, title, message, icon } => ActionView::Show {
                notification_id: *notification_id,
                title: title@,
                message: message@,
                icon: opt_text(*icon),
            },
            Action::Update { notification_id, title, message, icon } => ActionView::Update {
                notification_id: *notification_id,
                title: title@,
                message: message@,
                icon: opt_text(*icon),
            },
            Action::Discard { notification_id } => ActionView::Discard {
                notification_id: *notification_id,
            },
            Action::Forget { notification_id } => ActionView::Forget {
                notification_id: *notification_id,
            },
        }
    }
}

/// What the correlator holds: the records, the display names, and the
/// attributes it asks for besides title and message.
pub struct CorrelatorView {
    pub records: Map<u32, ANCSNotificationView>,
    pub display_names: Map<Seq<char>, Seq<char>>,
    pub extras: Seq<NotificationAttributeID>,
}

impl CorrelatorView {
    /// The attributes asked for when a notification is added: title and
    /// message, then the extras.
    pub open spec fn requested(self) -> Seq<NotificationAttributeID> {
        seq![NotificationAttributeID::Title, NotificationAttributeID::Message] + self.extras
    }

    /// Every record is displayed as soon as title and message are known,
    /// and not before.
    pub open spec fn wf(self) -> bool {
        forall|id: u32| self.records.contains_key(id) ==> (#[trigger] self.records[id]).wf()
    }

    /// The correlator at its start: no record, no display name.
    pub open spec fn start(extras: Seq<NotificationAttributeID>) -> CorrelatorView {
        CorrelatorView { records: Map::empty(), display_names: Map::empty(), extras }
    }

    /// The correlator after an event, and what is to be done. The first
    /// addition of a notification creates its record and asks for its
    /// attributes; a repeated one does nothing. A removal drops the record.
    /// Any other event does nothing.
    pub open spec fn on_event(self, event: NotificationEvent) -> (CorrelatorView, ActionView) {
        let id = event.notification_id;
        match event.spec_kind() {
            Some(EventID::NotificationAdded) => if self.records.contains_key(id) {
                (self, ActionView::Idle)
            } else {
                (
                    CorrelatorView { records: added(self.records, id), ..self },
                    ActionView::Request { notification_id: id, attributes: self.requested() },
                )
            },
            Some(EventID::NotificationRemoved) => if self.records.contains_key(id) {
                (
                    CorrelatorView { records: removed(self.records, id), ..self },
                    ActionView::Forget { notification_id: id },
                )
            } else {
                (self, ActionView::Idle)
            },
            _ => (self, ActionView::Idle),
        }
    }

    /// The correlator after an answer with attributes of a notification, and
    /// what is to be done. An answer for a notification without a record is
    /// discarded. Any other is merged into the record, and the display is
    /// asked to show or to update with what the record then holds.
    pub open spec fn on_notification_attributes(self, answer: NotificationAttributesView) -> (
        CorrelatorView,
        ActionView,
    ) {
        let id = answer.notification_id;
        match answer_outcome(self.records, answer) {
            None => (self, ActionView::Discard { notification_id: id }),
            Some(action) => {
                let merged = self.records[id].merged(answer);
                (
                    CorrelatorView { records: answered(self.records, answer), ..self },
                    match action {
                        DisplayAction::Wait => ActionView::Idle,
                        DisplayAction::Show => ActionView::Show {
                            notification_id: id,
                            title: merged.title.unwrap(),
                            message: merged.message.unwrap(),
                            icon: merged.icon,
                        },
                        DisplayAction::Update => ActionView::Update {
                            notification_id: id,
                            title: merged.title.unwrap(),
                            message: merged.message.unwrap(),
                            icon: merged.icon,
                        },
                    },
                )
            },
        }
    }

    /// The correlator after an answer with attributes of an app: the display
    /// name, where the answer gives one, is kept under the app identifier.
    pub open spec fn on_app_attributes(self, answer: AppAttributesView) -> (
        CorrelatorView,
        ActionView,
    ) {
        match answer.display_name {
            Some(name) => (
                CorrelatorView {
                    display_names: self.display_names.insert(answer.app_identifier, name),
                    ..self
                },
                ActionView::Idle,
            ),
            None => (self, ActionView::Idle),
        }
    }

    /// The correlator after an item of any channel, and what is to be done.
    pub open spec fn on_inbound(self, inbound: InboundView) -> (CorrelatorView, ActionView) {
        match inbound {
            InboundView::Event(event) => self.on_event(event),
            InboundView::NotificationAttributes(answer) => self.on_notification_attributes(answer),
            InboundView::AppAttributes(answer) => self.on_app_attributes(answer),
        }
    }
}

/// The single consumer of the three channels. It owns the registry and the
/// display names; nothing else touches them.
#[derive(Debug)]
pub struct Correlator {
    registry: NotificationRegistry,
    display_names: DisplayNameCache,
    extras: Vec<NotificationAttributeID>,
}

impl View for Correlator {
    type V = CorrelatorView;

    closed spec fn view(&self) -> CorrelatorView {
        CorrelatorView {
            records: self.registry@,
            display_names: self.display_names@,
            extras: self.extras@,
        }
    }
}

impl Correlator {
    /// Makes a correlator without records or display names, which asks for
    /// `extras` besides title and message.
    pub fn new(extras: Vec<NotificationAttributeID>) -> (correlator: Self)
        ensures
            correlator@ == CorrelatorView::start(extras@),
    {
        Self { registry: NotificationRegistry::new(), display_names: DisplayNameCache::new(), extras }
    }

    /// The registry of live notifications.
    pub fn registry(&self) -> (registry: &NotificationRegistry)
        ensures
            registry@ == self@.records,
    {
        &self.registry
    }

    /// The display names learnt so far.
    pub fn display_names(&self) -> (names: &DisplayNameCache)
        ensures
            names@ == self@.display_names,
    {
        &self.display_names
    }

    /// Handles an event of the Notification Source.
    pub fn handle_event(&mut self, event: NotificationEvent) -> (action: Action)
        ensures
            (final(self)@, action@) == old(self)@.on_event(event),
    {
        let id = event.notification_id;
        match event.kind() {
            Some(EventID::NotificationAdded) => {
                if self.registry.register(id) {
                    let mut attributes: Vec<NotificationAttributeID> = Vec::new();
                    attributes.push(NotificationAttributeID::Title);
                    attributes.push(NotificationAttributeID::Message);
                    let mut i: usize = 0;
                    while i < self.extras.len()
                        invariant
                            i <= self.extras.len(),
                            attributes@ == seq![
                                NotificationAttributeID::Title,
                                NotificationAttributeID::Message,
                            ] + self.extras@.take(i as int),
                        decreases self.extras.len() - i,
                    {
                        attributes.push(self.extras[i]);
                        i += 1;
                        assert(attributes@ =~= seq![
                            NotificationAttributeID::Title,
                            NotificationAttributeID::Message,
                        ] + self.extras@.take(i as int));
                    }
                    assert(self.extras@.take(i as int) =~= self.extras@);
                    Action::Request(NotificationAttributeCmd::new(id, attributes))
                } else {
                    Action::Idle
                }
            },
            Some(EventID::NotificationRemoved) => {
                if self.registry.remove(id) {
                    Action::Forget { notification_id: id }
                } else {
                    assert(self.registry@ =~= old(self).registry@);
                    Action::Idle
                }
            },
            _ => Action::Idle,
        }
    }

    /// Handles an answer with attributes of a notification.
    pub fn handle_notification_attributes(&mut self, answer: NotificationAttributes) -> (action:
        Action)
        ensures
            (final(self)@, action@) == old(self)@.on_notification_attributes(answer@),
    {
        let id = answer.notification_id;
        let action = self.registry.merge(answer);
        let content = match self.registry.get(id) {
            Some(record) => record.content(),
            None => None,
        };
        match (action, content) {
            (None, _) => Action::Discard { notification_id: id },
            (Some(DisplayAction::Show), Some(content)) => Action::Show {
                notification_id: id,
                title: content.title,
                message: content.message,
                icon: content.icon,
            },
            (Some(DisplayAction::Update), Some(content)) => Action::Update {
                notification_id: id,
                title: content.title,
                message: content.message,
                icon: content.icon,
            },
            _ => Action::Idle,
        }
    }

    /// Handles an answer with attributes of an app.
    pub fn handle_app_attributes(&mut self, answer: AppAttributes) -> (action: Action)
        ensures
            (final(self)@, action@) == old(self)@.on_app_attributes(answer@),
    {
        match answer.display_name {
            Some(name) => {
                self.display_names.insert(answer.app_identifier, name);
            },
            None => {},
        }
        Action::Idle
    }

    /// Handles an item of any channel.
    pub fn handle(&mut self, inbound: Inbound) -> (action: Action)
        ensures
            (final(self)@, action@) == old(self)@.on_inbound(inbound@),
    {
        match inbound {
            Inbound::Event(event) => self.handle_event(event),
            Inbound::NotificationAttributes(answer) => self.handle_notification_attributes(answer),
            Inbound::AppAttributes(answer) => self.handle_app_attributes(answer),
        }
    }
}

/// An answer that comes after the removal of its notification is discarded:
/// nothing changes, no record comes back, and the answer is reported. This
/// holds whatever came before the removal, an addition included.
pub proof fn lemma_late_answer_discarded(
    state: CorrelatorView,
    addition: NotificationEvent,
    removal: NotificationEvent,
    answer: NotificationAttributesView,
)
    requires
        addition.spec_kind() == Some(EventID::NotificationAdded),
        removal.spec_kind() == Some(EventID::NotificationRemoved),
        addition.notification_id == answer.notification_id,
        removal.notification_id == answer.notification_id,
    ensures
        ({
            let after_removal = state.on_event(removal).0;
            &&& !after_removal.records.contains_key(answer.notification_id)
            &&& after_removal.on_notification_attributes(answer) == (
                after_removal,
                ActionView::Discard { notification_id: answer.notification_id },
            )
        }),
        ({
            let after_removal = state.on_event(addition).0.on_event(removal).0;
            &&& !after_removal.records.contains_key(answer.notification_id)
            &&& after_removal.on_notification_attributes(answer) == (
                after_removal,
                ActionView::Discard { notification_id: answer.notification_id },
            )
            &&& after_removal.records == state.records.remove(answer.notification_id)
        }),
{
    let first = state.on_event(removal).0;
    assert(first.records =~= state.records.remove(answer.notification_id));
    let second = state.on_event(addition).0.on_event(removal).0;
    assert(second.records =~= state.records.remove(answer.notification_id));
}

/// Whatever comes in, every record stays displayed exactly when its title and
/// message are known; at the start this holds as there is no record.
pub proof fn lemma_step_keeps_records_well_formed(
    state: CorrelatorView,
    inbound: InboundView,
    extras: Seq<NotificationAttributeID>,
)
    requires
        state.wf(),
    ensures
        state.on_inbound(inbound).0.wf(),
        CorrelatorView::start(extras).wf(),
{
    let next = state.on_inbound(inbound).0;
    assert forall|id: u32| next.records.contains_key(id) implies (
    #[trigger] next.records[id]).wf() by {
        if state.records.contains_key(id) {
            assert(state.records[id].wf());
        }
    }
}

/// An answer creates no record and drops none: the notifications that have a
/// record are the same before and after.
pub proof fn lemma_answer_keeps_domain(state: CorrelatorView, answer: NotificationAttributesView)
    ensures
        state.on_notification_attributes(answer).0.records.dom() == state.records.dom(),
        state.on_notification_attributes(answer).0.display_names == state.display_names,
        state.on_notification_attributes(answer).0.extras == state.extras,
{
    assert(state.on_notification_attributes(answer).0.records.dom() =~= state.records.dom());
}

/// The display is asked to show exactly when a record passes from not
/// displayed to displayed, and to update exactly when it was displayed
/// before. A displayed record stays displayed while it lives.
pub proof fn lemma_show_marks_first_display(
    state: CorrelatorView,
    answer: NotificationAttributesView,
)
    ensures
        ({
            let id = answer.notification_id;
            let (next, action) = state.on_notification_attributes(answer);
            &&& action is Show <==> state.records.contains_key(id) && !state.records[id].displayed
                && next.records[id].displayed
            &&& action is Update <==> state.records.contains_key(id) && state.records[id].displayed
            &&& action is Discard <==> !state.records.contains_key(id)
            &&& state.records.contains_key(id) && state.records[id].displayed
                ==> next.records[id].displayed
            &&& action matches ActionView::Show { title, message, .. } ==> Some(title)
                == next.records[id].title && Some(message) == next.records[id].message
        }),
{
}

/// Of two answers for a notification whose record is not displayed, each of
/// which gives title and message, the first asks to show and the second to
/// update: the notification is shown once.
pub proof fn lemma_shown_once_for_two_answers(
    state: CorrelatorView,
    first: NotificationAttributesView,
    second: NotificationAttributesView,
)
    requires
        first.notification_id == second.notification_id,
        state.records.contains_key(first.notification_id),
        !state.records[first.notification_id].displayed,
        first.title is Some && first.message is Some,
        second.title is Some && second.message is Some,
    ensures
        state.on_notification_attributes(first).1 == (ActionView::Show {
            notification_id: first.notification_id,
            title: first.title.unwrap(),
            message: first.message.unwrap(),
            icon: state.records[first.notification_id].icon,
        }),
        state.on_notification_attributes(first).0.on_notification_attributes(second).1 == (
        ActionView::Update {
            notification_id: first.notification_id,
            title: second.title.unwrap(),
            message: second.message.unwrap(),
            icon: state.records[first.notification_id].icon,
        }),
{
}

/// The first addition of a notification asks for title and message, in this
/// order, before anything else; a repeated addition asks for nothing and
/// keeps the record.
pub proof fn lemma_addition_requests_once(state: CorrelatorView, addition: NotificationEvent)
    requires
        addition.spec_kind() == Some(EventID::NotificationAdded),
    ensures
        ({
            let id = addition.notification_id;
            let (next, action) = state.on_event(addition);
            &&& next.records.contains_key(id)
            &&& !state.records.contains_key(id) ==> action == (ActionView::Request {
                notification_id: id,
                attributes: state.requested(),
            }) && next.records[id] == ANCSNotificationView::pending()
            &&& state.requested()[0] == NotificationAttributeID::Title
            &&& state.requested()[1] == NotificationAttributeID::Message
            &&& next.on_event(addition) == (next, ActionView::Idle)
        }),
{
}

/// Turns a decoded answer of the Data Source into the item that the
/// correlator takes.
pub fn inbound_of(message: DataSourceMessage) -> (inbound: Inbound)
    ensures
        inbound@ == (match message@ {
            crate::ancs::data_source::DataSourceMessageView::Notification(answer) =>
                InboundView::NotificationAttributes(answer),
            crate::ancs::data_source::DataSourceMessageView::App(answer) =>
                InboundView::AppAttributes(answer),
        }),
{
    match message {
        DataSourceMessage::Notification(answer) => Inbound::NotificationAttributes(answer),
        DataSourceMessage::App(answer) => Inbound::AppAttributes(answer),
    }
}

} // verus!
