//! Registration of frames and dispatch of messages to them.
//!
//! A frame states at registration which lifecycle hooks it implements. Only
//! for those a subscription is wired, so a hook that a frame lacks is never
//! dispatched to it.
use vstd::prelude::*;
use crate::display::{Display, PaneId};
use crate::error::PaddleError;
use crate::geometry::fixed::Fixed;
use crate::geometry::rectangle::Rectangle;
use crate::geometry::vector::Vector;
use crate::input::events::{EventListenerType, KeyEvent, PointerEvent};

verus! {

/// Which lifecycle hooks a frame implements.
#[derive(Clone, Copy, Debug, PartialEq, Eq, Structural)]
pub struct FrameHooks {
    pub update: bool,
    pub draw: bool,
    pub pointer: bool,
    pub key: bool,
    pub enter: bool,
    pub leave: bool,
}

/// Identity of a registered frame.
#[derive(Clone, Copy, Debug, PartialEq, Eq, Structural)]
pub struct ActivityId {
    pub index: usize,
}

/// What a subscription listens to.
#[derive(Clone, Copy, Debug, PartialEq, Eq, Structural)]
pub enum Topic {
    Update,
    Draw,
    Pointer,
    Key,
    Enter,
    Leave,
    /// A message type that is shared with every frame.
    Global(u64),
    /// A message type that is shared with the active frames.
    Active(u64),
}

/// One wired subscription of a frame.
#[derive(Clone, Copy, Debug, PartialEq, Eq, Structural)]
pub struct Subscription {
    pub topic: Topic,
    /// Whether the subscription is skipped while the frame is inactive.
    pub active_only: bool,
}

/// A message that the host or another frame sends.
#[derive(Clone, Copy, Debug)]
pub enum Message {
    /// One tick of the world.
    Update,
    /// A request to draw, with the host's time stamp in milliseconds.
    Draw(Fixed),
    /// A pointer event, positioned in native pixels.
    Pointer(PointerEvent),
    /// A keyboard event.
    Key(KeyEvent),
    /// The frame is to become active.
    Enter,
    /// The frame is to become inactive.
    Leave,
    /// A message of the given type for every frame.
    Global(u64),
    /// A message of the given type for the active frames.
    Active(u64),
}

/// A call of one of a frame's handlers that the caller is to make.
#[derive(Clone, Copy, Debug)]
pub enum Delivery {
    /// Call the update hook.
    Update,
    /// Call the draw hook with a display area for `region` and `div`.
    Draw { region: Rectangle, div: PaneId, time_ms: Fixed },
    /// Call the pointer hook; the position is in game coordinates.
    Pointer(PointerEvent),
    /// Call the key hook.
    Key(KeyEvent),
    /// Show the frame's region, then call the enter hook.
    Enter,
    /// Hide the frame's region, then call the leave hook.
    Leave,
    /// Call the listener for messages of the given type.
    Shared(u64),
}

impl FrameHooks {
    /// Whether the hook for a lifecycle topic is implemented; topics of
    /// shared messages have no hook.
    pub open spec fn has(self, topic: Topic) -> bool {
        match topic {
            Topic::Update => self.update,
            Topic::Draw => self.draw,
            Topic::Pointer => self.pointer,
            Topic::Key => self.key,
            Topic::Enter => self.enter,
            Topic::Leave => self.leave,
            Topic::Global(_) => false,
            Topic::Active(_) => false,
        }
    }

    /// No hook at all.
    pub fn none() -> (r: FrameHooks)
        ensures
            r == (FrameHooks {
                update: false,
                draw: false,
                pointer: false,
                key: false,
                enter: false,
                leave: false,
            }),
    {
        FrameHooks {
            update: false,
            draw: false,
            pointer: false,
            key: false,
            enter: false,
            leave: false,
        }
    }
}

impl Topic {
    /// Whether the topic belongs to the frame's lifecycle.
    pub open spec fn is_lifecycle(self) -> bool {
        !(self is Global) && !(self is Active)
    }

    /// Whether a frame can hold one subscription to the topic at most: a
    /// later one takes the place of the earlier one.
    pub open spec fn spec_is_private(self) -> bool {
        self is Pointer || self is Key
    }

    /// See [`Topic::spec_is_private`].
    #[verifier::when_used_as_spec(spec_is_private)]
    pub fn is_private(self) -> (r: bool)
        ensures
            r == self.spec_is_private(),
    {
        match self {
            Topic::Pointer => true,
            Topic::Key => true,
            _ => false,
        }
    }
}

impl Message {
    pub open spec fn spec_topic(self) -> Topic {
        match self {
            Message::Update => Topic::Update,
            Message::Draw(_) => Topic::Draw,
            Message::Pointer(_) => Topic::Pointer,
            Message::Key(_) => Topic::Key,
            Message::Enter => Topic::Enter,
            Message::Leave => Topic::Leave,
            Message::Global(kind) => Topic::Global(kind),
            Message::Active(kind) => Topic::Active(kind),
        }
    }

    /// The topic under which the message is dispatched.
    #[verifier::when_used_as_spec(spec_topic)]
    pub fn topic(self) -> (r: Topic)
        ensures
            r == self.spec_topic(),
    {
        match self {
            Message::Update => Topic::Update,
            Message::Draw(_) => Topic::Draw,
            Message::Pointer(_) => Topic::Pointer,
            Message::Key(_) => Topic::Key,
            Message::Enter => Topic::Enter,
            Message::Leave => Topic::Leave,
            Message::Global(kind) => Topic::Global(kind),
            Message::Active(kind) => Topic::Active(kind),
        }
    }
}

/// Whether `subscriptions` holds a subscription to `topic`.
pub open spec fn subscribed(subscriptions: Seq<Subscription>, topic: Topic) -> bool {
    exists|i: int| 0 <= i < subscriptions.len() && (#[trigger] subscriptions[i]).topic == topic
}

/// The subscriptions after one more is wired. A private topic keeps a
/// single subscription; any other topic gains one.
pub open spec fn wired(subscriptions: Seq<Subscription>, subscription: Subscription) -> Seq<
    Subscription,
> {
    if subscription.topic.is_private() && subscribed(subscriptions, subscription.topic) {
        subscriptions
    } else {
        subscriptions.push(subscription)
    }
}

/// The subscription that is wired for a hook: update, draw, pointer and key
/// events reach active frames only, enter and leave reach every frame.
pub open spec fn hook_subscription(topic: Topic) -> Subscription {
    Subscription { topic, active_only: !(topic is Enter) && !(topic is Leave) }
}

/// The subscriptions after the hook for `topic` has been looked at: wired
/// if the frame implements it, untouched if not.
pub open spec fn wired_if(subscriptions: Seq<Subscription>, hooks: FrameHooks, topic: Topic) -> Seq<
    Subscription,
> {
    if hooks.has(topic) {
        wired(subscriptions, hook_subscription(topic))
    } else {
        subscriptions
    }
}

/// The subscriptions after a frame's lifecycle has been wired: one for each
/// hook that the frame implements, in the order update, draw, pointer,
/// enter, leave, key.
pub open spec fn lifecycle_wired(subscriptions: Seq<Subscription>, hooks: FrameHooks) -> Seq<
    Subscription,
> {
    wired_if(
        wired_if(
            wired_if(
                wired_if(
                    wired_if(wired_if(subscriptions, hooks, Topic::Update), hooks, Topic::Draw),
                    hooks,
                    Topic::Pointer,
                ),
                hooks,
                Topic::Enter,
            ),
            hooks,
            Topic::Leave,
        ),
        hooks,
        Topic::Key,
    )
}

/// The input sources that a frame is attached to. A pointer hook takes
/// clicks and, where the host has unified pointer events, those; where it
/// has not, mouse and touch events. A key hook takes the keyboard.
pub open spec fn listeners(hooks: FrameHooks, supports_pointer_events: bool) -> Seq<
    EventListenerType,
> {
    let pointer = if !hooks.pointer {
        Seq::<EventListenerType>::empty()
    } else if supports_pointer_events {
        seq![EventListenerType::Click, EventListenerType::BrowserPointer]
    } else {
        seq![EventListenerType::Click, EventListenerType::Mouse, EventListenerType::Touch]
    };
    let keyboard = if hooks.key {
        seq![EventListenerType::Keyboard]
    } else {
        Seq::<EventListenerType>::empty()
    };
    pointer + keyboard
}

/// How many of `subscriptions` a message under `topic` reaches, given
/// whether the frame is active.
pub open spec fn reached(subscriptions: Seq<Subscription>, topic: Topic, active: bool) -> nat
    decreases subscriptions.len(),
{
    if subscriptions.len() == 0 {
        0
    } else {
        let last = subscriptions.last();
        let rest = reached(subscriptions.drop_last(), topic, active);
        if last.topic == topic && (active || !last.active_only) {
            rest + 1
        } else {
            rest
        }
    }
}

/// The mathematical content of a frame's registration record.
pub struct FrameView {
    pub activity_id: ActivityId,
    /// Key of the type of the frame's state in the domain.
    pub state: u64,
    pub div: PaneId,
    /// The frame's region of the display, in game coordinates.
    pub region: Rectangle,
    pub hooks: FrameHooks,
    /// Whether the frame is active; if not, it is registered and inactive.
    pub active: bool,
    /// The wired subscriptions in the order of their registration.
    pub subscriptions: Seq<Subscription>,
}

impl FrameView {
    /// The invariant of a record: a lifecycle topic is subscribed to only
    /// if the frame implements its hook.
    pub open spec fn wf(self) -> bool {
        forall|i: int|
            0 <= i < self.subscriptions.len() && (
            #[trigger] self.subscriptions[i]).topic.is_lifecycle() ==> self.hooks.has(
                self.subscriptions[i].topic,
            )
    }

    /// Whether the frame is active once `message` has been dispatched.
    pub open spec fn active_after(self, message: Message) -> bool {
        match message {
            Message::Enter => true,
            Message::Leave => false,
            _ => self.active,
        }
    }

    /// How many handler calls `message` causes. Enter and leave count only
    /// where they change the frame's status.
    pub open spec fn fires(self, message: Message) -> nat {
        match message {
            Message::Enter => if self.active {
                0
            } else {
                reached(self.subscriptions, Topic::Enter, true)
            },
            Message::Leave => if self.active {
                reached(self.subscriptions, Topic::Leave, false)
            } else {
                0
            },
            _ => reached(self.subscriptions, message.topic(), self.active),
        }
    }

    /// The handler call that `message` causes. A pointer event's position
    /// is converted from native pixels to game coordinates.
    pub open spec fn delivery(self, message: Message, pixel_ratio: Fixed) -> Delivery {
        match message {
            Message::Update => Delivery::Update,
            Message::Draw(time_ms) => Delivery::Draw { region: self.region, div: self.div, time_ms },
            Message::Pointer(event) => Delivery::Pointer(event.projected(pixel_ratio)),
            Message::Key(event) => Delivery::Key(event),
            Message::Enter => Delivery::Enter,
            Message::Leave => Delivery::Leave,
            Message::Global(kind) => Delivery::Shared(kind),
            Message::Active(kind) => Delivery::Shared(kind),
        }
    }

    /// The record after `message` has been dispatched.
    pub open spec fn after(self, message: Message) -> FrameView {
        FrameView {
            activity_id: self.activity_id,
            state: self.state,
            div: self.div,
            region: self.region,
            hooks: self.hooks,
            active: self.active_after(message),
            subscriptions: self.subscriptions,
        }
    }
}

/// What a handler call lacks, if anything. Every handler needs the frame's
/// state; drawing and pointer events need the display as well. Drawing
/// looks for the display first, a pointer event for the state.
pub open spec fn missing(message: Message, has_state: bool, has_display: bool) -> Option<
    PaddleError,
> {
    match message {
        Message::Draw(_) => if !has_display {
            Some(PaddleError::MissingContext)
        } else if !has_state {
            Some(PaddleError::MissingState)
        } else {
            None
        },
        Message::Pointer(_) => if !has_state {
            Some(PaddleError::MissingState)
        } else if !has_display {
            Some(PaddleError::MissingContext)
        } else {
            None
        },
        _ => if !has_state {
            Some(PaddleError::MissingState)
        } else {
            None
        },
    }
}

/// A message under a lifecycle topic whose hook the frame lacks reaches
/// none of its subscriptions.
pub proof fn lemma_unhooked_unreached(view: FrameView, topic: Topic, active: bool)
    requires
        view.wf(),
        topic.is_lifecycle(),
        !view.hooks.has(topic),
    ensures
        reached(view.subscriptions, topic, active) == 0,
    decreases view.subscriptions.len(),
{
    if view.subscriptions.len() > 0 {
        let rest = FrameView {
            activity_id: view.activity_id,
            state: view.state,
            div: view.div,
            region: view.region,
            hooks: view.hooks,
            active: view.active,
            subscriptions: view.subscriptions.drop_last(),
        };
        assert forall|i: int|
            0 <= i < rest.subscriptions.len() && (
            #[trigger] rest.subscriptions[i]).topic.is_lifecycle() implies rest.hooks.has(
            rest.subscriptions[i].topic,
        ) by {
            assert(view.subscriptions[i] == rest.subscriptions[i]);
        }
        lemma_unhooked_unreached(rest, topic, active);
        assert(view.subscriptions[view.subscriptions.len() - 1] == view.subscriptions.last());
    }
}

/// A frame receives no dispatch for a hook that it does not implement:
/// whatever has been wired or listened to, and whether the frame is active
/// or not, a message under that hook's topic causes no handler call.
pub proof fn lemma_unhooked_silent(view: FrameView, message: Message)
    requires
        view.wf(),
        message.topic().is_lifecycle(),
        !view.hooks.has(message.topic()),
    ensures
        view.fires(message) == 0,
{
    lemma_unhooked_unreached(view, message.topic(), view.active);
    lemma_unhooked_unreached(view, message.topic(), true);
    lemma_unhooked_unreached(view, message.topic(), false);
}

/// Whether the message bus skips a subscription with its default filter
/// while the subscriber is inactive.
///
/// Calls `nuts::SubscriptionFilter::default` and reads the filter's one
/// field. The contract claims what that function's body shows: the default
/// filter is for active subscribers only.
#[verifier::external_body]
fn default_filter_active_only() -> (r: bool)
    ensures
        r,
{
    nuts::SubscriptionFilter::default().active_only
}

/// Whether the message bus skips a subscription without a filter while the
/// subscriber is inactive.
///
/// Calls `nuts::SubscriptionFilter::no_filter` and reads the filter's one
/// field. The contract claims what that function's body shows: without a
/// filter a subscriber is called whether it is active or not.
#[verifier::external_body]
fn no_filter_active_only() -> (r: bool)
    ensures
        !r,
{
    nuts::SubscriptionFilter::no_filter().active_only
}

/// The states that have been stored for frames, by the key of their type.
pub struct FrameDomain {
    states: Vec<u64>,
}

impl View for FrameDomain {
    type V = Set<u64>;

    closed spec fn view(&self) -> Set<u64> {
        self.states@.to_set()
    }
}

impl FrameDomain {
    /// A domain without any state.
    pub fn new() -> (r: FrameDomain)
        ensures
            r@ == Set::<u64>::empty(),
    {
        let r = FrameDomain { states: Vec::new() };
        proof {
            assert(r.states@.to_set() =~= Set::<u64>::empty());
        }
        r
    }

    /// Whether a state of the given type has been stored.
    pub fn has_state(&self, key: u64) -> (r: bool)
        ensures
            r == self@.contains(key),
    {
        let mut i: usize = 0;
        while i < self.states.len()
            invariant
                i <= self.states.len(),
                forall|k: int| 0 <= k < i ==> self.states@[k] != key,
            decreases self.states.len() - i,
        {
            if self.states[i] == key {
                assert(self.states@.contains(key));
                return true;
            }
            i += 1;
        }
        false
    }

    /// Stores a state of the given type; one that was there is replaced.
    pub fn store(&mut self, key: u64)
        ensures
            final(self)@ == old(self)@.insert(key),
    {
        if !self.has_state(key) {
            self.states.push(key);
            proof {
                assert(self.states@.to_set() =~= old(self).states@.to_set().insert(key)) by {
                    assert forall|k: u64| self.states@.to_set().contains(k) implies old(
                        self,
                    ).states@.to_set().insert(key).contains(k) by {
                        let i = choose|i: int| 0 <= i < self.states@.len() && self.states@[i] == k;
                        if i < old(self).states@.len() {
                            assert(old(self).states@[i] == k);
                        }
                    }
                    assert forall|k: u64|
                        old(self).states@.to_set().insert(key).contains(
                            k,
                        ) implies self.states@.to_set().contains(k) by {
                        if k == key {
                            assert(self.states@[self.states@.len() - 1] == key);
                        } else {
                            let i = choose|i: int|
                                0 <= i < old(self).states@.len() && old(self).states@[i] == k;
                            assert(self.states@[i] == k);
                        }
                    }
                }
            }
        } else {
            proof {
                assert(old(self)@.insert(key) =~= old(self)@);
            }
        }
    }
}

/// A frame's registration record: its identity, its region, the hooks it
/// implements, its status and its subscriptions.
pub struct FrameHandle {
    activity_id: ActivityId,
    state: u64,
    div: PaneId,
    region: Rectangle,
    hooks: FrameHooks,
    active: bool,
    subscriptions: Vec<Subscription>,
}

impl View for FrameHandle {
    type V = FrameView;

    closed spec fn view(&self) -> FrameView {
        FrameView {
            activity_id: self.activity_id,
            state: self.state,
            div: self.div,
            region: self.region,
            hooks: self.hooks,
            active: self.active,
            subscriptions: self.subscriptions@,
        }
    }
}

impl FrameHandle {
    /// The invariant of the record; see [`FrameView::wf`].
    pub open spec fn wf(&self) -> bool {
        self@.wf()
    }

    /// The record of a frame that is active and has nothing wired yet.
    pub fn new(
        activity_id: ActivityId,
        state: u64,
        div: PaneId,
        region: Rectangle,
        hooks: FrameHooks,
    ) -> (r: FrameHandle)
        ensures
            r.wf(),
            r@ == (FrameView {
                activity_id,
                state,
                div,
                region,
                hooks,
                active: true,
                subscriptions: Seq::empty(),
            }),
    {
        FrameHandle {
            activity_id,
            state,
            div,
            region,
            hooks,
            active: true,
            subscriptions: Vec::new(),
        }
    }

    /// Key of the type of the frame's state.
    pub fn state(&self) -> (r: u64)
        ensures
            r == self@.state,
    {
        self.state
    }

    /// Identity of the frame.
    pub fn activity(&self) -> (r: ActivityId)
        ensures
            r == self@.activity_id,
    {
        self.activity_id
    }

    /// The host region that covers the frame.
    pub fn div(&self) -> (r: PaneId)
        ensures
            r == self@.div,
    {
        self.div
    }

    /// The frame's region of the display.
    pub fn region(&self) -> (r: Rectangle)
        ensures
            r == self@.region,
    {
        self.region
    }

    /// The hooks that the frame implements.
    pub fn hooks(&self) -> (r: FrameHooks)
        ensures
            r == self@.hooks,
    {
        self.hooks
    }

    /// Whether the frame is active.
    pub fn is_active(&self) -> (r: bool)
        ensures
            r == self@.active,
    {
        self.active
    }

    /// The wired subscriptions in the order of their registration.
    pub fn subscriptions(&self) -> (r: &Vec<Subscription>)
        ensures
            r@ == self@.subscriptions,
    {
        &self.subscriptions
    }

    fn is_subscribed(&self, topic: Topic) -> (r: bool)
        ensures
            r == subscribed(self@.subscriptions, topic),
    {
        let mut i: usize = 0;
        while i < self.subscriptions.len()
            invariant
                i <= self.subscriptions.len(),
                forall|k: int| 0 <= k < i ==> self.subscriptions@[k].topic != topic,
            decreases self.subscriptions.len() - i,
        {
            if self.subscriptions[i].topic == topic {
                return true;
            }
            i += 1;
        }
        false
    }

    fn wire(&mut self, subscription: Subscription)
        requires
            old(self).wf(),
            subscription.topic.is_lifecycle() ==> old(self)@.hooks.has(subscription.topic),
        ensures
            final(self).wf(),
            final(self)@.subscriptions == wired(old(self)@.subscriptions, subscription),
            final(self)@.activity_id == old(self)@.activity_id,
            final(self)@.state == old(self)@.state,
            final(self)@.div == old(self)@.div,
            final(self)@.region == old(self)@.region,
            final(self)@.hooks == old(self)@.hooks,
            final(self)@.active == old(self)@.active,
    {
        if subscription.topic.is_private() && self.is_subscribed(subscription.topic) {
        } else {
            self.subscriptions.push(subscription);
            proof {
                assert forall|i: int|
                    0 <= i < self@.subscriptions.len() && (
                    #[trigger] self@.subscriptions[i]).topic.is_lifecycle() implies self@.hooks.has(
                    self@.subscriptions[i].topic,
                ) by {
                    if i < old(self)@.subscriptions.len() {
                        assert(self@.subscriptions[i] == old(self)@.subscriptions[i]);
                    }
                }
            }
        }
    }

    fn wire_if(&mut self, topic: Topic)
        requires
            old(self).wf(),
            topic.is_lifecycle(),
        ensures
            final(self).wf(),
            final(self)@.subscriptions == wired_if(
                old(self)@.subscriptions,
                old(self)@.hooks,
                topic,
            ),
            final(self)@.activity_id == old(self)@.activity_id,
            final(self)@.state == old(self)@.state,
            final(self)@.div == old(self)@.div,
            final(self)@.region == old(self)@.region,
            final(self)@.hooks == old(self)@.hooks,
            final(self)@.active == old(self)@.active,
    {
        let implemented = match topic {
            Topic::Update => self.hooks.update,
            Topic::Draw => self.hooks.draw,
            Topic::Pointer => self.hooks.pointer,
            Topic::Key => self.hooks.key,
            Topic::Enter => self.hooks.enter,
            Topic::Leave => self.hooks.leave,
            _ => false,
        };
        if implemented {
            // Entering and leaving are registered without a filter, every
            // other hook with the default one.
            let active_only = match topic {
                Topic::Enter => no_filter_active_only(),
                Topic::Leave => no_filter_active_only(),
                _ => default_filter_active_only(),
            };
            self.wire(Subscription { topic, active_only });
        }
    }

    /// Wires the frame's lifecycle: a subscription for each hook that the
    /// frame implements, and none for the others. Returns the input sources
    /// that the frame is to be attached to, which depends on whether the
    /// host supports unified pointer events.
    pub fn init_frame_activity(&mut self, supports_pointer_events: bool) -> (attach: Vec<
        EventListenerType,
    >)
        requires
            old(self).wf(),
        ensures
            final(self).wf(),
            final(self)@.subscriptions == lifecycle_wired(
                old(self)@.subscriptions,
                old(self)@.hooks,
            ),
            final(self)@.activity_id == old(self)@.activity_id,
            final(self)@.state == old(self)@.state,
            final(self)@.div == old(self)@.div,
            final(self)@.region == old(self)@.region,
            final(self)@.hooks == old(self)@.hooks,
            final(self)@.active == old(self)@.active,
            attach@ == listeners(old(self)@.hooks, supports_pointer_events),
    {
        let mut attach: Vec<EventListenerType> = Vec::new();
        self.wire_if(Topic::Update);
        self.wire_if(Topic::Draw);
        self.wire_if(Topic::Pointer);
        if self.hooks.pointer {
            // Every host generates clicks, also from touches.
            attach.push(EventListenerType::Click);
            if supports_pointer_events {
                attach.push(EventListenerType::BrowserPointer);
            } else {
                attach.push(EventListenerType::Mouse);
                attach.push(EventListenerType::Touch);
            }
        }
        self.wire_if(Topic::Enter);
        self.wire_if(Topic::Leave);
        self.wire_if(Topic::Key);
        if self.hooks.key {
            attach.push(EventListenerType::Keyboard);
        }
        proof {
            assert(attach@ =~= listeners(old(self)@.hooks, supports_pointer_events));
        }
        attach
    }

    /// Subscribes the frame to shared messages of type `kind`: to those for
    /// every frame whether it is active or not, and to those for the active
    /// frames while it is active.
    pub fn listen(&mut self, kind: u64)
        requires
            old(self).wf(),
        ensures
            final(self).wf(),
            final(self)@.subscriptions == old(self)@.subscriptions.push(
                Subscription { topic: Topic::Global(kind), active_only: false },
            ).push(Subscription { topic: Topic::Active(kind), active_only: true }),
            final(self)@.activity_id == old(self)@.activity_id,
            final(self)@.state == old(self)@.state,
            final(self)@.div == old(self)@.div,
            final(self)@.region == old(self)@.region,
            final(self)@.hooks == old(self)@.hooks,
            final(self)@.active == old(self)@.active,
    {
        self.wire(Subscription { topic: Topic::Global(kind), active_only: no_filter_active_only() });
        self.wire(
            Subscription { topic: Topic::Active(kind), active_only: default_filter_active_only() },
        );
    }

    fn count_reached(&self, topic: Topic, active: bool) -> (r: usize)
        ensures
            r == reached(self@.subscriptions, topic, active),
    {
        let mut count: usize = 0;
        let mut i: usize = 0;
        proof {
            assert(self.subscriptions@.take(0) =~= Seq::<Subscription>::empty());
        }
        while i < self.subscriptions.len()
            invariant
                i <= self.subscriptions.len(),
                count <= i,
                count == reached(self.subscriptions@.take(i as int), topic, active),
            decreases self.subscriptions.len() - i,
        {
            let s = self.subscriptions[i];
            proof {
                let next = self.subscriptions@.take(i as int + 1);
                assert(next.drop_last() =~= self.subscriptions@.take(i as int));
                assert(next.last() == s);
            }
            if s.topic == topic && (active || !s.active_only) {
                count += 1;
            }
            i += 1;
        }
        proof {
            assert(self.subscriptions@.take(self.subscriptions@.len() as int)
                =~= self.subscriptions@);
        }
        count
    }

    /// Dispatches `message` to the frame: decides which handler calls are
    /// due and updates the frame's status.
    ///
    /// Enter makes an inactive frame active and leave an active one
    /// inactive; repeating either changes nothing and calls nothing. Every
    /// other message goes to the subscriptions of its topic, of which those
    /// for active frames are skipped while the frame is inactive. A call
    /// that is due although the frame's state or the display is missing is
    /// a programmer's error.
    pub fn dispatch(&mut self, message: Message, domain: &FrameDomain, display: Option<&Display>)
        -> (r: Result<Vec<Delivery>, PaddleError>)
        requires
            old(self).wf(),
        ensures
            final(self).wf(),
            final(self)@ == old(self)@.after(message),
            old(self)@.fires(message) == 0 ==> r.is_ok() && r.unwrap()@.len() == 0,
            old(self)@.fires(message) > 0 ==> match missing(
                message,
                domain@.contains(old(self)@.state),
                display.is_some(),
            ) {
                Some(error) => r == Err::<Vec<Delivery>, PaddleError>(error),
                None => r.is_ok() && r.unwrap()@ == Seq::new(
                    old(self)@.fires(message),
                    |i: int| old(self)@.delivery(message, display.unwrap()@.pixel_ratio),
                ),
            },
    {
        let fires: usize = match message {
            Message::Enter => if self.active {
                0
            } else {
                self.count_reached(Topic::Enter, true)
            },
            Message::Leave => if self.active {
                self.count_reached(Topic::Leave, false)
            } else {
                0
            },
            _ => self.count_reached(message.topic(), self.active),
        };
        match message {
            Message::Enter => {
                self.active = true;
            },
            Message::Leave => {
                self.active = false;
            },
            _ => {},
        }
        let mut calls: Vec<Delivery> = Vec::new();
        if fires == 0 {
            return Ok(calls);
        }
        let has_display = display.is_some();
        let domain_has_state = domain.has_state(self.state);
        let failure = match message {
            Message::Draw(_) => if !has_display {
                Some(PaddleError::MissingContext)
            } else if !domain_has_state {
                Some(PaddleError::MissingState)
            } else {
                None
            },
            Message::Pointer(_) => if !domain_has_state {
                Some(PaddleError::MissingState)
            } else if !has_display {
                Some(PaddleError::MissingContext)
            } else {
                None
            },
            _ => if !domain_has_state {
                Some(PaddleError::MissingState)
            } else {
                None
            },
        };
        if let Some(error) = failure {
            return Err(error);
        }
        let call = match message {
            Message::Update => Delivery::Update,
            Message::Draw(time_ms) => Delivery::Draw { region: self.region, div: self.div, time_ms },
            Message::Pointer(event) => {
                let ratio = match display {
                    Some(d) => d.browser_to_game_pixel_ratio(),
                    None => Fixed::one(),
                };
                Delivery::Pointer(event.projected(ratio))
            },
            Message::Key(event) => Delivery::Key(event),
            Message::Enter => Delivery::Enter,
            Message::Leave => Delivery::Leave,
            Message::Global(kind) => Delivery::Shared(kind),
            Message::Active(kind) => Delivery::Shared(kind),
        };
        let mut i: usize = 0;
        while i < fires
            invariant
                i <= fires,
                calls@ == Seq::new(i as nat, |k: int| call),
            decreases fires - i,
        {
            calls.push(call);
            proof {
                assert(calls@ =~= Seq::new((i + 1) as nat, |k: int| call));
            }
            i += 1;
        }
        proof {
            let expected = Seq::new(
                old(self)@.fires(message),
                |i: int| old(self)@.delivery(message, display.unwrap()@.pixel_ratio),
            );
            assert(calls@ =~= expected);
        }
        Ok(calls)
    }
}

/// Registers a frame whose state has been stored before: makes its record
/// for the region at `pos` with the frame's `size`, and wires its
/// lifecycle. Returns the record and the input sources to attach it to.
pub fn register_frame_no_state(
    hooks: FrameHooks,
    state: u64,
    size: (u32, u32),
    pos: (u32, u32),
    activity: ActivityId,
    div: PaneId,
    supports_pointer_events: bool,
) -> (r: (FrameHandle, Vec<EventListenerType>))
    ensures
        r.0.wf(),
        r.0@ == (FrameView {
            activity_id: activity,
            state,
            div,
            region: frame_region(pos, size),
            hooks,
            active: true,
            subscriptions: lifecycle_wired(Seq::empty(), hooks),
        }),
        r.1@ == listeners(hooks, supports_pointer_events),
{
    let area = Rectangle::new(
        Vector::from_ints(pos.0 as i64, pos.1 as i64),
        Vector::from_ints(size.0 as i64, size.1 as i64),
    );
    let mut handle = FrameHandle::new(activity, state, div, area, hooks);
    let attach = handle.init_frame_activity(supports_pointer_events);
    (handle, attach)
}

/// Registers a frame together with its state: stores the state's type in
/// the domain and registers the frame as [`register_frame_no_state`] does.
pub fn register_frame(
    domain: &mut FrameDomain,
    hooks: FrameHooks,
    state: u64,
    size: (u32, u32),
    pos: (u32, u32),
    activity: ActivityId,
    div: PaneId,
    supports_pointer_events: bool,
) -> (r: (FrameHandle, Vec<EventListenerType>))
    ensures
        final(domain)@ == old(domain)@.insert(state),
        r.0.wf(),
        r.0@ == (FrameView {
            activity_id: activity,
            state,
            div,
            region: frame_region(pos, size),
            hooks,
            active: true,
            subscriptions: lifecycle_wired(Seq::empty(), hooks),
        }),
        r.1@ == listeners(hooks, supports_pointer_events),
{
    domain.store(state);
    register_frame_no_state(hooks, state, size, pos, activity, div, supports_pointer_events)
}

/// The region of a frame of the given size in whole game units whose top
/// left corner is at `pos`.
pub open spec fn frame_region(pos: (u32, u32), size: (u32, u32)) -> Rectangle {
    Rectangle {
        pos: Vector::from_ints(pos.0 as i64, pos.1 as i64),
        size: Vector::from_ints(size.0 as i64, size.1 as i64),
    }
}

} // verus!
