use paddle::display::{Display, PaneId};
use paddle::error::PaddleError;
use paddle::frame::frame_manipulation::pixels;
use paddle::frame::{
    register_frame, register_frame_no_state, ActivityId, Delivery, FrameDomain, FrameHandle,
    FrameHooks, FrameInitialization, FrameManipulator, Message, PaneGeometry, Subscription, Topic,
};
use paddle::geometry::{Fixed, Rectangle, Vector};
use paddle::input::{EventListenerType, Key, KeyEvent, KeyEventType, PointerEvent, PointerEventType};

fn fx(raw: i64) -> Fixed {
    Fixed::from_raw(raw)
}

fn v(x: i64, y: i64) -> Vector {
    Vector::from_ints(x, y)
}

fn all_hooks() -> FrameHooks {
    FrameHooks { update: true, draw: true, pointer: true, key: true, enter: true, leave: true }
}

fn frame(hooks: FrameHooks) -> FrameHandle {
    register_frame_no_state(hooks, 7, (30, 40), (10, 20), ActivityId { index: 1 }, PaneId { index: 2 }, true).0
}

fn domain_with_state() -> FrameDomain {
    let mut domain = FrameDomain::new();
    domain.store(7);
    domain
}

fn display_at_ratio_two() -> Display {
    let mut d = Display::new(v(100, 50), PaneId { index: 0 });
    d.fit_to_visible_area(v(200, 100), Fixed::zero()).unwrap();
    d
}

fn sub(topic: Topic, active_only: bool) -> Subscription {
    Subscription { topic, active_only }
}

fn kinds(calls: &Vec<Delivery>) -> Vec<&'static str> {
    calls
        .iter()
        .map(|c| match c {
            Delivery::Update => "update",
            Delivery::Draw { .. } => "draw",
            Delivery::Pointer(_) => "pointer",
            Delivery::Key(_) => "key",
            Delivery::Enter => "enter",
            Delivery::Leave => "leave",
            Delivery::Shared(_) => "shared",
        })
        .collect()
}

#[test]
fn registration_makes_an_active_record_for_the_region() {
    let handle = frame(all_hooks());
    assert_eq!(handle.activity(), ActivityId { index: 1 });
    assert_eq!(handle.div(), PaneId { index: 2 });
    assert_eq!(handle.state(), 7);
    assert_eq!(handle.region(), Rectangle::new(v(10, 20), v(30, 40)));
    assert_eq!(handle.hooks(), all_hooks());
    assert!(handle.is_active());
}

#[test]
fn every_hook_is_wired_in_order() {
    let handle = frame(all_hooks());
    assert_eq!(
        handle.subscriptions(),
        &vec![
            sub(Topic::Update, true),
            sub(Topic::Draw, true),
            sub(Topic::Pointer, true),
            sub(Topic::Enter, false),
            sub(Topic::Leave, false),
            sub(Topic::Key, true),
        ]
    );
}

#[test]
fn missing_hooks_are_not_wired() {
    assert_eq!(frame(FrameHooks::none()).subscriptions().len(), 0);
    let hooks = FrameHooks { draw: true, leave: true, ..FrameHooks::none() };
    assert_eq!(
        frame(hooks).subscriptions(),
        &vec![sub(Topic::Draw, true), sub(Topic::Leave, false)]
    );
}

#[test]
fn pointer_hook_attaches_to_unified_pointer_events_where_supported() {
    let hooks = FrameHooks { pointer: true, ..FrameHooks::none() };
    let (_, attach) =
        register_frame_no_state(hooks, 7, (1, 1), (0, 0), ActivityId { index: 1 }, PaneId { index: 2 }, true);
    assert_eq!(attach, vec![EventListenerType::Click, EventListenerType::BrowserPointer]);
}

#[test]
fn pointer_hook_falls_back_to_mouse_and_touch() {
    let hooks = FrameHooks { pointer: true, ..FrameHooks::none() };
    let (_, attach) =
        register_frame_no_state(hooks, 7, (1, 1), (0, 0), ActivityId { index: 1 }, PaneId { index: 2 }, false);
    assert_eq!(
        attach,
        vec![EventListenerType::Click, EventListenerType::Mouse, EventListenerType::Touch]
    );
}

#[test]
fn key_hook_attaches_to_the_keyboard() {
    let hooks = FrameHooks { key: true, ..FrameHooks::none() };
    let (_, attach) =
        register_frame_no_state(hooks, 7, (1, 1), (0, 0), ActivityId { index: 1 }, PaneId { index: 2 }, true);
    assert_eq!(attach, vec![EventListenerType::Keyboard]);
    let (_, attach) = register_frame_no_state(
        all_hooks(),
        7,
        (1, 1),
        (0, 0),
        ActivityId { index: 1 },
        PaneId { index: 2 },
        false,
    );
    assert_eq!(
        attach,
        vec![
            EventListenerType::Click,
            EventListenerType::Mouse,
            EventListenerType::Touch,
            EventListenerType::Keyboard
        ]
    );
    let (_, attach) = register_frame_no_state(
        FrameHooks { update: true, draw: true, enter: true, leave: true, ..FrameHooks::none() },
        7,
        (1, 1),
        (0, 0),
        ActivityId { index: 1 },
        PaneId { index: 2 },
        true,
    );
    assert!(attach.is_empty());
}

#[test]
fn unwired_record_gets_wired_by_init() {
    let mut handle = FrameHandle::new(
        ActivityId { index: 4 },
        7,
        PaneId { index: 5 },
        Rectangle::new(v(0, 0), v(1, 1)),
        FrameHooks { update: true, pointer: true, ..FrameHooks::none() },
    );
    assert!(handle.subscriptions().is_empty());
    let attach = handle.init_frame_activity(true);
    assert_eq!(attach, vec![EventListenerType::Click, EventListenerType::BrowserPointer]);
    assert_eq!(handle.subscriptions(), &vec![sub(Topic::Update, true), sub(Topic::Pointer, true)]);
}

#[test]
fn private_channels_are_wired_once() {
    let mut handle = frame(FrameHooks { update: true, pointer: true, key: true, ..FrameHooks::none() });
    handle.init_frame_activity(true);
    assert_eq!(
        handle.subscriptions(),
        &vec![
            sub(Topic::Update, true),
            sub(Topic::Pointer, true),
            sub(Topic::Key, true),
            sub(Topic::Update, true),
        ]
    );
    assert!(Topic::Pointer.is_private());
    assert!(Topic::Key.is_private());
    assert!(!Topic::Update.is_private());
    assert!(!Topic::Global(1).is_private());
}

#[test]
fn listen_subscribes_to_both_kinds_of_shared_messages() {
    let mut handle = frame(FrameHooks::none());
    handle.listen(42);
    assert_eq!(
        handle.subscriptions(),
        &vec![sub(Topic::Global(42), false), sub(Topic::Active(42), true)]
    );
}

#[test]
fn message_topics() {
    assert_eq!(Message::Update.topic(), Topic::Update);
    assert_eq!(Message::Draw(Fixed::zero()).topic(), Topic::Draw);
    assert_eq!(Message::Enter.topic(), Topic::Enter);
    assert_eq!(Message::Leave.topic(), Topic::Leave);
    assert_eq!(Message::Global(3).topic(), Topic::Global(3));
    assert_eq!(Message::Active(3).topic(), Topic::Active(3));
    let pointer = Message::Pointer(PointerEvent(PointerEventType::Move, v(0, 0)));
    assert_eq!(pointer.topic(), Topic::Pointer);
    let key = Message::Key(KeyEvent(KeyEventType::KeyDown, Key::Escape));
    assert_eq!(key.topic(), Topic::Key);
}

#[test]
fn pointer_events_are_projected_into_game_coordinates() {
    let mut handle = frame(all_hooks());
    let display = display_at_ratio_two();
    let event = PointerEvent(PointerEventType::PrimaryClick, v(200, 100));
    let calls = handle.dispatch(Message::Pointer(event), &domain_with_state(), Some(&display)).unwrap();
    assert_eq!(calls.len(), 1);
    match calls[0] {
        Delivery::Pointer(projected) => {
            assert_eq!(projected.event_type(), PointerEventType::PrimaryClick);
            assert_eq!(projected.pos(), v(100, 50));
        }
        _ => panic!("a pointer event was due"),
    }
}

#[test]
fn projection_divides_by_the_ratio() {
    let event = PointerEvent(PointerEventType::Move, v(200, 100));
    assert_eq!(event.projected(Fixed::from_int(2)).pos(), v(100, 50));
    assert_eq!(event.projected(fx(1_500_000)).pos(), Vector::new(fx(133_333_333), fx(66_666_666)));
    assert_eq!(event.projected(Fixed::one()).pos(), v(200, 100));
}

#[test]
fn key_events_are_delivered_verbatim() {
    let mut handle = frame(all_hooks());
    let event = KeyEvent(KeyEventType::KeyUp, Key::KeyQ);
    let calls = handle.dispatch(Message::Key(event), &domain_with_state(), None).unwrap();
    assert_eq!(calls.len(), 1);
    match calls[0] {
        Delivery::Key(delivered) => {
            assert_eq!(delivered.event_type(), KeyEventType::KeyUp);
            assert_eq!(delivered.key(), Key::KeyQ);
        }
        _ => panic!("a key event was due"),
    }
}

#[test]
fn draw_is_delivered_with_region_pane_and_time() {
    let mut handle = frame(all_hooks());
    let display = display_at_ratio_two();
    let calls = handle.dispatch(Message::Draw(fx(16_666_667)), &domain_with_state(), Some(&display)).unwrap();
    assert_eq!(calls.len(), 1);
    match calls[0] {
        Delivery::Draw { region, div, time_ms } => {
            assert_eq!(region, Rectangle::new(v(10, 20), v(30, 40)));
            assert_eq!(div, PaneId { index: 2 });
            assert_eq!(time_ms.raw, 16_666_667);
        }
        _ => panic!("a draw was due"),
    }
}

#[test]
fn update_is_delivered_without_a_display() {
    let mut handle = frame(all_hooks());
    let calls = handle.dispatch(Message::Update, &domain_with_state(), None).unwrap();
    assert_eq!(kinds(&calls), vec!["update"]);
}

#[test]
fn frame_without_draw_hook_receives_no_draw() {
    let hooks = FrameHooks { draw: false, ..all_hooks() };
    let mut handle = frame(hooks);
    handle.listen(1);
    let display = display_at_ratio_two();
    for _ in 0..3 {
        let calls = handle.dispatch(Message::Draw(Fixed::zero()), &domain_with_state(), Some(&display)).unwrap();
        assert!(calls.is_empty());
    }
    // not even the missing state is looked for
    let calls = handle.dispatch(Message::Draw(Fixed::zero()), &FrameDomain::new(), None).unwrap();
    assert!(calls.is_empty());
}

#[test]
fn frame_with_draw_but_without_pointer_hook_receives_no_pointer_event() {
    let hooks = FrameHooks { draw: true, ..FrameHooks::none() };
    let mut handle = frame(hooks);
    let display = display_at_ratio_two();
    let event = PointerEvent(PointerEventType::Down, v(1, 1));
    let calls = handle.dispatch(Message::Pointer(event), &domain_with_state(), Some(&display)).unwrap();
    assert!(calls.is_empty());
    let calls = handle.dispatch(Message::Draw(Fixed::zero()), &domain_with_state(), Some(&display)).unwrap();
    assert_eq!(kinds(&calls), vec!["draw"]);
}

#[test]
fn leave_and_enter_switch_the_status_once() {
    let mut handle = frame(all_hooks());
    let domain = domain_with_state();
    assert_eq!(kinds(&handle.dispatch(Message::Enter, &domain, None).unwrap()), Vec::<&str>::new());
    assert!(handle.is_active());
    assert_eq!(kinds(&handle.dispatch(Message::Leave, &domain, None).unwrap()), vec!["leave"]);
    assert!(!handle.is_active());
    assert_eq!(kinds(&handle.dispatch(Message::Leave, &domain, None).unwrap()), Vec::<&str>::new());
    assert!(!handle.is_active());
    assert_eq!(kinds(&handle.dispatch(Message::Enter, &domain, None).unwrap()), vec!["enter"]);
    assert!(handle.is_active());
}

#[test]
fn status_changes_without_hooks_call_nothing() {
    let mut handle = frame(FrameHooks::none());
    let domain = FrameDomain::new();
    assert!(handle.dispatch(Message::Leave, &domain, None).unwrap().is_empty());
    assert!(!handle.is_active());
    assert!(handle.dispatch(Message::Enter, &domain, None).unwrap().is_empty());
    assert!(handle.is_active());
}

#[test]
fn inactive_frames_are_skipped_by_lifecycle_messages() {
    let mut handle = frame(all_hooks());
    let domain = domain_with_state();
    let display = display_at_ratio_two();
    handle.dispatch(Message::Leave, &domain, None).unwrap();
    assert!(handle.dispatch(Message::Update, &domain, None).unwrap().is_empty());
    assert!(handle.dispatch(Message::Draw(Fixed::zero()), &domain, Some(&display)).unwrap().is_empty());
    let event = PointerEvent(PointerEventType::Down, v(1, 1));
    assert!(handle.dispatch(Message::Pointer(event), &domain, Some(&display)).unwrap().is_empty());
    let key = KeyEvent(KeyEventType::KeyDown, Key::Enter);
    assert!(handle.dispatch(Message::Key(key), &domain, None).unwrap().is_empty());
    handle.dispatch(Message::Enter, &domain, None).unwrap();
    assert_eq!(kinds(&handle.dispatch(Message::Update, &domain, None).unwrap()), vec!["update"]);
}

#[test]
fn shared_messages_reach_listeners() {
    let mut handle = frame(FrameHooks::none());
    let domain = domain_with_state();
    handle.listen(42);
    let calls = handle.dispatch(Message::Global(42), &domain, None).unwrap();
    assert_eq!(calls.len(), 1);
    assert!(matches!(calls[0], Delivery::Shared(42)));
    let calls = handle.dispatch(Message::Active(42), &domain, None).unwrap();
    assert_eq!(calls.len(), 1);
    assert!(matches!(calls[0], Delivery::Shared(42)));
    assert!(handle.dispatch(Message::Global(43), &domain, None).unwrap().is_empty());
    handle.dispatch(Message::Leave, &domain, None).unwrap();
    assert_eq!(handle.dispatch(Message::Global(42), &domain, None).unwrap().len(), 1);
    assert!(handle.dispatch(Message::Active(42), &domain, None).unwrap().is_empty());
}

#[test]
fn listening_twice_is_called_twice() {
    let mut handle = frame(FrameHooks::none());
    handle.listen(42);
    handle.listen(42);
    let calls = handle.dispatch(Message::Global(42), &domain_with_state(), None).unwrap();
    assert_eq!(kinds(&calls), vec!["shared", "shared"]);
}

#[test]
fn missing_state_is_a_programmer_error() {
    let mut handle = frame(all_hooks());
    let empty = FrameDomain::new();
    let display = display_at_ratio_two();
    assert_eq!(handle.dispatch(Message::Update, &empty, None).unwrap_err(), PaddleError::MissingState);
    let key = KeyEvent(KeyEventType::KeyDown, Key::Enter);
    assert_eq!(handle.dispatch(Message::Key(key), &empty, None).unwrap_err(), PaddleError::MissingState);
    assert_eq!(
        handle.dispatch(Message::Draw(Fixed::zero()), &empty, Some(&display)).unwrap_err(),
        PaddleError::MissingState
    );
    handle.listen(1);
    assert_eq!(handle.dispatch(Message::Global(1), &empty, None).unwrap_err(), PaddleError::MissingState);
    assert_eq!(handle.dispatch(Message::Leave, &empty, None).unwrap_err(), PaddleError::MissingState);
    assert!(!handle.is_active());
    let mut other = FrameDomain::new();
    other.store(8);
    assert_eq!(handle.dispatch(Message::Enter, &other, None).unwrap_err(), PaddleError::MissingState);
    assert!(handle.is_active());
}

#[test]
fn missing_display_is_a_programmer_error() {
    let mut handle = frame(all_hooks());
    let domain = domain_with_state();
    let event = PointerEvent(PointerEventType::Down, v(1, 1));
    assert_eq!(
        handle.dispatch(Message::Draw(Fixed::zero()), &domain, None).unwrap_err(),
        PaddleError::MissingContext
    );
    assert_eq!(
        handle.dispatch(Message::Pointer(event), &domain, None).unwrap_err(),
        PaddleError::MissingContext
    );
    // drawing looks for the display first, a pointer event for the state
    let empty = FrameDomain::new();
    assert_eq!(
        handle.dispatch(Message::Draw(Fixed::zero()), &empty, None).unwrap_err(),
        PaddleError::MissingContext
    );
    assert_eq!(
        handle.dispatch(Message::Pointer(event), &empty, None).unwrap_err(),
        PaddleError::MissingState
    );
}

#[test]
fn domain_remembers_stored_states() {
    let mut domain = FrameDomain::new();
    assert!(!domain.has_state(7));
    domain.store(7);
    domain.store(7);
    domain.store(9);
    assert!(domain.has_state(7));
    assert!(domain.has_state(9));
    assert!(!domain.has_state(8));
}

#[test]
fn register_frame_stores_the_state() {
    let mut domain = FrameDomain::new();
    let (mut handle, attach) = register_frame(
        &mut domain,
        FrameHooks { update: true, ..FrameHooks::none() },
        7,
        (30, 40),
        (10, 20),
        ActivityId { index: 1 },
        PaneId { index: 2 },
        true,
    );
    assert!(domain.has_state(7));
    assert!(attach.is_empty());
    assert_eq!(handle.region(), Rectangle::new(v(10, 20), v(30, 40)));
    assert_eq!(kinds(&handle.dispatch(Message::Update, &domain, None).unwrap()), vec!["update"]);
}

#[test]
fn pixels_drop_the_fraction_and_clamp() {
    assert_eq!(pixels(fx(12_999_999)), 12);
    assert_eq!(pixels(fx(0)), 0);
    assert_eq!(pixels(fx(-1)), 0);
    assert_eq!(pixels(fx(-5_000_000)), 0);
    assert_eq!(pixels(Fixed::from_int(u32::MAX as i64)), u32::MAX);
    assert_eq!(pixels(Fixed::from_int(u32::MAX as i64 + 1)), u32::MAX);
    assert_eq!(pixels(fx(i64::MAX)), u32::MAX);
}

#[test]
fn pane_is_placed_over_the_region_in_pixels() {
    let handle = frame(all_hooks());
    let init = FrameManipulator::init_frame(&handle);
    assert_eq!(init.div, PaneId { index: 2 });
    assert_eq!(init.region, Rectangle::new(v(10, 20), v(30, 40)));
    let mut manipulator = FrameManipulator::init();
    let display = display_at_ratio_two();
    let geometry = manipulator.priv_init_frame(&display, init);
    assert_eq!(geometry, PaneGeometry { div: PaneId { index: 2 }, x: 20, y: 40, w: 60, h: 80 });
}

#[test]
fn pane_geometry_rounds_down_and_clamps() {
    let mut d = Display::new(v(100, 50), PaneId { index: 0 });
    d.fit_to_visible_area(v(150, 300), Fixed::zero()).unwrap();
    assert_eq!(d.browser_to_game_pixel_ratio().raw, 1_500_000);
    let init = FrameInitialization {
        div: PaneId { index: 1 },
        region: Rectangle::new(v(-10, 3), v(5, 7)),
    };
    let geometry = FrameManipulator::init().priv_init_frame(&d, init);
    assert_eq!(geometry, PaneGeometry { div: PaneId { index: 1 }, x: 0, y: 4, w: 7, h: 10 });
}
