use wlvideo::events::{
    next_step, on_bus_message, queue_event, should_replace, BusMessage, BusReaction, LoopStep,
    WindowEvent,
};

fn configure(w: u32) -> WindowEvent<Vec<u8>> {
    WindowEvent::Configure { new_size: Some((w, w)), states: vec![1, 2] }
}

#[test]
fn anything_replaces_nothing() {
    assert!(should_replace(&WindowEvent::<()>::Refresh, &None));
    assert!(should_replace(&WindowEvent::Configure { new_size: None, states: () }, &None));
    assert!(should_replace(&WindowEvent::<()>::Close, &None));
}

#[test]
fn anything_replaces_a_refresh() {
    let pending = Some(WindowEvent::<()>::Refresh);
    assert!(should_replace(&WindowEvent::Refresh, &pending));
    assert!(should_replace(&WindowEvent::Configure { new_size: None, states: () }, &pending));
    assert!(should_replace(&WindowEvent::Close, &pending));
}

#[test]
fn only_configure_and_close_replace_a_configure() {
    let pending = Some(WindowEvent::Configure { new_size: Some((1, 2)), states: () });
    assert!(!should_replace(&WindowEvent::Refresh, &pending));
    assert!(should_replace(&WindowEvent::Configure { new_size: None, states: () }, &pending));
    assert!(should_replace(&WindowEvent::Close, &pending));
}

#[test]
fn only_close_replaces_a_close() {
    let pending = Some(WindowEvent::<()>::Close);
    assert!(!should_replace(&WindowEvent::Refresh, &pending));
    assert!(!should_replace(&WindowEvent::Configure { new_size: None, states: () }, &pending));
    assert!(should_replace(&WindowEvent::Close, &pending));
}

#[test]
fn queue_keeps_the_last_configure_of_a_batch() {
    let mut pending = None;
    queue_event(&mut pending, WindowEvent::Refresh);
    assert!(matches!(pending, Some(WindowEvent::Refresh)));
    queue_event(&mut pending, configure(10));
    queue_event(&mut pending, WindowEvent::Refresh);
    queue_event(&mut pending, configure(20));
    queue_event(&mut pending, WindowEvent::Refresh);
    match pending {
        Some(WindowEvent::Configure { new_size, states }) => {
            assert_eq!(new_size, Some((20, 20)));
            assert_eq!(states, vec![1, 2]);
        }
        other => panic!("unexpected pending event {:?}", other),
    }
}

#[test]
fn queue_keeps_a_close_request() {
    let mut pending = None;
    queue_event(&mut pending, configure(10));
    queue_event(&mut pending, WindowEvent::Close);
    queue_event(&mut pending, configure(20));
    queue_event(&mut pending, WindowEvent::Refresh);
    assert!(matches!(pending, Some(WindowEvent::Close)));
}

#[test]
fn close_ends_the_loop() {
    assert!(matches!(next_step(Some(WindowEvent::<()>::Close), (640, 480)), LoopStep::Exit));
}

#[test]
fn refresh_only_refreshes() {
    assert!(matches!(next_step(Some(WindowEvent::<()>::Refresh), (640, 480)), LoopStep::Refresh));
}

#[test]
fn nothing_pending_is_idle() {
    assert!(matches!(next_step(None::<WindowEvent<()>>, (640, 480)), LoopStep::Idle));
}

#[test]
fn configure_with_a_size_resizes() {
    match next_step(Some(configure(300)), (640, 480)) {
        LoopStep::Reconfigure { resize, states, dimensions } => {
            assert_eq!(resize, Some((300, 300)));
            assert_eq!(states, vec![1, 2]);
            assert_eq!(dimensions, (300, 300));
        }
        other => panic!("unexpected step {:?}", other),
    }
}

#[test]
fn configure_without_a_size_keeps_the_dimensions() {
    let event = WindowEvent::Configure { new_size: None, states: "active" };
    match next_step(Some(event), (640, 480)) {
        LoopStep::Reconfigure { resize, states, dimensions } => {
            assert_eq!(resize, None);
            assert_eq!(states, "active");
            assert_eq!(dimensions, (640, 480));
        }
        other => panic!("unexpected step {:?}", other),
    }
}

#[test]
fn only_an_error_stops_the_pipeline() {
    assert_eq!(
        on_bus_message(BusMessage::Eos),
        BusReaction { stop_pipeline: false, keep_watching: true }
    );
    assert_eq!(
        on_bus_message(BusMessage::Error),
        BusReaction { stop_pipeline: true, keep_watching: true }
    );
    assert_eq!(
        on_bus_message(BusMessage::Other),
        BusReaction { stop_pipeline: false, keep_watching: true }
    );
}
