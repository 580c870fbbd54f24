use leap::event_handler::{next_action, select_event, HandlerAction, HandlerEvent, MAX_UPDATE_RATE_MILLIS};

#[test]
fn cancellation_wins() {
    assert_eq!(select_event(true, true), Some(HandlerEvent::Cancelled));
    assert_eq!(select_event(true, false), Some(HandlerEvent::Cancelled));
    assert_eq!(select_event(false, true), Some(HandlerEvent::StateChanged));
    assert_eq!(select_event(false, false), None);
}

#[test]
fn actions_follow_events() {
    assert_eq!(next_action(HandlerEvent::Cancelled), HandlerAction::Stop);
    assert_eq!(next_action(HandlerEvent::StateChanged), HandlerAction::LoadMetadata);
    assert_eq!(
        next_action(HandlerEvent::MetadataLoaded),
        HandlerAction::Publish { throttle_millis: 200 }
    );
    assert_eq!(MAX_UPDATE_RATE_MILLIS, 200);
    assert_eq!(next_action(HandlerEvent::MetadataFailed), HandlerAction::Renotify);
}
