use animated_rows::easing::AnimState;
use animated_rows::fetch::{
    App, RowState, UpdateAction, ANIMATION_DURATION_MS, FETCH_LATENCY_MS, STAGGER_DELAY_MS,
    SYNTHETIC_ROW_COUNT,
};
use animated_rows::label::synthetic_rows;

#[test]
fn a_fresh_app_asks_for_a_worker_once() {
    let mut app = App::new();
    assert!(app.is_loading());
    let action = app.update(0);
    assert!(matches!(action, UpdateAction::StartWorker(_)));
    assert!(app.is_loading());
    // The next frame polls instead of starting a second worker.
    let action = app.update(16);
    assert!(matches!(action, UpdateAction::KeepWaiting));
}

#[test]
fn fetch_scenario_with_simulated_latency() {
    let mut app = App::new();
    let sender = match app.update(0) {
        UpdateAction::StartWorker(sender) => sender,
        _ => panic!("a fresh app must start a worker"),
    };

    // Until the simulated latency has elapsed nothing has been sent: every
    // poll yields no data and the placeholder stays up.
    for frame in 1..5u64 {
        let now = frame * 1000;
        assert!(now < FETCH_LATENCY_MS);
        assert!(matches!(app.update(now), UpdateAction::KeepWaiting));
        assert!(app.is_loading());
        assert!(app.displayed().is_none());
    }

    // The worker finishes after the latency and sends the 100-row payload.
    let payload = synthetic_rows("GE-Proton-", "/some/path/", SYNTHETIC_ROW_COUNT);
    sender.send(payload).expect("Failed to send rows");

    // The next poll yields exactly the 100-row list.
    let arrived_at = FETCH_LATENCY_MS;
    assert!(matches!(app.update(arrived_at), UpdateAction::Arrived));
    assert!(!app.is_loading());
    let list = app.displayed().expect("the list must be displayed");
    assert_eq!(list.len(), SYNTHETIC_ROW_COUNT);
    for i in 0..SYNTHETIC_ROW_COUNT {
        let row = list.get(i);
        assert_eq!(row.data.version, format!("GE-Proton-{}", i));
        assert_eq!(row.data.path, format!("/some/path/{}", i));
        assert_eq!(row.start_ms, arrived_at);
        assert_eq!(row.duration_ms, ANIMATION_DURATION_MS);
        assert_eq!(row.delay_ms, (i as u64) * STAGGER_DELAY_MS);
    }

    // The placeholder is never shown again afterwards.
    for frame in 1..50u64 {
        assert!(matches!(app.update(arrived_at + frame * 16), UpdateAction::ShowList));
        assert!(!app.is_loading());
        assert!(app.displayed().is_some());
    }
}

#[test]
fn polling_an_empty_channel_leaves_the_state_alone() {
    let mut app = App::new();
    let _sender = match app.update(0) {
        UpdateAction::StartWorker(sender) => sender,
        _ => panic!("a fresh app must start a worker"),
    };
    for frame in 0..10u64 {
        assert!(matches!(app.update(frame), UpdateAction::KeepWaiting));
        assert!(app.is_loading());
    }
}

#[test]
fn a_dropped_worker_keeps_the_placeholder_up() {
    let mut app = App::new();
    let sender = match app.update(0) {
        UpdateAction::StartWorker(sender) => sender,
        _ => panic!("a fresh app must start a worker"),
    };
    drop(sender);
    // The receive error is silently swallowed; the app keeps waiting.
    assert!(matches!(app.update(100), UpdateAction::KeepWaiting));
    assert!(app.is_loading());
}

#[test]
fn refresh_returns_to_fetching() {
    let mut app = App::new();
    let sender = match app.update(0) {
        UpdateAction::StartWorker(sender) => sender,
        _ => panic!("a fresh app must start a worker"),
    };
    sender
        .send(synthetic_rows("GE-Proton-", "/some/path/", 3))
        .expect("Failed to send rows");
    assert!(matches!(app.update(10), UpdateAction::Arrived));

    // The refresh button starts a new fetch cycle from scratch.
    let sender = app.start_fetch();
    assert!(app.is_loading());
    assert!(matches!(app.update(20), UpdateAction::KeepWaiting));
    sender
        .send(synthetic_rows("GE-Proton-", "/some/path/", 5))
        .expect("Failed to send rows");
    assert!(matches!(app.update(30), UpdateAction::Arrived));
    assert_eq!(app.displayed().expect("displayed").len(), 5);
}

#[test]
fn applying_a_payload_installs_exactly_those_rows() {
    let mut app = App::new();
    let payload = synthetic_rows("GE-Proton-", "/some/path/", 3);
    assert!(matches!(app.apply_payload(payload, 500), UpdateAction::Arrived));
    let list = app.displayed().expect("the list must be displayed");
    assert_eq!(list.len(), 3);
    for i in 0..3 {
        let row = list.get(i);
        assert_eq!(row.data.version, format!("GE-Proton-{}", i));
        assert_eq!(row.start_ms, 500);
        assert_eq!(row.delay_ms, (i as u64) * STAGGER_DELAY_MS);
        assert_eq!(row.duration_ms, ANIMATION_DURATION_MS);
    }
}

#[test]
fn the_displayed_list_animates_from_its_arrival_time() {
    let mut app = App::new();
    let sender = app.start_fetch();
    sender
        .send(synthetic_rows("v", "/p/", 2))
        .expect("Failed to send rows");
    assert!(matches!(app.update(7000), UpdateAction::Arrived));
    match &mut app.state {
        RowState::Displaying(list) => {
            // At arrival the first row has just begun, the second still waits.
            assert!(list.tick_all(7000));
            assert_eq!(list.get(0).state, AnimState::Animating);
            assert_eq!(list.get(1).state, AnimState::Waiting);
            // Both rows are done once delay plus duration has passed.
            assert!(!list.tick_all(7000 + STAGGER_DELAY_MS + ANIMATION_DURATION_MS));
        },
        RowState::Fetching(_) => panic!("the app must be displaying"),
    }
}
