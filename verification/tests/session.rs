use nclicker::session::{click_command, compute_sleep_ms, run_session, session_tick, TickStep};
use nclicker::{ClickMode, ClickType, ClickingConfig, ClickerState, MouseButton, NClickerApp};

fn config(interval_ms: u64, click_mode: ClickMode) -> ClickingConfig {
    ClickingConfig {
        interval_ms,
        mouse_button: MouseButton::Left,
        click_type: ClickType::Single,
        click_mode,
        use_current_position: true,
        cursor_x: 0,
        cursor_y: 0,
        random_offset: false,
        random_offset_ms: 0,
    }
}

#[test]
fn count_three_runs_exactly_three_clicks() {
    // interval 500 ms, repeat three times, no jitter: exactly three clicks,
    // final count three, session no longer running, no external stop needed.
    let cfg = config(500, ClickMode::RepeatCount(3));
    let mut state = ClickerState::new();
    state.start_clicking_with_config(cfg);
    let log = run_session(&mut state, &cfg, 10);
    assert_eq!(log.len(), 3);
    assert_eq!(state.get_click_count(), 3);
    assert!(!state.is_running());
}

#[test]
fn count_mode_tick_sleeps_configured_interval() {
    let cfg = config(500, ClickMode::RepeatCount(3));
    let mut state = ClickerState::new();
    state.start_clicking_with_config(cfg);
    let mut performed: u32 = 0;
    match session_tick(&mut state, &mut performed, &cfg) {
        TickStep::Click { command, sleep_ms } => {
            assert_eq!(sleep_ms, 500);
            assert_eq!(command.button, MouseButton::Left);
            assert!(!command.double_click);
            assert_eq!(command.move_to, None);
        }
        TickStep::Done => panic!("first pass of a fresh session must click"),
    }
    assert_eq!(performed, 1);
    assert_eq!(state.get_click_count(), 1);
}

#[test]
fn count_reached_ends_session_without_stop() {
    let cfg = config(100, ClickMode::RepeatCount(1));
    let mut state = ClickerState::new();
    state.start_clicking_with_config(cfg);
    let mut performed: u32 = 0;
    assert!(matches!(
        session_tick(&mut state, &mut performed, &cfg),
        TickStep::Click { .. }
    ));
    assert!(state.is_running());
    assert!(matches!(
        session_tick(&mut state, &mut performed, &cfg),
        TickStep::Done
    ));
    assert!(!state.is_running());
    assert_eq!(state.get_click_count(), 1);
}

#[test]
fn count_equal_to_budget_keeps_running() {
    // The pass budget runs out right at the repeat count: all clicks happen,
    // but the loop has not yet seen the exit condition.
    let cfg = config(100, ClickMode::RepeatCount(3));
    let mut state = ClickerState::new();
    state.start_clicking_with_config(cfg);
    let log = run_session(&mut state, &cfg, 3);
    assert_eq!(log.len(), 3);
    assert!(state.is_running());
}

#[test]
fn unbounded_runs_until_explicit_stop() {
    let cfg = config(100, ClickMode::RepeatUntilStopped);
    let mut state = ClickerState::new();
    state.start_clicking_with_config(cfg);
    let log = run_session(&mut state, &cfg, 5);
    assert_eq!(log.len(), 5);
    assert!(state.is_running());
    // The counter only ever grows while the session keeps running.
    let log = run_session(&mut state, &cfg, 3);
    assert_eq!(log.len(), 3);
    assert_eq!(state.get_click_count(), 8);
    assert!(state.is_running());
    state.stop_clicking();
    assert!(!state.is_running());
    let log = run_session(&mut state, &cfg, 5);
    assert!(log.is_empty());
    assert_eq!(state.get_click_count(), 8);
}

#[test]
fn duplicate_start_is_a_no_op() {
    let cfg = config(100, ClickMode::RepeatUntilStopped);
    let mut state = ClickerState::new();
    state.start_clicking_with_config(cfg);
    run_session(&mut state, &cfg, 2);
    assert_eq!(state.get_click_count(), 2);
    // A second start while running must not reset the count or the snapshot.
    let other = config(999, ClickMode::RepeatCount(7));
    state.start_clicking_with_config(other);
    assert!(state.is_running());
    assert_eq!(state.get_click_count(), 2);
    assert_eq!(state.clicking_config, Some(cfg));
}

#[test]
fn app_duplicate_start_is_a_no_op() {
    let mut app = NClickerApp::default();
    app.start_clicking();
    assert!(app.clicker_state.is_running());
    let snapshot = app.clicker_state.clicking_config;
    app.start_clicking();
    assert!(app.clicker_state.is_running());
    assert_eq!(app.clicker_state.get_click_count(), 0);
    assert_eq!(app.clicker_state.clicking_config, snapshot);
}

#[test]
fn snapshot_is_immune_to_later_edits() {
    let mut app = NClickerApp::default();
    app.start_clicking();
    let captured = app.clicker_state.clicking_config.unwrap();
    assert_eq!(captured.interval_ms, 1000);
    // Editing the live settings after start leaves the captured snapshot alone.
    app.seconds = 5;
    assert_eq!(app.clicker_state.clicking_config.unwrap().interval_ms, 1000);
    assert_eq!(app.calculate_interval_ms(), 5000);
}

#[test]
fn app_stop_clears_running() {
    let mut app = NClickerApp::default();
    app.start_clicking();
    assert!(app.clicker_state.is_running());
    app.stop_clicking();
    assert!(!app.clicker_state.is_running());
}

#[test]
fn jitter_lengthens_sleep_within_bound() {
    let mut cfg = config(100, ClickMode::RepeatUntilStopped);
    cfg.random_offset = true;
    cfg.random_offset_ms = 50;
    for _ in 0..50 {
        let sleep_ms = compute_sleep_ms(&cfg);
        assert!((100..=150).contains(&sleep_ms));
    }
}

#[test]
fn no_jitter_sleep_is_exact() {
    let mut cfg = config(750, ClickMode::RepeatUntilStopped);
    assert_eq!(compute_sleep_ms(&cfg), 750);
    // A zero maximum disables the offset even with the toggle on.
    cfg.random_offset = true;
    cfg.random_offset_ms = 0;
    assert_eq!(compute_sleep_ms(&cfg), 750);
}

#[test]
fn double_click_at_fixed_position() {
    let cfg = ClickingConfig {
        interval_ms: 100,
        mouse_button: MouseButton::Right,
        click_type: ClickType::Double,
        click_mode: ClickMode::RepeatUntilStopped,
        use_current_position: false,
        cursor_x: 10,
        cursor_y: 20,
        random_offset: false,
        random_offset_ms: 0,
    };
    let cmd = click_command(&cfg);
    assert_eq!(cmd.button, MouseButton::Right);
    assert!(cmd.double_click);
    assert_eq!(cmd.move_to, Some((10, 20)));
}

#[test]
fn start_resets_count_on_fresh_session() {
    let cfg = config(100, ClickMode::RepeatCount(2));
    let mut state = ClickerState::new();
    state.start_clicking_with_config(cfg);
    run_session(&mut state, &cfg, 5);
    assert_eq!(state.get_click_count(), 2);
    assert!(!state.is_running());
    // A new session starts its count from zero again.
    state.start_clicking_with_config(cfg);
    assert!(state.is_running());
    assert_eq!(state.get_click_count(), 0);
}

#[test]
fn request_flags_are_consumed_once() {
    let mut state = ClickerState::new();
    assert!(!state.check_and_clear_start_request());
    state.request_start();
    assert!(state.check_and_clear_start_request());
    assert!(!state.check_and_clear_start_request());
    state.request_stop();
    assert!(state.check_and_clear_stop_request());
    assert!(!state.check_and_clear_stop_request());
}
