use cedilla::sensor::{Frame, Key, Notice, Reaction, SensorConfig, SensorState};

const QUIET: Reaction = Reaction {
    remember_key: false,
    remember_size: false,
    publish_resize: false,
    publish_show: false,
    publish_hide: false,
    redraw_at: None,
};

fn frame(now: u64, near: bool) -> Frame {
    Frame { now, key_changed: false, near, size_changed: false }
}

#[test]
fn content_that_comes_near_is_shown_after_the_delay() {
    let config = SensorConfig { on_show: true, on_resize: false, on_hide: false, delay: 500 };
    let mut state = SensorState::new();
    assert_eq!(state.on_redraw(config, frame(1000, false)), QUIET);
    assert_eq!(
        state.on_redraw(config, frame(1100, true)),
        Reaction { remember_size: true, redraw_at: Some(1600), ..QUIET }
    );
    assert_eq!(
        state,
        SensorState {
            has_popped_in: true,
            should_notify_at: Some(Notice { popped_in: true, at: 1600 })
        }
    );
    assert_eq!(
        state.on_redraw(config, frame(1599, true)),
        Reaction { redraw_at: Some(1600), ..QUIET }
    );
    assert_eq!(
        state.on_redraw(config, frame(1600, true)),
        Reaction { publish_show: true, ..QUIET }
    );
    assert_eq!(state.on_redraw(config, frame(1700, true)), QUIET);
    assert_eq!(state, SensorState { has_popped_in: true, should_notify_at: None });
}

#[test]
fn content_without_delay_is_shown_at_once() {
    let config = SensorConfig { on_show: true, on_resize: false, on_hide: false, delay: 0 };
    let mut state = SensorState::new();
    assert_eq!(
        state.on_redraw(config, frame(5, true)),
        Reaction { remember_size: true, publish_show: true, ..QUIET }
    );
}

#[test]
fn content_that_goes_away_is_hidden_once_the_host_asked() {
    let config = SensorConfig { on_show: true, on_resize: false, on_hide: true, delay: 10 };
    let mut state = SensorState { has_popped_in: true, should_notify_at: None };
    assert_eq!(
        state.on_redraw(config, frame(100, false)),
        Reaction { redraw_at: Some(110), ..QUIET }
    );
    assert!(!state.has_popped_in);
    assert_eq!(
        state.on_redraw(config, frame(110, false)),
        Reaction { publish_hide: true, ..QUIET }
    );
    let deaf = SensorConfig { on_hide: false, ..config };
    let mut state = SensorState { has_popped_in: true, should_notify_at: None };
    assert_eq!(state.on_redraw(deaf, frame(100, false)), QUIET);
    assert!(state.has_popped_in);
}

#[test]
fn another_key_starts_over() {
    let config = SensorConfig { on_show: true, on_resize: false, on_hide: false, delay: 10 };
    let mut state = SensorState { has_popped_in: true, should_notify_at: None };
    let changed = Frame { now: 50, key_changed: true, near: true, size_changed: false };
    assert_eq!(
        state.on_redraw(config, changed),
        Reaction { remember_key: true, remember_size: true, redraw_at: Some(60), ..QUIET }
    );
}

#[test]
fn size_is_reported_when_it_changes() {
    let only_resize = SensorConfig { on_show: false, on_resize: true, on_hide: false, delay: 0 };
    let mut state = SensorState::new();
    let grown = Frame { now: 1, key_changed: false, near: false, size_changed: true };
    assert_eq!(
        state.on_redraw(only_resize, grown),
        Reaction { remember_size: true, publish_resize: true, ..QUIET }
    );
    assert_eq!(state.on_redraw(only_resize, frame(2, false)), QUIET);
    let both = SensorConfig { on_show: true, ..only_resize };
    let mut state = SensorState { has_popped_in: true, should_notify_at: None };
    assert_eq!(state.on_redraw(both, grown), QUIET);
    let grown_near = Frame { near: true, ..grown };
    assert_eq!(
        state.on_redraw(both, grown_near),
        Reaction { remember_size: true, publish_resize: true, ..QUIET }
    );
}

#[test]
fn keys_compare_with_what_was_kept() {
    let key = String::from("https://x.org/a.png");
    let kept = Key::to_owned(&key);
    assert!(Key::eq(&key, &kept));
    assert!(!Key::eq(&String::from("other"), &kept));
    let unit = ();
    let kept_unit = Key::to_owned(&unit);
    assert!(Key::eq(&unit, &kept_unit));
}
