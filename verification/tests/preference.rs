use site_components::preference::{
    body_class, bool_str, button_value, hidden_field_value, icon_source, resolve, toggle,
    PreferenceFlag, ToggleState, TransportError, FIELD_NAME,
};

const FLAGS: [PreferenceFlag; 3] =
    [PreferenceFlag::Unset, PreferenceFlag::Dark, PreferenceFlag::Light];
const OPTIONS: [Option<bool>; 3] = [None, Some(true), Some(false)];

#[test]
fn resolve_prefers_pending_then_confirmed_then_initial() {
    for initial in FLAGS {
        for pending in OPTIONS {
            for confirmed in OPTIONS {
                let expected = match (pending, confirmed) {
                    (Some(true), _) => PreferenceFlag::Dark,
                    (Some(false), _) => PreferenceFlag::Light,
                    (None, Some(true)) => PreferenceFlag::Dark,
                    (None, Some(false)) => PreferenceFlag::Light,
                    (None, None) => initial,
                };
                assert_eq!(resolve(initial, pending, confirmed, false), expected);
            }
        }
    }
}

#[test]
fn resolve_on_server_pass_is_initial() {
    for initial in FLAGS {
        for pending in OPTIONS {
            for confirmed in OPTIONS {
                assert_eq!(resolve(initial, pending, confirmed, true), initial);
            }
        }
    }
}

#[test]
fn resolve_pending_beats_confirmed() {
    assert_eq!(
        resolve(PreferenceFlag::Unset, Some(false), Some(true), false),
        PreferenceFlag::Light
    );
    assert_eq!(
        resolve(PreferenceFlag::Light, Some(true), Some(false), false),
        PreferenceFlag::Dark
    );
}

#[test]
fn resolve_confirmed_beats_initial() {
    assert_eq!(resolve(PreferenceFlag::Dark, None, Some(false), false), PreferenceFlag::Light);
    assert_eq!(resolve(PreferenceFlag::Light, None, Some(true), false), PreferenceFlag::Dark);
}

#[test]
fn resolve_falls_back_to_initial() {
    assert_eq!(resolve(PreferenceFlag::Unset, None, None, false), PreferenceFlag::Unset);
    assert_eq!(resolve(PreferenceFlag::Dark, None, None, false), PreferenceFlag::Dark);
}

#[test]
fn toggle_of_each_flag() {
    assert!(toggle(PreferenceFlag::Unset));
    assert!(!toggle(PreferenceFlag::Dark));
    assert!(toggle(PreferenceFlag::Light));
}

#[test]
fn flag_and_option_convert_both_ways() {
    assert_eq!(PreferenceFlag::from_option(Some(true)), PreferenceFlag::Dark);
    assert_eq!(PreferenceFlag::from_option(Some(false)), PreferenceFlag::Light);
    assert_eq!(PreferenceFlag::from_option(None), PreferenceFlag::Unset);
    for value in OPTIONS {
        assert_eq!(PreferenceFlag::from_option(value).to_option(), value);
    }
    assert!(PreferenceFlag::Dark.prefers_dark());
    assert!(!PreferenceFlag::Light.prefers_dark());
    assert!(!PreferenceFlag::Unset.prefers_dark());
}

#[test]
fn body_class_of_each_flag() {
    assert_eq!(body_class(PreferenceFlag::Dark), "dark");
    assert_eq!(body_class(PreferenceFlag::Light), "light");
    assert_eq!(body_class(PreferenceFlag::Unset), "bg-white");
}

#[test]
fn icon_is_sun_when_dark_and_moon_otherwise() {
    assert_eq!(icon_source(PreferenceFlag::Dark), "/images/sun.svg");
    assert_eq!(icon_source(PreferenceFlag::Light), "/images/moon.svg");
    assert_eq!(icon_source(PreferenceFlag::Unset), "/images/moon.svg");
}

#[test]
fn button_value_names_the_shown_mode() {
    assert_eq!(button_value(PreferenceFlag::Dark), "dark");
    assert_eq!(button_value(PreferenceFlag::Light), "light");
    assert_eq!(button_value(PreferenceFlag::Unset), "light");
}

#[test]
fn hidden_field_carries_the_negated_value() {
    assert_eq!(FIELD_NAME, "prefers_dark");
    assert_eq!(hidden_field_value(PreferenceFlag::Dark), "false");
    assert_eq!(hidden_field_value(PreferenceFlag::Light), "true");
    assert_eq!(hidden_field_value(PreferenceFlag::Unset), "true");
    for flag in FLAGS {
        assert_eq!(hidden_field_value(flag), bool_str(toggle(flag)));
    }
}

#[test]
fn bool_str_is_true_or_false() {
    assert_eq!(bool_str(true), "true");
    assert_eq!(bool_str(false), "false");
}

#[test]
fn new_state_shows_initial() {
    for initial in FLAGS {
        let state = ToggleState::new(initial);
        assert_eq!(state, ToggleState { initial, pending: None, confirmed: None });
        assert_eq!(state.effective_preference(false), initial);
        assert_eq!(state.effective_preference(true), initial);
        assert_eq!(state.next_submission(), toggle(initial));
    }
}

#[test]
fn pending_submission_is_shown_at_once() {
    let mut state = ToggleState::new(PreferenceFlag::Light);
    state.begin_submit(true);
    assert_eq!(state.pending, Some(true));
    assert_eq!(state.effective_preference(false), PreferenceFlag::Dark);
    assert_eq!(state.effective_preference(true), PreferenceFlag::Light);
    assert!(!state.next_submission());
}

#[test]
fn second_submission_overwrites_pending() {
    let mut state = ToggleState::new(PreferenceFlag::Unset);
    state.begin_submit(true);
    state.begin_submit(false);
    assert_eq!(state.pending, Some(false));
    assert_eq!(state.effective_preference(false), PreferenceFlag::Light);
}

#[test]
fn confirmation_clears_pending() {
    let mut state = ToggleState::new(PreferenceFlag::Unset);
    state.begin_submit(true);
    state.finish_submit(Ok(true));
    assert_eq!(state.pending, None);
    assert_eq!(state.confirmed, Some(true));
    assert_eq!(state.effective_preference(false), PreferenceFlag::Dark);
}

#[test]
fn confirmation_without_pending_is_taken() {
    let mut state = ToggleState::new(PreferenceFlag::Dark);
    state.finish_submit(Ok(false));
    assert_eq!(state.pending, None);
    assert_eq!(state.confirmed, Some(false));
    assert_eq!(state.effective_preference(false), PreferenceFlag::Light);
}

#[test]
fn stale_confirmation_is_dropped() {
    let mut state = ToggleState::new(PreferenceFlag::Light);
    state.begin_submit(true);
    state.begin_submit(false);
    state.finish_submit(Ok(true));
    assert_eq!(state.pending, Some(false));
    assert_eq!(state.confirmed, None);
    assert_eq!(state.effective_preference(false), PreferenceFlag::Light);
    state.finish_submit(Ok(false));
    assert_eq!(state.pending, None);
    assert_eq!(state.confirmed, Some(false));
}

#[test]
fn failed_submission_keeps_the_optimistic_value() {
    let mut state = ToggleState::new(PreferenceFlag::Light);
    state.finish_submit(Ok(false));
    state.begin_submit(true);
    let before = state;
    state.finish_submit(Err(TransportError));
    assert_eq!(state, before);
    assert_eq!(state.effective_preference(false), PreferenceFlag::Dark);
}
