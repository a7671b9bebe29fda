use site_components::walkthrough::{
    Annotation, ExampleTabs, OnStep, Walkthrough, HIGHLIGHTED_CLASS, OTHER_TAB_CLASS,
    PLAIN_CLASS, SELECTED_TAB_CLASS,
};

const PHASES: [OnStep; 4] = [OnStep::Idle, OnStep::Callback, OnStep::Setter, OnStep::Getter];
const SPANS: [Annotation; 3] = [Annotation::Callback, Annotation::Setter, Annotation::Getter];

fn forward(mut phase: OnStep) -> OnStep {
    phase.next();
    phase
}

fn backward(mut phase: OnStep) -> OnStep {
    phase.prev();
    phase
}

#[test]
fn next_walks_the_ring() {
    assert_eq!(forward(OnStep::Idle), OnStep::Callback);
    assert_eq!(forward(OnStep::Callback), OnStep::Setter);
    assert_eq!(forward(OnStep::Setter), OnStep::Getter);
    assert_eq!(forward(OnStep::Getter), OnStep::Idle);
}

#[test]
fn prev_walks_the_ring_backwards() {
    assert_eq!(backward(OnStep::Idle), OnStep::Getter);
    assert_eq!(backward(OnStep::Callback), OnStep::Idle);
    assert_eq!(backward(OnStep::Setter), OnStep::Callback);
    assert_eq!(backward(OnStep::Getter), OnStep::Setter);
}

#[test]
fn next_and_prev_are_inverses() {
    for phase in PHASES {
        assert_eq!(backward(forward(phase)), phase);
        assert_eq!(forward(backward(phase)), phase);
    }
}

#[test]
fn four_steps_return_to_start() {
    for phase in PHASES {
        assert_eq!(forward(forward(forward(forward(phase)))), phase);
        assert_eq!(backward(backward(backward(backward(phase)))), phase);
        assert_ne!(forward(phase), phase);
        assert_ne!(forward(forward(phase)), phase);
        assert_ne!(forward(forward(forward(phase))), phase);
    }
}

#[test]
fn each_phase_highlights_its_annotation() {
    assert_eq!(OnStep::Idle.highlighted(), None);
    assert_eq!(OnStep::Callback.highlighted(), Some(Annotation::Callback));
    assert_eq!(OnStep::Setter.highlighted(), Some(Annotation::Setter));
    assert_eq!(OnStep::Getter.highlighted(), Some(Annotation::Getter));
}

#[test]
fn at_most_one_annotation_is_highlighted() {
    for phase in PHASES {
        let mut lit = 0;
        for span in SPANS {
            let class = phase.annotation_class(span);
            if class == HIGHLIGHTED_CLASS {
                lit += 1;
                assert_eq!(phase.highlighted(), Some(span));
            } else {
                assert_eq!(class, PLAIN_CLASS);
            }
        }
        let expected = if phase == OnStep::Idle { 0 } else { 1 };
        assert_eq!(lit, expected);
    }
}

#[test]
fn annotation_classes_are_the_two_border_classes() {
    assert_eq!(
        OnStep::Setter.annotation_class(Annotation::Setter),
        "border-2 border-red rounded-sm"
    );
    assert_eq!(
        OnStep::Setter.annotation_class(Annotation::Getter),
        "border-2 border-transparent"
    );
    assert_eq!(OnStep::Idle.annotation_class(Annotation::Callback), "border-2 border-transparent");
}

#[test]
fn selected_tab_is_underlined() {
    assert_eq!(SELECTED_TAB_CLASS, "border-b-2 dark:text-white dark:border-white");
    assert_eq!(OTHER_TAB_CLASS, "dark:text-white dark:border-white");
    assert_eq!(ExampleTabs::Show.button_class(ExampleTabs::Show), SELECTED_TAB_CLASS);
    assert_eq!(ExampleTabs::Show.button_class(ExampleTabs::Tell), OTHER_TAB_CLASS);
    assert_eq!(ExampleTabs::Tell.button_class(ExampleTabs::Tell), SELECTED_TAB_CLASS);
    assert_eq!(ExampleTabs::Tell.button_class(ExampleTabs::Show), OTHER_TAB_CLASS);
}

#[test]
fn example_starts_idle_on_the_show_tab() {
    let state = Walkthrough::new();
    assert_eq!(state, Walkthrough { phase: OnStep::Idle, count: 0, tab: ExampleTabs::Show });
    assert!(!state.interactive());
    assert!(!state.controls_visible());
}

#[test]
fn increment_on_show_tab_leaves_the_phase() {
    let mut state = Walkthrough::new();
    state.click_increment();
    state.click_increment();
    assert_eq!(state, Walkthrough { phase: OnStep::Idle, count: 2, tab: ExampleTabs::Show });
}

#[test]
fn walkthrough_scenario() {
    let mut state = Walkthrough::new();
    state.select_tab(ExampleTabs::Tell);
    assert_eq!(state, Walkthrough { phase: OnStep::Idle, count: 0, tab: ExampleTabs::Tell });
    assert!(!state.controls_visible());

    state.click_increment();
    assert_eq!(state.count, 1);
    assert_eq!(state.phase, OnStep::Callback);
    assert_eq!(state.phase.highlighted(), Some(Annotation::Callback));
    assert!(state.controls_visible());

    state.click_next();
    assert_eq!(state.phase, OnStep::Setter);
    assert_eq!(state.phase.highlighted(), Some(Annotation::Setter));
    assert_eq!(state.count, 1);

    state.click_previous();
    assert_eq!(state.phase, OnStep::Callback);
    state.click_previous();
    assert_eq!(state.phase, OnStep::Idle);
    assert_eq!(state.count, 1);
    assert!(!state.controls_visible());
    assert_eq!(state.phase.highlighted(), None);
}

#[test]
fn controls_need_the_tell_tab_and_a_running_phase() {
    for phase in PHASES {
        for tab in [ExampleTabs::Show, ExampleTabs::Tell] {
            let state = Walkthrough { phase, count: 3, tab };
            assert_eq!(state.interactive(), tab == ExampleTabs::Tell);
            assert_eq!(
                state.controls_visible(),
                tab == ExampleTabs::Tell && phase != OnStep::Idle
            );
            assert_eq!(
                state.increment_disabled(),
                tab == ExampleTabs::Tell && phase != OnStep::Idle
            );
        }
    }
}

#[test]
fn tab_round_trip_keeps_phase_and_counter() {
    for phase in PHASES {
        let start = Walkthrough { phase, count: 7, tab: ExampleTabs::Tell };
        let mut state = start;
        state.select_tab(ExampleTabs::Show);
        assert_eq!(state.phase, phase);
        assert_eq!(state.count, 7);
        state.select_tab(ExampleTabs::Tell);
        assert_eq!(state, start);
    }
}

#[test]
fn next_and_previous_controls_leave_the_counter() {
    let mut state = Walkthrough { phase: OnStep::Getter, count: 41, tab: ExampleTabs::Tell };
    state.click_next();
    assert_eq!(state, Walkthrough { phase: OnStep::Idle, count: 41, tab: ExampleTabs::Tell });
    state.click_previous();
    assert_eq!(state, Walkthrough { phase: OnStep::Getter, count: 41, tab: ExampleTabs::Tell });
}

#[test]
fn counter_reaches_its_largest_value() {
    let mut state = Walkthrough { phase: OnStep::Idle, count: u64::MAX - 1, tab: ExampleTabs::Tell };
    state.click_increment();
    assert_eq!(state, Walkthrough { phase: OnStep::Callback, count: u64::MAX, tab: ExampleTabs::Tell });
}

#[test]
fn counter_button_is_disabled_while_the_walk_runs() {
    let mut state = Walkthrough::new();
    assert!(!state.increment_disabled());
    state.select_tab(ExampleTabs::Tell);
    assert!(!state.increment_disabled());
    state.click_increment();
    assert!(state.increment_disabled());
    state.select_tab(ExampleTabs::Show);
    assert!(!state.increment_disabled());
    state.select_tab(ExampleTabs::Tell);
    state.click_next();
    state.click_next();
    assert!(state.increment_disabled());
    state.click_next();
    assert_eq!(state.phase, OnStep::Idle);
    assert!(!state.increment_disabled());
}
