//! The annotated counter example: a ring of four phases, the tab that shows
//! or explains the counter, and the events that move between them.

use vstd::prelude::*;

verus! {

/// Class of an annotation that is highlighted.
pub const HIGHLIGHTED_CLASS: &'static str = "border-2 border-red rounded-sm";

/// Class of an annotation that is not highlighted.
pub const PLAIN_CLASS: &'static str = "border-2 border-transparent";

/// Class of the tab button that is selected.
pub const SELECTED_TAB_CLASS: &'static str = "border-b-2 dark:text-white dark:border-white";

/// Class of the tab button that is not selected.
pub const OTHER_TAB_CLASS: &'static str = "dark:text-white dark:border-white";

/// The phase of the walkthrough. The phases form a ring:
/// `Idle -> Callback -> Setter -> Getter -> Idle`.
#[derive(Copy, Clone, Debug, PartialEq, Eq, Structural)]
pub enum OnStep {
    Idle,
    Callback,
    Setter,
    Getter,
}

/// An annotated span of the code listing.
#[derive(Copy, Clone, Debug, PartialEq, Eq, Structural)]
pub enum Annotation {
    Callback,
    Setter,
    Getter,
}

/// The two tabs of the example: the plain counter, and its explanation.
#[derive(Copy, Clone, Debug, PartialEq, Eq, Structural)]
pub enum ExampleTabs {
    Show,
    Tell,
}

impl OnStep {
    /// The phase one step forward on the ring.
    pub open spec fn successor(self) -> OnStep {
        match self {
            OnStep::Idle => OnStep::Callback,
            OnStep::Callback => OnStep::Setter,
            OnStep::Setter => OnStep::Getter,
            OnStep::Getter => OnStep::Idle,
        }
    }

    /// The phase one step backward on the ring.
    pub open spec fn predecessor(self) -> OnStep {
        match self {
            OnStep::Idle => OnStep::Getter,
            OnStep::Callback => OnStep::Idle,
            OnStep::Setter => OnStep::Callback,
            OnStep::Getter => OnStep::Setter,
        }
    }

    /// The annotation that a phase highlights; `Idle` highlights none.
    pub open spec fn highlight(self) -> Option<Annotation> {
        match self {
            OnStep::Idle => None,
            OnStep::Callback => Some(Annotation::Callback),
            OnStep::Setter => Some(Annotation::Setter),
            OnStep::Getter => Some(Annotation::Getter),
        }
    }

    /// Moves one step forward, from `Getter` back to `Idle`.
    pub fn next(&mut self)
        ensures
            *final(self) == old(self).successor(),
    {
        match self {
            OnStep::Idle => *self = OnStep::Callback,
            OnStep::Callback => *self = OnStep::Setter,
            OnStep::Setter => *self = OnStep::Getter,
            OnStep::Getter => *self = OnStep::Idle,
        }
    }

    /// Moves one step backward, from `Idle` back to `Getter`.
    pub fn prev(&mut self)
        ensures
            *final(self) == old(self).predecessor(),
    {
        match self {
            OnStep::Idle => *self = OnStep::Getter,
            OnStep::Callback => *self = OnStep::Idle,
            OnStep::Setter => *self = OnStep::Callback,
            OnStep::Getter => *self = OnStep::Setter,
        }
    }

    /// The annotation to highlight in this phase, if any.
    pub fn highlighted(&self) -> (span: Option<Annotation>)
        ensures
            span == self.highlight(),
    {
        match self {
            OnStep::Idle => None,
            OnStep::Callback => Some(Annotation::Callback),
            OnStep::Setter => Some(Annotation::Setter),
            OnStep::Getter => Some(Annotation::Getter),
        }
    }

    /// The class of `span` in this phase: the highlighted class for the one
    /// annotation that the phase highlights, the plain class for the others.
    pub fn annotation_class(&self, span: Annotation) -> (class: &'static str)
        ensures
            self.highlight() == Some(span) ==> class@ == HIGHLIGHTED_CLASS@,
            self.highlight() != Some(span) ==> class@ == PLAIN_CLASS@,
    {
        let lit = match (self, span) {
            (OnStep::Callback, Annotation::Callback) => true,
            (OnStep::Setter, Annotation::Setter) => true,
            (OnStep::Getter, Annotation::Getter) => true,
            _ => false,
        };
        if lit {
            HIGHLIGHTED_CLASS
        } else {
            PLAIN_CLASS
        }
    }
}

impl ExampleTabs {
    /// The class of the button of tab `button` while this tab is selected.
    pub fn button_class(&self, button: ExampleTabs) -> (class: &'static str)
        ensures
            *self == button ==> class@ == SELECTED_TAB_CLASS@,
            *self != button ==> class@ == OTHER_TAB_CLASS@,
    {
        if *self == button {
            SELECTED_TAB_CLASS
        } else {
            OTHER_TAB_CLASS
        }
    }
}

/// The state of one mounted example: the phase of the walkthrough, the
/// counter that the button increments, and the selected tab.
#[derive(Copy, Clone, Debug, PartialEq, Eq, Structural)]
pub struct Walkthrough {
    pub phase: OnStep,
    pub count: u64,
    pub tab: ExampleTabs,
}

impl Walkthrough {
    /// The state at mount: `Idle`, a counter of 0, the `Show` tab.
    pub open spec fn initial() -> Walkthrough {
        Walkthrough { phase: OnStep::Idle, count: 0, tab: ExampleTabs::Show }
    }

    /// Whether the explaining tab is selected.
    pub open spec fn is_interactive(self) -> bool {
        self.tab == ExampleTabs::Tell
    }

    /// Whether the previous/next controls are on screen: only on the
    /// explaining tab, and only away from `Idle`.
    pub open spec fn shows_controls(self) -> bool {
        self.is_interactive() && self.phase != OnStep::Idle
    }

    /// The state after `tab` is selected.
    pub open spec fn with_tab(self, tab: ExampleTabs) -> Walkthrough {
        Walkthrough { tab, ..self }
    }

    /// The state after a click on the counter button, for a counter below
    /// its largest value.
    pub open spec fn incremented(self) -> Walkthrough {
        Walkthrough {
            phase: if self.is_interactive() {
                self.phase.successor()
            } else {
                self.phase
            },
            count: (self.count + 1) as u64,
            tab: self.tab,
        }
    }

    /// The state after a click on the "next step" control.
    pub open spec fn stepped_forward(self) -> Walkthrough {
        Walkthrough { phase: self.phase.successor(), ..self }
    }

    /// The state after a click on the "previous step" control.
    pub open spec fn stepped_back(self) -> Walkthrough {
        Walkthrough { phase: self.phase.predecessor(), ..self }
    }

    /// A freshly mounted example.
    pub fn new() -> (state: Walkthrough)
        ensures
            state == Walkthrough::initial(),
    {
        Walkthrough { phase: OnStep::Idle, count: 0, tab: ExampleTabs::Show }
    }

    /// Whether the explaining tab is selected.
    pub fn interactive(&self) -> (yes: bool)
        ensures
            yes == self.is_interactive(),
    {
        self.tab == ExampleTabs::Tell
    }

    /// Whether the previous/next controls are to be rendered.
    pub fn controls_visible(&self) -> (yes: bool)
        ensures
            yes == self.shows_controls(),
    {
        self.tab == ExampleTabs::Tell && self.phase != OnStep::Idle
    }

    /// Whether the counter button is disabled: on the explaining tab it
    /// takes a click only at `Idle`, where the walk begins.
    pub fn increment_disabled(&self) -> (yes: bool)
        ensures
            yes == (self.is_interactive() && self.phase != OnStep::Idle),
    {
        self.tab == ExampleTabs::Tell && self.phase != OnStep::Idle
    }

    /// Selects a tab. Phase and counter stay as they are.
    pub fn select_tab(&mut self, tab: ExampleTabs)
        ensures
            *final(self) == old(self).with_tab(tab),
            final(self).phase == old(self).phase,
            final(self).count == old(self).count,
    {
        self.tab = tab;
    }

    /// A click on the counter button: the counter goes up by one, and on
    /// the explaining tab the phase moves one step forward.
    pub fn click_increment(&mut self)
        requires
            old(self).count < u64::MAX,
        ensures
            *final(self) == old(self).incremented(),
            final(self).count == old(self).count + 1,
    {
        self.count = self.count + 1;
        if self.tab == ExampleTabs::Tell {
            self.phase.next();
        }
    }

    /// A click on the "next step" control: the phase moves one step
    /// forward, the counter is not touched.
    pub fn click_next(&mut self)
        ensures
            *final(self) == old(self).stepped_forward(),
    {
        self.phase.next();
    }

    /// A click on the "previous step" control: the phase moves one step
    /// backward, the counter is not touched.
    pub fn click_previous(&mut self)
        ensures
            *final(self) == old(self).stepped_back(),
    {
        self.phase.prev();
    }
}

/// `next` and `prev` undo each other on every phase.
pub proof fn lemma_next_prev_inverse(s: OnStep)
    ensures
        s.successor().predecessor() == s,
        s.predecessor().successor() == s,
{
}

/// Four steps forward lead back to the phase they started from, and so do
/// four steps backward.
pub proof fn lemma_four_steps_return(s: OnStep)
    ensures
        s.successor().successor().successor().successor() == s,
        s.predecessor().predecessor().predecessor().predecessor() == s,
{
}

/// In every phase at most one annotation is highlighted: the set of
/// highlighted annotations is empty at `Idle` and has one member otherwise.
pub proof fn lemma_highlight_at_most_one(s: OnStep)
    ensures
        forall|a: Annotation, b: Annotation|
            s.highlight() == Some(a) && s.highlight() == Some(b) ==> a == b,
        Set::new(|a: Annotation| s.highlight() == Some(a)).finite(),
        Set::new(|a: Annotation| s.highlight() == Some(a)).len() <= 1,
        Set::new(|a: Annotation| s.highlight() == Some(a)).len() == 0 <==> s == OnStep::Idle,
{
    let lit = Set::new(|a: Annotation| s.highlight() == Some(a));
    match s.highlight() {
        None => {
            assert(lit =~= Set::empty());
        },
        Some(a) => {
            assert(lit =~= Set::empty().insert(a));
        },
    }
}

/// Leaving the explaining tab and coming back changes neither the phase
/// nor the counter; a state on the explaining tab is the same afterwards.
pub proof fn lemma_tab_round_trip(w: Walkthrough)
    ensures
        w.with_tab(ExampleTabs::Show).with_tab(ExampleTabs::Tell).phase == w.phase,
        w.with_tab(ExampleTabs::Show).with_tab(ExampleTabs::Tell).count == w.count,
        w.tab == ExampleTabs::Tell ==> w.with_tab(ExampleTabs::Show).with_tab(ExampleTabs::Tell)
            == w,
{
}

} // verus!
