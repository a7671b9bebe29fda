//! The dark-mode preference: three sources in a fixed order of priority,
//! the value that the toggle submits, and what the page shows for it.

use vstd::prelude::*;

verus! {

/// Class of the page body while the preference is `Dark`.
pub const DARK_CLASS: &'static str = "dark";

/// Class of the page body while the preference is `Light`.
pub const LIGHT_CLASS: &'static str = "light";

/// Class of the page body while the preference is `Unset`.
pub const UNSET_CLASS: &'static str = "bg-white";

/// Icon of the toggle while the page is dark.
pub const SUN_ICON: &'static str = "/images/sun.svg";

/// Icon of the toggle while the page is not dark.
pub const MOON_ICON: &'static str = "/images/moon.svg";

/// Name of the hidden form field that carries the value to submit.
pub const FIELD_NAME: &'static str = "prefers_dark";

/// The dark-mode preference: not stated, dark, or light.
#[derive(Copy, Clone, Debug, PartialEq, Eq, Structural)]
pub enum PreferenceFlag {
    Unset,
    Dark,
    Light,
}

/// A submission that could not be completed: the cookie was not written.
#[derive(Copy, Clone, Debug, PartialEq, Eq, Structural)]
pub struct TransportError;

/// A collaborator that the host has to provide is not there.
#[derive(Copy, Clone, Debug, PartialEq, Eq, Structural)]
pub struct ContextMissing;

impl PreferenceFlag {
    /// The flag that stands for an optional boolean: `Dark` for true,
    /// `Light` for false, `Unset` for none.
    pub open spec fn of(value: Option<bool>) -> PreferenceFlag {
        match value {
            Some(true) => PreferenceFlag::Dark,
            Some(false) => PreferenceFlag::Light,
            None => PreferenceFlag::Unset,
        }
    }

    /// The optional boolean that the flag stands for.
    pub open spec fn as_option(self) -> Option<bool> {
        match self {
            PreferenceFlag::Dark => Some(true),
            PreferenceFlag::Light => Some(false),
            PreferenceFlag::Unset => None,
        }
    }

    /// The flag read as a boolean; `Unset` counts as not dark.
    pub open spec fn is_dark(self) -> bool {
        self == PreferenceFlag::Dark
    }

    /// `Dark` for true, `Light` for false, `Unset` for none.
    pub fn from_option(value: Option<bool>) -> (flag: PreferenceFlag)
        ensures
            flag == PreferenceFlag::of(value),
    {
        match value {
            Some(true) => PreferenceFlag::Dark,
            Some(false) => PreferenceFlag::Light,
            None => PreferenceFlag::Unset,
        }
    }

    /// True for `Dark`, false for `Light`, none for `Unset`.
    pub fn to_option(&self) -> (value: Option<bool>)
        ensures
            value == self.as_option(),
    {
        match self {
            PreferenceFlag::Dark => Some(true),
            PreferenceFlag::Light => Some(false),
            PreferenceFlag::Unset => None,
        }
    }

    /// Whether the page is dark under this flag; `Unset` is not dark.
    pub fn prefers_dark(&self) -> (dark: bool)
        ensures
            dark == self.is_dark(),
    {
        match self {
            PreferenceFlag::Dark => true,
            _ => false,
        }
    }
}

/// The preference in effect. On a server-rendered pass it is the initial
/// value. Otherwise the value of a submission in flight comes first, then
/// the value that was last confirmed, then the initial value.
pub open spec fn effective(
    initial: PreferenceFlag,
    pending: Option<bool>,
    confirmed: Option<bool>,
    is_server_pass: bool,
) -> PreferenceFlag {
    if is_server_pass {
        initial
    } else if pending is Some {
        PreferenceFlag::of(pending)
    } else if confirmed is Some {
        PreferenceFlag::of(confirmed)
    } else {
        initial
    }
}

/// The value that activating the toggle submits: the opposite of what is
/// shown, with `Unset` shown as not dark.
pub open spec fn toggled(current: PreferenceFlag) -> bool {
    !current.is_dark()
}

/// The text of a boolean, as a form field or a cookie carries it.
pub open spec fn bool_text(value: bool) -> Seq<char> {
    if value {
        "true"@
    } else {
        "false"@
    }
}

/// Computes the preference in effect from its three sources.
pub fn resolve(
    initial: PreferenceFlag,
    pending: Option<bool>,
    confirmed: Option<bool>,
    is_server_pass: bool,
) -> (flag: PreferenceFlag)
    ensures
        flag == effective(initial, pending, confirmed, is_server_pass),
        is_server_pass ==> flag == initial,
        !is_server_pass ==> flag == match (pending, confirmed) {
            (Some(p), _) => PreferenceFlag::of(Some(p)),
            (None, Some(c)) => PreferenceFlag::of(Some(c)),
            (None, None) => initial,
        },
{
    if is_server_pass {
        return initial;
    }
    match (pending, confirmed) {
        (Some(p), _) => PreferenceFlag::from_option(Some(p)),
        (None, Some(c)) => PreferenceFlag::from_option(Some(c)),
        (None, None) => initial,
    }
}

/// The value to submit when the toggle is activated while `current` is
/// shown: false for `Dark`, true for `Light` and for `Unset`.
pub fn toggle(current: PreferenceFlag) -> (target: bool)
    ensures
        target == toggled(current),
{
    !current.prefers_dark()
}

/// The text `true` or `false`.
pub fn bool_str(value: bool) -> (text: &'static str)
    ensures
        text@ == bool_text(value),
{
    if value {
        "true"
    } else {
        "false"
    }
}

/// The class of the page body under `flag`.
pub fn body_class(flag: PreferenceFlag) -> (class: &'static str)
    ensures
        class@ == match flag {
            PreferenceFlag::Dark => DARK_CLASS@,
            PreferenceFlag::Light => LIGHT_CLASS@,
            PreferenceFlag::Unset => UNSET_CLASS@,
        },
{
    match flag {
        PreferenceFlag::Dark => DARK_CLASS,
        PreferenceFlag::Light => LIGHT_CLASS,
        PreferenceFlag::Unset => UNSET_CLASS,
    }
}

/// The value of the toggle button under `flag`: the name of the mode that
/// is shown, `Unset` being shown as light.
pub fn button_value(flag: PreferenceFlag) -> (text: &'static str)
    ensures
        text@ == if flag.is_dark() {
            DARK_CLASS@
        } else {
            LIGHT_CLASS@
        },
{
    if flag.prefers_dark() {
        DARK_CLASS
    } else {
        LIGHT_CLASS
    }
}

/// The icon of the toggle under `flag`: the sun while the page is dark,
/// the moon otherwise.
pub fn icon_source(flag: PreferenceFlag) -> (path: &'static str)
    ensures
        path@ == if flag.is_dark() {
            SUN_ICON@
        } else {
            MOON_ICON@
        },
{
    if flag.prefers_dark() {
        SUN_ICON
    } else {
        MOON_ICON
    }
}

/// The text of the hidden form field under `flag`: the value that
/// activating the toggle submits.
pub fn hidden_field_value(flag: PreferenceFlag) -> (text: &'static str)
    ensures
        text@ == bool_text(toggled(flag)),
{
    bool_str(toggle(flag))
}

/// The three sources of the preference, as one mounted toggle holds them.
///
/// `pending` is the value of the submission that was started last and has
/// not been answered for; `confirmed` is the value that was last
/// acknowledged.
#[derive(Copy, Clone, Debug, PartialEq, Eq, Structural)]
pub struct ToggleState {
    pub initial: PreferenceFlag,
    pub pending: Option<bool>,
    pub confirmed: Option<bool>,
}

impl ToggleState {
    /// The state at mount: nothing submitted, nothing confirmed.
    pub open spec fn mounted(initial: PreferenceFlag) -> ToggleState {
        ToggleState { initial, pending: None, confirmed: None }
    }

    /// The preference that this state puts into effect.
    pub open spec fn shown(self, is_server_pass: bool) -> PreferenceFlag {
        effective(self.initial, self.pending, self.confirmed, is_server_pass)
    }

    /// The state after a submission of `target` has started. A submission
    /// that was still in flight loses its place to the new one.
    pub open spec fn after_begin(self, target: bool) -> ToggleState {
        ToggleState { pending: Some(target), ..self }
    }

    /// Whether a confirmation of `value` is stale: a later submission of
    /// the other value is in flight.
    pub open spec fn is_stale(self, value: bool) -> bool {
        self.pending is Some && self.pending != Some(value)
    }

    /// The state after a submission has been answered. A confirmation is
    /// taken over and ends the wait, unless it is stale; a stale one is
    /// dropped. A failure changes nothing: what was shown stays shown.
    pub open spec fn after_finish(self, outcome: Result<bool, TransportError>) -> ToggleState {
        match outcome {
            Ok(value) => if self.is_stale(value) {
                self
            } else {
                ToggleState { pending: None, confirmed: Some(value), ..self }
            },
            Err(_) => self,
        }
    }

    /// A toggle that has just been mounted with `initial`.
    pub fn new(initial: PreferenceFlag) -> (state: ToggleState)
        ensures
            state == ToggleState::mounted(initial),
    {
        ToggleState { initial, pending: None, confirmed: None }
    }

    /// The preference in effect.
    pub fn effective_preference(&self, is_server_pass: bool) -> (flag: PreferenceFlag)
        ensures
            flag == self.shown(is_server_pass),
    {
        resolve(self.initial, self.pending, self.confirmed, is_server_pass)
    }

    /// The value that activating the toggle submits now: the opposite of
    /// what the client shows.
    pub fn next_submission(&self) -> (target: bool)
        ensures
            target == toggled(self.shown(false)),
    {
        toggle(self.effective_preference(false))
    }

    /// Records that a submission of `target` has started.
    pub fn begin_submit(&mut self, target: bool)
        ensures
            *final(self) == old(self).after_begin(target),
    {
        self.pending = Some(target);
    }

    /// Records the answer to a submission.
    pub fn finish_submit(&mut self, outcome: Result<bool, TransportError>)
        ensures
            *final(self) == old(self).after_finish(outcome),
    {
        match outcome {
            Ok(value) => {
                let stale = match self.pending {
                    Some(waiting) => waiting != value,
                    None => false,
                };
                if !stale {
                    self.pending = None;
                    self.confirmed = Some(value);
                }
            },
            Err(_) => {},
        }
    }
}

/// While a submission is in flight the client shows its value, whatever
/// was confirmed before; once its confirmation has arrived the client
/// shows the confirmed value, and nothing is in flight any more.
pub proof fn lemma_submission_is_shown(state: ToggleState, target: bool)
    ensures
        state.after_begin(target).shown(false) == PreferenceFlag::of(Some(target)),
        state.after_begin(target).after_finish(Ok(target)).pending is None,
        state.after_begin(target).after_finish(Ok(target)).confirmed == Some(target),
        state.after_begin(target).after_finish(Ok(target)).shown(false) == PreferenceFlag::of(
            Some(target),
        ),
{
}

/// A submission that fails leaves on display what was displayed before
/// the answer came.
pub proof fn lemma_failure_keeps_display(state: ToggleState, is_server_pass: bool)
    ensures
        state.after_finish(Err(TransportError)).shown(is_server_pass) == state.shown(
            is_server_pass,
        ),
{
}

/// On a server-rendered pass the initial value is in effect, whatever is
/// in flight or confirmed.
pub proof fn lemma_server_pass_shows_initial(state: ToggleState)
    ensures
        state.shown(true) == state.initial,
{
}

} // verus!
