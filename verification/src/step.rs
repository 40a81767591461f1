//! The exchange between a backend and the caller that acts for it.
//!
//! A backend touches nothing itself. Asked for the next step, it names one
//! effect to perform, or the end of the request. The caller performs the
//! effect, records what came of it in the [`Session`], and asks again.

use vstd::prelude::*;
use vstd::string::*;
use crate::command::{Invocation, InvocationView};
use crate::error::{ErrorKind, KeymapError, KeymapErrorView};

verus! {

/// Text to be added at the end of a configuration file.
#[derive(Clone, Debug, PartialEq, Eq)]
pub struct ConfigAppend {
    /// The environment variable that names the configuration home.
    pub home_variable: String,
    /// The configuration home where that variable is not set.
    pub default_home: String,
    /// The file's path below the configuration home, one component each.
    pub path: Vec<String>,
    /// The text to add.
    pub text: String,
}

/// The mathematical model of a [`ConfigAppend`].
pub struct ConfigAppendView {
    pub home_variable: Seq<char>,
    pub default_home: Seq<char>,
    pub path: Seq<Seq<char>>,
    pub text: Seq<char>,
}

impl View for ConfigAppend {
    type V = ConfigAppendView;

    open spec fn view(&self) -> ConfigAppendView {
        ConfigAppendView {
            home_variable: self.home_variable@,
            default_home: self.default_home@,
            path: self.path.deep_view(),
            text: self.text@,
        }
    }
}

/// New values for the keyboard entry of a structured configuration store.
#[derive(Clone, Debug, PartialEq, Eq)]
pub struct XkbUpdate {
    /// The name of the store.
    pub store: String,
    /// The version of the store's layout.
    pub version: u64,
    /// The key of the keyboard entry in the store.
    pub key: String,
    /// The layout to write into the entry; none leaves the entry's own.
    pub layout: Option<String>,
    /// The variant to write into the entry; none leaves the entry's own.
    pub variant: Option<String>,
}

/// The mathematical model of an [`XkbUpdate`].
pub struct XkbUpdateView {
    pub store: Seq<char>,
    pub version: u64,
    pub key: Seq<char>,
    pub layout: Option<Seq<char>>,
    pub variant: Option<Seq<char>>,
}

impl View for XkbUpdate {
    type V = XkbUpdateView;

    open spec fn view(&self) -> XkbUpdateView {
        XkbUpdateView {
            store: self.store@,
            version: self.version,
            key: self.key@,
            layout: self.layout.deep_view(),
            variant: self.variant.deep_view(),
        }
    }
}

/// One thing the caller is asked to do to the system.
#[derive(Clone, Debug, PartialEq, Eq)]
pub enum Effect {
    /// Run the program and wait for its end. Its standard output is thrown
    /// away, its standard error goes to the user.
    Run(Invocation),
    /// Run the program, wait for its end and hand back what it wrote to its
    /// standard output. What it wrote to its standard error is dropped, and
    /// its exit code does not matter: only a program that cannot be launched
    /// is a failure.
    Capture(Invocation),
    /// Add text at the end of a configuration file that is there already.
    AppendConfig(ConfigAppend),
    /// Read the keyboard entry of a configuration store, overwrite the fields
    /// that the update names, and write the entry back.
    UpdateXkbConfig(XkbUpdate),
}

/// The mathematical model of an [`Effect`].
pub enum EffectView {
    Run(InvocationView),
    Capture(InvocationView),
    AppendConfig(ConfigAppendView),
    UpdateXkbConfig(XkbUpdateView),
}

impl View for Effect {
    type V = EffectView;

    open spec fn view(&self) -> EffectView {
        match self {
            Effect::Run(invocation) => EffectView::Run(invocation@),
            Effect::Capture(invocation) => EffectView::Capture(invocation@),
            Effect::AppendConfig(append) => EffectView::AppendConfig(append@),
            Effect::UpdateXkbConfig(update) => EffectView::UpdateXkbConfig(update@),
        }
    }
}

impl DeepView for Effect {
    type V = EffectView;

    open spec fn deep_view(&self) -> EffectView {
        self@
    }
}

/// What came of an effect.
#[derive(Clone, Debug, PartialEq, Eq)]
pub enum Outcome {
    /// The effect went through. The text is what it handed back: the
    /// captured output of [`Effect::Capture`], nothing for the others.
    Completed(String),
    /// The effect failed.
    Failed(KeymapError),
}

/// The mathematical model of an [`Outcome`].
pub enum OutcomeView {
    Completed(Seq<char>),
    Failed(KeymapErrorView),
}

impl View for Outcome {
    type V = OutcomeView;

    open spec fn view(&self) -> OutcomeView {
        match self {
            Outcome::Completed(text) => OutcomeView::Completed(text@),
            Outcome::Failed(error) => OutcomeView::Failed(error@),
        }
    }
}

impl DeepView for Outcome {
    type V = OutcomeView;

    open spec fn deep_view(&self) -> OutcomeView {
        self@
    }
}

/// What a backend answers when it is asked how to go on.
#[derive(Debug, PartialEq, Eq)]
pub enum Step {
    /// Perform this effect, record its outcome, and ask again.
    Perform(Effect),
    /// The request is over, with this result.
    Finished(Result<(), KeymapError>),
}

/// The mathematical model of a [`Step`].
pub enum StepView {
    Perform(EffectView),
    Finished(Result<(), KeymapErrorView>),
}

impl View for Step {
    type V = StepView;

    open spec fn view(&self) -> StepView {
        match self {
            Step::Perform(effect) => StepView::Perform(effect@),
            Step::Finished(result) => StepView::Finished(crate::error::result_view(*result)),
        }
    }
}

/// What the caller knows while it works on one request: what it is able to
/// do, and the outcomes of the effects it has performed, oldest first.
#[derive(Clone, Debug, PartialEq, Eq)]
pub struct Session {
    /// Whether the caller can reach the COSMIC configuration store.
    pub cosmic_epoch: bool,
    /// The outcomes so far.
    pub outcomes: Vec<Outcome>,
}

/// The mathematical model of a [`Session`].
pub struct SessionView {
    pub cosmic_epoch: bool,
    pub outcomes: Seq<OutcomeView>,
}

impl View for Session {
    type V = SessionView;

    open spec fn view(&self) -> SessionView {
        SessionView { cosmic_epoch: self.cosmic_epoch, outcomes: self.outcomes.deep_view() }
    }
}

impl Session {
    /// The session of a request of which nothing has been performed yet.
    pub fn new(cosmic_epoch: bool) -> (session: Session)
        ensures
            session@ == (SessionView { cosmic_epoch, outcomes: Seq::empty() }),
    {
        let session = Session { cosmic_epoch, outcomes: Vec::new() };
        assert(session.outcomes.deep_view() =~= Seq::empty());
        session
    }

    /// Records the outcome of the effect that was performed last.
    pub fn record(&mut self, outcome: Outcome)
        ensures
            final(self)@ == (SessionView {
                cosmic_epoch: old(self)@.cosmic_epoch,
                outcomes: old(self)@.outcomes.push(outcome@),
            }),
    {
        let ghost before = self.outcomes.deep_view();
        self.outcomes.push(outcome);
        assert(self.outcomes.deep_view() =~= before.push(outcome@));
    }
}

impl ConfigAppend {
    /// The failure to report when the file, shown as `path`, could not be
    /// opened.
    pub open spec fn spec_open_failure(path: Seq<char>) -> KeymapErrorView {
        KeymapErrorView {
            kind: ErrorKind::ConfigWriteError,
            message: "Error: Failed to open config file at: "@ + path,
        }
    }

    /// The failure to report when the text could not be written, for the
    /// reason given.
    pub open spec fn spec_write_failure(reason: Seq<char>) -> KeymapErrorView {
        KeymapErrorView {
            kind: ErrorKind::ConfigWriteError,
            message: "Error: Failed to write config file: "@ + reason,
        }
    }

    /// The failure to report when the file, shown as `path`, could not be
    /// opened.
    pub fn open_failure(path: &str) -> (error: KeymapError)
        ensures
            error@ == Self::spec_open_failure(path@),
    {
        let message = String::from_str("Error: Failed to open config file at: ").concat(path);
        KeymapError { kind: ErrorKind::ConfigWriteError, message }
    }

    /// The failure to report when the text could not be written, for the
    /// reason given.
    pub fn write_failure(reason: &str) -> (error: KeymapError)
        ensures
            error@ == Self::spec_write_failure(reason@),
    {
        let message = String::from_str("Error: Failed to write config file: ").concat(reason);
        KeymapError { kind: ErrorKind::ConfigWriteError, message }
    }
}

impl XkbUpdate {
    /// The failure to report when the store could not be opened, for the
    /// reason given.
    pub open spec fn spec_store_failure(reason: Seq<char>) -> KeymapErrorView {
        KeymapErrorView {
            kind: ErrorKind::ConfigWriteError,
            message: "Error: Failed to load cosmic config: "@ + reason,
        }
    }

    /// The failure to report when the entry under `key` could not be read or
    /// written, for the reason given.
    pub open spec fn spec_entry_failure(key: Seq<char>, reason: Seq<char>) -> KeymapErrorView {
        KeymapErrorView {
            kind: ErrorKind::ConfigWriteError,
            message: "Error: Failed to set "@ + key + ": "@ + reason,
        }
    }

    /// The failure to report when the store could not be opened, for the
    /// reason given.
    pub fn store_failure(reason: &str) -> (error: KeymapError)
        ensures
            error@ == Self::spec_store_failure(reason@),
    {
        let message = String::from_str("Error: Failed to load cosmic config: ").concat(reason);
        KeymapError { kind: ErrorKind::ConfigWriteError, message }
    }

    /// The failure to report when the keyboard entry could not be read or
    /// written, for the reason given.
    pub fn entry_failure(&self, reason: &str) -> (error: KeymapError)
        ensures
            error@ == Self::spec_entry_failure(self@.key, reason@),
    {
        let mut message = String::from_str("Error: Failed to set ");
        message.append(self.key.as_str());
        message.append(": ");
        message.append(reason);
        KeymapError { kind: ErrorKind::ConfigWriteError, message }
    }
}

/// Adds `effect` at the end of `plan`.
pub(crate) fn plan_push(plan: &mut Vec<Effect>, effect: Effect)
    ensures
        final(plan).deep_view() == old(plan).deep_view().push(effect@),
{
    plan.push(effect);
}

/// A plan without effects.
pub(crate) fn plan_new() -> (plan: Vec<Effect>)
    ensures
        plan.deep_view() == Seq::<EffectView>::empty(),
{
    Vec::new()
}

/// The failure of the earliest failed effect among the first `count`
/// outcomes, if one of them failed.
pub open spec fn first_failure(outcomes: Seq<OutcomeView>, count: int) -> Option<KeymapErrorView>
    decreases count,
{
    if count <= 0 {
        None
    } else {
        match first_failure(outcomes, count - 1) {
            Some(error) => Some(error),
            None => match outcomes[count - 1] {
                OutcomeView::Failed(error) => Some(error),
                OutcomeView::Completed(_) => None,
            },
        }
    }
}

/// How a plan goes on after the outcomes so far. The effects of the plan are
/// performed in order. The first failure ends the request and is its result;
/// nothing is undone. When every effect has gone through, the request has
/// succeeded.
pub open spec fn next_step(plan: Seq<EffectView>, outcomes: Seq<OutcomeView>) -> StepView {
    let settled = if outcomes.len() < plan.len() {
        outcomes.len()
    } else {
        plan.len()
    };
    match first_failure(outcomes, settled as int) {
        Some(error) => StepView::Finished(Err(error)),
        None => if outcomes.len() < plan.len() {
            StepView::Perform(plan[outcomes.len() as int])
        } else {
            StepView::Finished(Ok(()))
        },
    }
}

/// A failure found among the first `early` outcomes is the first failure of
/// every longer prefix too.
pub proof fn lemma_first_failure_stays(outcomes: Seq<OutcomeView>, early: int, late: int)
    requires
        early <= late,
        first_failure(outcomes, early) is Some,
    ensures
        first_failure(outcomes, late) == first_failure(outcomes, early),
    decreases late - early,
{
    if early < late {
        lemma_first_failure_stays(outcomes, early, late - 1);
    }
}

/// What the outcome of an effect means for a request of which it is the
/// last effect.
pub open spec fn outcome_result(outcome: OutcomeView) -> Result<(), KeymapErrorView> {
    match outcome {
        OutcomeView::Completed(_) => Ok(()),
        OutcomeView::Failed(error) => Err(error),
    }
}

/// A plan of a single effect asks for that effect and for nothing else.
/// Once the effect has an outcome the request is over, and it has succeeded
/// exactly when the effect went through.
pub proof fn lemma_single_effect(effect: EffectView, outcomes: Seq<OutcomeView>)
    ensures
        outcomes.len() == 0 ==> next_step(seq![effect], outcomes) == StepView::Perform(effect),
        outcomes.len() > 0 ==> next_step(seq![effect], outcomes) == StepView::Finished(
            outcome_result(outcomes[0]),
        ),
{
    reveal_with_fuel(first_failure, 2);
}

/// Says how `plan` goes on after `outcomes`, as [`next_step`] defines it.
pub fn follow(plan: Vec<Effect>, outcomes: &Vec<Outcome>) -> (step: Step)
    ensures
        step@ == next_step(plan.deep_view(), outcomes.deep_view()),
{
    let ghost planned = plan.deep_view();
    let ghost seen = outcomes.deep_view();
    let settled: usize = if outcomes.len() < plan.len() {
        outcomes.len()
    } else {
        plan.len()
    };
    let mut i: usize = 0;
    while i < settled
        invariant
            i <= settled <= outcomes.len(),
            settled as nat == if seen.len() < planned.len() {
                seen.len()
            } else {
                planned.len()
            },
            planned == plan.deep_view(),
            seen == outcomes.deep_view(),
            first_failure(seen, i as int) is None,
        decreases settled - i,
    {
        match &outcomes[i] {
            Outcome::Failed(error) => {
                proof {
                    lemma_first_failure_stays(seen, i + 1, settled as int);
                }
                return Step::Finished(Err(error.clone()));
            },
            Outcome::Completed(_) => {},
        }
        i = i + 1;
    }
    if outcomes.len() < plan.len() {
        let mut rest = plan;
        let effect = rest.remove(outcomes.len());
        Step::Perform(effect)
    } else {
        Step::Finished(Ok(()))
    }
}

} // verus!
