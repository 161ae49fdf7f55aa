//! The processing of the output files (exports and splits): the decisions taken for
//! each file, from the choice of the next one to the overwrite questions.
//!
//! The work itself (looking for the next file, checking whether it exists, asking the
//! user, producing it) is left to the caller, which performs the action that
//! [`OutputProcessor`] returns and hands back its outcome.
use vstd::prelude::*;

use crate::info_bar;
use crate::main_panel;
use crate::ui_event::{UIEventChannel, UIEventView};

verus! {

/// The answer to the question whether an existing file must be overwritten.
#[derive(Clone, Copy, Debug, PartialEq, Eq, Structural)]
pub enum OverwriteResponse {
    /// Yes, and for every file which follows.
    Apply,
    /// Stop the processing.
    Cancel,
    /// Skip this file.
    No,
    /// Yes for this file.
    Yes,
}

/// Where the processing stands.
#[derive(Debug)]
pub enum ProcessingState {
    /// Nothing processed yet: waiting for the first file.
    Init,
    /// A file was produced: waiting for the next one.
    DoneWithCurrent,
    /// A file was skipped: waiting for the next one.
    SkipCurrent,
    /// Waiting to learn whether the file at this path exists.
    WouldOutputTo(String),
    /// Waiting for the user to tell whether the file at this path may be overwritten.
    AskingOverwrite(String),
    /// Waiting for the file at this path to be produced.
    ConfirmedOutputTo(String),
    /// Every file was produced.
    AllDone,
    /// The processing stopped before the end.
    Aborted,
}

/// The abstract value of a [`ProcessingState`].
pub enum ProcessingStateView {
    Init,
    DoneWithCurrent,
    SkipCurrent,
    WouldOutputTo(Seq<char>),
    AskingOverwrite(Seq<char>),
    ConfirmedOutputTo(Seq<char>),
    AllDone,
    Aborted,
}

impl View for ProcessingState {
    type V = ProcessingStateView;

    open spec fn view(&self) -> ProcessingStateView {
        match self {
            ProcessingState::Init => ProcessingStateView::Init,
            ProcessingState::DoneWithCurrent => ProcessingStateView::DoneWithCurrent,
            ProcessingState::SkipCurrent => ProcessingStateView::SkipCurrent,
            ProcessingState::WouldOutputTo(p) => ProcessingStateView::WouldOutputTo(p@),
            ProcessingState::AskingOverwrite(p) => ProcessingStateView::AskingOverwrite(p@),
            ProcessingState::ConfirmedOutputTo(p) => ProcessingStateView::ConfirmedOutputTo(p@),
            ProcessingState::AllDone => ProcessingStateView::AllDone,
            ProcessingState::Aborted => ProcessingStateView::Aborted,
        }
    }
}

/// What the caller must perform next.
#[derive(Debug)]
pub enum ProcessingAction {
    /// Look for the next file to produce.
    FetchNext,
    /// Check whether the file at this path exists.
    CheckExists(String),
    /// Ask the user whether the file at this path may be overwritten.
    AskOverwrite(String),
    /// Produce the file at this path.
    Process(String),
    /// Tell the user that every file was produced; the processing is over.
    Complete,
    /// The processing is over.
    Stop,
    /// Cancel what the processing started; the processing is over.
    CancelAndStop,
}

/// The abstract value of a [`ProcessingAction`].
pub enum ProcessingActionView {
    FetchNext,
    CheckExists(Seq<char>),
    AskOverwrite(Seq<char>),
    Process(Seq<char>),
    Complete,
    Stop,
    CancelAndStop,
}

impl View for ProcessingAction {
    type V = ProcessingActionView;

    open spec fn view(&self) -> ProcessingActionView {
        match self {
            ProcessingAction::FetchNext => ProcessingActionView::FetchNext,
            ProcessingAction::CheckExists(p) => ProcessingActionView::CheckExists(p@),
            ProcessingAction::AskOverwrite(p) => ProcessingActionView::AskOverwrite(p@),
            ProcessingAction::Process(p) => ProcessingActionView::Process(p@),
            ProcessingAction::Complete => ProcessingActionView::Complete,
            ProcessingAction::Stop => ProcessingActionView::Stop,
            ProcessingAction::CancelAndStop => ProcessingActionView::CancelAndStop,
        }
    }
}

/// The outcome of the action the caller performed.
#[derive(Debug)]
pub enum ActionOutcome {
    /// The next file to produce, if any.
    Next(Option<String>),
    /// Whether the file exists.
    Exists(bool),
    /// What the user answered.
    Answer(OverwriteResponse),
    /// Whether the file could be produced, and why not.
    Processed(Result<(), String>),
}

/// The abstract value of an [`ActionOutcome`].
pub enum ActionOutcomeView {
    Next(Option<Seq<char>>),
    Exists(bool),
    Answer(OverwriteResponse),
    Processed(Result<(), Seq<char>>),
}

impl View for ActionOutcome {
    type V = ActionOutcomeView;

    open spec fn view(&self) -> ActionOutcomeView {
        match self {
            ActionOutcome::Next(n) => ActionOutcomeView::Next(
                match n {
                    Some(p) => Some(p@),
                    None => None,
                },
            ),
            ActionOutcome::Exists(e) => ActionOutcomeView::Exists(*e),
            ActionOutcome::Answer(r) => ActionOutcomeView::Answer(*r),
            ActionOutcome::Processed(r) => ActionOutcomeView::Processed(
                match r {
                    Ok(()) => Ok(()),
                    Err(e) => Err(e@),
                },
            ),
        }
    }
}

/// `outcome` is the kind of outcome that `state` waits for.
pub open spec fn expects(state: ProcessingStateView, outcome: ActionOutcomeView) -> bool {
    match state {
        ProcessingStateView::Init | ProcessingStateView::DoneWithCurrent
        | ProcessingStateView::SkipCurrent => outcome is Next,
        ProcessingStateView::WouldOutputTo(_) => outcome is Exists,
        ProcessingStateView::AskingOverwrite(_) => outcome is Answer,
        ProcessingStateView::ConfirmedOutputTo(_) => outcome is Processed,
        _ => false,
    }
}

/// The abstract value of an [`OutputProcessor`].
pub struct ProcessorModel {
    pub state: ProcessingStateView,
    /// The user answered that every file may be overwritten.
    pub overwrite_all: bool,
}

/// What a step of the processing results in.
pub struct StepOutcome {
    pub model: ProcessorModel,
    pub action: ProcessingActionView,
    pub events: Seq<UIEventView>,
}

/// The step towards the file at `path`: produced at once when every file may be
/// overwritten, else checked first.
pub open spec fn would_output_to(overwrite_all: bool, path: Seq<char>) -> StepOutcome {
    if overwrite_all {
        StepOutcome {
            model: ProcessorModel {
                state: ProcessingStateView::ConfirmedOutputTo(path),
                overwrite_all,
            },
            action: ProcessingActionView::Process(path),
            events: seq![],
        }
    } else {
        StepOutcome {
            model: ProcessorModel { state: ProcessingStateView::WouldOutputTo(path), overwrite_all },
            action: ProcessingActionView::CheckExists(path),
            events: seq![],
        }
    }
}

/// The step which follows `outcome` in `m`.
pub open spec fn step_outcome(m: ProcessorModel, outcome: ActionOutcomeView) -> StepOutcome {
    match (m.state, outcome) {
        (ProcessingStateView::SkipCurrent, ActionOutcomeView::Next(None)) => StepOutcome {
            // no success message when the user skipped the last file
            model: ProcessorModel { state: ProcessingStateView::Aborted, ..m },
            action: ProcessingActionView::Stop,
            events: seq![],
        },
        (_, ActionOutcomeView::Next(None)) => StepOutcome {
            model: ProcessorModel { state: ProcessingStateView::AllDone, ..m },
            action: ProcessingActionView::Complete,
            events: seq![],
        },
        (_, ActionOutcomeView::Next(Some(path))) => would_output_to(m.overwrite_all, path),
        (ProcessingStateView::WouldOutputTo(path), ActionOutcomeView::Exists(exists)) => if exists {
            StepOutcome {
                model: ProcessorModel { state: ProcessingStateView::AskingOverwrite(path), ..m },
                action: ProcessingActionView::AskOverwrite(path),
                events: seq![UIEventView::ResetCursor],
            }
        } else {
            StepOutcome {
                model: ProcessorModel { state: ProcessingStateView::ConfirmedOutputTo(path), ..m },
                action: ProcessingActionView::Process(path),
                events: seq![],
            }
        },
        (ProcessingStateView::AskingOverwrite(path), ActionOutcomeView::Answer(response)) => match response {
            OverwriteResponse::Apply => StepOutcome {
                model: ProcessorModel {
                    state: ProcessingStateView::ConfirmedOutputTo(path),
                    overwrite_all: true,
                },
                action: ProcessingActionView::Process(path),
                events: seq![UIEventView::SetCursorWaiting],
            },
            OverwriteResponse::Yes => StepOutcome {
                model: ProcessorModel { state: ProcessingStateView::ConfirmedOutputTo(path), ..m },
                action: ProcessingActionView::Process(path),
                events: seq![UIEventView::SetCursorWaiting],
            },
            OverwriteResponse::No => StepOutcome {
                model: ProcessorModel { state: ProcessingStateView::SkipCurrent, ..m },
                action: ProcessingActionView::FetchNext,
                events: seq![UIEventView::SetCursorWaiting],
            },
            OverwriteResponse::Cancel => StepOutcome {
                model: ProcessorModel { state: ProcessingStateView::Aborted, ..m },
                action: ProcessingActionView::CancelAndStop,
                events: seq![],
            },
        },
        (ProcessingStateView::ConfirmedOutputTo(_), ActionOutcomeView::Processed(result)) => match result {
            Ok(()) => StepOutcome {
                model: ProcessorModel { state: ProcessingStateView::DoneWithCurrent, ..m },
                action: ProcessingActionView::FetchNext,
                events: seq![],
            },
            Err(error) => StepOutcome {
                model: ProcessorModel { state: ProcessingStateView::Aborted, ..m },
                action: ProcessingActionView::Stop,
                events: seq![UIEventView::ShowError(error)],
            },
        },
        _ => StepOutcome { model: m, action: ProcessingActionView::Stop, events: seq![] },
    }
}

/// Only the answer to overwrite every file lets the processing overwrite files without
/// asking: any other step leaves that choice as it was.
pub proof fn lemma_only_apply_overwrites_all(m: ProcessorModel, outcome: ActionOutcomeView)
    requires
        expects(m.state, outcome),
    ensures
        step_outcome(m, outcome).model.overwrite_all == (m.overwrite_all || outcome
            == ActionOutcomeView::Answer(OverwriteResponse::Apply)),
{
}

/// Unless every file may be overwritten, each next file is first checked for
/// existence, before it is produced.
pub proof fn lemma_next_file_checked_first(m: ProcessorModel, path: Seq<char>)
    requires
        !m.overwrite_all,
        m.state is Init || m.state is DoneWithCurrent || m.state is SkipCurrent,
    ensures
        step_outcome(m, ActionOutcomeView::Next(Some(path))).action
            == ProcessingActionView::CheckExists(path),
        step_outcome(m, ActionOutcomeView::Next(Some(path))).model == (ProcessorModel {
            state: ProcessingStateView::WouldOutputTo(path),
            overwrite_all: false,
        }),
{
}

/// The decisions taken while producing the output files, one after the other.
pub struct OutputProcessor {
    pub state: ProcessingState,
    pub overwrite_all: bool,
}

impl View for OutputProcessor {
    type V = ProcessorModel;

    open spec fn view(&self) -> ProcessorModel {
        ProcessorModel { state: self.state@, overwrite_all: self.overwrite_all }
    }
}

impl OutputProcessor {
    /// Starts a processing: the first action looks for the first file.
    pub fn new() -> (r: (Self, ProcessingAction))
        ensures
            r.0@.state is Init,
            !r.0@.overwrite_all,
            r.1@ is FetchNext,
    {
        (OutputProcessor { state: ProcessingState::Init, overwrite_all: false }, ProcessingAction::FetchNext)
    }

    /// The processing is over.
    pub fn is_over(&self) -> (r: bool)
        ensures
            r == (self@.state is AllDone || self@.state is Aborted),
    {
        match self.state {
            ProcessingState::AllDone | ProcessingState::Aborted => true,
            _ => false,
        }
    }

    /// Takes into account the `outcome` of the last action and returns the next one.
    pub fn step(&mut self, channel: &mut UIEventChannel, outcome: ActionOutcome) -> (action:
        ProcessingAction)
        requires
            expects(old(self)@.state, outcome@),
        ensures
            final(self)@ == step_outcome(old(self)@, outcome@).model,
            action@ == step_outcome(old(self)@, outcome@).action,
            final(channel).view() == old(channel).view() + step_outcome(old(self)@, outcome@).events,
    {
        let skipping = match self.state {
            ProcessingState::SkipCurrent => true,
            _ => false,
        };
        match outcome {
            ActionOutcome::Next(next) => match next {
                None => {
                    if skipping {
                        // no success message when the user skipped the last file
                        self.state = ProcessingState::Aborted;
                        ProcessingAction::Stop
                    } else {
                        self.state = ProcessingState::AllDone;
                        ProcessingAction::Complete
                    }
                },
                Some(path) => {
                    if self.overwrite_all {
                        self.state = ProcessingState::ConfirmedOutputTo(path.clone());
                        ProcessingAction::Process(path)
                    } else {
                        self.state = ProcessingState::WouldOutputTo(path.clone());
                        ProcessingAction::CheckExists(path)
                    }
                },
            },
            ActionOutcome::Exists(exists) => {
                let path = match &self.state {
                    ProcessingState::WouldOutputTo(path) => path.clone(),
                    _ => String::new(),
                };
                if exists {
                    main_panel::reset_cursor(channel);
                    self.state = ProcessingState::AskingOverwrite(path.clone());
                    ProcessingAction::AskOverwrite(path)
                } else {
                    self.state = ProcessingState::ConfirmedOutputTo(path.clone());
                    ProcessingAction::Process(path)
                }
            },
            ActionOutcome::Answer(response) => {
                let path = match &self.state {
                    ProcessingState::AskingOverwrite(path) => path.clone(),
                    _ => String::new(),
                };
                match response {
                    OverwriteResponse::Apply => {
                        self.overwrite_all = true;
                        main_panel::set_cursor_waiting(channel);
                        self.state = ProcessingState::ConfirmedOutputTo(path.clone());
                        ProcessingAction::Process(path)
                    },
                    OverwriteResponse::Yes => {
                        main_panel::set_cursor_waiting(channel);
                        self.state = ProcessingState::ConfirmedOutputTo(path.clone());
                        ProcessingAction::Process(path)
                    },
                    OverwriteResponse::No => {
                        main_panel::set_cursor_waiting(channel);
                        self.state = ProcessingState::SkipCurrent;
                        ProcessingAction::FetchNext
                    },
                    OverwriteResponse::Cancel => {
                        self.state = ProcessingState::Aborted;
                        ProcessingAction::CancelAndStop
                    },
                }
            },
            ActionOutcome::Processed(result) => match result {
                Ok(()) => {
                    self.state = ProcessingState::DoneWithCurrent;
                    ProcessingAction::FetchNext
                },
                Err(error) => {
                    info_bar::show_error(channel, error.as_str());
                    self.state = ProcessingState::Aborted;
                    ProcessingAction::Stop
                },
            },
        }
    }
}

/// The action of each step is the one the new state waits for the outcome of, and the
/// processing is over exactly when the action says so.
pub proof fn lemma_action_fits_state(m: ProcessorModel, outcome: ActionOutcomeView)
    requires
        expects(m.state, outcome),
    ensures
        ({
            let next = step_outcome(m, outcome);
            match next.action {
                ProcessingActionView::FetchNext => next.model.state is DoneWithCurrent
                    || next.model.state is SkipCurrent,
                ProcessingActionView::CheckExists(path) => next.model.state
                    == ProcessingStateView::WouldOutputTo(path),
                ProcessingActionView::AskOverwrite(path) => next.model.state
                    == ProcessingStateView::AskingOverwrite(path),
                ProcessingActionView::Process(path) => next.model.state
                    == ProcessingStateView::ConfirmedOutputTo(path),
                ProcessingActionView::Complete => next.model.state is AllDone,
                ProcessingActionView::Stop | ProcessingActionView::CancelAndStop => next.model.state is Aborted,
            }
        }),
{
}

/// A file which exists is never produced before the user was asked about it.
pub proof fn lemma_existing_file_asked_first(m: ProcessorModel, path: Seq<char>)
    requires
        m.state == ProcessingStateView::WouldOutputTo(path),
    ensures
        step_outcome(m, ActionOutcomeView::Exists(true)).action == ProcessingActionView::AskOverwrite(
            path,
        ),
{
}

/// Once the user answered that every file may be overwritten, it stays so, and no
/// further file is checked or asked about.
pub proof fn lemma_overwrite_all_sticks(m: ProcessorModel, outcome: ActionOutcomeView)
    requires
        m.overwrite_all,
        expects(m.state, outcome),
    ensures
        step_outcome(m, outcome).model.overwrite_all,
        outcome matches ActionOutcomeView::Next(Some(path)) ==> step_outcome(m, outcome).action
            == ProcessingActionView::Process(path),
{
}

} // verus!
