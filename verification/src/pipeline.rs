//! The capture-and-translate pipeline as a state machine. The caller owns
//! the clipboard, the input simulator, the pointer, the settings store and
//! the network: it performs each action that [`Pipeline::step`] hands out
//! and reports what happened as the next event.

use vstd::prelude::*;
use vstd::string::StringExecFns;
use crate::signing::{TranslateError, TranslateErrorModel};
use crate::text::{is_blank, text_is_blank};

verus! {

/// How long to wait after the simulated copy before the clipboard is read.
pub const SETTLING_DELAY_MS: u64 = 150;

/// How far from the pointer, on both axes, the result surface is placed.
pub const POINTER_OFFSET: i32 = 10;

/// Where a run stands. Each stage but the first and last waits for the
/// outcome of one outside action.
#[derive(Clone, Copy, Debug, PartialEq, Eq, Structural)]
pub enum Stage {
    /// Nothing has happened yet; the clipboard snapshot is awaited.
    Idle,
    /// The copy chord is being simulated.
    Capturing,
    /// The settling delay and the clipboard read are under way.
    Reading,
    /// The snapshot is being written back.
    Restoring,
    /// The pointer is being queried.
    Positioning,
    /// The surface is shown; the credentials are awaited.
    Authorizing,
    /// The translation request is under way.
    Translating,
    /// The terminal event has been handed out.
    Done,
}

/// Why a run failed.
#[derive(Debug, PartialEq, Eq)]
pub enum PipelineError {
    InputInjectionFailed(String),
    ClipboardUnavailable(String),
    EmptyCapture,
    CredentialMissing,
    Translation(TranslateError),
}

/// Character view of a [`PipelineError`].
pub enum ErrorModel {
    InputInjectionFailed(Seq<char>),
    ClipboardUnavailable(Seq<char>),
    EmptyCapture,
    CredentialMissing,
    Translation(TranslateErrorModel),
}

impl View for PipelineError {
    type V = ErrorModel;

    open spec fn view(&self) -> ErrorModel {
        match *self {
            PipelineError::InputInjectionFailed(why) => ErrorModel::InputInjectionFailed(why@),
            PipelineError::ClipboardUnavailable(why) => ErrorModel::ClipboardUnavailable(why@),
            PipelineError::EmptyCapture => ErrorModel::EmptyCapture,
            PipelineError::CredentialMissing => ErrorModel::CredentialMissing,
            PipelineError::Translation(e) => ErrorModel::Translation(e@),
        }
    }
}

impl ErrorModel {
    /// The text shown for the failure.
    pub open spec fn message(self) -> Seq<char> {
        match self {
            ErrorModel::InputInjectionFailed(why) => why,
            ErrorModel::ClipboardUnavailable(why) => why,
            ErrorModel::EmptyCapture => "未检测到选中文本"@,
            ErrorModel::CredentialMissing => "API Key is empty"@,
            ErrorModel::Translation(e) => e.message(),
        }
    }
}

impl PipelineError {
    /// The text shown for the failure.
    pub fn message(&self) -> (r: String)
        ensures
            r@ == self@.message(),
    {
        match self {
            PipelineError::InputInjectionFailed(why) => why.clone(),
            PipelineError::ClipboardUnavailable(why) => why.clone(),
            PipelineError::EmptyCapture => String::from_str("未检测到选中文本"),
            PipelineError::CredentialMissing => String::from_str("API Key is empty"),
            PipelineError::Translation(e) => e.message(),
        }
    }
}

/// How a run ended, over characters: the translated text or the failure.
pub type OutcomeModel = Result<Seq<char>, ErrorModel>;

/// Character view of a run's outcome.
pub open spec fn outcome_view(o: Result<String, PipelineError>) -> OutcomeModel {
    match o {
        Ok(text) => Ok(text@),
        Err(e) => Err(e@),
    }
}

/// The terminal event's payload: the translated text as it is, a failure's
/// message behind a fixed prefix.
pub open spec fn payload_text(o: OutcomeModel) -> Seq<char> {
    match o {
        Ok(text) => text,
        Err(e) => "错误: "@ + e.message(),
    }
}

/// The name of the terminal event.
pub fn terminal_event_name() -> (r: &'static str)
    ensures
        r@ == "shortcut-event"@,
{
    "shortcut-event"
}

/// Builds the terminal event's payload.
pub fn payload(outcome: &Result<String, PipelineError>) -> (r: String)
    ensures
        r@ == payload_text(outcome_view(*outcome)),
{
    match outcome {
        Ok(text) => text.clone(),
        Err(e) => {
            let mut s = String::from_str("错误: ");
            s.append(e.message().as_str());
            s
        },
    }
}

/// Refuses a translation when no API key is stored.
pub fn check_credentials(api_key: &str) -> (r: Result<(), PipelineError>)
    ensures
        r is Ok <==> api_key@.len() > 0,
        r matches Err(e) ==> e@ == ErrorModel::CredentialMissing,
{
    if api_key.is_empty() {
        Err(PipelineError::CredentialMissing)
    } else {
        Ok(())
    }
}

/// What the caller reports back after an action.
#[derive(Debug, PartialEq, Eq)]
pub enum Event {
    /// The clipboard's text before the run, or `None` where it could not be
    /// read.
    Snapshot(Option<String>),
    /// Whether the copy chord went out.
    CopySimulated(Result<(), String>),
    /// The clipboard's text after the settling delay.
    ClipboardRead(Result<String, String>),
    /// The snapshot was written back, or the write failed.
    Restored(bool),
    /// The pointer's position, where it could be had.
    Pointer(Option<(i32, i32)>),
    /// The stored API key and app id.
    Credentials(String, String),
    /// What the translation client returned.
    Translated(Result<String, TranslateError>),
}

/// Character view of an [`Event`].
pub enum EventModel {
    Snapshot(Option<Seq<char>>),
    CopySimulated(Result<(), Seq<char>>),
    ClipboardRead(Result<Seq<char>, Seq<char>>),
    Restored(bool),
    Pointer(Option<(i32, i32)>),
    Credentials(Seq<char>, Seq<char>),
    Translated(Result<Seq<char>, TranslateErrorModel>),
}

impl View for Event {
    type V = EventModel;

    open spec fn view(&self) -> EventModel {
        match *self {
            Event::Snapshot(None) => EventModel::Snapshot(None),
            Event::Snapshot(Some(text)) => EventModel::Snapshot(Some(text@)),
            Event::CopySimulated(Ok(_)) => EventModel::CopySimulated(Ok(())),
            Event::CopySimulated(Err(why)) => EventModel::CopySimulated(Err(why@)),
            Event::ClipboardRead(Ok(text)) => EventModel::ClipboardRead(Ok(text@)),
            Event::ClipboardRead(Err(why)) => EventModel::ClipboardRead(Err(why@)),
            Event::Restored(ok) => EventModel::Restored(ok),
            Event::Pointer(at) => EventModel::Pointer(at),
            Event::Credentials(key, id) => EventModel::Credentials(key@, id@),
            Event::Translated(Ok(text)) => EventModel::Translated(Ok(text@)),
            Event::Translated(Err(e)) => EventModel::Translated(Err(e@)),
        }
    }
}

/// What the caller is to do next.
#[derive(Debug, PartialEq, Eq)]
pub enum Action {
    /// Send the copy chord.
    SimulateCopy,
    /// Wait the given number of milliseconds, then read the clipboard.
    ReadAfterDelay(u64),
    /// Write this text back to the clipboard; a failure is reported but
    /// does not end the run.
    RestoreClipboard(String),
    /// Ask for the pointer's position.
    QueryPointer,
    /// Show and focus the surface, at this position where one is given,
    /// else where it last was; then read the credentials.
    ShowSurface(Option<(i32, i32)>),
    /// Translate the text with these credentials: API key, app id, text.
    Translate(String, String, String),
    /// Deliver the terminal event; the run is over.
    Emit(Result<String, PipelineError>),
    /// The event did not fit the stage: nothing to do.
    Ignore,
}

/// Character view of an [`Action`].
pub enum ActionModel {
    SimulateCopy,
    ReadAfterDelay(u64),
    RestoreClipboard(Seq<char>),
    QueryPointer,
    ShowSurface(Option<(i32, i32)>),
    Translate(Seq<char>, Seq<char>, Seq<char>),
    Emit(OutcomeModel),
    Ignore,
}

impl View for Action {
    type V = ActionModel;

    open spec fn view(&self) -> ActionModel {
        match *self {
            Action::SimulateCopy => ActionModel::SimulateCopy,
            Action::ReadAfterDelay(ms) => ActionModel::ReadAfterDelay(ms),
            Action::RestoreClipboard(text) => ActionModel::RestoreClipboard(text@),
            Action::QueryPointer => ActionModel::QueryPointer,
            Action::ShowSurface(at) => ActionModel::ShowSurface(at),
            Action::Translate(key, id, text) => ActionModel::Translate(key@, id@, text@),
            Action::Emit(o) => ActionModel::Emit(outcome_view(o)),
            Action::Ignore => ActionModel::Ignore,
        }
    }
}

/// One run of the pipeline.
pub struct Pipeline {
    stage: Stage,
    snapshot: String,
    captured: String,
}

/// What a run holds: its stage, the clipboard's text from before the run,
/// and the text that the simulated copy put there.
pub struct PipelineModel {
    pub stage: Stage,
    pub snapshot: Seq<char>,
    pub captured: Seq<char>,
}

impl View for Pipeline {
    type V = PipelineModel;

    closed spec fn view(&self) -> PipelineModel {
        PipelineModel { stage: self.stage, snapshot: self.snapshot@, captured: self.captured@ }
    }
}

/// A coordinate moved by [`POINTER_OFFSET`], held at the largest value.
pub open spec fn offset(v: i32) -> i32 {
    if v > i32::MAX - POINTER_OFFSET {
        i32::MAX
    } else {
        (v + POINTER_OFFSET) as i32
    }
}

impl PipelineModel {
    /// A run that has not begun.
    pub open spec fn idle() -> PipelineModel {
        PipelineModel { stage: Stage::Idle, snapshot: Seq::empty(), captured: Seq::empty() }
    }

    /// The run with its stage replaced.
    pub open spec fn at(self, stage: Stage) -> PipelineModel {
        PipelineModel { stage, ..self }
    }

    /// The run ended with the given outcome.
    pub open spec fn end(self, o: OutcomeModel) -> (PipelineModel, ActionModel) {
        (self.at(Stage::Done), ActionModel::Emit(o))
    }

    /// The transition relation: the next state and the action to perform.
    /// An event that the stage does not wait for changes nothing.
    pub open spec fn step(self, e: EventModel) -> (PipelineModel, ActionModel) {
        match self.stage {
            Stage::Idle => match e {
                EventModel::Snapshot(s) => (
                    PipelineModel {
                        stage: Stage::Capturing,
                        snapshot: match s {
                            Some(text) => text,
                            None => Seq::empty(),
                        },
                        captured: self.captured,
                    },
                    ActionModel::SimulateCopy,
                ),
                _ => (self, ActionModel::Ignore),
            },
            Stage::Capturing => match e {
                EventModel::CopySimulated(Ok(_)) => (
                    self.at(Stage::Reading),
                    ActionModel::ReadAfterDelay(SETTLING_DELAY_MS),
                ),
                EventModel::CopySimulated(Err(why)) => self.end(
                    Err(ErrorModel::InputInjectionFailed(why)),
                ),
                _ => (self, ActionModel::Ignore),
            },
            Stage::Reading => match e {
                EventModel::ClipboardRead(Ok(text)) => (
                    PipelineModel {
                        stage: Stage::Restoring,
                        snapshot: self.snapshot,
                        captured: text,
                    },
                    ActionModel::RestoreClipboard(self.snapshot),
                ),
                EventModel::ClipboardRead(Err(why)) => self.end(
                    Err(ErrorModel::ClipboardUnavailable(why)),
                ),
                _ => (self, ActionModel::Ignore),
            },
            Stage::Restoring => match e {
                EventModel::Restored(_) => if is_blank(self.captured) {
                    self.end(Err(ErrorModel::EmptyCapture))
                } else {
                    (self.at(Stage::Positioning), ActionModel::QueryPointer)
                },
                _ => (self, ActionModel::Ignore),
            },
            Stage::Positioning => match e {
                EventModel::Pointer(at) => (
                    self.at(Stage::Authorizing),
                    ActionModel::ShowSurface(
                        match at {
                            Some(p) => Some((offset(p.0), offset(p.1))),
                            None => None,
                        },
                    ),
                ),
                _ => (self, ActionModel::Ignore),
            },
            Stage::Authorizing => match e {
                EventModel::Credentials(key, id) => if key.len() == 0 {
                    self.end(Err(ErrorModel::CredentialMissing))
                } else {
                    (self.at(Stage::Translating), ActionModel::Translate(key, id, self.captured))
                },
                _ => (self, ActionModel::Ignore),
            },
            Stage::Translating => match e {
                EventModel::Translated(Ok(text)) => self.end(Ok(text)),
                EventModel::Translated(Err(err)) => self.end(Err(ErrorModel::Translation(err))),
                _ => (self, ActionModel::Ignore),
            },
            Stage::Done => (self, ActionModel::Ignore),
        }
    }
}

/// Moves a coordinate by [`POINTER_OFFSET`] without overflow.
pub fn offset_coordinate(v: i32) -> (r: i32)
    ensures
        r == offset(v),
{
    if v > i32::MAX - POINTER_OFFSET {
        i32::MAX
    } else {
        v + POINTER_OFFSET
    }
}

impl Pipeline {
    /// A run that has not begun.
    pub fn new() -> (r: Pipeline)
        ensures
            r@ == PipelineModel::idle(),
    {
        Pipeline { stage: Stage::Idle, snapshot: String::new(), captured: String::new() }
    }

    /// The stage the run is in.
    pub fn stage(&self) -> (r: Stage)
        ensures
            r == self@.stage,
    {
        self.stage
    }

    /// Whether the terminal event has been handed out.
    pub fn is_done(&self) -> (r: bool)
        ensures
            r == (self@.stage == Stage::Done),
    {
        self.stage == Stage::Done
    }

    fn finish(self, outcome: Result<String, PipelineError>) -> (r: (Pipeline, Action))
        ensures
            (r.0@, r.1@) == self@.end(outcome_view(outcome)),
    {
        (
            Pipeline { stage: Stage::Done, snapshot: self.snapshot, captured: self.captured },
            Action::Emit(outcome),
        )
    }

    fn advance(self, stage: Stage, action: Action) -> (r: (Pipeline, Action))
        ensures
            r.0@ == self@.at(stage),
            r.1 == action,
    {
        (Pipeline { stage, snapshot: self.snapshot, captured: self.captured }, action)
    }

    /// Takes one event: the next state, and the action to perform.
    pub fn step(self, event: Event) -> (r: (Pipeline, Action))
        ensures
            (r.0@, r.1@) == self@.step(event@),
    {
        match self.stage {
            Stage::Idle => match event {
                Event::Snapshot(s) => {
                    let snapshot = match s {
                        Some(text) => text,
                        None => String::new(),
                    };
                    (
                        Pipeline { stage: Stage::Capturing, snapshot, captured: self.captured },
                        Action::SimulateCopy,
                    )
                },
                _ => (self, Action::Ignore),
            },
            Stage::Capturing => match event {
                Event::CopySimulated(Ok(_)) => self.advance(
                    Stage::Reading,
                    Action::ReadAfterDelay(SETTLING_DELAY_MS),
                ),
                Event::CopySimulated(Err(why)) => self.finish(
                    Err(PipelineError::InputInjectionFailed(why)),
                ),
                _ => (self, Action::Ignore),
            },
            Stage::Reading => match event {
                Event::ClipboardRead(Ok(text)) => {
                    let back = self.snapshot.clone();
                    (
                        Pipeline { stage: Stage::Restoring, snapshot: self.snapshot, captured: text },
                        Action::RestoreClipboard(back),
                    )
                },
                Event::ClipboardRead(Err(why)) => self.finish(
                    Err(PipelineError::ClipboardUnavailable(why)),
                ),
                _ => (self, Action::Ignore),
            },
            Stage::Restoring => match event {
                Event::Restored(_) => {
                    if text_is_blank(self.captured.as_str()) {
                        self.finish(Err(PipelineError::EmptyCapture))
                    } else {
                        self.advance(Stage::Positioning, Action::QueryPointer)
                    }
                },
                _ => (self, Action::Ignore),
            },
            Stage::Positioning => match event {
                Event::Pointer(at) => {
                    let place = match at {
                        Some(p) => Some((offset_coordinate(p.0), offset_coordinate(p.1))),
                        None => None,
                    };
                    self.advance(Stage::Authorizing, Action::ShowSurface(place))
                },
                _ => (self, Action::Ignore),
            },
            Stage::Authorizing => match event {
                Event::Credentials(key, id) => {
                    if key.as_str().is_empty() {
                        self.finish(Err(PipelineError::CredentialMissing))
                    } else {
                        let text = self.captured.clone();
                        self.advance(Stage::Translating, Action::Translate(key, id, text))
                    }
                },
                _ => (self, Action::Ignore),
            },
            Stage::Translating => match event {
                Event::Translated(Ok(text)) => self.finish(Ok(text)),
                Event::Translated(Err(e)) => self.finish(Err(PipelineError::Translation(e))),
                _ => (self, Action::Ignore),
            },
            Stage::Done => (self, Action::Ignore),
        }
    }
}

} // verus!
