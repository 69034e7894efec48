//! The interface between the engine and its context providers.
//!
//! A provider never touches the machine. It is a function from what it has
//! been told so far to what it wants to know next, or to what it has
//! captured. The host asks it, carries out the request, adds the answer to
//! the list of observations, and asks again.
use crate::captured::Captured;
use crate::error::{CoreError, CoreErrorView, CoreResult, IoKind};
use crate::json::{Json, JsonValue};
use crate::views;
use vstd::prelude::*;

verus! {

/// The point of a run at which providers are asked.
#[derive(Debug, Clone, Copy, PartialEq, Eq, Structural)]
pub enum ContextPhase {
    Pre,
    Post,
}

/// What every provider is told about the invocation it is part of.
#[derive(Debug, Clone, PartialEq, Eq)]
pub struct RuntimeParams {
    pub phase: ContextPhase,
    /// The directory of the run; absent when capturing outside a run.
    pub run_dir: Option<String>,
    /// The absolute path of the project.
    pub project_root: String,
}

/// `RuntimeParams` as mathematics sees them.
pub struct RuntimeParamsView {
    pub phase: ContextPhase,
    pub run_dir: Option<Seq<char>>,
    pub project_root: Seq<char>,
}

impl View for RuntimeParams {
    type V = RuntimeParamsView;

    open spec fn view(&self) -> RuntimeParamsView {
        RuntimeParamsView {
            phase: self.phase,
            run_dir: match self.run_dir {
                Some(dir) => Some(dir@),
                None => None,
            },
            project_root: self.project_root@,
        }
    }
}

/// Something a provider asks its host to find out or to do.
#[derive(Debug, Clone, PartialEq, Eq)]
pub enum Probe {
    /// The current working directory of the process.
    CurrentDir,
    /// The commit that `HEAD` points at, in the repository found from `path`
    /// upwards.
    GitHead { path: String },
    /// How many entries the status list of that repository has.
    GitChanges { path: String },
    /// The files under `root` that match `pattern`, going at most
    /// `max_depth` levels down.
    Glob { root: String, pattern: String, max_depth: usize },
    /// The contents of a file.
    ReadFile { path: String },
    /// Copy a file.
    CopyFile { from: String, to: String },
    /// Move a file.
    MoveFile { from: String, to: String },
}

/// A `Probe` as mathematics sees it.
pub enum ProbeView {
    CurrentDir,
    GitHead { path: Seq<char> },
    GitChanges { path: Seq<char> },
    Glob { root: Seq<char>, pattern: Seq<char>, max_depth: usize },
    ReadFile { path: Seq<char> },
    CopyFile { from: Seq<char>, to: Seq<char> },
    MoveFile { from: Seq<char>, to: Seq<char> },
}

impl View for Probe {
    type V = ProbeView;

    open spec fn view(&self) -> ProbeView {
        match self {
            Probe::CurrentDir => ProbeView::CurrentDir,
            Probe::GitHead { path } => ProbeView::GitHead { path: path@ },
            Probe::GitChanges { path } => ProbeView::GitChanges { path: path@ },
            Probe::Glob { root, pattern, max_depth } => ProbeView::Glob {
                root: root@,
                pattern: pattern@,
                max_depth: *max_depth,
            },
            Probe::ReadFile { path } => ProbeView::ReadFile { path: path@ },
            Probe::CopyFile { from, to } => ProbeView::CopyFile { from: from@, to: to@ },
            Probe::MoveFile { from, to } => ProbeView::MoveFile { from: from@, to: to@ },
        }
    }
}

/// What the host answers to a probe.
#[derive(Debug, Clone, PartialEq, Eq)]
pub enum Observation {
    /// A directory, in answer to `CurrentDir`.
    Dir(String),
    /// The commit that `HEAD` points at, or nothing where `HEAD` does not
    /// point at a commit directly, in answer to `GitHead`.
    Head(Option<String>),
    /// A number of entries, in answer to `GitChanges`.
    Changes(usize),
    /// The files found, in answer to `Glob`.
    Files(Vec<String>),
    /// The contents of a file, in answer to `ReadFile`.
    Bytes(Vec<u8>),
    /// The file was copied or moved.
    Done,
    /// The host could not do what was asked.
    Failed { kind: IoKind, message: String },
}

/// An `Observation` as mathematics sees it.
pub enum ObservationView {
    Dir(Seq<char>),
    Head(Option<Seq<char>>),
    Changes(usize),
    Files(Seq<Seq<char>>),
    Bytes(Seq<u8>),
    Done,
    Failed { kind: IoKind, message: Seq<char> },
}

impl View for Observation {
    type V = ObservationView;

    open spec fn view(&self) -> ObservationView {
        match self {
            Observation::Dir(dir) => ObservationView::Dir(dir@),
            Observation::Head(head) => ObservationView::Head(
                match head {
                    Some(id) => Some(id@),
                    None => None,
                },
            ),
            Observation::Changes(n) => ObservationView::Changes(*n),
            Observation::Files(files) => ObservationView::Files(views(files@)),
            Observation::Bytes(bytes) => ObservationView::Bytes(bytes@),
            Observation::Done => ObservationView::Done,
            Observation::Failed { kind, message } => ObservationView::Failed {
                kind: *kind,
                message: message@,
            },
        }
    }
}

/// Where a provider stands: it asks for something, or it is done.
#[derive(Debug, PartialEq, Eq)]
pub enum Progress<T> {
    Ask(Probe),
    Done(CoreResult<T>),
}

/// Where a provider stands, as mathematics sees it: it asks, it has
/// captured a document, or it has failed.
pub enum Outcome {
    Ask(ProbeView),
    Captured(Json),
    Failed(CoreErrorView),
}

/// The outcome that a provider's progress stands for.
pub open spec fn outcome_of<T: Captured>(progress: Progress<T>) -> Outcome {
    match progress {
        Progress::Ask(probe) => Outcome::Ask(probe@),
        Progress::Done(Ok(captured)) => Outcome::Captured(captured.json()),
        Progress::Done(Err(e)) => Outcome::Failed(e@),
    }
}

/// The error a provider reports when the host answers a probe with an
/// observation of the wrong kind.
pub open spec fn unexpected_observation() -> CoreErrorView {
    crate::error::invalid_data("unexpected observation"@)
}

/// The error a provider reports when the host could not do what was asked.
pub open spec fn host_failure(kind: IoKind, message: Seq<char>) -> CoreErrorView {
    CoreErrorView::Io { path: None, kind, message }
}

/// The error for an observation of the wrong kind.
pub fn unexpected<T>() -> (p: Progress<T>)
    ensures
        p matches Progress::Done(Err(e)) && e@ == unexpected_observation(),
{
    Progress::Done(Err(CoreError::io(IoKind::InvalidData, "unexpected observation")))
}

/// The error for a probe that the host could not carry out.
pub fn failed<T>(kind: IoKind, message: &String) -> (p: Progress<T>)
    ensures
        p matches Progress::Done(Err(e)) && e@ == host_failure(kind, message@),
{
    Progress::Done(Err(CoreError::Io { path: None, kind, message: message.clone() }))
}

/// A context provider: captures one kind of fact about the environment.
pub trait Context {
    /// What the provider captures.
    type Output: Captured;

    /// What the provider does next, given what it has been told so far.
    spec fn outcome(&self, params: RuntimeParamsView, seen: Seq<ObservationView>) -> Outcome;

    /// Asks the provider, which has been told `seen` so far, in the order
    /// asked. It answers with its next probe, or with what it has captured,
    /// or with its failure.
    fn run(&self, params: &RuntimeParams, seen: &Vec<Observation>) -> (progress: Progress<
        Self::Output,
    >)
        ensures
            outcome_of(progress) == self.outcome(params@, views(seen@)),
    ;
}

/// A provider as the engine sees it: whatever it captures, it hands over as
/// a document.
pub trait ContextErased {
    /// What the provider does next, given what it has been told so far.
    spec fn erased_outcome(&self, params: RuntimeParamsView, seen: Seq<ObservationView>) -> Outcome;

    /// As `Context::run`, with the capture written down as a document.
    fn run_erased(&self, params: &RuntimeParams, seen: &Vec<Observation>) -> (progress: Progress<
        JsonValue,
    >)
        ensures
            outcome_of(progress) == self.erased_outcome(params@, views(seen@)),
    ;
}

impl<T: Context> ContextErased for T {
    open spec fn erased_outcome(
        &self,
        params: RuntimeParamsView,
        seen: Seq<ObservationView>,
    ) -> Outcome {
        self.outcome(params, seen)
    }

    fn run_erased(&self, params: &RuntimeParams, seen: &Vec<Observation>) -> (progress: Progress<
        JsonValue,
    >) {
        match self.run(params, seen) {
            Progress::Ask(probe) => Progress::Ask(probe),
            Progress::Done(Ok(captured)) => Progress::Done(Ok(captured.to_json())),
            Progress::Done(Err(e)) => Progress::Done(Err(e)),
        }
    }
}

/// Makes providers of one type from their configuration.
pub trait ContextFactory {
    /// The providers that the factory makes.
    type Provider: ContextErased;

    /// The type key that the factory answers to.
    spec fn spec_key(&self) -> Seq<char>;

    /// Whether the factory can make a provider from this configuration.
    spec fn accepts(&self, config: Json, project_root: Seq<char>) -> bool;

    /// The error with which the factory refuses a configuration it does not
    /// accept.
    spec fn rejection(&self, config: Json, project_root: Seq<char>) -> CoreErrorView;

    /// Whether `provider` is what the factory makes from this configuration.
    spec fn makes(&self, config: Json, project_root: Seq<char>, provider: Self::Provider) -> bool;

    /// The type key that the factory answers to.
    fn key(&self) -> (key: &'static str)
        ensures
            key@ == self.spec_key(),
    ;

    /// Makes a provider from its configuration. Relative paths in the
    /// configuration are taken from `project_root`.
    fn create_context(&self, config: &JsonValue, project_root: &str) -> (made: CoreResult<
        Self::Provider,
    >)
        ensures
            made is Ok <==> self.accepts(config@, project_root@),
            made matches Ok(provider) ==> self.makes(config@, project_root@, provider),
            made matches Err(e) ==> e@ == self.rejection(config@, project_root@),
    ;
}

} // verus!
