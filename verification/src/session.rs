//! A run as a whole, from the input file to the last worker. The session
//! performs nothing itself: it is told what happened and answers what to do
//! next. Whoever drives it reads the file, makes the directory, runs the
//! workers and prints.

use crate::fetch::PathStyle;
use crate::partition::{checked_plan, plan_fits, planned_spans};
use crate::source::{items_view, parsed_text, text_parser, WorkItem, WorkItemView};
use crate::text::{trim, trimmed};
use crate::worker::{workers_for, workers_of, workers_view, Worker, WorkerView};
use vstd::prelude::*;
use vstd::string::StringExecFns;

verus! {

/// The form of the input file.
#[derive(Clone, Copy, Debug, PartialEq, Eq, Structural)]
pub enum Mode {
    /// A JSON document.
    Json,
    /// Delimited text, one item per line.
    Text,
}

/// The number of threads where none is asked for.
pub const DEFAULT_MAX_THREADS: usize = 4;

/// The directory that the files go to where none is named.
pub open spec fn default_subject() -> Seq<char> {
    "."@
}

/// The input file where none is named.
pub open spec fn default_file_path(mode: Mode) -> Seq<char> {
    match mode {
        Mode::Json => "paths.json"@,
        Mode::Text => "paths.txt"@,
    }
}

/// What is said when the input file `file_path` cannot be read.
pub open spec fn unreadable_text(file_path: Seq<char>) -> Seq<char> {
    "Unable to read "@ + file_path
        + " file. Check if the file exists, and check if the filename is correct"@
}

/// What is said when the input is no JSON document of the expected shape;
/// `detail` is the parser's account of it.
pub open spec fn malformed_text(detail: Seq<char>) -> Seq<char> {
    "Unable to parse JSON: "@ + detail
}

/// What is said when the files cannot be shared out among `max_threads`
/// threads.
pub open spec fn undividable_text(max_threads: nat) -> Seq<char> {
    if max_threads == 0 {
        "Unable to divide the files among zero threads"@
    } else {
        "Unable to divide the files: the list is too long"@
    }
}

/// The prompt that is shown before the run ends early.
pub open spec fn exit_prompt() -> Seq<char> {
    "Press any key to exit..."@
}

/// The prompt that is shown when every worker is done.
pub open spec fn finished_prompt() -> Seq<char> {
    "Finished downloading files. Press any key to exit..."@
}

/// The mathematical form of the settings.
pub struct SettingsView {
    pub subject: Seq<char>,
    pub file_path: Seq<char>,
    pub max_threads: nat,
    pub mode: Mode,
    pub style: PathStyle,
}

/// What a run is asked to do.
#[derive(Clone, Debug, PartialEq, Eq)]
pub struct Settings {
    /// The directory that the files go to.
    pub subject: String,
    /// The input file.
    pub file_path: String,
    /// The largest number of threads to use.
    pub max_threads: usize,
    /// The form of the input file.
    pub mode: Mode,
    /// How the host writes paths.
    pub style: PathStyle,
}

impl View for Settings {
    type V = SettingsView;

    open spec fn view(&self) -> SettingsView {
        SettingsView {
            subject: self.subject@,
            file_path: self.file_path@,
            max_threads: self.max_threads as nat,
            mode: self.mode,
            style: self.style,
        }
    }
}

/// The settings for what was asked on the command line, with the default in
/// the place of each thing that was left out.
pub open spec fn resolved(
    subject: Option<Seq<char>>,
    file_path: Option<Seq<char>>,
    max_threads: nat,
    mode: Mode,
    style: PathStyle,
) -> SettingsView {
    SettingsView {
        subject: match subject {
            Some(given) => given,
            None => default_subject(),
        },
        file_path: match file_path {
            Some(given) => given,
            None => default_file_path(mode),
        },
        max_threads,
        mode,
        style,
    }
}

/// The view of a string that may be missing.
pub open spec fn optional_view(text: Option<String>) -> Option<Seq<char>> {
    match text {
        Some(given) => Some(given@),
        None => None,
    }
}

impl Settings {
    /// Puts the default in the place of each thing that was left out.
    pub fn resolve(
        subject: Option<String>,
        file_path: Option<String>,
        max_threads: usize,
        mode: Mode,
        style: PathStyle,
    ) -> (settings: Settings)
        ensures
            settings@ == resolved(
                optional_view(subject),
                optional_view(file_path),
                max_threads as nat,
                mode,
                style,
            ),
    {
        let subject = match subject {
            Some(given) => given,
            None => String::from_str("."),
        };
        let file_path = match file_path {
            Some(given) => given,
            None => match mode {
                Mode::Json => String::from_str("paths.json"),
                Mode::Text => String::from_str("paths.txt"),
            },
        };
        Settings { subject, file_path, max_threads, mode, style }
    }
}

/// The mathematical form of a stage.
pub enum StageView {
    Fresh,
    Reading,
    Parsing,
    Creating { files: Seq<WorkItemView> },
    Running,
    Stopped,
}

/// How far a run has come.
#[derive(Debug, PartialEq, Eq)]
pub enum Stage {
    /// Nothing was done yet.
    Fresh,
    /// The input file is being read.
    Reading,
    /// The input, a JSON document, is being parsed.
    Parsing,
    /// The work list is known, and the directory is being made.
    Creating { files: Vec<WorkItem> },
    /// The workers are at work.
    Running,
    /// The run is over.
    Stopped,
}

impl View for Stage {
    type V = StageView;

    open spec fn view(&self) -> StageView {
        match self {
            Stage::Fresh => StageView::Fresh,
            Stage::Reading => StageView::Reading,
            Stage::Parsing => StageView::Parsing,
            Stage::Creating { files } => StageView::Creating { files: items_view(files@) },
            Stage::Running => StageView::Running,
            Stage::Stopped => StageView::Stopped,
        }
    }
}

/// The mathematical form of what a session is told.
pub enum SessionEventView {
    Begin,
    InputUnreadable,
    InputRead(Seq<char>),
    JsonParsed(Seq<WorkItemView>),
    JsonMalformed(Seq<char>),
    DirectoryTried,
    WorkersDone,
}

/// What a session is told.
#[derive(Debug, PartialEq, Eq)]
pub enum SessionEvent {
    /// The run begins.
    Begin,
    /// The input file could not be read.
    InputUnreadable,
    /// The input file was read; this is what it holds.
    InputRead(String),
    /// The JSON document was parsed; these are its files.
    JsonParsed(Vec<WorkItem>),
    /// The input is no JSON document of the expected shape; this is the
    /// parser's account of it.
    JsonMalformed(String),
    /// The directory was made, or could not be made: it makes no difference.
    DirectoryTried,
    /// Every worker has come to its end.
    WorkersDone,
}

impl View for SessionEvent {
    type V = SessionEventView;

    open spec fn view(&self) -> SessionEventView {
        match self {
            SessionEvent::Begin => SessionEventView::Begin,
            SessionEvent::InputUnreadable => SessionEventView::InputUnreadable,
            SessionEvent::InputRead(content) => SessionEventView::InputRead(content@),
            SessionEvent::JsonParsed(files) => SessionEventView::JsonParsed(items_view(files@)),
            SessionEvent::JsonMalformed(detail) => SessionEventView::JsonMalformed(detail@),
            SessionEvent::DirectoryTried => SessionEventView::DirectoryTried,
            SessionEvent::WorkersDone => SessionEventView::WorkersDone,
        }
    }
}

/// The mathematical form of a crew.
pub struct CrewView {
    pub files: Seq<WorkItemView>,
    pub workers: Seq<WorkerView>,
    pub subject: Seq<char>,
    pub style: PathStyle,
}

/// The workers of a run, with what they share: the work list, the directory
/// that the files go to, and how paths are written.
#[derive(Debug, PartialEq, Eq)]
pub struct Crew {
    pub files: Vec<WorkItem>,
    pub workers: Vec<Worker>,
    pub subject: String,
    pub style: PathStyle,
}

impl View for Crew {
    type V = CrewView;

    open spec fn view(&self) -> CrewView {
        CrewView {
            files: items_view(self.files@),
            workers: workers_view(self.workers@),
            subject: self.subject@,
            style: self.style,
        }
    }
}

/// The mathematical form of what a session answers.
pub enum SessionActionView {
    ReadInput { path: Seq<char> },
    ParseJson { document: Seq<char> },
    Fail { diagnostic: Seq<char>, prompt: Seq<char> },
    Abort { message: Seq<char> },
    CreateDirectory { path: Seq<char> },
    Spawn(CrewView),
    Conclude { prompt: Seq<char> },
    Ignore,
}

/// What a session answers.
#[derive(Debug, PartialEq, Eq)]
pub enum SessionAction {
    /// Read the file at `path`, and tell what it holds or that it cannot be
    /// read.
    ReadInput { path: String },
    /// Parse the JSON document, and tell its files or that it is malformed.
    ParseJson { document: String },
    /// Write `diagnostic` to the error stream, show `prompt`, wait for a
    /// key, and end.
    Fail { diagnostic: String, prompt: String },
    /// End at once with `message`, as a failure of the program.
    Abort { message: String },
    /// Make the directory `path`, and tell that it was tried, whatever came
    /// of it.
    CreateDirectory { path: String },
    /// Run every worker of the crew on a thread of its own, wait for all of
    /// them, and tell that they are done.
    Spawn(Crew),
    /// Show `prompt`, wait for a key, and end.
    Conclude { prompt: String },
    /// The event does not belong to the stage and changes nothing.
    Ignore,
}

impl View for SessionAction {
    type V = SessionActionView;

    open spec fn view(&self) -> SessionActionView {
        match self {
            SessionAction::ReadInput { path } => SessionActionView::ReadInput { path: path@ },
            SessionAction::ParseJson { document } => SessionActionView::ParseJson {
                document: document@,
            },
            SessionAction::Fail { diagnostic, prompt } => SessionActionView::Fail {
                diagnostic: diagnostic@,
                prompt: prompt@,
            },
            SessionAction::Abort { message } => SessionActionView::Abort { message: message@ },
            SessionAction::CreateDirectory { path } => SessionActionView::CreateDirectory {
                path: path@,
            },
            SessionAction::Spawn(crew) => SessionActionView::Spawn(crew@),
            SessionAction::Conclude { prompt } => SessionActionView::Conclude { prompt: prompt@ },
            SessionAction::Ignore => SessionActionView::Ignore,
        }
    }
}

/// The mathematical form of a session.
pub struct SessionView {
    pub settings: SettingsView,
    pub stage: StageView,
}

impl SessionView {
    /// The session in stage `stage`, with the same settings.
    pub open spec fn at(self, stage: StageView) -> SessionView {
        SessionView { settings: self.settings, stage }
    }

    /// The answer once the work list is known: the directory is to be made.
    pub open spec fn with_files(self, files: Seq<WorkItemView>) -> (
        SessionView,
        SessionActionView,
    ) {
        (
            self.at(StageView::Creating { files }),
            SessionActionView::CreateDirectory { path: trim(self.settings.subject) },
        )
    }
}

/// What a session in state `s` makes of `event`: its next state, and its
/// answer.
pub open spec fn session_transition(s: SessionView, event: SessionEventView) -> (
    SessionView,
    SessionActionView,
) {
    match (s.stage, event) {
        (StageView::Fresh, SessionEventView::Begin) => (
            s.at(StageView::Reading),
            SessionActionView::ReadInput { path: trim(s.settings.file_path) },
        ),
        (StageView::Reading, SessionEventView::InputUnreadable) => (
            s.at(StageView::Stopped),
            SessionActionView::Fail {
                diagnostic: unreadable_text(s.settings.file_path),
                prompt: exit_prompt(),
            },
        ),
        (StageView::Reading, SessionEventView::InputRead(content)) => match s.settings.mode {
            Mode::Json => (
                s.at(StageView::Parsing),
                SessionActionView::ParseJson { document: content },
            ),
            Mode::Text => s.with_files(parsed_text(content)),
        },
        (StageView::Parsing, SessionEventView::JsonParsed(files)) => s.with_files(files),
        (StageView::Parsing, SessionEventView::JsonMalformed(detail)) => (
            s.at(StageView::Stopped),
            SessionActionView::Abort { message: malformed_text(detail) },
        ),
        (StageView::Creating { files }, SessionEventView::DirectoryTried) => {
            if s.settings.max_threads >= 1 && plan_fits(files.len(), s.settings.max_threads) {
                (
                    s.at(StageView::Running),
                    SessionActionView::Spawn(
                        CrewView {
                            files,
                            workers: workers_of(
                                planned_spans(files.len(), s.settings.max_threads),
                            ),
                            subject: s.settings.subject,
                            style: s.settings.style,
                        },
                    ),
                )
            } else {
                (
                    s.at(StageView::Stopped),
                    SessionActionView::Abort {
                        message: undividable_text(s.settings.max_threads),
                    },
                )
            }
        },
        (StageView::Running, SessionEventView::WorkersDone) => (
            s.at(StageView::Stopped),
            SessionActionView::Conclude { prompt: finished_prompt() },
        ),
        _ => (s, SessionActionView::Ignore),
    }
}

/// One run of the downloader.
#[derive(Debug)]
pub struct Session {
    settings: Settings,
    stage: Stage,
}

impl View for Session {
    type V = SessionView;

    closed spec fn view(&self) -> SessionView {
        SessionView { settings: self.settings@, stage: self.stage@ }
    }
}

impl Session {
    /// A run that has yet to begin.
    pub fn new(settings: Settings) -> (session: Session)
        ensures
            session@ == (SessionView { settings: settings@, stage: StageView::Fresh }),
    {
        Session { settings, stage: Stage::Fresh }
    }

    /// What the run was asked to do.
    pub fn settings(&self) -> (settings: &Settings)
        ensures
            settings@ == self@.settings,
    {
        &self.settings
    }

    /// How far the run has come.
    pub fn stage(&self) -> (stage: &Stage)
        ensures
            stage@ == self@.stage,
    {
        &self.stage
    }

    /// Tells the session of `event` and returns what is to be done.
    pub fn step(&mut self, event: SessionEvent) -> (action: SessionAction)
        ensures
            (final(self)@, action@) == session_transition(old(self)@, event@),
    {
        let mut stage = Stage::Stopped;
        core::mem::swap(&mut self.stage, &mut stage);
        match (stage, event) {
            (Stage::Fresh, SessionEvent::Begin) => {
                self.stage = Stage::Reading;
                SessionAction::ReadInput { path: trimmed(self.settings.file_path.as_str()) }
            },
            (Stage::Reading, SessionEvent::InputUnreadable) => {
                let mut diagnostic = String::from_str("Unable to read ");
                diagnostic.append(self.settings.file_path.as_str());
                diagnostic.append(
                    " file. Check if the file exists, and check if the filename is correct",
                );
                SessionAction::Fail {
                    diagnostic,
                    prompt: String::from_str("Press any key to exit..."),
                }
            },
            (Stage::Reading, SessionEvent::InputRead(content)) => match self.settings.mode {
                Mode::Json => {
                    self.stage = Stage::Parsing;
                    SessionAction::ParseJson { document: content }
                },
                Mode::Text => {
                    self.stage = Stage::Creating { files: text_parser(content.as_str()) };
                    SessionAction::CreateDirectory {
                        path: trimmed(self.settings.subject.as_str()),
                    }
                },
            },
            (Stage::Parsing, SessionEvent::JsonParsed(files)) => {
                self.stage = Stage::Creating { files };
                SessionAction::CreateDirectory { path: trimmed(self.settings.subject.as_str()) }
            },
            (Stage::Parsing, SessionEvent::JsonMalformed(detail)) => {
                let mut message = String::from_str("Unable to parse JSON: ");
                message.append(detail.as_str());
                SessionAction::Abort { message }
            },
            (Stage::Creating { files }, SessionEvent::DirectoryTried) => {
                match checked_plan(files.len(), self.settings.max_threads) {
                    Some(plan) => {
                        self.stage = Stage::Running;
                        SessionAction::Spawn(
                            Crew {
                                files,
                                workers: workers_for(&plan),
                                subject: self.settings.subject.clone(),
                                style: self.settings.style,
                            },
                        )
                    },
                    None => {
                        let message = if self.settings.max_threads == 0 {
                            String::from_str("Unable to divide the files among zero threads")
                        } else {
                            String::from_str("Unable to divide the files: the list is too long")
                        };
                        SessionAction::Abort { message }
                    },
                }
            },
            (Stage::Running, SessionEvent::WorkersDone) => {
                SessionAction::Conclude {
                    prompt: String::from_str(
                        "Finished downloading files. Press any key to exit...",
                    ),
                }
            },
            (before, _) => {
                self.stage = before;
                SessionAction::Ignore
            },
        }
    }
}

/// The answers of a session that starts in state `s` and is told `events`
/// in turn.
pub open spec fn answers(s: SessionView, events: Seq<SessionEventView>) -> Seq<
    SessionActionView,
>
    decreases events.len(),
{
    if events.len() == 0 {
        Seq::empty()
    } else {
        let (next, answer) = session_transition(s, events[0]);
        seq![answer] + answers(next, events.drop_first())
    }
}

/// A run that is over stays over: whatever it is told, it answers that
/// nothing is to be done.
pub proof fn lemma_stopped_is_final(s: SessionView, events: Seq<SessionEventView>)
    requires
        s.stage is Stopped,
    ensures
        answers(s, events).len() == events.len(),
        forall|k: int|
            0 <= k < events.len() ==> #[trigger] answers(s, events)[k]
                == SessionActionView::Ignore,
    decreases events.len(),
{
    if events.len() > 0 {
        lemma_stopped_is_final(s, events.drop_first());
    }
}

/// A run whose input cannot be read ends before anything else is done. Told
/// to begin, it asks for the input; told that the input cannot be read, it
/// answers with the diagnostic; and whatever it is told after that, it asks
/// for no directory and for no worker.
pub proof fn lemma_unreadable_input_ends_the_run(
    settings: SettingsView,
    later: Seq<SessionEventView>,
)
    ensures
        ({
            let fresh = SessionView { settings, stage: StageView::Fresh };
            let told = seq![SessionEventView::Begin, SessionEventView::InputUnreadable] + later;
            let all = answers(fresh, told);
            &&& all.len() == 2 + later.len()
            &&& all[0] == SessionActionView::ReadInput { path: trim(settings.file_path) }
            &&& all[1] == SessionActionView::Fail {
                diagnostic: unreadable_text(settings.file_path),
                prompt: exit_prompt(),
            }
            &&& forall|k: int| 2 <= k < all.len() ==> #[trigger] all[k] == SessionActionView::Ignore
        }),
{
    let fresh = SessionView { settings, stage: StageView::Fresh };
    let told = seq![SessionEventView::Begin, SessionEventView::InputUnreadable] + later;
    let reading = fresh.at(StageView::Reading);
    let stopped = fresh.at(StageView::Stopped);
    assert(told.drop_first().drop_first() == later);
    assert(answers(reading, told.drop_first()) == seq![
        session_transition(reading, told[1]).1,
    ] + answers(stopped, later));
    lemma_stopped_is_final(stopped, later);
}

/// The place of a stage in the course of a run.
pub open spec fn stage_rank(stage: StageView) -> int {
    match stage {
        StageView::Fresh => 0,
        StageView::Reading => 1,
        StageView::Parsing => 2,
        StageView::Creating { .. } => 3,
        StageView::Running => 4,
        StageView::Stopped => 5,
    }
}

/// The place of an answer in the course of a run: reading comes before
/// parsing, parsing before the directory, the directory before the workers,
/// and the end, good or bad, after all of them. `Ignore` has no place.
pub open spec fn action_rank(action: SessionActionView) -> int {
    match action {
        SessionActionView::Ignore => 0,
        SessionActionView::ReadInput { .. } => 1,
        SessionActionView::ParseJson { .. } => 2,
        SessionActionView::CreateDirectory { .. } => 3,
        SessionActionView::Spawn(_) => 4,
        SessionActionView::Fail { .. } => 5,
        SessionActionView::Abort { .. } => 5,
        SessionActionView::Conclude { .. } => 5,
    }
}

/// Whatever a session is told, its answers other than `Ignore` come in the
/// order of their places, each place at most once, and none of them has a
/// place that the session has already passed.
proof fn lemma_answers_rise(s: SessionView, events: Seq<SessionEventView>)
    ensures
        answers(s, events).len() == events.len(),
        forall|k: int|
            0 <= k < events.len() && #[trigger] answers(s, events)[k]
                != SessionActionView::Ignore ==> stage_rank(s.stage) < action_rank(
                answers(s, events)[k],
            ),
        forall|a: int, b: int|
            0 <= a < b < events.len() && #[trigger] answers(s, events)[a]
                != SessionActionView::Ignore && #[trigger] answers(s, events)[b]
                != SessionActionView::Ignore ==> action_rank(answers(s, events)[a]) < action_rank(
                answers(s, events)[b],
            ),
    decreases events.len(),
{
    if events.len() > 0 {
        let next = session_transition(s, events[0]).0;
        lemma_answers_rise(next, events.drop_first());
    }
}

/// A run does one thing after the other and each thing once. Whatever a
/// fresh session is told, it asks for the input before it asks for the
/// directory, for the directory before it asks for workers, and for each of
/// them at most once; and once it has answered that the run is to end, with
/// `Fail`, `Abort` or `Conclude`, it asks for nothing more.
pub proof fn lemma_answers_in_order(settings: SettingsView, events: Seq<SessionEventView>)
    ensures
        ({
            let all = answers(SessionView { settings, stage: StageView::Fresh }, events);
            &&& all.len() == events.len()
            &&& forall|a: int, b: int|
                0 <= a < b < all.len() && #[trigger] all[a] != SessionActionView::Ignore
                    && #[trigger] all[b] != SessionActionView::Ignore ==> action_rank(all[a])
                    < action_rank(all[b])
        }),
{
    lemma_answers_rise(SessionView { settings, stage: StageView::Fresh }, events);
}

} // verus!
