//! The settings store: loading the file, and the protocol that creates or
//! replaces it. Writing goes to a temporary file beside the target, which is then
//! renamed onto it, so the target holds either its old or its new content.
//!
//! The store does no I/O itself. A `Job` names the next file operation, its
//! caller performs it and reports the outcome, until the job is done.
use vstd::prelude::*;
use crate::error::{fault_message, fault_text, ConfigError, ErrorModel};
use crate::json::{describe, json_parse, json_pretty, parse, pretty};
use crate::settings::{
    decode, default_model, encodes, lemma_round_trip, stores, Config, ConfigModel, Fault,
};

verus! {

/// The settings file, relative to the working directory.
pub const CONFIG_PATH: &'static str = "config.json";

/// What is appended to the target's name to name the temporary file.
pub const TEMP_SUFFIX: &'static str = ".tmp";

pub open spec fn temp_path(target: Seq<char>) -> Seq<char> {
    target + TEMP_SUFFIX@
}

/// Where a job stands.
#[derive(Debug)]
pub enum Phase {
    /// Waiting to learn whether the target exists.
    Checking,
    /// Waiting for the text to be written to the temporary file.
    Writing,
    /// Waiting for the temporary file to be renamed onto the target.
    Renaming,
    /// Finished: `Ok(true)` when the target was written, `Ok(false)` when it
    /// already existed and was left alone.
    Done(Result<bool, ConfigError>),
}

/// An init or save in progress.
#[derive(Debug)]
pub struct Job {
    pub phase: Phase,
    /// The settings file.
    pub target: String,
    /// The temporary file beside it.
    pub temp: String,
    /// The text to write, or why none could be made.
    pub data: Result<String, String>,
}

/// The file operation that a job asks for next.
#[derive(Clone, Debug)]
pub enum Action {
    /// Find out whether a file exists at `path`.
    CheckExists { path: String },
    /// Write `data` to the file at `path`, creating or truncating it.
    Write { path: String, data: String },
    /// Rename the file at `from` onto `to`, replacing it.
    Rename { from: String, to: String },
    /// Nothing: the job is done.
    Finish,
}

/// What came of the operation a job asked for.
#[derive(Debug)]
pub enum Event {
    /// The answer to `CheckExists`.
    Exists(bool),
    /// The outcome of `Write` or `Rename`, with the cause of a failure.
    Completed(Result<(), String>),
}

pub enum PhaseModel {
    Checking,
    Writing,
    Renaming,
    Done(Result<bool, ErrorModel>),
}

pub struct JobModel {
    pub phase: PhaseModel,
    pub target: Seq<char>,
    pub temp: Seq<char>,
    pub data: Option<Seq<char>>,
}

pub enum Op {
    Check(Seq<char>),
    Write(Seq<char>, Seq<char>),
    Rename(Seq<char>, Seq<char>),
    Finish,
}

pub enum EventModel {
    Exists(bool),
    Succeeded,
    Failed(Seq<char>),
}

impl View for Phase {
    type V = PhaseModel;

    open spec fn view(&self) -> PhaseModel {
        match self {
            Phase::Checking => PhaseModel::Checking,
            Phase::Writing => PhaseModel::Writing,
            Phase::Renaming => PhaseModel::Renaming,
            Phase::Done(Ok(b)) => PhaseModel::Done(Ok(*b)),
            Phase::Done(Err(e)) => PhaseModel::Done(Err(e@)),
        }
    }
}

impl View for Job {
    type V = JobModel;

    open spec fn view(&self) -> JobModel {
        JobModel {
            phase: self.phase@,
            target: self.target@,
            temp: self.temp@,
            data: match self.data {
                Ok(d) => Some(d@),
                Err(_) => None,
            },
        }
    }
}

impl View for Action {
    type V = Op;

    open spec fn view(&self) -> Op {
        match self {
            Action::CheckExists { path } => Op::Check(path@),
            Action::Write { path, data } => Op::Write(path@, data@),
            Action::Rename { from, to } => Op::Rename(from@, to@),
            Action::Finish => Op::Finish,
        }
    }
}

impl View for Event {
    type V = EventModel;

    open spec fn view(&self) -> EventModel {
        match self {
            Event::Exists(b) => EventModel::Exists(*b),
            Event::Completed(Ok(())) => EventModel::Succeeded,
            Event::Completed(Err(c)) => EventModel::Failed(c@),
        }
    }
}

/// A job is well formed: its temporary file is named after its target, and it
/// has text to write whenever it is about to write or rename.
pub open spec fn job_wf(j: JobModel) -> bool {
    &&& j.temp == temp_path(j.target)
    &&& (j.phase is Writing || j.phase is Renaming) ==> j.data is Some
}

/// The operation that a job asks for.
pub open spec fn op_of(j: JobModel) -> Op {
    match j.phase {
        PhaseModel::Checking => Op::Check(j.target),
        PhaseModel::Writing => Op::Write(j.temp, j.data->Some_0),
        PhaseModel::Renaming => Op::Rename(j.temp, j.target),
        PhaseModel::Done(_) => Op::Finish,
    }
}

/// The event fits the operation that the job asked for.
pub open spec fn expects(j: JobModel, e: EventModel) -> bool {
    match j.phase {
        PhaseModel::Checking => e is Exists,
        PhaseModel::Writing | PhaseModel::Renaming => !(e is Exists),
        PhaseModel::Done(_) => false,
    }
}

/// The job after an event. A missing target is created only from text that was
/// made; a failed write names the temporary file, a failed rename both files.
pub open spec fn next(j: JobModel, e: EventModel) -> JobModel {
    let phase = match (j.phase, e) {
        (PhaseModel::Checking, EventModel::Exists(true)) => PhaseModel::Done(Ok(false)),
        (PhaseModel::Checking, _) => if j.data is Some {
            PhaseModel::Writing
        } else {
            PhaseModel::Done(Err(ErrorModel::Serialization))
        },
        (PhaseModel::Writing, EventModel::Failed(c)) => PhaseModel::Done(
            Err(ErrorModel::Io { path: j.temp, to: None, cause: c }),
        ),
        (PhaseModel::Writing, _) => PhaseModel::Renaming,
        (PhaseModel::Renaming, EventModel::Failed(c)) => PhaseModel::Done(
            Err(ErrorModel::Io { path: j.temp, to: Some(j.target), cause: c }),
        ),
        (PhaseModel::Renaming, _) => PhaseModel::Done(Ok(true)),
        (p, _) => p,
    };
    JobModel { phase, ..j }
}

/// What loading a text gives: the settings it describes, or why it describes none.
pub open spec fn parse_model(text: Seq<char>) -> Result<ConfigModel, ErrorModel> {
    match json_parse(text) {
        None => Err(ErrorModel::Malformed(Fault::Syntax)),
        Some(v) => match decode(v) {
            Ok(c) => Ok(c),
            Err(f) => Err(ErrorModel::Malformed(f)),
        },
    }
}

/// What loading gives, from what reading the file at `path` gave.
pub open spec fn load_model(path: Seq<char>, read: Result<Seq<char>, Seq<char>>) -> Result<
    ConfigModel,
    ErrorModel,
> {
    match read {
        Ok(text) => parse_model(text),
        Err(cause) => Err(ErrorModel::Io { path, to: None, cause }),
    }
}

pub open spec fn result_view(r: Result<Config, ConfigError>) -> Result<ConfigModel, ErrorModel> {
    match r {
        Ok(c) => Ok(c@),
        Err(e) => Err(e@),
    }
}

pub open spec fn read_view(read: Result<String, String>) -> Result<Seq<char>, Seq<char>> {
    match read {
        Ok(t) => Ok(t@),
        Err(c) => Err(c@),
    }
}

impl Config {
    /// The settings that a text holds. Defaults are never substituted: a text that
    /// is not JSON, or not a settings document, is a `MalformedConfig` error. The
    /// text that `save` writes for some settings reads back as exactly those.
    pub fn parse(text: &str) -> (r: Result<Config, ConfigError>)
        ensures
            result_view(r) == parse_model(text@),
            forall|c: ConfigModel| #[trigger] stores(text@, c) ==> result_view(r) is Ok && result_view(
                r,
            )->Ok_0 == c,
            r matches Err(ConfigError::MalformedConfig { fault, detail }) ==> fault == Fault::Syntax
                || detail@ == fault_text(fault),
    {
        let ghost t = text@;
        let r = parse(text);
        proof {
            assert forall|c: ConfigModel| #[trigger] stores(t, c) implies json_parse(t) == Some(
                choose|v: serde_json::Value| encodes(v, c) && json_pretty(v) == t,
            ) && decode(choose|v: serde_json::Value| encodes(v, c) && json_pretty(v) == t) == Ok::<
                ConfigModel,
                Fault,
            >(c) by {
                let v = choose|v: serde_json::Value| encodes(v, c) && json_pretty(v) == t;
                lemma_round_trip(v, c);
            }
        }
        match r {
            Err(e) => Err(ConfigError::MalformedConfig { fault: Fault::Syntax, detail: describe(&e) }),
            Ok(v) => match Config::from_document(&v) {
                Ok(c) => Ok(c),
                Err(fault) => Err(ConfigError::MalformedConfig { fault, detail: fault_message(fault) }),
            },
        }
    }

    /// The settings stored at `path`, given what reading that file gave: its text,
    /// or the cause of the failure. A file that could not be read is an `IoError`
    /// naming the path, never the default settings.
    pub fn load(path: &str, read: Result<String, String>) -> (r: Result<Config, ConfigError>)
        ensures
            result_view(r) == load_model(path@, read_view(read)),
            forall|c: ConfigModel|
                read is Ok && #[trigger] stores(read->Ok_0@, c) ==> result_view(r) is Ok
                    && result_view(r)->Ok_0 == c,
            r matches Err(ConfigError::MalformedConfig { fault, detail }) ==> fault == Fault::Syntax
                || detail@ == fault_text(fault),
    {
        match read {
            Ok(text) => Config::parse(text.as_str()),
            Err(cause) => Err(ConfigError::IoError { path: String::from_str(path), to: None, cause }),
        }
    }

    /// Starts saving these settings to `path`: their text goes to the temporary
    /// file, which is then renamed onto `path`.
    pub fn save(&self, path: &str) -> (r: Job)
        ensures
            r@.target == path@,
            job_wf(r@),
            r@.phase is Writing,
            r@.data matches Some(d) && stores(d, self@),
    {
        let doc = self.to_document();
        let target = String::from_str(path);
        let temp = target.clone().concat(TEMP_SUFFIX);
        match pretty(&doc) {
            Ok(text) => {
                assert(encodes(doc, self@) && json_pretty(doc) == text@);
                Job { phase: Phase::Writing, target, temp, data: Ok(text) }
            },
            Err(e) => {
                let detail = describe(&e);
                Job {
                    phase: Phase::Done(Err(ConfigError::SerializationError { detail: detail.clone() })),
                    target,
                    temp,
                    data: Err(detail),
                }
            },
        }
    }

    /// Starts making sure that a settings file exists at `path`: if none does, the
    /// default settings are saved there; an existing file is left alone.
    pub fn init(path: &str) -> (r: Job)
        ensures
            r@.target == path@,
            r@.phase is Checking,
            job_wf(r@),
            r@.data matches Some(d) && stores(d, default_model()),
    {
        let mut job = Config::default().save(path);
        job.phase = Phase::Checking;
        job
    }
}

impl Job {
    /// The file operation to perform next.
    pub fn action(&self) -> (r: Action)
        requires
            job_wf(self@),
        ensures
            r@ == op_of(self@),
    {
        match self.phase {
            Phase::Checking => Action::CheckExists { path: self.target.clone() },
            Phase::Writing => match &self.data {
                Ok(d) => Action::Write { path: self.temp.clone(), data: d.clone() },
                Err(_) => Action::Finish,
            },
            Phase::Renaming => Action::Rename { from: self.temp.clone(), to: self.target.clone() },
            Phase::Done(_) => Action::Finish,
        }
    }

    /// Takes in the outcome of the operation that `action` asked for.
    pub fn step(&mut self, event: Event)
        requires
            job_wf(old(self)@),
            expects(old(self)@, event@),
        ensures
            final(self)@ == next(old(self)@, event@),
            job_wf(final(self)@),
    {
        let phase = match self.phase {
            Phase::Checking => match event {
                Event::Exists(true) => Phase::Done(Ok(false)),
                _ => match &self.data {
                    Ok(_) => Phase::Writing,
                    Err(d) => Phase::Done(Err(ConfigError::SerializationError { detail: d.clone() })),
                },
            },
            Phase::Writing => match event {
                Event::Completed(Err(cause)) => Phase::Done(
                    Err(ConfigError::IoError { path: self.temp.clone(), to: None, cause }),
                ),
                _ => Phase::Renaming,
            },
            Phase::Renaming => match event {
                Event::Completed(Err(cause)) => Phase::Done(
                    Err(
                        ConfigError::IoError {
                            path: self.temp.clone(),
                            to: Some(self.target.clone()),
                            cause,
                        },
                    ),
                ),
                _ => Phase::Done(Ok(true)),
            },
            Phase::Done(_) => {
                return ;
            },
        };
        self.phase = phase;
    }

    pub fn is_done(&self) -> (r: bool)
        ensures
            r == (self@.phase is Done),
    {
        match self.phase {
            Phase::Done(_) => true,
            _ => false,
        }
    }

    /// What the finished job came to: `Ok(true)` when it wrote the settings file,
    /// `Ok(false)` when it left an existing one alone.
    pub fn finish(self) -> (r: Result<bool, ConfigError>)
        requires
            self@.phase is Done,
        ensures
            self@.phase == PhaseModel::Done(match r {
                Ok(b) => Ok(b),
                Err(e) => Err(e@),
            }),
    {
        match self.phase {
            Phase::Done(r) => r,
            _ => Ok(false),
        }
    }
}

} // verus!
