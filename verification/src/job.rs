//! One run, from the accepted request to its outcome. The run itself (the
//! manifest file, the encoder process and its two output streams) is the
//! caller's work; what to write into the status log and what to do next is
//! decided here, one event at a time.

use crate::command::{build_args, encoder_args};
use crate::manifest::{build_manifest, manifest, manifest_ends_its_lines, BuildError};
use crate::outcome::{
    exit_outcome, launch_failure, setup_failure, status_line, Outcome, RunOutcome,
};
use crate::status::StatusLog;
use vstd::prelude::*;
use vstd::string::*;

verus! {

/// The mathematical value of a [`JobRequest`].
pub struct Job {
    pub files: Seq<Seq<char>>,
    pub title: Seq<char>,
    pub author: Seq<char>,
    pub output_path: Seq<char>,
}

/// What one run works on: the input files in playing order, the title and
/// the author (blank where none is wanted) and the output path. A request
/// holds at least one input file and does not change once it is made.
pub struct JobRequest {
    files: Vec<String>,
    title: String,
    author: String,
    output_path: String,
}

impl View for JobRequest {
    type V = Job;

    closed spec fn view(&self) -> Job {
        Job {
            files: self.files.deep_view(),
            title: self.title@,
            author: self.author@,
            output_path: self.output_path@,
        }
    }
}

/// What happened in a run since the last decision.
#[derive(Debug, PartialEq, Eq)]
pub enum RunEvent {
    /// The manifest stands in a file that will stay; its path is given.
    ManifestWritten(String),
    /// The manifest file could not be made ready.
    ManifestFailed(BuildError),
    /// The encoder could not be started; the system's description is given.
    LaunchFailed(String),
    /// The encoder wrote a line to one of its two streams. The line is given
    /// without its line feed.
    Output(String),
    /// The encoder has ended, with this exit code if it had one.
    Exited(Option<i32>),
}

/// The mathematical value of a [`RunAction`].
pub enum Action {
    Launch(Seq<Seq<char>>),
    Continue,
    Finish(Outcome),
}

/// What the caller does next.
#[derive(Debug, PartialEq, Eq)]
pub enum RunAction {
    /// Start the encoder, [`ENCODER`](crate::command::ENCODER), with these
    /// arguments and read both of its output streams to their ends, each on
    /// its own, reporting each line as [`RunEvent::Output`]; when the
    /// encoder has ended, report [`RunEvent::Exited`]. If it cannot be
    /// started, report [`RunEvent::LaunchFailed`] and read nothing.
    Launch(Vec<String>),
    /// Go on with what is under way.
    Continue,
    /// The run is over, with this outcome. Lines that the encoder wrote
    /// before it ended may still be reported.
    Finish(RunOutcome),
}

impl View for RunAction {
    type V = Action;

    open spec fn view(&self) -> Action {
        match *self {
            RunAction::Launch(args) => Action::Launch(args.deep_view()),
            RunAction::Continue => Action::Continue,
            RunAction::Finish(outcome) => Action::Finish(outcome@),
        }
    }
}

/// The text that shows the reader which files the encoder was given: a
/// heading, then the manifest.
pub open spec fn input_listing(files: Seq<Seq<char>>) -> Seq<char> {
    "🔍 FFmpeg input list:\n"@ + manifest(files)
}

/// What an event adds to the status log: whole lines, each with its line
/// feed.
pub open spec fn report(job: Job, event: RunEvent) -> Seq<char> {
    match event {
        RunEvent::ManifestWritten(_) => input_listing(job.files),
        RunEvent::ManifestFailed(error) => status_line(setup_failure(error)).push('\n'),
        RunEvent::LaunchFailed(detail) => status_line(launch_failure(detail@)).push('\n'),
        RunEvent::Output(line) => line@.push('\n'),
        RunEvent::Exited(code) => status_line(exit_outcome(code)).push('\n'),
    }
}

/// What follows an event: the encoder is started once the manifest is
/// written, output leaves the run as it is, and a failure to prepare or to
/// start, like the encoder's end, finishes the run.
pub open spec fn next_action(job: Job, event: RunEvent) -> Action {
    match event {
        RunEvent::ManifestWritten(path) => Action::Launch(
            encoder_args(path@, job.title, job.author, job.output_path),
        ),
        RunEvent::ManifestFailed(error) => Action::Finish(setup_failure(error)),
        RunEvent::LaunchFailed(detail) => Action::Finish(launch_failure(detail@)),
        RunEvent::Output(_) => Action::Continue,
        RunEvent::Exited(code) => Action::Finish(exit_outcome(code)),
    }
}

/// Whatever the event, its report is not empty and ends with a line feed:
/// the log grows by whole lines only, so that no reader meets half a line.
pub proof fn report_is_whole_lines(job: Job, event: RunEvent)
    ensures
        report(job, event).len() > 0,
        report(job, event).last() == '\n',
{
    match event {
        RunEvent::ManifestWritten(_) => {
            reveal_strlit("🔍 FFmpeg input list:\n");
            manifest_ends_its_lines(job.files);
        },
        _ => {},
    }
}

impl JobRequest {
    #[verifier::type_invariant]
    spec fn has_input(self) -> bool {
        self.files.len() >= 1
    }

    /// Makes a request, if there is anything to work on: a request is made
    /// exactly when `files` is not empty.
    pub fn new(files: Vec<String>, title: String, author: String, output_path: String) -> (job:
        Option<JobRequest>)
        ensures
            job is None <==> files.len() == 0,
            job matches Some(j) ==> j@ == (Job {
                files: files.deep_view(),
                title: title@,
                author: author@,
                output_path: output_path@,
            }),
    {
        if files.len() == 0 {
            None
        } else {
            Some(JobRequest { files, title, author, output_path })
        }
    }

    /// The manifest of the request's input files.
    pub fn manifest(&self) -> (text: String)
        ensures
            text@ == manifest(self@.files),
    {
        build_manifest(&self.files)
    }

    /// The encoder's arguments for this request, reading the manifest at
    /// `manifest_path`.
    pub fn args(&self, manifest_path: &str) -> (args: Vec<String>)
        ensures
            args.deep_view() == encoder_args(
                manifest_path@,
                self@.title,
                self@.author,
                self@.output_path,
            ),
    {
        build_args(
            manifest_path,
            self.title.as_str(),
            self.author.as_str(),
            self.output_path.as_str(),
        )
    }

    /// Takes one event of this request's run: writes its report at the end of
    /// the log, in one step, asks for a redraw, and says what to do next.
    /// What the log held before stays in front, unchanged.
    pub fn advance(&self, log: &mut StatusLog, event: RunEvent) -> (action: RunAction)
        ensures
            final(log)@ == old(log)@ + report(self@, event),
            final(log).redraw_requested(),
            action@ == next_action(self@, event),
    {
        match event {
            RunEvent::ManifestWritten(path) => {
                let mut listing = String::from_str("🔍 FFmpeg input list:\n");
                listing.append(self.manifest().as_str());
                log.append(listing.as_str());
                RunAction::Launch(self.args(path.as_str()))
            },
            RunEvent::ManifestFailed(error) => {
                let outcome = RunOutcome::from_build_error(&error);
                log.append_line(outcome.status_line().as_str());
                RunAction::Finish(outcome)
            },
            RunEvent::LaunchFailed(detail) => {
                let outcome = RunOutcome::from_launch_error(detail.as_str());
                log.append_line(outcome.status_line().as_str());
                RunAction::Finish(outcome)
            },
            RunEvent::Output(line) => {
                log.append_line(line.as_str());
                RunAction::Continue
            },
            RunEvent::Exited(code) => {
                let outcome = RunOutcome::from_exit(code);
                log.append_line(outcome.status_line().as_str());
                RunAction::Finish(outcome)
            },
        }
    }

    /// The input files, in playing order: at least one.
    pub fn files(&self) -> (files: &Vec<String>)
        ensures
            files.deep_view() == self@.files,
            files.len() >= 1,
    {
        proof {
            use_type_invariant(self);
        }
        &self.files
    }

    pub fn title(&self) -> (title: &str)
        ensures
            title@ == self@.title,
    {
        self.title.as_str()
    }

    pub fn author(&self) -> (author: &str)
        ensures
            author@ == self@.author,
    {
        self.author.as_str()
    }

    pub fn output_path(&self) -> (path: &str)
        ensures
            path@ == self@.output_path,
    {
        self.output_path.as_str()
    }
}

} // verus!
