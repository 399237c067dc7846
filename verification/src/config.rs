//! What the runner is started with, and the errors that end it.

use vstd::prelude::*;
use vstd::string::StringExecFns;
use crate::text::texts;

verus! {

/// An error after which the runner cannot go on.
#[derive(Debug, PartialEq, Eq)]
pub enum FatalError {
    /// No path to watch was given.
    NoWatchPaths,
    /// The working directory could not be had.
    WorkingDirectoryUnavailable,
    /// A watch could not be registered; the text says why.
    WatchFailed(String),
    /// The build command could not be started; the text says why.
    BuildNotStarted(String),
}

/// A fatal error, with its texts as values.
pub enum FatalView {
    NoWatchPaths,
    WorkingDirectoryUnavailable,
    WatchFailed(Seq<char>),
    BuildNotStarted(Seq<char>),
}

impl View for FatalError {
    type V = FatalView;

    open spec fn view(&self) -> FatalView {
        match self {
            FatalError::NoWatchPaths => FatalView::NoWatchPaths,
            FatalError::WorkingDirectoryUnavailable => FatalView::WorkingDirectoryUnavailable,
            FatalError::WatchFailed(reason) => FatalView::WatchFailed(reason@),
            FatalError::BuildNotStarted(reason) => FatalView::BuildNotStarted(reason@),
        }
    }
}

impl FatalView {
    /// The one line that is written to the error stream for this error.
    pub open spec fn message(self) -> Seq<char> {
        match self {
            FatalView::NoWatchPaths => "Please provide a path to watch"@,
            FatalView::WorkingDirectoryUnavailable => "Failed to get current directory"@,
            FatalView::WatchFailed(reason) => "Error: "@ + reason,
            FatalView::BuildNotStarted(reason) => "Failed to run elm make: "@ + reason,
        }
    }
}

impl FatalError {
    /// The one line that is written to the error stream for this error.
    pub fn message(&self) -> (line: String)
        ensures
            line@ == self@.message(),
    {
        match self {
            FatalError::NoWatchPaths => String::from_str("Please provide a path to watch"),
            FatalError::WorkingDirectoryUnavailable => String::from_str(
                "Failed to get current directory",
            ),
            FatalError::WatchFailed(reason) => String::from_str("Error: ").concat(reason.as_str()),
            FatalError::BuildNotStarted(reason) => String::from_str(
                "Failed to run elm make: ",
            ).concat(reason.as_str()),
        }
    }
}

/// The configuration, with its texts as values.
pub struct ConfigView {
    pub main: Seq<char>,
    pub paths: Seq<Seq<char>>,
    pub single: bool,
    pub cwd: Seq<char>,
}

/// What the runner is started with: the main target handed to the build
/// command, the paths to watch (at least one), whether only the first
/// diagnostic is shown, and the working directory against which changed paths
/// are displayed. It is made once and never changes.
#[derive(Debug)]
pub struct Config {
    main: String,
    paths: Vec<String>,
    single: bool,
    cwd: String,
}

impl View for Config {
    type V = ConfigView;

    closed spec fn view(&self) -> ConfigView {
        ConfigView {
            main: self.main@,
            paths: texts(self.paths@),
            single: self.single,
            cwd: self.cwd@,
        }
    }
}

impl Config {
    #[verifier::type_invariant]
    spec fn watches_a_path(self) -> bool {
        self.paths@.len() > 0
    }

    /// Checks what the runner was started with. Without a path to watch there
    /// is no configuration, and none without a working directory.
    pub fn new(main: String, paths: Vec<String>, single: bool, cwd: Option<String>) -> (checked:
        Result<Config, FatalError>)
        ensures
            paths@.len() == 0 ==> checked == Err::<Config, FatalError>(FatalError::NoWatchPaths),
            paths@.len() > 0 && cwd is None ==> checked == Err::<Config, FatalError>(
                FatalError::WorkingDirectoryUnavailable,
            ),
            paths@.len() > 0 && cwd is Some ==> checked is Ok,
            checked matches Ok(config) ==> cwd matches Some(dir) && config@ == (ConfigView {
                main: main@,
                paths: texts(paths@),
                single,
                cwd: dir@,
            }),
    {
        if paths.len() == 0 {
            return Err(FatalError::NoWatchPaths);
        }
        match cwd {
            None => Err(FatalError::WorkingDirectoryUnavailable),
            Some(dir) => Ok(Config { main, paths, single, cwd: dir }),
        }
    }

    /// The main target.
    pub fn main(&self) -> (main: &String)
        ensures
            main@ == self@.main,
    {
        &self.main
    }

    /// The watched paths: at least one.
    pub fn paths(&self) -> (paths: &Vec<String>)
        ensures
            texts(paths@) == self@.paths,
            paths@.len() > 0,
    {
        proof {
            use_type_invariant(self);
        }
        &self.paths
    }

    /// Whether only the first diagnostic block is shown.
    pub fn single(&self) -> (single: bool)
        ensures
            single == self@.single,
    {
        self.single
    }

    /// The working directory.
    pub fn cwd(&self) -> (cwd: &String)
        ensures
            cwd@ == self@.cwd,
    {
        &self.cwd
    }
}

} // verus!
