//! Running `micromamba`: from the one in `$PATH` if there is one, else from
//! the cache, downloading it first if need be.
//!
//! Nothing here touches the system. The host launches processes, looks at
//! files and talks to the network; this module decides what is to be done
//! next and what the outcome of it all is.

use crate::csmrc::{Config, ConfigView};
use crate::download::{
    download_advance, download_micromamba, download_next, download_start, CacheEvent,
    CacheEventView, CacheRequest, CacheRequestView, DownloadError, DownloadErrorView,
    DownloadPhase, DownloadPhaseView, DownloadStep, DownloadStepView,
};
use crate::platform::TargetOs;
use vstd::prelude::*;
use vstd::string::StringExecFns;

verus! {

/// Exit code of a run that did what it was asked to do.
pub const EXIT_SUCCESS: u8 = 0;

/// Exit code of a run that could not launch the runtime, or whose child
/// left no exit code that a process can pass on.
pub const EXIT_FAILURE: u8 = 1;

/// The name under which the runtime is looked up in `$PATH`.
pub const RUNTIME: &'static str = "micromamba";

/// The environment variable that tells the runtime where its root is.
pub const ROOT_PREFIX_VAR: &'static str = "MAMBA_ROOT_PREFIX";

/// How a child process ended, as the system reports it.
#[derive(Clone, Copy, Debug, PartialEq, Eq, Structural)]
pub struct ExitStatus {
    /// The child's exit code; `None` where a signal ended it.
    pub code: Option<i32>,
    /// The signal that ended the child; `None` where it exited by itself,
    /// and on systems without signals.
    pub signal: Option<i32>,
}

/// The result from trying to shell out to `micromamba`.
#[derive(Clone, Copy, Debug, PartialEq, Eq, Structural)]
pub enum MicromambaResult {
    /// No-op mode: nothing was launched.
    Noop,
    /// The runtime ran, and ended with this status.
    Completed(ExitStatus),
    /// There is no runtime at the path that was tried.
    NotFound,
    /// There is a runtime, but it could not be run.
    CouldNotRun,
}

impl MicromambaResult {
    /// The exit code that reports this result: success for a run in no-op
    /// mode, the child's own code where it has one that fits, and failure
    /// otherwise.
    pub open spec fn spec_exit_code(self) -> u8 {
        match self {
            MicromambaResult::Noop => EXIT_SUCCESS,
            MicromambaResult::Completed(status) => match status.code {
                Some(code) if 0 <= code <= 255 => code as u8,
                _ => EXIT_FAILURE,
            },
            _ => EXIT_FAILURE,
        }
    }

    /// The code with which the program should exit.
    pub fn exit_code(&self) -> (code: u8)
        ensures
            code == self.spec_exit_code(),
    {
        match self {
            MicromambaResult::Noop => EXIT_SUCCESS,
            MicromambaResult::Completed(status) => match status.code {
                Some(code) => if 0 <= code && code <= 255 {
                    code as u8
                } else {
                    EXIT_FAILURE
                },
                None => EXIT_FAILURE,
            },
            _ => EXIT_FAILURE,
        }
    }
}

/// A process that is ready to be launched.
#[derive(Clone, Debug, PartialEq, Eq)]
pub struct ProcessDescriptor {
    /// The executable: a bare name to be looked up in `$PATH`, or a path.
    pub program: String,
    /// The arguments, in order.
    pub args: Vec<String>,
    /// Environment variables that the child gets on top of the parent's,
    /// as pairs of name and value.
    pub envs: Vec<(String, String)>,
}

/// A [`ProcessDescriptor`] with its strings as sequences of characters.
pub struct DescriptorView {
    pub program: Seq<char>,
    pub args: Seq<Seq<char>>,
    pub envs: Seq<(Seq<char>, Seq<char>)>,
}

impl DescriptorView {
    /// No variable is set twice.
    pub open spec fn well_formed(self) -> bool {
        forall|i: int, j: int|
            0 <= i < j < self.envs.len() ==> (#[trigger] self.envs[i]).0 != (
            #[trigger] self.envs[j]).0
    }
}

/// The characters of each string of a sequence.
pub open spec fn texts(strings: Seq<String>) -> Seq<Seq<char>> {
    strings.map_values(|s: String| s@)
}

/// The characters of each string slice of a sequence.
pub open spec fn slice_texts(strings: Seq<&str>) -> Seq<Seq<char>> {
    strings.map_values(|s: &str| s@)
}

/// The characters of each pair of strings of a sequence.
pub open spec fn pair_texts(pairs: Seq<(String, String)>) -> Seq<(Seq<char>, Seq<char>)> {
    pairs.map_values(|p: (String, String)| (p.0@, p.1@))
}

impl View for ProcessDescriptor {
    type V = DescriptorView;

    open spec fn view(&self) -> DescriptorView {
        DescriptorView {
            program: self.program@,
            args: texts(self.args@),
            envs: pair_texts(self.envs@),
        }
    }
}

/// The descriptor that launches `path` with `args` under `config`: the path
/// and the arguments as they are, and the runtime's root set exactly where
/// the configuration overrides it.
pub open spec fn descriptor_for(path: Seq<char>, config: ConfigView, args: Seq<Seq<char>>)
    -> DescriptorView {
    DescriptorView {
        program: path,
        args: args,
        envs: match config.mamba_root_prefix {
            Some(prefix) => seq![(ROOT_PREFIX_VAR@, prefix)],
            None => seq![],
        },
    }
}

/// How loudly a notice is reported.
#[derive(Clone, Copy, Debug, PartialEq, Eq, Structural)]
pub enum Level {
    /// Shown only on request.
    Debug,
    /// Shown by default.
    Info,
    /// Something went wrong.
    Error,
}

/// A line for the log.
#[derive(Clone, Debug, PartialEq, Eq)]
pub enum Notice {
    /// No-op mode: this is what would have been launched.
    WouldRun(ProcessDescriptor),
    /// This is about to be launched.
    AboutToRun(ProcessDescriptor),
    /// The child ended with this status.
    Exited(ExitStatus),
    /// Nothing could be launched under that name or path; the reason.
    NotAtPath(String),
    /// A binary was found but could not be launched; the reason.
    SpawnFailed(String),
    /// A binary was launched but could not be waited for; the reason.
    WaitFailed(String),
    /// The runtime in `$PATH` ran.
    RanFromPath,
    /// The runtime in `$PATH` is broken; nothing else is tried.
    PathBinaryBroken,
    /// There is no runtime in `$PATH`; the cache is tried next.
    FallingBackToCache,
    /// The runtime is being downloaded from this address.
    Downloading(String),
    /// The cache could not be made to hold the runtime.
    CouldNotDownload(DownloadError),
    /// The runtime in the cache, at this path, ran.
    RanCached(String),
    /// The runtime in the cache, at this path, could not be run.
    CachedCouldNotRun(String),
    /// Every attempt failed; the user has to install the runtime.
    NoSuitableBinary,
    /// The host answered a question that was not asked.
    UnexpectedReply,
}

/// A [`Notice`] with its strings as sequences of characters.
pub enum NoticeView {
    WouldRun(DescriptorView),
    AboutToRun(DescriptorView),
    Exited(ExitStatus),
    NotAtPath(Seq<char>),
    SpawnFailed(Seq<char>),
    WaitFailed(Seq<char>),
    RanFromPath,
    PathBinaryBroken,
    FallingBackToCache,
    Downloading(Seq<char>),
    CouldNotDownload(DownloadErrorView),
    RanCached(Seq<char>),
    CachedCouldNotRun(Seq<char>),
    NoSuitableBinary,
    UnexpectedReply,
}

impl View for Notice {
    type V = NoticeView;

    open spec fn view(&self) -> NoticeView {
        match self {
            Notice::WouldRun(cmd) => NoticeView::WouldRun(cmd@),
            Notice::AboutToRun(cmd) => NoticeView::AboutToRun(cmd@),
            Notice::Exited(status) => NoticeView::Exited(*status),
            Notice::NotAtPath(reason) => NoticeView::NotAtPath(reason@),
            Notice::SpawnFailed(reason) => NoticeView::SpawnFailed(reason@),
            Notice::WaitFailed(reason) => NoticeView::WaitFailed(reason@),
            Notice::RanFromPath => NoticeView::RanFromPath,
            Notice::PathBinaryBroken => NoticeView::PathBinaryBroken,
            Notice::FallingBackToCache => NoticeView::FallingBackToCache,
            Notice::Downloading(url) => NoticeView::Downloading(url@),
            Notice::CouldNotDownload(e) => NoticeView::CouldNotDownload(e@),
            Notice::RanCached(path) => NoticeView::RanCached(path@),
            Notice::CachedCouldNotRun(path) => NoticeView::CachedCouldNotRun(path@),
            Notice::NoSuitableBinary => NoticeView::NoSuitableBinary,
            Notice::UnexpectedReply => NoticeView::UnexpectedReply,
        }
    }
}

impl NoticeView {
    /// Errors are reported as errors. What the user has to know is shown
    /// by default: what no-op mode left undone, and that something is
    /// being downloaded. The rest is for debugging.
    pub open spec fn level(self) -> Level {
        match self {
            NoticeView::WouldRun(_) => Level::Info,
            NoticeView::Downloading(_) => Level::Info,
            NoticeView::SpawnFailed(_) => Level::Error,
            NoticeView::WaitFailed(_) => Level::Error,
            NoticeView::CouldNotDownload(_) => Level::Error,
            NoticeView::NoSuitableBinary => Level::Error,
            NoticeView::UnexpectedReply => Level::Error,
            _ => Level::Debug,
        }
    }

    /// The fixed part of the line.
    pub open spec fn summary(self) -> Seq<char> {
        match self {
            NoticeView::WouldRun(_) => "Would run"@,
            NoticeView::AboutToRun(_) => "About to run"@,
            NoticeView::Exited(_) => "micromamba exited with status"@,
            NoticeView::NotAtPath(_) => "Could not run micromamba at specified path"@,
            NoticeView::SpawnFailed(_) => "We found a micromamba binary, but failed to run it"@,
            NoticeView::WaitFailed(_) =>
                "We found a micromamba binary, but failed to wait for it to run"@,
            NoticeView::RanFromPath => "Ran micromamba found in $PATH"@,
            NoticeView::PathBinaryBroken => "micromamba found in $PATH could not be run, aborting"@,
            NoticeView::FallingBackToCache =>
                "micromamba not found in $PATH, falling back to cache"@,
            NoticeView::Downloading(_) => "micromamba was not found on path; downloading it now"@,
            NoticeView::CouldNotDownload(_) => "Could not download micromamba"@,
            NoticeView::RanCached(_) => "Ran downloaded/cached micromamba"@,
            NoticeView::CachedCouldNotRun(_) => "Downloaded micromamba could not be run"@,
            NoticeView::NoSuitableBinary =>
                "Could not find a suitable micromamba binary to run. Please install micromamba manually, ensure it is executable, and place it somewhere in $PATH"@,
            NoticeView::UnexpectedReply => "The reply does not answer the request"@,
        }
    }
}

impl Notice {
    /// The severity at which the line is logged.
    pub fn level(&self) -> (level: Level)
        ensures
            level == self@.level(),
    {
        match self {
            Notice::WouldRun(_) => Level::Info,
            Notice::Downloading(_) => Level::Info,
            Notice::SpawnFailed(_) => Level::Error,
            Notice::WaitFailed(_) => Level::Error,
            Notice::CouldNotDownload(_) => Level::Error,
            Notice::NoSuitableBinary => Level::Error,
            Notice::UnexpectedReply => Level::Error,
            _ => Level::Debug,
        }
    }

    /// The text that names the event; what the notice carries comes after
    /// it in the log.
    pub fn summary(&self) -> (text: &'static str)
        ensures
            text@ == self@.summary(),
    {
        match self {
            Notice::WouldRun(_) => "Would run",
            Notice::AboutToRun(_) => "About to run",
            Notice::Exited(_) => "micromamba exited with status",
            Notice::NotAtPath(_) => "Could not run micromamba at specified path",
            Notice::SpawnFailed(_) => "We found a micromamba binary, but failed to run it",
            Notice::WaitFailed(_) =>
                "We found a micromamba binary, but failed to wait for it to run",
            Notice::RanFromPath => "Ran micromamba found in $PATH",
            Notice::PathBinaryBroken => "micromamba found in $PATH could not be run, aborting",
            Notice::FallingBackToCache => "micromamba not found in $PATH, falling back to cache",
            Notice::Downloading(_) => "micromamba was not found on path; downloading it now",
            Notice::CouldNotDownload(_) => "Could not download micromamba",
            Notice::RanCached(_) => "Ran downloaded/cached micromamba",
            Notice::CachedCouldNotRun(_) => "Downloaded micromamba could not be run",
            Notice::NoSuitableBinary =>
                "Could not find a suitable micromamba binary to run. Please install micromamba manually, ensure it is executable, and place it somewhere in $PATH",
            Notice::UnexpectedReply => "The reply does not answer the request",
        }
    }
}

/// Each notice of a sequence, with its strings as sequences of characters.
pub open spec fn notice_views(notices: Seq<Notice>) -> Seq<NoticeView> {
    notices.map_values(|n: Notice| n@)
}

/// A log without lines.
pub fn blank_log() -> (log: Vec<Notice>)
    ensures
        notice_views(log@) == Seq::<NoticeView>::empty(),
{
    let log: Vec<Notice> = Vec::new();
    assert(notice_views(log@) =~= Seq::<NoticeView>::empty());
    log
}

/// Adds one line to a log.
pub fn note(log: &mut Vec<Notice>, notice: Notice)
    ensures
        notice_views(final(log)@) == notice_views(old(log)@).push(notice@),
{
    log.push(notice);
    assert(notice_views(log@) =~= notice_views(old(log)@).push(notice@));
}

/// The line that goes with a launch: what would be run in no-op mode, and
/// what is about to be run otherwise.
pub open spec fn launch_notice(noop_mode: bool, cmd: DescriptorView) -> NoticeView {
    if noop_mode {
        NoticeView::WouldRun(cmd)
    } else {
        NoticeView::AboutToRun(cmd)
    }
}

/// Owned copies of `args`, in the same order.
fn owned_args(args: &Vec<&str>) -> (copies: Vec<String>)
    ensures
        texts(copies@) == slice_texts(args@),
{
    let mut copies: Vec<String> = Vec::new();
    let mut i: usize = 0;
    while i < args.len()
        invariant
            i <= args.len(),
            copies.len() == i,
            forall|k: int| 0 <= k < i ==> (#[trigger] copies[k])@ == args[k]@,
        decreases args.len() - i,
    {
        copies.push(String::from_str(args[i]));
        i = i + 1;
    }
    assert(texts(copies@) =~= slice_texts(args@));
    copies
}

impl ProcessDescriptor {
    /// A copy that is known to hold what `self` holds.
    pub fn duplicate(&self) -> (copy: ProcessDescriptor)
        ensures
            copy@ == self@,
    {
        let mut args: Vec<String> = Vec::new();
        let mut i: usize = 0;
        while i < self.args.len()
            invariant
                i <= self.args.len(),
                args.len() == i,
                forall|k: int| 0 <= k < i ==> (#[trigger] args[k])@ == self.args[k]@,
            decreases self.args.len() - i,
        {
            args.push(self.args[i].clone());
            i = i + 1;
        }
        let mut envs: Vec<(String, String)> = Vec::new();
        let mut j: usize = 0;
        while j < self.envs.len()
            invariant
                j <= self.envs.len(),
                envs.len() == j,
                forall|k: int|
                    0 <= k < j ==> (#[trigger] envs[k]).0@ == self.envs[k].0@ && envs[k].1@
                        == self.envs[k].1@,
            decreases self.envs.len() - j,
        {
            envs.push((self.envs[j].0.clone(), self.envs[j].1.clone()));
            j = j + 1;
        }
        let copy = ProcessDescriptor { program: self.program.clone(), args, envs };
        assert(copy@.args =~= self@.args);
        assert(copy@.envs =~= self@.envs);
        copy
    }
}

/// Returns a descriptor ready to shell out to `micromamba` at `path`, with
/// the environment variables that the configuration asks for, and logs
/// the launch: as something that would be done in no-op mode, and as
/// something that is about to be done otherwise.
pub fn micromamba_at(path: &str, config: &Config, args: &Vec<&str>, log: &mut Vec<Notice>) -> (cmd:
    ProcessDescriptor)
    ensures
        cmd@ == descriptor_for(path@, config@, slice_texts(args@)),
        cmd@.well_formed(),
        notice_views(final(log)@) == notice_views(old(log)@).push(
            launch_notice(config.noop_mode, cmd@),
        ),
{
    let mut envs: Vec<(String, String)> = Vec::new();
    match &config.mamba_root_prefix {
        Some(prefix) => {
            envs.push((String::from_str(ROOT_PREFIX_VAR), prefix.clone()));
        },
        None => {},
    }
    let cmd = ProcessDescriptor { program: String::from_str(path), args: owned_args(args), envs };
    assert(cmd@.envs =~= descriptor_for(path@, config@, slice_texts(args@)).envs);
    if config.noop_mode {
        note(log, Notice::WouldRun(cmd.duplicate()));
    } else {
        note(log, Notice::AboutToRun(cmd.duplicate()));
    }
    cmd
}

/// How waiting for a launched child ended.
#[derive(Clone, Debug, PartialEq, Eq)]
pub enum WaitOutcome {
    /// The child ran to its end.
    Exited(ExitStatus),
    /// The system could not wait for the child; the reason.
    Failed(String),
}

/// How the attempt to launch a process ended.
#[derive(Clone, Debug, PartialEq, Eq)]
pub enum SpawnOutcome {
    /// The system found no executable under the name or path; the reason
    /// as the system gives it.
    NotFound(String),
    /// The executable is there and could not be started; the reason.
    Failed(String),
    /// The child was started.
    Started(WaitOutcome),
}

/// A [`WaitOutcome`] with its reason as a sequence of characters.
pub enum WaitOutcomeView {
    Exited(ExitStatus),
    Failed(Seq<char>),
}

/// A [`SpawnOutcome`] with its reason as a sequence of characters.
pub enum SpawnOutcomeView {
    NotFound(Seq<char>),
    Failed(Seq<char>),
    Started(WaitOutcomeView),
}

impl View for WaitOutcome {
    type V = WaitOutcomeView;

    open spec fn view(&self) -> WaitOutcomeView {
        match self {
            WaitOutcome::Exited(status) => WaitOutcomeView::Exited(*status),
            WaitOutcome::Failed(reason) => WaitOutcomeView::Failed(reason@),
        }
    }
}

impl View for SpawnOutcome {
    type V = SpawnOutcomeView;

    open spec fn view(&self) -> SpawnOutcomeView {
        match self {
            SpawnOutcome::NotFound(reason) => SpawnOutcomeView::NotFound(reason@),
            SpawnOutcome::Failed(reason) => SpawnOutcomeView::Failed(reason@),
            SpawnOutcome::Started(waited) => SpawnOutcomeView::Started(waited@),
        }
    }
}

/// A result together with the lines that report it.
pub struct Verdict {
    pub result: MicromambaResult,
    pub notices: Seq<NoticeView>,
}

impl WaitOutcomeView {
    /// A child that ended has completed, whatever its exit code; a child
    /// that could not be waited for was found but could not be run.
    pub open spec fn verdict(self) -> Verdict {
        match self {
            WaitOutcomeView::Exited(status) => Verdict {
                result: MicromambaResult::Completed(status),
                notices: seq![NoticeView::Exited(status)],
            },
            WaitOutcomeView::Failed(reason) => Verdict {
                result: MicromambaResult::CouldNotRun,
                notices: seq![NoticeView::WaitFailed(reason)],
            },
        }
    }
}

impl SpawnOutcomeView {
    /// Only the system's "not found" means that there is no runtime at the
    /// path; every other failure to start means that there is one and it
    /// could not be run.
    pub open spec fn verdict(self) -> Verdict {
        match self {
            SpawnOutcomeView::NotFound(reason) => Verdict {
                result: MicromambaResult::NotFound,
                notices: seq![NoticeView::NotAtPath(reason)],
            },
            SpawnOutcomeView::Failed(reason) => Verdict {
                result: MicromambaResult::CouldNotRun,
                notices: seq![NoticeView::SpawnFailed(reason)],
            },
            SpawnOutcomeView::Started(waited) => waited.verdict(),
        }
    }
}

/// Classifies the end of the wait for a child, and logs it.
pub fn block_on_child_exit(waited: WaitOutcome, log: &mut Vec<Notice>) -> (result:
    MicromambaResult)
    ensures
        result == waited@.verdict().result,
        notice_views(final(log)@) == notice_views(old(log)@) + waited@.verdict().notices,
{
    match waited {
        WaitOutcome::Exited(status) => {
            note(log, Notice::Exited(status));
            MicromambaResult::Completed(status)
        },
        WaitOutcome::Failed(reason) => {
            note(log, Notice::WaitFailed(reason));
            MicromambaResult::CouldNotRun
        },
    }
}

/// Classifies the outcome of one attempt to launch the runtime, and logs
/// it.
pub fn exec_micromamba(spawned: SpawnOutcome, log: &mut Vec<Notice>) -> (result:
    MicromambaResult)
    ensures
        result == spawned@.verdict().result,
        notice_views(final(log)@) == notice_views(old(log)@) + spawned@.verdict().notices,
{
    match spawned {
        SpawnOutcome::Started(waited) => block_on_child_exit(waited, log),
        SpawnOutcome::NotFound(reason) => {
            note(log, Notice::NotAtPath(reason));
            MicromambaResult::NotFound
        },
        SpawnOutcome::Failed(reason) => {
            note(log, Notice::SpawnFailed(reason));
            MicromambaResult::CouldNotRun
        },
    }
}

/// What the host is asked to do.
#[derive(Clone, Debug, PartialEq, Eq)]
pub enum Request {
    /// Launch this process and wait for it to end.
    Spawn(ProcessDescriptor),
    /// Do this for the cache.
    Cache(CacheRequest),
}

/// What the host reports back.
#[derive(Debug, PartialEq, Eq)]
pub enum Event {
    /// How the launch went.
    Spawned(SpawnOutcome),
    /// What came of the request for the cache.
    Cache(CacheEvent),
}

/// Where a run stands.
#[derive(Debug, PartialEq, Eq)]
pub enum Phase {
    /// The runtime in `$PATH` has been launched.
    TryingPath,
    /// The cache is being made to hold the runtime.
    Caching(DownloadPhase),
    /// The runtime in the cache, at this path, has been launched.
    RunningCached(String),
    /// The run is over, with this result.
    Done(MicromambaResult),
}

/// A [`Request`] with its strings and bytes as sequences.
pub enum RequestView {
    Spawn(DescriptorView),
    Cache(CacheRequestView),
}

/// An [`Event`] with its strings and bytes as sequences.
pub enum EventView {
    Spawned(SpawnOutcomeView),
    Cache(CacheEventView),
}

/// A [`Phase`] with its strings as sequences of characters.
pub enum PhaseView {
    TryingPath,
    Caching(DownloadPhaseView),
    RunningCached(Seq<char>),
    Done(MicromambaResult),
}

impl View for Request {
    type V = RequestView;

    open spec fn view(&self) -> RequestView {
        match self {
            Request::Spawn(cmd) => RequestView::Spawn(cmd@),
            Request::Cache(request) => RequestView::Cache(request@),
        }
    }
}

impl View for Event {
    type V = EventView;

    open spec fn view(&self) -> EventView {
        match self {
            Event::Spawned(spawned) => EventView::Spawned(spawned@),
            Event::Cache(event) => EventView::Cache(event@),
        }
    }
}

impl View for Phase {
    type V = PhaseView;

    open spec fn view(&self) -> PhaseView {
        match self {
            Phase::TryingPath => PhaseView::TryingPath,
            Phase::Caching(download) => PhaseView::Caching(download@),
            Phase::RunningCached(path) => PhaseView::RunningCached(path@),
            Phase::Done(result) => PhaseView::Done(*result),
        }
    }
}

/// One move of a run: where it stands now, what is to be logged, and what
/// the host is to do next. A run that asks for nothing is over.
#[derive(Debug, PartialEq, Eq)]
pub struct Step {
    pub phase: Phase,
    pub notices: Vec<Notice>,
    pub request: Option<Request>,
}

/// A [`Step`] with its strings and bytes as sequences.
pub struct StepView {
    pub phase: PhaseView,
    pub notices: Seq<NoticeView>,
    pub request: Option<RequestView>,
}

impl View for Step {
    type V = StepView;

    open spec fn view(&self) -> StepView {
        StepView {
            phase: self.phase@,
            notices: notice_views(self.notices@),
            request: match self.request {
                Some(request) => Some(request@),
                None => None,
            },
        }
    }
}

impl StepView {
    /// The run is over with `result`, after `notices`.
    pub open spec fn done(result: MicromambaResult, notices: Seq<NoticeView>) -> StepView {
        StepView { phase: PhaseView::Done(result), notices, request: None }
    }

    /// The runtime at `path` is launched, after `notices` and the line that
    /// goes with the launch; the run waits in `phase`.
    pub open spec fn launching(
        phase: PhaseView,
        path: Seq<char>,
        config: ConfigView,
        args: Seq<Seq<char>>,
        notices: Seq<NoticeView>,
    ) -> StepView {
        let cmd = descriptor_for(path, config, args);
        StepView {
            phase,
            notices: notices.push(launch_notice(config.noop_mode, cmd)),
            request: Some(RequestView::Spawn(cmd)),
        }
    }
}

/// The first move of a run.
///
/// In no-op mode the run is over at once: the launch is announced, and
/// nothing is asked of the host. Otherwise the runtime in `$PATH` is
/// launched.
pub open spec fn start(config: ConfigView, args: Seq<Seq<char>>) -> StepView {
    if config.noop_mode {
        StepView::done(
            MicromambaResult::Noop,
            seq![launch_notice(true, descriptor_for(RUNTIME@, config, args))],
        )
    } else {
        StepView::launching(PhaseView::TryingPath, RUNTIME@, config, args, seq![])
    }
}

/// The move that follows a move of the downloader, after `notices`.
///
/// While the downloader is at work its requests are passed on. Once the
/// cache holds the runtime, that is launched. A download that failed ends
/// the run: its error is logged, and the result says no more than that
/// the runtime could not be run.
pub open spec fn after_download(
    config: ConfigView,
    args: Seq<Seq<char>>,
    download: DownloadStepView,
    notices: Seq<NoticeView>,
) -> StepView {
    match download.phase {
        DownloadPhaseView::Finished(Ok(path)) => StepView::launching(
            PhaseView::RunningCached(path),
            path,
            config,
            args,
            notices + download.notices,
        ),
        DownloadPhaseView::Finished(Err(e)) => StepView::done(
            MicromambaResult::CouldNotRun,
            (notices + download.notices).push(NoticeView::CouldNotDownload(e)),
        ),
        phase => StepView {
            phase: PhaseView::Caching(phase),
            notices: notices + download.notices,
            request: match download.request {
                Some(request) => Some(RequestView::Cache(request)),
                None => None,
            },
        },
    }
}

/// The move after the launch of the runtime in `$PATH`.
///
/// A runtime that ran ends the run, whatever its exit code. So does one
/// that is there and cannot be run: a broken installation is reported and
/// not papered over. Only where there is none does the run go on to the
/// cache.
pub open spec fn after_path_launch(
    config: ConfigView,
    args: Seq<Seq<char>>,
    spawned: SpawnOutcomeView,
) -> StepView {
    let verdict = spawned.verdict();
    match verdict.result {
        MicromambaResult::Completed(status) => StepView::done(
            verdict.result,
            verdict.notices.push(NoticeView::RanFromPath),
        ),
        MicromambaResult::CouldNotRun => StepView::done(
            verdict.result,
            verdict.notices.push(NoticeView::PathBinaryBroken),
        ),
        _ => after_download(
            config,
            args,
            download_start(config),
            verdict.notices.push(NoticeView::FallingBackToCache),
        ),
    }
}

/// The move after the launch of the runtime in the cache, at `path`: the
/// last one. Whatever went wrong, the result is that the runtime could not
/// be run.
pub open spec fn after_cached_launch(path: Seq<char>, spawned: SpawnOutcomeView) -> StepView {
    let verdict = spawned.verdict();
    match verdict.result {
        MicromambaResult::Completed(status) => StepView::done(
            verdict.result,
            verdict.notices.push(NoticeView::RanCached(path)),
        ),
        MicromambaResult::CouldNotRun => StepView::done(
            MicromambaResult::CouldNotRun,
            verdict.notices.push(NoticeView::CachedCouldNotRun(path)).push(
                NoticeView::NoSuitableBinary,
            ),
        ),
        _ => StepView::done(
            MicromambaResult::CouldNotRun,
            verdict.notices.push(NoticeView::NoSuitableBinary),
        ),
    }
}

/// The move of a run on `event` in `phase`.
///
/// A reply that does not answer the pending request ends the run, and a
/// run that is over stays as it is.
pub open spec fn next(
    config: ConfigView,
    args: Seq<Seq<char>>,
    os: TargetOs,
    phase: PhaseView,
    event: EventView,
) -> StepView {
    match (phase, event) {
        (PhaseView::Done(result), _) => StepView::done(result, seq![]),
        (PhaseView::TryingPath, EventView::Spawned(spawned)) => after_path_launch(
            config,
            args,
            spawned,
        ),
        (PhaseView::Caching(download), EventView::Cache(event)) => after_download(
            config,
            args,
            download_next(config, os, download, event),
            seq![],
        ),
        (PhaseView::RunningCached(path), EventView::Spawned(spawned)) => after_cached_launch(
            path,
            spawned,
        ),
        _ => StepView::done(MicromambaResult::CouldNotRun, seq![NoticeView::UnexpectedReply]),
    }
}

/// Ends the run with `result`.
fn done(result: MicromambaResult, notices: Vec<Notice>) -> (step: Step)
    ensures
        step@ == StepView::done(result, notice_views(notices@)),
{
    Step { phase: Phase::Done(result), notices, request: None }
}

/// Launches the runtime at `path` and waits in `phase`.
fn launch(phase: Phase, path: &str, config: &Config, args: &Vec<&str>, notices: Vec<Notice>) -> (step:
    Step)
    ensures
        step@ == StepView::launching(
            phase@,
            path@,
            config@,
            slice_texts(args@),
            notice_views(notices@),
        ),
{
    let mut notices = notices;
    let cmd = micromamba_at(path, config, args, &mut notices);
    Step { phase, notices, request: Some(Request::Spawn(cmd)) }
}

/// Appends the lines of `more` to `log`.
fn append(log: &mut Vec<Notice>, more: Vec<Notice>)
    ensures
        notice_views(final(log)@) == notice_views(old(log)@) + notice_views(more@),
{
    let ghost added = more@;
    let mut more = more;
    log.append(&mut more);
    assert(notice_views(log@) =~= notice_views(old(log)@) + notice_views(added));
}

/// Carries the run on after a move of the downloader.
fn follow_download(config: &Config, args: &Vec<&str>, download: DownloadStep, notices: Vec<Notice>)
    -> (step: Step)
    ensures
        step@ == after_download(config@, slice_texts(args@), download@, notice_views(notices@)),
{
    let mut notices = notices;
    let DownloadStep { phase, notices: more, request } = download;
    append(&mut notices, more);
    match phase {
        DownloadPhase::Finished(Ok(path)) => {
            let program = path.clone();
            launch(Phase::RunningCached(path), program.as_str(), config, args, notices)
        },
        DownloadPhase::Finished(Err(e)) => {
            note(&mut notices, Notice::CouldNotDownload(e));
            done(MicromambaResult::CouldNotRun, notices)
        },
        phase => Step {
            phase: Phase::Caching(phase),
            notices,
            request: match request {
                Some(request) => Some(Request::Cache(request)),
                None => None,
            },
        },
    }
}

/// Starts a run of `micromamba` with `args`.
///
/// A `micromamba` in `$PATH` is used if there is one. Otherwise the one in
/// the cache is used, after it has been downloaded if the cache does not
/// hold it yet.
pub fn micromamba(config: &Config, args: &Vec<&str>) -> (step: Step)
    ensures
        step@ == start(config@, slice_texts(args@)),
{
    let mut notices = blank_log();
    let cmd = micromamba_at(RUNTIME, config, args, &mut notices);
    if config.noop_mode {
        // Nothing is launched: the launch has been announced, and that is all.
        done(MicromambaResult::Noop, notices)
    } else {
        Step { phase: Phase::TryingPath, notices, request: Some(Request::Spawn(cmd)) }
    }
}

/// Carries the run on from `phase` with the host's reply `event`.
pub fn advance(config: &Config, args: &Vec<&str>, os: TargetOs, phase: Phase, event: Event) -> (step:
    Step)
    ensures
        step@ == next(config@, slice_texts(args@), os, phase@, event@),
{
    let mut notices = blank_log();
    match (phase, event) {
        (Phase::Done(result), _) => done(result, notices),
        (Phase::TryingPath, Event::Spawned(spawned)) => {
            match exec_micromamba(spawned, &mut notices) {
                MicromambaResult::Completed(status) => {
                    note(&mut notices, Notice::RanFromPath);
                    done(MicromambaResult::Completed(status), notices)
                },
                MicromambaResult::CouldNotRun => {
                    note(&mut notices, Notice::PathBinaryBroken);
                    done(MicromambaResult::CouldNotRun, notices)
                },
                _ => {
                    note(&mut notices, Notice::FallingBackToCache);
                    follow_download(config, args, download_micromamba(config), notices)
                },
            }
        },
        (Phase::Caching(download), Event::Cache(event)) => follow_download(
            config,
            args,
            download_advance(config, os, download, event),
            notices,
        ),
        (Phase::RunningCached(path), Event::Spawned(spawned)) => {
            match exec_micromamba(spawned, &mut notices) {
                MicromambaResult::Completed(status) => {
                    note(&mut notices, Notice::RanCached(path));
                    done(MicromambaResult::Completed(status), notices)
                },
                MicromambaResult::CouldNotRun => {
                    note(&mut notices, Notice::CachedCouldNotRun(path));
                    note(&mut notices, Notice::NoSuitableBinary);
                    done(MicromambaResult::CouldNotRun, notices)
                },
                _ => {
                    note(&mut notices, Notice::NoSuitableBinary);
                    done(MicromambaResult::CouldNotRun, notices)
                },
            }
        },
        _ => {
            note(&mut notices, Notice::UnexpectedReply);
            done(MicromambaResult::CouldNotRun, notices)
        },
    }
}

} // verus!
