//! A model of the host, and what holds of every run against it.
//!
//! The functions of [`crate::micromamba`] and [`crate::download`] make one
//! move at a time. Here the moves are strung together into whole runs,
//! against a host that answers each request as the system would, and the
//! properties of whole runs are proved.

use crate::archive::{packed_members, spec_find};
use crate::csmrc::ConfigView;
use crate::download::{
    cache_dir_for, download_next, download_start, CacheEventView, CacheRequestView,
    DownloadErrorView, DownloadPhaseView, DownloadStepView, DOWNLOAD_DISABLED,
};
use crate::micromamba::{
    after_cached_launch, after_download, after_path_launch, descriptor_for, launch_notice, next,
    start, DescriptorView, EventView, ExitStatus, Level, MicromambaResult, NoticeView, PhaseView,
    RequestView, SpawnOutcomeView, StepView, RUNTIME,
};
use crate::platform::{spec_download_url, spec_join, TargetOs};
use vstd::prelude::*;

verus! {

/// The system as a run sees it: what it answers to each request.
pub struct Host {
    /// How the launch of a process ends.
    pub launch: spec_fn(DescriptorView) -> SpawnOutcomeView,
    /// The user's cache root, if the system has one.
    pub cache_root: Option<Seq<char>>,
    /// Whether a directory can be created, and if not, why not.
    pub mkdir: spec_fn(Seq<char>) -> Result<(), Seq<char>>,
    /// The paths at which there is a file.
    pub files: Set<Seq<char>>,
    /// What fetching an address yields.
    pub fetch: spec_fn(Seq<char>) -> Result<Seq<u8>, Seq<char>>,
    /// Whether these bytes can be written to this path, and if not, why
    /// not.
    pub write: spec_fn(Seq<char>, Seq<u8>) -> Result<(), Seq<char>>,
}

impl Host {
    /// The host's reply to a request for the cache, and the host after it:
    /// a file that was written is there from then on.
    pub open spec fn serve(self, request: CacheRequestView) -> (Host, CacheEventView) {
        match request {
            CacheRequestView::FindCacheRoot => (self, CacheEventView::CacheRoot(self.cache_root)),
            CacheRequestView::CreateDir(dir) => (self, CacheEventView::DirCreated((self.mkdir)(dir))),
            CacheRequestView::Probe(path) => (self, CacheEventView::Probed(self.files.contains(path))),
            CacheRequestView::Fetch(url) => (self, CacheEventView::Fetched((self.fetch)(url))),
            CacheRequestView::Install { path, contents, mode } => match (self.write)(path, contents) {
                Ok(()) => (
                    Host { files: self.files.insert(path), ..self },
                    CacheEventView::Installed(Ok(())),
                ),
                Err(reason) => (self, CacheEventView::Installed(Err(reason))),
            },
        }
    }

    /// The host's reply to a request, and the host after it.
    pub open spec fn answer(self, request: RequestView) -> (Host, EventView) {
        match request {
            RequestView::Spawn(cmd) => (self, EventView::Spawned((self.launch)(cmd))),
            RequestView::Cache(request) => {
                let (host, event) = self.serve(request);
                (host, EventView::Cache(event))
            },
        }
    }
}

/// A download asks for something exactly as long as it is not finished:
/// the host can stop when nothing is asked of it.
pub proof fn law_download_asks_until_finished(
    config: ConfigView,
    os: TargetOs,
    phase: DownloadPhaseView,
    event: CacheEventView,
)
    ensures
        download_start(config).request is Some,
        !(download_start(config).phase is Finished),
        download_next(config, os, phase, event).request is None <==> download_next(
            config,
            os,
            phase,
            event,
        ).phase is Finished,
{
}

/// A run asks for something exactly as long as it is not over: the host
/// can stop when nothing is asked of it.
pub proof fn law_run_asks_until_done(
    config: ConfigView,
    args: Seq<Seq<char>>,
    os: TargetOs,
    phase: PhaseView,
    event: EventView,
)
    ensures
        start(config, args).request is None <==> start(config, args).phase is Done,
        next(config, args, os, phase, event).request is None <==> next(
            config,
            args,
            os,
            phase,
            event,
        ).phase is Done,
{
}

/// A download from its first move to its last.
pub struct Download {
    /// The host after the download.
    pub host: Host,
    /// The requests that were made, in order.
    pub requests: Seq<CacheRequestView>,
    /// How many of the requests went to the network.
    pub fetched: nat,
    /// The lines that were logged, in order.
    pub notices: Seq<NoticeView>,
    /// Where the download stands at the end.
    pub phase: DownloadPhaseView,
}

impl Download {
    /// The outcome of the download, once it is over.
    pub open spec fn outcome(self) -> Option<Result<Seq<char>, DownloadErrorView>> {
        match self.phase {
            DownloadPhaseView::Finished(found) => Some(found),
            _ => None,
        }
    }
}

/// Carries a download on from `step`, for at most `fuel` requests.
pub open spec fn pursue(
    config: ConfigView,
    os: TargetOs,
    step: DownloadStepView,
    host: Host,
    fuel: nat,
) -> Download
    decreases fuel,
{
    match step.request {
        Some(request) if fuel > 0 => {
            let (served, event) = host.serve(request);
            let rest = pursue(
                config,
                os,
                download_next(config, os, step.phase, event),
                served,
                (fuel - 1) as nat,
            );
            Download {
                host: rest.host,
                requests: seq![request] + rest.requests,
                fetched: rest.fetched + if request is Fetch {
                    1nat
                } else {
                    0nat
                },
                notices: step.notices + rest.notices,
                phase: rest.phase,
            }
        },
        _ => Download {
            host,
            requests: seq![],
            fetched: 0,
            notices: step.notices,
            phase: step.phase,
        },
    }
}

/// The most requests that a download makes: for the cache root, for the
/// directory, for the probe, for the archive, and for the file.
pub open spec fn download_bound() -> nat {
    5
}

/// The download as a whole, against `host`.
pub open spec fn ensure_cached(config: ConfigView, os: TargetOs, host: Host) -> Download {
    pursue(config, os, download_start(config), host, download_bound())
}

/// The place of the binary in the cache of `host`: in the cache directory,
/// if that can be found and made, under the name that `os` gives it.
pub open spec fn cache_slot(config: ConfigView, os: TargetOs, host: Host) -> Result<
    Seq<char>,
    DownloadErrorView,
> {
    match cache_dir_for(config, os, host.cache_root) {
        Err(e) => Err(e),
        Ok(dir) => match (host.mkdir)(dir) {
            Err(reason) => Err(DownloadErrorView::IO(reason)),
            Ok(()) => match os.spec_layout() {
                None => Err(DownloadErrorView::IncompatibleOS),
                Some(layout) => Ok(spec_join(dir, layout.binary_name, os)),
            },
        },
    }
}

/// The binary that the archive published for `os` holds, as far as `host`
/// can fetch and read it.
pub open spec fn published_binary(os: TargetOs, host: Host) -> Result<Seq<u8>, DownloadErrorView> {
    match os.spec_layout() {
        None => Err(DownloadErrorView::IncompatibleOS),
        Some(layout) => match (host.fetch)(spec_download_url(layout.platform_tag)) {
            Err(reason) => Err(DownloadErrorView::Transport(reason)),
            Ok(body) => spec_find(packed_members(body), vstd::utf8::encode_utf8(layout.archive_entry)),
        },
    }
}

/// What a download against `host` comes to.
///
/// The binary has a place in the cache, or the download fails for want of
/// one. A binary that is in its place is taken as it is. Otherwise, unless
/// downloading is switched off, the binary is taken out of the published
/// archive and written to its place.
pub open spec fn cached_binary(config: ConfigView, os: TargetOs, host: Host) -> Result<
    Seq<char>,
    DownloadErrorView,
> {
    match cache_slot(config, os, host) {
        Err(e) => Err(e),
        Ok(path) => if host.files.contains(path) {
            Ok(path)
        } else if !config.download_micromamba {
            Err(DownloadErrorView::IO(DOWNLOAD_DISABLED@))
        } else {
            match published_binary(os, host) {
                Err(e) => Err(e),
                Ok(binary) => match (host.write)(path, binary) {
                    Ok(()) => Ok(path),
                    Err(reason) => Err(DownloadErrorView::IO(reason)),
                },
            }
        },
    }
}

/// Every download comes to an end, and its outcome is what
/// [`cached_binary`] says.
pub proof fn law_download_outcome(config: ConfigView, os: TargetOs, host: Host)
    ensures
        ensure_cached(config, os, host).outcome() == Some(cached_binary(config, os, host)),
{
    reveal_with_fuel(pursue, 6);
}

/// The files of `host`, and the binary in its place in the cache if the
/// cache has a place for it.
pub open spec fn files_with_binary(config: ConfigView, os: TargetOs, host: Host) -> Set<
    Seq<char>,
> {
    match cache_slot(config, os, host) {
        Ok(path) => host.files.insert(path),
        Err(_) => host.files,
    }
}

/// No download goes to the network more than once. None changes
/// anything but the files of the host, and of those it writes only the
/// binary in its place, and that only after a fetch.
pub proof fn law_download_is_frugal(config: ConfigView, os: TargetOs, host: Host)
    ensures
        ensure_cached(config, os, host).fetched <= 1,
        ensure_cached(config, os, host).requests.len() <= download_bound(),
        ensure_cached(config, os, host).host == (Host {
            files: ensure_cached(config, os, host).host.files,
            ..host
        }),
        ensure_cached(config, os, host).fetched == 0 ==> ensure_cached(config, os, host).host
            == host,
        ensure_cached(config, os, host).host.files == host.files || ensure_cached(
            config,
            os,
            host,
        ).host.files == files_with_binary(config, os, host),
{
    reveal_with_fuel(pursue, 6);
}

/// Where the cache directory cannot be had, or no runtime is published
/// for the system, the download fails with that error, and nothing is
/// fetched or written.
pub proof fn law_no_slot_no_download(config: ConfigView, os: TargetOs, host: Host)
    requires
        cache_slot(config, os, host) is Err,
    ensures
        ensure_cached(config, os, host).outcome() == Some(cache_slot(config, os, host)),
        ensure_cached(config, os, host).fetched == 0,
        ensure_cached(config, os, host).host == host,
{
    reveal_with_fuel(pursue, 6);
}

/// A binary that is in the cache is the outcome, as it is: nothing is
/// fetched, and nothing is written.
pub proof fn law_cache_hit(config: ConfigView, os: TargetOs, host: Host, path: Seq<char>)
    requires
        cache_slot(config, os, host) == Ok::<Seq<char>, DownloadErrorView>(path),
        host.files.contains(path),
    ensures
        ensure_cached(config, os, host).outcome() == Some(
            Ok::<Seq<char>, DownloadErrorView>(path),
        ),
        ensure_cached(config, os, host).fetched == 0,
        ensure_cached(config, os, host).host == host,
{
    reveal_with_fuel(pursue, 6);
}

/// Where the cache is empty and downloading is switched off, the download
/// fails at once, with an error that says so and is no transport error,
/// and nothing is fetched.
pub proof fn law_disabled_download_fails_fast(
    config: ConfigView,
    os: TargetOs,
    host: Host,
    path: Seq<char>,
)
    requires
        cache_slot(config, os, host) == Ok::<Seq<char>, DownloadErrorView>(path),
        !host.files.contains(path),
        !config.download_micromamba,
    ensures
        ensure_cached(config, os, host).outcome() == Some(
            Err::<Seq<char>, DownloadErrorView>(DownloadErrorView::IO(DOWNLOAD_DISABLED@)),
        ),
        ensure_cached(config, os, host).fetched == 0,
        ensure_cached(config, os, host).host == host,
{
    reveal_with_fuel(pursue, 6);
}

/// Where downloading is switched off, no download ever goes to the
/// network, whatever the host is like.
pub proof fn law_disabled_download_never_fetches(config: ConfigView, os: TargetOs, host: Host)
    requires
        !config.download_micromamba,
    ensures
        ensure_cached(config, os, host).fetched == 0,
{
    reveal_with_fuel(pursue, 6);
}

/// Where the cache is empty and the binary cannot be had from the
/// archive, because the archive cannot be fetched or read or does not
/// hold the binary, the download fails with that error, after one fetch,
/// and no file is written.
pub proof fn law_failed_fetch_writes_nothing(
    config: ConfigView,
    os: TargetOs,
    host: Host,
    path: Seq<char>,
    e: DownloadErrorView,
)
    requires
        cache_slot(config, os, host) == Ok::<Seq<char>, DownloadErrorView>(path),
        !host.files.contains(path),
        config.download_micromamba,
        published_binary(os, host) == Err::<Seq<u8>, DownloadErrorView>(e),
    ensures
        ensure_cached(config, os, host).outcome() == Some(
            Err::<Seq<char>, DownloadErrorView>(e),
        ),
        ensure_cached(config, os, host).fetched == 1,
        ensure_cached(config, os, host).host == host,
        forall|i: int|
            0 <= i < ensure_cached(config, os, host).requests.len() ==> !(
            #[trigger] ensure_cached(config, os, host).requests[i] is Install),
{
    reveal_with_fuel(pursue, 6);
}

/// Where the cache is empty and the archive holds the binary, one fetch
/// brings it, and it is written to its place in the cache, with the
/// permission bits of an executable where the system has such bits.
pub proof fn law_download_installs_binary(
    config: ConfigView,
    os: TargetOs,
    host: Host,
    path: Seq<char>,
    binary: Seq<u8>,
)
    requires
        cache_slot(config, os, host) == Ok::<Seq<char>, DownloadErrorView>(path),
        !host.files.contains(path),
        config.download_micromamba,
        published_binary(os, host) == Ok::<Seq<u8>, DownloadErrorView>(binary),
    ensures
        ensure_cached(config, os, host).fetched == 1,
        ensure_cached(config, os, host).requests.last() == (CacheRequestView::Install {
            path,
            contents: binary,
            mode: os.spec_executable_mode(),
        }),
        ensure_cached(config, os, host).outcome() == Some(
            match (host.write)(path, binary) {
                Ok(()) => Ok::<Seq<char>, DownloadErrorView>(path),
                Err(reason) => Err(DownloadErrorView::IO(reason)),
            },
        ),
        ensure_cached(config, os, host).host.files == match (host.write)(path, binary) {
            Ok(()) => host.files.insert(path),
            Err(reason) => host.files,
        },
{
    reveal_with_fuel(pursue, 6);
}

/// Two downloads in a row, the first into an empty cache: if the first
/// succeeds, the two together go to the network exactly once, and the
/// second has the outcome of the first.
pub proof fn law_second_download_hits_cache(config: ConfigView, os: TargetOs, host: Host)
    requires
        ensure_cached(config, os, host).outcome() matches Some(Ok(path)) && !host.files.contains(
            path,
        ),
    ensures
        ensure_cached(config, os, host).fetched + ensure_cached(
            config,
            os,
            ensure_cached(config, os, host).host,
        ).fetched == 1,
        ensure_cached(config, os, ensure_cached(config, os, host).host).outcome()
            == ensure_cached(config, os, host).outcome(),
{
    reveal_with_fuel(pursue, 6);
}

/// A run from its first move to its last.
pub struct Run {
    /// The host after the run.
    pub host: Host,
    /// The requests that were made, in order.
    pub requests: Seq<RequestView>,
    /// How many processes were launched.
    pub spawned: nat,
    /// How many of the requests went to the network.
    pub fetched: nat,
    /// The lines that were logged, in order.
    pub notices: Seq<NoticeView>,
    /// Where the run stands at the end.
    pub phase: PhaseView,
}

impl Run {
    /// The result of the run, once it is over.
    pub open spec fn result(self) -> Option<MicromambaResult> {
        match self.phase {
            PhaseView::Done(result) => Some(result),
            _ => None,
        }
    }
}

/// Carries a run on from `step`, for at most `fuel` requests.
pub open spec fn drive(
    config: ConfigView,
    args: Seq<Seq<char>>,
    os: TargetOs,
    step: StepView,
    host: Host,
    fuel: nat,
) -> Run
    decreases fuel,
{
    match step.request {
        Some(request) if fuel > 0 => {
            let (served, event) = host.answer(request);
            let rest = drive(
                config,
                args,
                os,
                next(config, args, os, step.phase, event),
                served,
                (fuel - 1) as nat,
            );
            Run {
                host: rest.host,
                requests: seq![request] + rest.requests,
                spawned: rest.spawned + if request is Spawn {
                    1nat
                } else {
                    0nat
                },
                fetched: rest.fetched + if request matches RequestView::Cache(r) && r is Fetch {
                    1nat
                } else {
                    0nat
                },
                notices: step.notices + rest.notices,
                phase: rest.phase,
            }
        },
        _ => Run {
            host,
            requests: seq![],
            spawned: 0,
            fetched: 0,
            notices: step.notices,
            phase: step.phase,
        },
    }
}

/// The most requests that a run makes: two launches and a download.
pub open spec fn run_bound() -> nat {
    download_bound() + 2
}

/// The run as a whole, against `host`.
pub open spec fn run(config: ConfigView, args: Seq<Seq<char>>, os: TargetOs, host: Host) -> Run {
    drive(config, args, os, start(config, args), host, run_bound())
}

/// What the launch of the runtime at `path` comes to on `host`.
pub open spec fn attempt(host: Host, path: Seq<char>, config: ConfigView, args: Seq<Seq<char>>)
    -> MicromambaResult {
    (host.launch)(descriptor_for(path, config, args)).verdict().result
}

/// What the launch of the runtime in `$PATH` comes to on `host`.
pub open spec fn path_attempt(host: Host, config: ConfigView, args: Seq<Seq<char>>)
    -> MicromambaResult {
    attempt(host, RUNTIME@, config, args)
}

/// What the launch of the runtime in the cache, at `path`, comes to on
/// `host`: whatever goes wrong, the runtime could not be run.
pub open spec fn cached_attempt(
    host: Host,
    path: Seq<char>,
    config: ConfigView,
    args: Seq<Seq<char>>,
) -> MicromambaResult {
    match attempt(host, path, config, args) {
        MicromambaResult::Completed(status) => MicromambaResult::Completed(status),
        _ => MicromambaResult::CouldNotRun,
    }
}

/// The request that launches the runtime at `path`.
pub open spec fn launch_of(path: Seq<char>, config: ConfigView, args: Seq<Seq<char>>)
    -> RequestView {
    RequestView::Spawn(descriptor_for(path, config, args))
}

/// The requests of a download, as requests of the run that it is part of.
pub open spec fn passed_on(requests: Seq<CacheRequestView>) -> Seq<RequestView> {
    requests.map_values(|r: CacheRequestView| RequestView::Cache(r))
}

/// The part of a run that begins with its download, where `download` is
/// that download from its first move to its last, and `notices` have been
/// logged just before.
///
/// The requests of the download are passed on to the host. After a
/// download that succeeded the runtime in the cache is launched, and the
/// run ends with what becomes of that launch. After one that failed the
/// run ends at once.
pub open spec fn run_after(
    config: ConfigView,
    args: Seq<Seq<char>>,
    download: Download,
    notices: Seq<NoticeView>,
) -> Run {
    match download.phase {
        DownloadPhaseView::Finished(Ok(path)) => {
            let cmd = descriptor_for(path, config, args);
            let last = after_cached_launch(path, (download.host.launch)(cmd));
            Run {
                host: download.host,
                requests: passed_on(download.requests).push(RequestView::Spawn(cmd)),
                spawned: 1,
                fetched: download.fetched,
                notices: (notices + download.notices).push(launch_notice(config.noop_mode, cmd))
                    + last.notices,
                phase: last.phase,
            }
        },
        DownloadPhaseView::Finished(Err(e)) => Run {
            host: download.host,
            requests: passed_on(download.requests),
            spawned: 0,
            fetched: download.fetched,
            notices: (notices + download.notices).push(NoticeView::CouldNotDownload(e)),
            phase: PhaseView::Done(MicromambaResult::CouldNotRun),
        },
        phase => Run {
            host: download.host,
            requests: passed_on(download.requests),
            spawned: 0,
            fetched: download.fetched,
            notices: notices + download.notices,
            phase: PhaseView::Caching(phase),
        },
    }
}

/// A run that has come to a move of the downloader goes on as the
/// download does, and ends as [`run_after`] says.
pub proof fn lemma_run_follows_download(
    config: ConfigView,
    args: Seq<Seq<char>>,
    os: TargetOs,
    step: DownloadStepView,
    host: Host,
    notices: Seq<NoticeView>,
    fuel: nat,
)
    requires
        step.request is None <==> step.phase is Finished,
        pursue(config, os, step, host, fuel).phase is Finished,
    ensures
        drive(config, args, os, after_download(config, args, step, notices), host, fuel + 1)
            == run_after(config, args, pursue(config, os, step, host, fuel), notices),
    decreases fuel,
{
    let first = after_download(config, args, step, notices);
    let whole = drive(config, args, os, first, host, fuel + 1);
    let download = pursue(config, os, step, host, fuel);
    let goal = run_after(config, args, download, notices);
    match step.request {
        Some(request) => {
            assert(fuel > 0);
            let (served, event) = host.serve(request);
            let step2 = download_next(config, os, step.phase, event);
            law_download_asks_until_finished(config, os, step.phase, event);
            lemma_run_follows_download(config, args, os, step2, served, seq![], (fuel - 1) as nat);
            let rest = pursue(config, os, step2, served, (fuel - 1) as nat);
            let tail = run_after(config, args, rest, seq![]);
            assert(first.request == Some(RequestView::Cache(request)));
            assert(next(config, args, os, first.phase, EventView::Cache(event)) == after_download(
                config,
                args,
                step2,
                seq![],
            ));
            assert(whole.requests == seq![RequestView::Cache(request)] + tail.requests);
            assert(whole.notices == first.notices + tail.notices);
            assert(passed_on(seq![request] + rest.requests) =~= seq![RequestView::Cache(request)]
                + passed_on(rest.requests));
            assert(whole.requests =~= goal.requests);
            assert(whole.notices =~= goal.notices);
        },
        None => {
            reveal_with_fuel(drive, 2);
            assert(passed_on(download.requests) =~= seq![]);
            assert(whole.requests =~= goal.requests);
            assert(whole.notices =~= goal.notices);
        },
    }
}

/// A run from its first move to its last, said at once.
///
/// No-op mode announces the launch and asks nothing. Otherwise the
/// runtime in `$PATH` is launched. If that runs, or is there and cannot be
/// run, the run is over. Only if there is none does the download follow,
/// and the rest is as [`run_after`] says.
pub open spec fn run_against(config: ConfigView, args: Seq<Seq<char>>, os: TargetOs, host: Host)
    -> Run {
    let cmd = descriptor_for(RUNTIME@, config, args);
    let verdict = (host.launch)(cmd).verdict();
    if config.noop_mode {
        Run {
            host,
            requests: seq![],
            spawned: 0,
            fetched: 0,
            notices: seq![NoticeView::WouldRun(cmd)],
            phase: PhaseView::Done(MicromambaResult::Noop),
        }
    } else if verdict.result == MicromambaResult::NotFound {
        let rest = run_after(
            config,
            args,
            ensure_cached(config, os, host),
            verdict.notices.push(NoticeView::FallingBackToCache),
        );
        Run {
            host: rest.host,
            requests: seq![RequestView::Spawn(cmd)] + rest.requests,
            spawned: rest.spawned + 1,
            fetched: rest.fetched,
            notices: seq![NoticeView::AboutToRun(cmd)] + rest.notices,
            phase: rest.phase,
        }
    } else {
        let last = after_path_launch(config, args, (host.launch)(cmd));
        Run {
            host,
            requests: seq![RequestView::Spawn(cmd)],
            spawned: 1,
            fetched: 0,
            notices: seq![NoticeView::AboutToRun(cmd)] + last.notices,
            phase: last.phase,
        }
    }
}

/// Every run is as [`run_against`] says.
pub proof fn law_run_unfolds(config: ConfigView, args: Seq<Seq<char>>, os: TargetOs, host: Host)
    ensures
        run(config, args, os, host) == run_against(config, args, os, host),
{
    let cmd = descriptor_for(RUNTIME@, config, args);
    let verdict = (host.launch)(cmd).verdict();
    let whole = run(config, args, os, host);
    let goal = run_against(config, args, os, host);
    if config.noop_mode {
        reveal_with_fuel(drive, 1);
    } else if verdict.result == MicromambaResult::NotFound {
        let notices = verdict.notices.push(NoticeView::FallingBackToCache);
        law_download_outcome(config, os, host);
        lemma_run_follows_download(
            config,
            args,
            os,
            download_start(config),
            host,
            notices,
            download_bound(),
        );
        reveal_with_fuel(drive, 1);
        assert(next(
            config,
            args,
            os,
            PhaseView::TryingPath,
            EventView::Spawned((host.launch)(cmd)),
        ) == after_download(config, args, download_start(config), notices));
        assert(whole.requests =~= goal.requests);
        assert(whole.notices =~= goal.notices);
    } else {
        reveal_with_fuel(drive, 2);
        assert(whole.requests =~= goal.requests);
        assert(whole.notices =~= goal.notices);
    }
}

/// What a run against `host` comes to.
///
/// No-op mode launches nothing. Otherwise the runtime in `$PATH` decides,
/// unless there is none: then the runtime in the cache decides, if the
/// cache can be made to hold one.
pub open spec fn outcome_against(
    config: ConfigView,
    args: Seq<Seq<char>>,
    os: TargetOs,
    host: Host,
) -> MicromambaResult {
    if config.noop_mode {
        MicromambaResult::Noop
    } else {
        match path_attempt(host, config, args) {
            MicromambaResult::Completed(status) => MicromambaResult::Completed(status),
            MicromambaResult::CouldNotRun => MicromambaResult::CouldNotRun,
            _ => match cached_binary(config, os, host) {
                Ok(path) => cached_attempt(host, path, config, args),
                Err(_) => MicromambaResult::CouldNotRun,
            },
        }
    }
}

/// Every run comes to an end, and its result is what [`outcome_against`]
/// says. It is never that the runtime was not found: where it is found
/// nowhere, the run says that it could not be run.
pub proof fn law_run_result(config: ConfigView, args: Seq<Seq<char>>, os: TargetOs, host: Host)
    ensures
        run(config, args, os, host).result() == Some(outcome_against(config, args, os, host)),
        outcome_against(config, args, os, host) != MicromambaResult::NotFound,
{
    law_run_unfolds(config, args, os, host);
    law_download_outcome(config, os, host);
    law_download_is_frugal(config, os, host);
}

/// No run launches more than two processes or goes to the network more
/// than once.
pub proof fn law_run_is_frugal(config: ConfigView, args: Seq<Seq<char>>, os: TargetOs, host: Host)
    ensures
        run(config, args, os, host).spawned <= 2,
        run(config, args, os, host).fetched <= 1,
        run(config, args, os, host).requests.len() <= run_bound(),
{
    law_run_unfolds(config, args, os, host);
    law_download_outcome(config, os, host);
    law_download_is_frugal(config, os, host);
}

/// In no-op mode the result is `Noop`, and nothing at all is asked of the
/// host: no process is launched and nothing is fetched, whatever is in
/// `$PATH` or in the cache.
pub proof fn law_noop_asks_nothing(
    config: ConfigView,
    args: Seq<Seq<char>>,
    os: TargetOs,
    host: Host,
)
    requires
        config.noop_mode,
    ensures
        run(config, args, os, host).result() == Some(MicromambaResult::Noop),
        run(config, args, os, host).requests == Seq::<RequestView>::empty(),
        run(config, args, os, host).spawned == 0,
        run(config, args, os, host).fetched == 0,
        run(config, args, os, host).host == host,
        run(config, args, os, host).notices == seq![
            NoticeView::WouldRun(descriptor_for(RUNTIME@, config, args)),
        ],
        run(config, args, os, host).notices[0].level() == Level::Info,
{
    law_run_unfolds(config, args, os, host);
}

/// Outside no-op mode, a runtime in `$PATH` that runs is the one that is
/// used: the result is its exit status, and its launch is the only thing
/// asked of the host. The cache and the network are left alone.
pub proof fn law_path_runtime_is_used(
    config: ConfigView,
    args: Seq<Seq<char>>,
    os: TargetOs,
    host: Host,
    status: ExitStatus,
)
    requires
        !config.noop_mode,
        path_attempt(host, config, args) == MicromambaResult::Completed(status),
    ensures
        run(config, args, os, host).result() == Some(MicromambaResult::Completed(status)),
        run(config, args, os, host).requests == seq![launch_of(RUNTIME@, config, args)],
        run(config, args, os, host).fetched == 0,
        run(config, args, os, host).host == host,
{
    law_run_unfolds(config, args, os, host);
}

/// Outside no-op mode, a runtime in `$PATH` that is there and cannot be
/// run ends the run: the result is `CouldNotRun`, and the cache and the
/// network are left alone.
pub proof fn law_broken_path_runtime_ends_run(
    config: ConfigView,
    args: Seq<Seq<char>>,
    os: TargetOs,
    host: Host,
)
    requires
        !config.noop_mode,
        path_attempt(host, config, args) == MicromambaResult::CouldNotRun,
    ensures
        run(config, args, os, host).result() == Some(MicromambaResult::CouldNotRun),
        run(config, args, os, host).requests == seq![launch_of(RUNTIME@, config, args)],
        run(config, args, os, host).fetched == 0,
        run(config, args, os, host).host == host,
        run(config, args, os, host).notices.last() == NoticeView::PathBinaryBroken,
{
    law_run_unfolds(config, args, os, host);
}

/// Outside no-op mode the log opens with the launch of the runtime in
/// `$PATH` and with what came of it: the reason why it could not be
/// launched or waited for is never dropped.
pub proof fn law_path_attempt_is_logged(
    config: ConfigView,
    args: Seq<Seq<char>>,
    os: TargetOs,
    host: Host,
)
    requires
        !config.noop_mode,
    ensures
        run(config, args, os, host).notices.len() >= 3,
        run(config, args, os, host).notices[0] == NoticeView::AboutToRun(
            descriptor_for(RUNTIME@, config, args),
        ),
        run(config, args, os, host).notices[1] == (host.launch)(
            descriptor_for(RUNTIME@, config, args),
        ).verdict().notices[0],
{
    law_run_unfolds(config, args, os, host);
}

/// The run goes on to the cache exactly where there is no runtime in
/// `$PATH`: a runtime that is there and broken is never mistaken for one
/// that is missing.
pub proof fn law_fallback_only_when_absent(
    config: ConfigView,
    args: Seq<Seq<char>>,
    os: TargetOs,
    host: Host,
)
    requires
        !config.noop_mode,
    ensures
        run(config, args, os, host).requests.len() > 1 <==> path_attempt(host, config, args)
            == MicromambaResult::NotFound,
{
    law_run_unfolds(config, args, os, host);
    law_download_outcome(config, os, host);
    reveal_with_fuel(pursue, 2);
}

/// Outside no-op mode, where there is no runtime in `$PATH` and the cache
/// holds one, that one is launched, and its launch decides the result: its
/// exit status if it ran. Nothing is fetched.
pub proof fn law_cached_runtime_needs_no_network(
    config: ConfigView,
    args: Seq<Seq<char>>,
    os: TargetOs,
    host: Host,
    path: Seq<char>,
)
    requires
        !config.noop_mode,
        path_attempt(host, config, args) == MicromambaResult::NotFound,
        cache_slot(config, os, host) == Ok::<Seq<char>, DownloadErrorView>(path),
        host.files.contains(path),
    ensures
        run(config, args, os, host).fetched == 0,
        run(config, args, os, host).spawned == 2,
        run(config, args, os, host).requests.last() == launch_of(path, config, args),
        run(config, args, os, host).result() == Some(cached_attempt(host, path, config, args)),
        run(config, args, os, host).host == host,
{
    law_run_unfolds(config, args, os, host);
    law_cache_hit(config, os, host, path);
}

/// Outside no-op mode, where there is no runtime in `$PATH`, the cache is
/// empty and downloading is switched off, the result is `CouldNotRun`
/// and nothing is fetched. The log ends with the download's error, which
/// is no transport error: where the cache has a place for the binary, it
/// says that downloading is switched off.
pub proof fn law_disabled_download_is_reported(
    config: ConfigView,
    args: Seq<Seq<char>>,
    os: TargetOs,
    host: Host,
)
    requires
        !config.noop_mode,
        path_attempt(host, config, args) == MicromambaResult::NotFound,
        cache_slot(config, os, host) matches Ok(path) ==> !host.files.contains(path),
        !config.download_micromamba,
    ensures
        run(config, args, os, host).result() == Some(MicromambaResult::CouldNotRun),
        run(config, args, os, host).fetched == 0,
        run(config, args, os, host).spawned == 1,
        run(config, args, os, host).notices.last() matches NoticeView::CouldNotDownload(e) && !(e
            is Transport),
        cache_slot(config, os, host) is Ok ==> run(config, args, os, host).notices.last()
            == NoticeView::CouldNotDownload(DownloadErrorView::IO(DOWNLOAD_DISABLED@)),
{
    law_run_unfolds(config, args, os, host);
    law_download_outcome(config, os, host);
    law_disabled_download_never_fetches(config, os, host);
}

/// Where downloading is switched off, no run ever goes to the network,
/// whatever the host is like.
pub proof fn law_disabled_download_never_fetches_in_run(
    config: ConfigView,
    args: Seq<Seq<char>>,
    os: TargetOs,
    host: Host,
)
    requires
        !config.download_micromamba,
    ensures
        run(config, args, os, host).fetched == 0,
{
    law_run_unfolds(config, args, os, host);
    law_download_outcome(config, os, host);
    law_disabled_download_never_fetches(config, os, host);
}

/// Whatever goes wrong with the download, the result is `CouldNotRun`, the
/// error is the last line of the log, and no second process is launched.
pub proof fn law_failed_download_ends_run(
    config: ConfigView,
    args: Seq<Seq<char>>,
    os: TargetOs,
    host: Host,
    e: DownloadErrorView,
)
    requires
        !config.noop_mode,
        path_attempt(host, config, args) == MicromambaResult::NotFound,
        ensure_cached(config, os, host).outcome() == Some(Err::<Seq<char>, DownloadErrorView>(e)),
    ensures
        run(config, args, os, host).result() == Some(MicromambaResult::CouldNotRun),
        run(config, args, os, host).spawned == 1,
        run(config, args, os, host).notices.last() == NoticeView::CouldNotDownload(e),
        run(config, args, os, host).host == ensure_cached(config, os, host).host,
{
    law_run_unfolds(config, args, os, host);
}

/// Where there is no runtime in `$PATH` and the download succeeds, the
/// runtime in the cache is launched, and its launch decides the result.
pub proof fn law_downloaded_runtime_is_launched(
    config: ConfigView,
    args: Seq<Seq<char>>,
    os: TargetOs,
    host: Host,
    path: Seq<char>,
)
    requires
        !config.noop_mode,
        path_attempt(host, config, args) == MicromambaResult::NotFound,
        ensure_cached(config, os, host).outcome() == Some(Ok::<Seq<char>, DownloadErrorView>(path)),
    ensures
        run(config, args, os, host).spawned == 2,
        run(config, args, os, host).fetched == ensure_cached(config, os, host).fetched,
        run(config, args, os, host).requests.last() == launch_of(path, config, args),
        run(config, args, os, host).result() == Some(cached_attempt(host, path, config, args)),
        run(config, args, os, host).host == ensure_cached(config, os, host).host,
{
    law_run_unfolds(config, args, os, host);
    law_download_is_frugal(config, os, host);
}

} // verus!
