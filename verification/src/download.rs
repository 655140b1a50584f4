//! Fetching the runtime into the cache when it is not installed.

use crate::archive::{found_view, packed_members, spec_find, unpack};
use crate::csmrc::{Config, ConfigView};
use crate::micromamba::{blank_log, note, notice_views, Notice, NoticeView};
use crate::platform::{download_url, join, spec_download_url, spec_join, TargetOs};
use vstd::prelude::*;
use vstd::string::StringExecFns;
use vstd::string::StringSliceAdditionalSpecFns;

verus! {

/// Why the cache could not be made to hold the runtime.
#[derive(Clone, Debug, PartialEq, Eq)]
pub enum DownloadError {
    /// No runtime is published for this operating system.
    IncompatibleOS,
    /// The downloaded archive holds no runtime binary.
    BinNotInArchive,
    /// The cache or the archive could not be read or written; the reason.
    IO(String),
    /// The server could not be reached or refused; the reason.
    Transport(String),
}

/// A [`DownloadError`] with its reason as a sequence of characters.
pub enum DownloadErrorView {
    IncompatibleOS,
    BinNotInArchive,
    IO(Seq<char>),
    Transport(Seq<char>),
}

impl View for DownloadError {
    type V = DownloadErrorView;

    open spec fn view(&self) -> DownloadErrorView {
        match self {
            DownloadError::IncompatibleOS => DownloadErrorView::IncompatibleOS,
            DownloadError::BinNotInArchive => DownloadErrorView::BinNotInArchive,
            DownloadError::IO(reason) => DownloadErrorView::IO(reason@),
            DownloadError::Transport(reason) => DownloadErrorView::Transport(reason@),
        }
    }
}

impl DownloadErrorView {
    /// The sentence that reports this error.
    pub open spec fn message(self) -> Seq<char> {
        match self {
            DownloadErrorView::IncompatibleOS => "Incompatible OS for micromamba download"@,
            DownloadErrorView::BinNotInArchive => "micromamba binary not found in downloaded archive"@,
            DownloadErrorView::IO(reason) => "IO error: "@ + reason,
            DownloadErrorView::Transport(reason) => "Failed to download micromamba: "@ + reason,
        }
    }
}

impl DownloadError {
    /// Renders the error for the log.
    pub fn message(&self) -> (text: String)
        ensures
            text@ == self@.message(),
    {
        match self {
            DownloadError::IncompatibleOS => String::from_str(
                "Incompatible OS for micromamba download",
            ),
            DownloadError::BinNotInArchive => String::from_str(
                "micromamba binary not found in downloaded archive",
            ),
            DownloadError::IO(reason) => String::from_str("IO error: ").concat(reason.as_str()),
            DownloadError::Transport(reason) => String::from_str(
                "Failed to download micromamba: ",
            ).concat(reason.as_str()),
        }
    }
}

/// The reason given where neither the configuration nor the system names
/// a cache directory.
pub const NO_CACHE_ROOT: &'static str = "could not determine user cache directory";

/// The reason given where the cache is empty and downloading is switched
/// off.
pub const DOWNLOAD_DISABLED: &'static str =
    "Wanted to download micromamba, but downloading is switched off";

/// The reason given where the host's reply does not fit the request.
pub const OFF_SCRIPT: &'static str = "the reply does not answer the request";

/// The name of the cache directory below the user's cache root.
pub const CACHE_SUBDIR: &'static str = "csm";


/// The cache directory: the configured one where there is one, else the
/// subdirectory `csm` of the user's cache root; none where the system has
/// no cache root either.
pub open spec fn cache_dir_for(config: ConfigView, os: TargetOs, root: Option<Seq<char>>)
    -> Result<Seq<char>, DownloadErrorView> {
    match config.cache_dir {
        Some(dir) => Ok(dir),
        None => match root {
            Some(root) => Ok(spec_join(root, CACHE_SUBDIR@, os)),
            None => Err(DownloadErrorView::IO(NO_CACHE_ROOT@)),
        },
    }
}

/// A path or an error, as sequences of characters.
pub open spec fn path_view(found: Result<String, DownloadError>) -> Result<
    Seq<char>,
    DownloadErrorView,
> {
    match found {
        Ok(path) => Ok(path@),
        Err(e) => Err(e@),
    }
}

/// Chooses the cache directory. `root` is the user's cache root as the
/// system reports it; it is not looked at where the configuration names a
/// directory.
pub fn csm_cache_dir(config: &Config, os: TargetOs, root: Option<String>) -> (dir: Result<
    String,
    DownloadError,
>)
    ensures
        path_view(dir) == cache_dir_for(config@, os, crate::csmrc::text_of(root)),
{
    match &config.cache_dir {
        Some(dir) => Ok(dir.clone()),
        None => match root {
            Some(root) => Ok(join(root.as_str(), CACHE_SUBDIR, os)),
            None => Err(DownloadError::IO(String::from_str(NO_CACHE_ROOT))),
        },
    }
}

/// What the downloader asks the host to do.
#[derive(Clone, Debug, PartialEq, Eq)]
pub enum CacheRequest {
    /// Report the user's cache root.
    FindCacheRoot,
    /// Create this directory and its parents, unless it exists.
    CreateDir(String),
    /// Report whether a file exists at this path.
    Probe(String),
    /// Fetch the body behind this address.
    Fetch(String),
    /// Write `contents` to `path`, then set the permission bits `mode`
    /// where there are any.
    Install { path: String, contents: Vec<u8>, mode: Option<u32> },
}

/// What the host reports back.
#[derive(Debug, PartialEq, Eq)]
pub enum CacheEvent {
    /// The user's cache root, if the system has one.
    CacheRoot(Option<String>),
    /// The directory is there now, or the reason why not.
    DirCreated(Result<(), String>),
    /// Whether the file exists.
    Probed(bool),
    /// The body, or the reason why it could not be had.
    Fetched(Result<Vec<u8>, String>),
    /// The file is written, or the reason why not.
    Installed(Result<(), String>),
}

/// Where the downloader stands.
#[derive(Debug, PartialEq, Eq)]
pub enum DownloadPhase {
    /// Waiting for the user's cache root.
    FindingRoot,
    /// Waiting for this cache directory to be created.
    CreatingDir(String),
    /// Waiting to learn whether the binary is in the cache, at this path.
    Probing(String),
    /// Waiting for the archive; the binary will go to this path.
    Fetching(String),
    /// Waiting for the binary to be written to this path.
    Installing(String),
    /// Done: the path of the cached binary, or the reason why there is none.
    Finished(Result<String, DownloadError>),
}

/// A [`CacheRequest`] with its strings and bytes as sequences.
pub enum CacheRequestView {
    FindCacheRoot,
    CreateDir(Seq<char>),
    Probe(Seq<char>),
    Fetch(Seq<char>),
    Install { path: Seq<char>, contents: Seq<u8>, mode: Option<u32> },
}

/// A [`CacheEvent`] with its strings and bytes as sequences.
pub enum CacheEventView {
    CacheRoot(Option<Seq<char>>),
    DirCreated(Result<(), Seq<char>>),
    Probed(bool),
    Fetched(Result<Seq<u8>, Seq<char>>),
    Installed(Result<(), Seq<char>>),
}

/// A [`DownloadPhase`] with its strings as sequences of characters.
pub enum DownloadPhaseView {
    FindingRoot,
    CreatingDir(Seq<char>),
    Probing(Seq<char>),
    Fetching(Seq<char>),
    Installing(Seq<char>),
    Finished(Result<Seq<char>, DownloadErrorView>),
}

impl View for CacheRequest {
    type V = CacheRequestView;

    open spec fn view(&self) -> CacheRequestView {
        match self {
            CacheRequest::FindCacheRoot => CacheRequestView::FindCacheRoot,
            CacheRequest::CreateDir(dir) => CacheRequestView::CreateDir(dir@),
            CacheRequest::Probe(path) => CacheRequestView::Probe(path@),
            CacheRequest::Fetch(url) => CacheRequestView::Fetch(url@),
            CacheRequest::Install { path, contents, mode } => CacheRequestView::Install {
                path: path@,
                contents: contents@,
                mode: *mode,
            },
        }
    }
}

/// Success, or the characters of the reason.
pub open spec fn done_view(done: Result<(), String>) -> Result<(), Seq<char>> {
    match done {
        Ok(()) => Ok(()),
        Err(reason) => Err(reason@),
    }
}

/// The bytes of a body, or the characters of the reason.
pub open spec fn body_view(body: Result<Vec<u8>, String>) -> Result<Seq<u8>, Seq<char>> {
    match body {
        Ok(bytes) => Ok(bytes@),
        Err(reason) => Err(reason@),
    }
}

impl View for CacheEvent {
    type V = CacheEventView;

    open spec fn view(&self) -> CacheEventView {
        match self {
            CacheEvent::CacheRoot(root) => CacheEventView::CacheRoot(crate::csmrc::text_of(*root)),
            CacheEvent::DirCreated(done) => CacheEventView::DirCreated(done_view(*done)),
            CacheEvent::Probed(exists) => CacheEventView::Probed(*exists),
            CacheEvent::Fetched(body) => CacheEventView::Fetched(body_view(*body)),
            CacheEvent::Installed(done) => CacheEventView::Installed(done_view(*done)),
        }
    }
}

impl View for DownloadPhase {
    type V = DownloadPhaseView;

    open spec fn view(&self) -> DownloadPhaseView {
        match self {
            DownloadPhase::FindingRoot => DownloadPhaseView::FindingRoot,
            DownloadPhase::CreatingDir(dir) => DownloadPhaseView::CreatingDir(dir@),
            DownloadPhase::Probing(path) => DownloadPhaseView::Probing(path@),
            DownloadPhase::Fetching(path) => DownloadPhaseView::Fetching(path@),
            DownloadPhase::Installing(path) => DownloadPhaseView::Installing(path@),
            DownloadPhase::Finished(found) => DownloadPhaseView::Finished(path_view(*found)),
        }
    }
}

/// One move of the downloader: where it stands now, what is to be logged,
/// and what the host is to do next, if anything.
#[derive(Debug, PartialEq, Eq)]
pub struct DownloadStep {
    pub phase: DownloadPhase,
    pub notices: Vec<Notice>,
    pub request: Option<CacheRequest>,
}

/// A [`DownloadStep`] with its strings and bytes as sequences.
pub struct DownloadStepView {
    pub phase: DownloadPhaseView,
    pub notices: Seq<NoticeView>,
    pub request: Option<CacheRequestView>,
}

impl View for DownloadStep {
    type V = DownloadStepView;

    open spec fn view(&self) -> DownloadStepView {
        DownloadStepView {
            phase: self.phase@,
            notices: notice_views(self.notices@),
            request: match self.request {
                Some(request) => Some(request@),
                None => None,
            },
        }
    }
}

impl DownloadStepView {
    /// The downloader is done, with this outcome, and says nothing.
    pub open spec fn finished(found: Result<Seq<char>, DownloadErrorView>) -> DownloadStepView {
        DownloadStepView {
            phase: DownloadPhaseView::Finished(found),
            notices: seq![],
            request: None,
        }
    }

    /// The downloader waits in `phase` for the answer to `request`.
    pub open spec fn asking(phase: DownloadPhaseView, request: CacheRequestView)
        -> DownloadStepView {
        DownloadStepView { phase, notices: seq![], request: Some(request) }
    }
}

/// The first move: the cache directory is created, once it is known.
pub open spec fn download_start(config: ConfigView) -> DownloadStepView {
    match config.cache_dir {
        Some(dir) => DownloadStepView::asking(
            DownloadPhaseView::CreatingDir(dir),
            CacheRequestView::CreateDir(dir),
        ),
        None => DownloadStepView::asking(
            DownloadPhaseView::FindingRoot,
            CacheRequestView::FindCacheRoot,
        ),
    }
}

/// The move after the cache directory `dir` is there: the binary's place
/// in it is probed, unless no runtime is published for `os`.
pub open spec fn after_dir(dir: Seq<char>, os: TargetOs) -> DownloadStepView {
    match os.spec_layout() {
        None => DownloadStepView::finished(Err(DownloadErrorView::IncompatibleOS)),
        Some(layout) => {
            let path = spec_join(dir, layout.binary_name, os);
            DownloadStepView::asking(DownloadPhaseView::Probing(path), CacheRequestView::Probe(path))
        },
    }
}

/// The move after the cache turned out not to hold the binary: the
/// archive is fetched, unless downloading is switched off.
pub open spec fn after_miss(config: ConfigView, os: TargetOs, path: Seq<char>)
    -> DownloadStepView {
    match os.spec_layout() {
        None => DownloadStepView::finished(Err(DownloadErrorView::IncompatibleOS)),
        Some(layout) => if !config.download_micromamba {
            DownloadStepView::finished(Err(DownloadErrorView::IO(DOWNLOAD_DISABLED@)))
        } else {
            let url = spec_download_url(layout.platform_tag);
            DownloadStepView {
                phase: DownloadPhaseView::Fetching(path),
                notices: seq![NoticeView::Downloading(url)],
                request: Some(CacheRequestView::Fetch(url)),
            }
        },
    }
}

/// The move after the archive `body` has arrived: the binary is taken out
/// of it and sent to be written to `path`.
pub open spec fn after_fetch(os: TargetOs, path: Seq<char>, body: Seq<u8>) -> DownloadStepView {
    match os.spec_layout() {
        None => DownloadStepView::finished(Err(DownloadErrorView::IncompatibleOS)),
        Some(layout) => match spec_find(
            packed_members(body),
            vstd::utf8::encode_utf8(layout.archive_entry),
        ) {
            Err(e) => DownloadStepView::finished(Err(e)),
            Ok(contents) => DownloadStepView::asking(
                DownloadPhaseView::Installing(path),
                CacheRequestView::Install { path, contents, mode: os.spec_executable_mode() },
            ),
        },
    }
}

/// The downloader's move on `event` in `phase`.
///
/// A binary that is in the cache is taken as it is. A reply that does not
/// answer the pending request ends the download with an error, and a
/// downloader that is done stays as it is.
pub open spec fn download_next(
    config: ConfigView,
    os: TargetOs,
    phase: DownloadPhaseView,
    event: CacheEventView,
) -> DownloadStepView {
    match (phase, event) {
        (DownloadPhaseView::Finished(found), _) => DownloadStepView::finished(found),
        (DownloadPhaseView::FindingRoot, CacheEventView::CacheRoot(root)) => match cache_dir_for(
            config,
            os,
            root,
        ) {
            Ok(dir) => DownloadStepView::asking(
                DownloadPhaseView::CreatingDir(dir),
                CacheRequestView::CreateDir(dir),
            ),
            Err(e) => DownloadStepView::finished(Err(e)),
        },
        (DownloadPhaseView::CreatingDir(dir), CacheEventView::DirCreated(done)) => match done {
            Ok(()) => after_dir(dir, os),
            Err(reason) => DownloadStepView::finished(Err(DownloadErrorView::IO(reason))),
        },
        (DownloadPhaseView::Probing(path), CacheEventView::Probed(exists)) => if exists {
            DownloadStepView::finished(Ok(path))
        } else {
            after_miss(config, os, path)
        },
        (DownloadPhaseView::Fetching(path), CacheEventView::Fetched(body)) => match body {
            Ok(bytes) => after_fetch(os, path, bytes),
            Err(reason) => DownloadStepView::finished(Err(DownloadErrorView::Transport(reason))),
        },
        (DownloadPhaseView::Installing(path), CacheEventView::Installed(done)) => match done {
            Ok(()) => DownloadStepView::finished(Ok(path)),
            Err(reason) => DownloadStepView::finished(Err(DownloadErrorView::IO(reason))),
        },
        _ => DownloadStepView::finished(Err(DownloadErrorView::IO(OFF_SCRIPT@))),
    }
}

/// Ends the download with `found`.
fn finish(found: Result<String, DownloadError>) -> (step: DownloadStep)
    ensures
        step@ == DownloadStepView::finished(path_view(found)),
{
    DownloadStep { phase: DownloadPhase::Finished(found), notices: blank_log(), request: None }
}

/// Waits in `phase` for the answer to `request`.
fn ask(phase: DownloadPhase, request: CacheRequest) -> (step: DownloadStep)
    ensures
        step@ == DownloadStepView::asking(phase@, request@),
{
    DownloadStep { phase, notices: blank_log(), request: Some(request) }
}

/// Asks for the cache directory `dir` to be created.
fn create_dir(dir: String) -> (step: DownloadStep)
    ensures
        step@ == DownloadStepView::asking(
            DownloadPhaseView::CreatingDir(dir@),
            CacheRequestView::CreateDir(dir@),
        ),
{
    let wanted = dir.clone();
    ask(DownloadPhase::CreatingDir(dir), CacheRequest::CreateDir(wanted))
}

/// Starts the attempt to make the cache hold the runtime.
///
/// If the binary is already in the cache, its path is the outcome, and
/// nothing is downloaded. Otherwise the archive for `os` is downloaded and
/// the binary is taken out of it and written to the cache.
pub fn download_micromamba(config: &Config) -> (step: DownloadStep)
    ensures
        step@ == download_start(config@),
{
    match &config.cache_dir {
        Some(dir) => create_dir(dir.clone()),
        None => ask(DownloadPhase::FindingRoot, CacheRequest::FindCacheRoot),
    }
}

/// Carries the download on from `phase` with the host's reply `event`.
pub fn download_advance(config: &Config, os: TargetOs, phase: DownloadPhase, event: CacheEvent)
    -> (step: DownloadStep)
    ensures
        step@ == download_next(config@, os, phase@, event@),
{
    match (phase, event) {
        (DownloadPhase::Finished(found), _) => finish(found),
        (DownloadPhase::FindingRoot, CacheEvent::CacheRoot(root)) => match csm_cache_dir(
            config,
            os,
            root,
        ) {
            Ok(dir) => create_dir(dir),
            Err(e) => finish(Err(e)),
        },
        (DownloadPhase::CreatingDir(dir), CacheEvent::DirCreated(done)) => match done {
            Ok(()) => match os.layout() {
                None => finish(Err(DownloadError::IncompatibleOS)),
                Some(layout) => {
                    let path = join(dir.as_str(), layout.binary_name, os);
                    let probed = path.clone();
                    ask(DownloadPhase::Probing(path), CacheRequest::Probe(probed))
                },
            },
            Err(reason) => finish(Err(DownloadError::IO(reason))),
        },
        (DownloadPhase::Probing(path), CacheEvent::Probed(exists)) => if exists {
            finish(Ok(path))
        } else {
            match os.layout() {
                None => finish(Err(DownloadError::IncompatibleOS)),
                Some(layout) => if !config.download_micromamba {
                    finish(Err(DownloadError::IO(String::from_str(DOWNLOAD_DISABLED))))
                } else {
                    let url = download_url(layout.platform_tag);
                    let mut notices = blank_log();
                    note(&mut notices, Notice::Downloading(url.clone()));
                    DownloadStep {
                        phase: DownloadPhase::Fetching(path),
                        notices,
                        request: Some(CacheRequest::Fetch(url)),
                    }
                },
            }
        },
        (DownloadPhase::Fetching(path), CacheEvent::Fetched(body)) => match body {
            Ok(bytes) => match os.layout() {
                None => finish(Err(DownloadError::IncompatibleOS)),
                Some(layout) => match unpack(bytes.as_slice(), layout.archive_entry.as_bytes()) {
                    Err(e) => finish(Err(e)),
                    Ok(contents) => {
                        let target = path.clone();
                        ask(
                            DownloadPhase::Installing(path),
                            CacheRequest::Install {
                                path: target,
                                contents,
                                mode: os.executable_mode(),
                            },
                        )
                    },
                },
            },
            Err(reason) => finish(Err(DownloadError::Transport(reason))),
        },
        (DownloadPhase::Installing(path), CacheEvent::Installed(done)) => match done {
            Ok(()) => finish(Ok(path)),
            Err(reason) => finish(Err(DownloadError::IO(reason))),
        },
        _ => finish(Err(DownloadError::IO(String::from_str(OFF_SCRIPT)))),
    }
}

} // verus!
