use csm::csmrc::Config;
use csm::download::{
    download_advance, download_micromamba, CacheEvent, CacheRequest, DownloadError,
    DownloadPhase,
};
use csm::micromamba::{
    advance, micromamba, Event, ExitStatus, MicromambaResult, Notice, Phase, ProcessDescriptor,
    Request, SpawnOutcome, WaitOutcome,
};
use csm::platform::TargetOs;
use std::collections::{HashMap, HashSet};
use std::io::Write;

/// A host that answers from tables, and keeps what is written to it.
struct Host {
    programs: HashMap<String, SpawnOutcome>,
    cache_root: Option<String>,
    unwritable_dirs: HashMap<String, String>,
    files: HashSet<String>,
    modes: HashMap<String, Option<u32>>,
    written: HashMap<String, Vec<u8>>,
    server: HashMap<String, Result<Vec<u8>, String>>,
    write_error: Option<String>,
    requests: Vec<String>,
    launched: Vec<ProcessDescriptor>,
}

impl Host {
    fn new() -> Host {
        Host {
            programs: HashMap::new(),
            cache_root: Some("/home/user/.cache".to_string()),
            unwritable_dirs: HashMap::new(),
            files: HashSet::new(),
            modes: HashMap::new(),
            written: HashMap::new(),
            server: HashMap::new(),
            write_error: None,
            requests: Vec::new(),
            launched: Vec::new(),
        }
    }

    fn with_program(mut self, path: &str, outcome: SpawnOutcome) -> Host {
        self.programs.insert(path.to_string(), outcome);
        self
    }

    fn with_file(mut self, path: &str) -> Host {
        self.files.insert(path.to_string());
        self
    }

    fn with_archive(mut self, url: &str, body: Result<Vec<u8>, String>) -> Host {
        self.server.insert(url.to_string(), body);
        self
    }

    fn serve(&mut self, request: CacheRequest) -> CacheEvent {
        match request {
            CacheRequest::FindCacheRoot => {
                self.requests.push("root".to_string());
                CacheEvent::CacheRoot(self.cache_root.clone())
            }
            CacheRequest::CreateDir(dir) => {
                self.requests.push(format!("mkdir {}", dir));
                CacheEvent::DirCreated(match self.unwritable_dirs.get(&dir) {
                    Some(reason) => Err(reason.clone()),
                    None => Ok(()),
                })
            }
            CacheRequest::Probe(path) => {
                self.requests.push(format!("probe {}", path));
                CacheEvent::Probed(self.files.contains(&path))
            }
            CacheRequest::Fetch(url) => {
                self.requests.push(format!("fetch {}", url));
                CacheEvent::Fetched(match self.server.get(&url) {
                    Some(body) => body.clone(),
                    None => Err("connection refused".to_string()),
                })
            }
            CacheRequest::Install { path, contents, mode } => {
                self.requests.push(format!("install {}", path));
                CacheEvent::Installed(match &self.write_error {
                    Some(reason) => Err(reason.clone()),
                    None => {
                        self.files.insert(path.clone());
                        self.modes.insert(path.clone(), mode);
                        self.written.insert(path, contents);
                        Ok(())
                    }
                })
            }
        }
    }

    fn answer(&mut self, request: Request) -> Event {
        match request {
            Request::Spawn(cmd) => {
                self.requests.push(format!("spawn {}", cmd.program));
                let outcome = match self.programs.get(&cmd.program) {
                    Some(outcome) => outcome.clone(),
                    None => SpawnOutcome::NotFound("No such file or directory".to_string()),
                };
                self.launched.push(cmd);
                Event::Spawned(outcome)
            }
            Request::Cache(request) => Event::Cache(self.serve(request)),
        }
    }

    fn fetches(&self) -> usize {
        self.requests.iter().filter(|r| r.starts_with("fetch ")).count()
    }
}

/// Runs `micromamba` to its end against `host`.
fn run(config: &Config, args: &Vec<&str>, os: TargetOs, host: &mut Host) -> (MicromambaResult, Vec<Notice>) {
    let mut log = Vec::new();
    let mut step = micromamba(config, args);
    loop {
        log.append(&mut step.notices);
        match step.request {
            None => break,
            Some(request) => step = advance(config, args, os, step.phase, host.answer(request)),
        }
    }
    match step.phase {
        Phase::Done(result) => (result, log),
        phase => panic!("the run stopped in {:?}", phase),
    }
}

/// Runs a download to its end against `host`.
fn download(config: &Config, os: TargetOs, host: &mut Host) -> Result<String, DownloadError> {
    let mut step = download_micromamba(config);
    loop {
        match step.request {
            None => break,
            Some(request) => step = download_advance(config, os, step.phase, host.serve(request)),
        }
    }
    match step.phase {
        DownloadPhase::Finished(found) => found,
        phase => panic!("the download stopped in {:?}", phase),
    }
}

fn exits_with(code: i32) -> SpawnOutcome {
    SpawnOutcome::Started(WaitOutcome::Exited(ExitStatus { code: Some(code), signal: None }))
}

fn completed(code: i32) -> MicromambaResult {
    MicromambaResult::Completed(ExitStatus { code: Some(code), signal: None })
}

/// Whether a line of the log, written out as the program writes it, holds `text`.
fn logged(log: &Vec<Notice>, text: &str) -> bool {
    log.iter().any(|notice| {
        let line = match notice {
            Notice::WouldRun(cmd) | Notice::AboutToRun(cmd) => {
                format!("{}: {:?}", notice.summary(), cmd)
            }
            Notice::CouldNotDownload(e) => format!("{}: {}", notice.summary(), e.message()),
            _ => notice.summary().to_string(),
        };
        line.contains(text)
    })
}

/// A tar archive with these members, compressed with bzip2.
fn packed(members: &[(&str, &[u8])]) -> Vec<u8> {
    let mut builder = tar::Builder::new(Vec::new());
    for (path, contents) in members {
        let mut header = tar::Header::new_gnu();
        header.set_size(contents.len() as u64);
        header.set_mode(0o755);
        builder.append_data(&mut header, path, *contents).unwrap();
    }
    let mut encoder = bzip2::write::BzEncoder::new(Vec::new(), bzip2::Compression::default());
    encoder.write_all(&builder.into_inner().unwrap()).unwrap();
    encoder.finish().unwrap()
}

/// The configuration of the tests below: a cache directory of their own, and no downloads.
fn create_test_csmrc(cache_dir: &str) -> Config {
    Config {
        cache_dir: Some(cache_dir.to_string()),
        download_micromamba: false,
        ..Config::default()
    }
}

const LINUX_URL: &str = "https://micro.mamba.pm/api/micromamba/linux-64/latest";

/// Test micromamba found in $PATH
#[test]
fn test_micromamba_in_path_success() {
    let mut host = Host::new().with_program("micromamba", exits_with(1));
    let args = vec!["env", "create", "--name", "test-env"];

    let (result, log) = run(&Config::default(), &args, TargetOs::Posix, &mut host);

    // no robotmk-env.yaml, so micromamba fails
    assert_eq!(result, completed(1));
    assert_ne!(result.exit_code(), 0);
    assert!(logged(&log, "Ran micromamba found in $PATH"));
    assert_eq!(host.requests, vec!["spawn micromamba"]);
    assert_eq!(host.launched[0].args, args);
}

/// Test micromamba found in $PATH but fails to execute
#[test]
fn test_micromamba_in_path_cannot_be_run() {
    // Just a file named micromamba that is not executable
    let not_an_executable = SpawnOutcome::Failed("Permission denied (os error 13)".to_string());
    let mut host = Host::new().with_program("micromamba", not_an_executable);
    let args = vec!["env", "create", "--name", "test-env"];

    let (result, log) = run(&Config::default(), &args, TargetOs::Posix, &mut host);

    assert_eq!(result, MicromambaResult::CouldNotRun);
    assert_ne!(result.exit_code(), 0);
    assert!(logged(&log, "micromamba found in $PATH could not be run, aborting"));
    assert_eq!(host.requests, vec!["spawn micromamba"]);
}

/// micromamba not in $PATH, but cached version exists and works
#[test]
fn test_micromamba_fallback_to_cache_success() {
    let mut host = Host::new()
        .with_file("/tmp/cache/micromamba")
        .with_program("/tmp/cache/micromamba", exits_with(1));
    let config = create_test_csmrc("/tmp/cache");
    let args = vec!["env", "create", "--name", "test-env"];

    let (result, log) = run(&config, &args, TargetOs::Posix, &mut host);

    // no robotmk-env.yaml, so micromamba fails
    assert_eq!(result, completed(1));
    assert_ne!(result.exit_code(), 0);
    assert!(logged(&log, "micromamba not found in $PATH, falling back to cache"));
    assert!(logged(&log, "Ran downloaded/cached micromamba"));
    assert!(!logged(&log, "Wanted to download micromamba"));
    assert_eq!(host.fetches(), 0);
}

/// micromamba not in $PATH and not cached, download would be attempted but is disabled
#[test]
fn test_micromamba_fallback_to_download() {
    let mut host = Host::new();
    let config = create_test_csmrc("/tmp/cache");
    let args = vec!["env", "create", "--name", "test-env"];

    let (result, log) = run(&config, &args, TargetOs::Posix, &mut host);

    // Should fail because downloads are disabled
    assert_eq!(result, MicromambaResult::CouldNotRun);
    assert_ne!(result.exit_code(), 0);
    assert!(logged(&log, "micromamba not found in $PATH, falling back to cache"));
    assert!(logged(&log, "Wanted to download micromamba"));
    assert_eq!(host.fetches(), 0);
}

/// noop mode doesn't actually execute anything
#[test]
fn test_noop_mode() {
    let mut host = Host::new().with_program("micromamba", exits_with(1));
    let config = Config::default().with_noop(true);
    let args = vec!["env", "create", "--name", "test-env"];

    let (result, log) = run(&config, &args, TargetOs::Posix, &mut host);

    assert_eq!(result, MicromambaResult::Noop);
    assert_eq!(result.exit_code(), 0);
    assert!(logged(&log, "Would run:"));
    assert!(host.requests.is_empty());
}

#[test]
fn noop_mode_announces_the_launch_it_leaves_out() {
    let config = Config {
        noop_mode: true,
        mamba_root_prefix: Some("/opt/mamba".to_string()),
        ..Config::default()
    };
    let step = micromamba(&config, &vec!["info"]);
    assert_eq!(step.phase, Phase::Done(MicromambaResult::Noop));
    assert_eq!(step.request, None);
    assert_eq!(
        step.notices,
        vec![Notice::WouldRun(ProcessDescriptor {
            program: "micromamba".to_string(),
            args: vec!["info".to_string()],
            envs: vec![("MAMBA_ROOT_PREFIX".to_string(), "/opt/mamba".to_string())],
        })]
    );
}

#[test]
fn first_move_launches_the_bare_name() {
    let step = micromamba(&Config::default(), &vec!["info"]);
    let cmd = ProcessDescriptor {
        program: "micromamba".to_string(),
        args: vec!["info".to_string()],
        envs: Vec::new(),
    };
    assert_eq!(step.phase, Phase::TryingPath);
    assert_eq!(step.notices, vec![Notice::AboutToRun(cmd.clone())]);
    assert_eq!(step.request, Some(Request::Spawn(cmd)));
}

#[test]
fn working_runtime_in_path_leaves_cache_and_network_alone() {
    let mut host = Host::new()
        .with_program("micromamba", exits_with(0))
        .with_file("/home/user/.cache/csm/micromamba")
        .with_archive(LINUX_URL, Ok(packed(&[("bin/micromamba", b"x")])));
    let (result, log) = run(&Config::default(), &vec!["info"], TargetOs::Posix, &mut host);
    assert_eq!(result, completed(0));
    assert_eq!(result.exit_code(), 0);
    assert_eq!(host.requests, vec!["spawn micromamba"]);
    assert!(host.written.is_empty());
    assert_eq!(log.last(), Some(&Notice::RanFromPath));
}

#[test]
fn runtime_ended_by_a_signal_has_completed() {
    let killed = ExitStatus { code: None, signal: Some(15) };
    let outcome = SpawnOutcome::Started(WaitOutcome::Exited(killed));
    let mut host = Host::new().with_program("micromamba", outcome);
    let (result, log) = run(&Config::default(), &Vec::new(), TargetOs::Posix, &mut host);
    assert_eq!(result, MicromambaResult::Completed(killed));
    assert_eq!(result.exit_code(), 1);
    assert_eq!(host.requests, vec!["spawn micromamba"]);
    assert_eq!(log[1..], [Notice::Exited(killed), Notice::RanFromPath]);
}

#[test]
fn failed_wait_in_path_ends_the_run() {
    let broken = SpawnOutcome::Started(WaitOutcome::Failed("interrupted".to_string()));
    let mut host = Host::new().with_program("micromamba", broken).with_file("/c/micromamba");
    let config = Config { cache_dir: Some("/c".to_string()), ..Config::default() };
    let (result, log) = run(&config, &Vec::new(), TargetOs::Posix, &mut host);
    assert_eq!(result, MicromambaResult::CouldNotRun);
    assert_eq!(host.requests, vec!["spawn micromamba"]);
    assert_eq!(
        log[1..],
        [Notice::WaitFailed("interrupted".to_string()), Notice::PathBinaryBroken]
    );
}

#[test]
fn cached_runtime_is_used_without_network() {
    let mut host = Host::new()
        .with_file("/home/user/.cache/csm/micromamba")
        .with_program("/home/user/.cache/csm/micromamba", exits_with(7));
    let (result, log) = run(&Config::default(), &vec!["info"], TargetOs::Posix, &mut host);
    assert_eq!(result, completed(7));
    assert_eq!(result.exit_code(), 7);
    assert_eq!(
        host.requests,
        vec![
            "spawn micromamba",
            "root",
            "mkdir /home/user/.cache/csm",
            "probe /home/user/.cache/csm/micromamba",
            "spawn /home/user/.cache/csm/micromamba",
        ]
    );
    assert_eq!(
        log.last(),
        Some(&Notice::RanCached("/home/user/.cache/csm/micromamba".to_string()))
    );
    assert_eq!(host.launched[1].args, vec!["info"]);
}

#[test]
fn cached_runtime_on_windows_has_the_exe_name() {
    let mut host = Host::new()
        .with_file("C:\\cache\\micromamba.exe")
        .with_program("C:\\cache\\micromamba.exe", exits_with(0));
    let config = Config { cache_dir: Some("C:\\cache".to_string()), ..Config::default() };
    let (result, _) = run(&config, &Vec::new(), TargetOs::Windows, &mut host);
    assert_eq!(result, completed(0));
    assert_eq!(
        host.requests,
        vec![
            "spawn micromamba",
            "mkdir C:\\cache",
            "probe C:\\cache\\micromamba.exe",
            "spawn C:\\cache\\micromamba.exe",
        ]
    );
}

#[test]
fn disabled_download_differs_from_a_transport_failure_in_the_log() {
    let mut host = Host::new();
    let (disabled, disabled_log) =
        run(&create_test_csmrc("/tmp/cache"), &Vec::new(), TargetOs::Posix, &mut host);
    assert_eq!(
        disabled_log.last(),
        Some(&Notice::CouldNotDownload(DownloadError::IO(
            "Wanted to download micromamba, but downloading is switched off".to_string()
        )))
    );
    assert_eq!(host.fetches(), 0);

    let mut host = Host::new().with_archive(LINUX_URL, Err("timed out".to_string()));
    let config = Config { cache_dir: Some("/tmp/cache".to_string()), ..Config::default() };
    let (refused, refused_log) = run(&config, &Vec::new(), TargetOs::Posix, &mut host);
    assert_eq!(
        refused_log.last(),
        Some(&Notice::CouldNotDownload(DownloadError::Transport("timed out".to_string())))
    );
    assert_eq!(host.fetches(), 1);

    assert_eq!(disabled, MicromambaResult::CouldNotRun);
    assert_eq!(refused, MicromambaResult::CouldNotRun);
    assert_ne!(disabled_log.last(), refused_log.last());
}

#[test]
fn download_puts_the_binary_into_the_cache_and_runs_it() {
    let binary = b"#!/bin/sh\nexit 3\n";
    let mut host = Host::new()
        .with_archive(LINUX_URL, Ok(packed(&[("info/index.json", b"{}"), ("bin/micromamba", binary)])))
        .with_program("/var/cache/csm/micromamba", exits_with(3));
    host.cache_root = Some("/var/cache".to_string());

    let (result, log) = run(&Config::default(), &vec!["--version"], TargetOs::Posix, &mut host);

    assert_eq!(result, completed(3));
    assert_eq!(result.exit_code(), 3);
    assert!(host.files.contains("/var/cache/csm/micromamba"));
    assert_eq!(host.written["/var/cache/csm/micromamba"], binary);
    assert_eq!(host.modes["/var/cache/csm/micromamba"], Some(0o755));
    assert_eq!(
        host.requests,
        vec![
            "spawn micromamba",
            "root",
            "mkdir /var/cache/csm",
            "probe /var/cache/csm/micromamba",
            "fetch https://micro.mamba.pm/api/micromamba/linux-64/latest",
            "install /var/cache/csm/micromamba",
            "spawn /var/cache/csm/micromamba",
        ]
    );
    assert!(log.contains(&Notice::Downloading(LINUX_URL.to_string())));
    assert_eq!(log.last(), Some(&Notice::RanCached("/var/cache/csm/micromamba".to_string())));
}

#[test]
fn archive_without_the_binary_writes_nothing() {
    let archive = packed(&[("info/index.json", b"{}"), ("bin/activate", b"x")]);
    let mut host = Host::new().with_archive(LINUX_URL, Ok(archive.clone()));
    assert_eq!(
        download(&Config::default(), TargetOs::Posix, &mut host),
        Err(DownloadError::BinNotInArchive)
    );
    assert!(host.files.is_empty());
    assert!(host.written.is_empty());

    let mut host = Host::new().with_archive(LINUX_URL, Ok(archive));
    let (result, log) = run(&Config::default(), &Vec::new(), TargetOs::Posix, &mut host);
    assert_eq!(result, MicromambaResult::CouldNotRun);
    assert_eq!(log.last(), Some(&Notice::CouldNotDownload(DownloadError::BinNotInArchive)));
    assert!(host.files.is_empty());
    assert_eq!(host.requests.last().unwrap(), &format!("fetch {}", LINUX_URL));
}

#[test]
fn second_download_is_a_cache_hit() {
    let mut host =
        Host::new().with_archive(LINUX_URL, Ok(packed(&[("bin/micromamba", b"binary")])));
    let config = Config::default();

    let first = download(&config, TargetOs::Posix, &mut host);
    assert_eq!(first, Ok("/home/user/.cache/csm/micromamba".to_string()));
    assert_eq!(host.fetches(), 1);

    let second = download(&config, TargetOs::Posix, &mut host);
    assert_eq!(second, first);
    assert_eq!(host.fetches(), 1);
}

#[test]
fn cached_file_is_trusted_as_it_is() {
    let mut host = Host::new()
        .with_file("/home/user/.cache/csm/micromamba")
        .with_archive(LINUX_URL, Ok(packed(&[("bin/micromamba", b"newer")])));
    assert_eq!(
        download(&Config::default(), TargetOs::Posix, &mut host),
        Ok("/home/user/.cache/csm/micromamba".to_string())
    );
    assert_eq!(host.fetches(), 0);
    assert!(host.written.is_empty());
}

#[test]
fn windows_download_takes_the_library_entry() {
    let archive = packed(&[("bin/micromamba", b"elf"), ("Library/bin/micromamba.exe", b"MZ")]);
    let url = "https://micro.mamba.pm/api/micromamba/win-64/latest";
    let mut host = Host::new().with_archive(url, Ok(archive));
    host.cache_root = Some("C:\\Users\\u\\AppData\\Local".to_string());
    let found = download(&Config::default(), TargetOs::Windows, &mut host);
    let path = "C:\\Users\\u\\AppData\\Local\\csm\\micromamba.exe";
    assert_eq!(found, Ok(path.to_string()));
    assert_eq!(host.written[path], b"MZ");
    assert_eq!(host.modes[path], None);
}

#[test]
fn unsupported_system_fails_after_the_cache_directory() {
    let mut host = Host::new();
    assert_eq!(
        download(&Config::default(), TargetOs::Unsupported, &mut host),
        Err(DownloadError::IncompatibleOS)
    );
    assert_eq!(host.requests, vec!["root", "mkdir /home/user/.cache/csm"]);
}

#[test]
fn missing_cache_root_is_an_io_error() {
    let mut host = Host::new();
    host.cache_root = None;
    assert_eq!(
        download(&Config::default(), TargetOs::Posix, &mut host),
        Err(DownloadError::IO("could not determine user cache directory".to_string()))
    );
    assert_eq!(host.requests, vec!["root"]);
}

#[test]
fn configured_cache_directory_is_used_verbatim() {
    let mut host = Host::new().with_file("relative/dir/micromamba");
    host.cache_root = None;
    let config = Config { cache_dir: Some("relative/dir".to_string()), ..Config::default() };
    assert_eq!(
        download(&config, TargetOs::Posix, &mut host),
        Ok("relative/dir/micromamba".to_string())
    );
    assert_eq!(host.requests, vec!["mkdir relative/dir", "probe relative/dir/micromamba"]);
}

#[test]
fn cache_directory_that_cannot_be_created_is_an_io_error() {
    let mut host = Host::new();
    host.unwritable_dirs.insert("/ro/cache".to_string(), "Read-only file system".to_string());
    let config = Config { cache_dir: Some("/ro/cache".to_string()), ..Config::default() };
    assert_eq!(
        download(&config, TargetOs::Posix, &mut host),
        Err(DownloadError::IO("Read-only file system".to_string()))
    );
    let (result, _) = run(&config, &Vec::new(), TargetOs::Posix, &mut host);
    assert_eq!(result, MicromambaResult::CouldNotRun);
}

#[test]
fn failed_write_is_an_io_error() {
    let mut host = Host::new().with_archive(LINUX_URL, Ok(packed(&[("bin/micromamba", b"b")])));
    host.write_error = Some("No space left on device".to_string());
    assert_eq!(
        download(&Config::default(), TargetOs::Posix, &mut host),
        Err(DownloadError::IO("No space left on device".to_string()))
    );
    assert!(host.files.is_empty());
}

#[test]
fn damaged_archive_is_an_io_error() {
    let mut host = Host::new().with_archive(LINUX_URL, Ok(b"<html>not found</html>".to_vec()));
    let found = download(&Config::default(), TargetOs::Posix, &mut host);
    assert!(matches!(found, Err(DownloadError::IO(_))), "{:?}", found);
    assert!(host.files.is_empty());
}

#[test]
fn cached_runtime_that_cannot_be_run_ends_in_could_not_run() {
    let path = "/home/user/.cache/csm/micromamba";
    let mut host = Host::new()
        .with_file(path)
        .with_program(path, SpawnOutcome::Failed("Exec format error".to_string()));
    let (result, log) = run(&Config::default(), &Vec::new(), TargetOs::Posix, &mut host);
    assert_eq!(result, MicromambaResult::CouldNotRun);
    assert_eq!(
        log[log.len() - 3..],
        [
            Notice::SpawnFailed("Exec format error".to_string()),
            Notice::CachedCouldNotRun(path.to_string()),
            Notice::NoSuitableBinary,
        ]
    );
}

#[test]
fn cached_runtime_that_vanished_ends_in_could_not_run() {
    let path = "/home/user/.cache/csm/micromamba";
    let mut host = Host::new().with_file(path);
    let (result, log) = run(&Config::default(), &Vec::new(), TargetOs::Posix, &mut host);
    assert_eq!(result, MicromambaResult::CouldNotRun);
    assert_eq!(log.last(), Some(&Notice::NoSuitableBinary));
    assert!(!log.contains(&Notice::CachedCouldNotRun(path.to_string())));
}

#[test]
fn reply_that_does_not_answer_ends_the_run() {
    let config = Config::default();
    let args = Vec::new();
    let step = advance(
        &config,
        &args,
        TargetOs::Posix,
        Phase::TryingPath,
        Event::Cache(CacheEvent::Probed(true)),
    );
    assert_eq!(step.phase, Phase::Done(MicromambaResult::CouldNotRun));
    assert_eq!(step.notices, vec![Notice::UnexpectedReply]);
    assert_eq!(step.request, None);
}

#[test]
fn reply_that_does_not_answer_ends_the_download() {
    let step = download_advance(
        &Config::default(),
        TargetOs::Posix,
        DownloadPhase::Probing("/c/micromamba".to_string()),
        CacheEvent::Installed(Ok(())),
    );
    assert_eq!(
        step.phase,
        DownloadPhase::Finished(Err(DownloadError::IO(
            "the reply does not answer the request".to_string()
        )))
    );
    assert_eq!(step.request, None);
}

#[test]
fn finished_run_stays_finished() {
    let config = Config::default();
    let args = Vec::new();
    let step = advance(
        &config,
        &args,
        TargetOs::Posix,
        Phase::Done(completed(4)),
        Event::Spawned(exits_with(0)),
    );
    assert_eq!(step.phase, Phase::Done(completed(4)));
    assert!(step.notices.is_empty());
    assert_eq!(step.request, None);
}

#[test]
fn finished_download_stays_finished() {
    let step = download_advance(
        &Config::default(),
        TargetOs::Posix,
        DownloadPhase::Finished(Ok("/c/micromamba".to_string())),
        CacheEvent::Probed(false),
    );
    assert_eq!(step.phase, DownloadPhase::Finished(Ok("/c/micromamba".to_string())));
    assert_eq!(step.request, None);
}
