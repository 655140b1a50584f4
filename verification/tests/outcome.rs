use csm::csmrc::Config;
use csm::download::DownloadError;
use csm::micromamba::{
    block_on_child_exit, exec_micromamba, micromamba_at, ExitStatus, Level, MicromambaResult,
    Notice, SpawnOutcome, WaitOutcome, EXIT_FAILURE, EXIT_SUCCESS,
};

fn exited(code: i32) -> MicromambaResult {
    MicromambaResult::Completed(ExitStatus { code: Some(code), signal: None })
}

#[test]
fn exit_codes_are_zero_and_one() {
    assert_eq!(EXIT_SUCCESS, 0);
    assert_eq!(EXIT_FAILURE, 1);
}

#[test]
fn noop_exits_with_success() {
    assert_eq!(MicromambaResult::Noop.exit_code(), 0);
}

#[test]
fn completed_passes_the_childs_code_on() {
    assert_eq!(exited(0).exit_code(), 0);
    assert_eq!(exited(1).exit_code(), 1);
    assert_eq!(exited(3).exit_code(), 3);
    assert_eq!(exited(127).exit_code(), 127);
    assert_eq!(exited(255).exit_code(), 255);
}

#[test]
fn code_that_does_not_fit_is_a_failure() {
    assert_eq!(exited(256).exit_code(), 1);
    assert_eq!(exited(-1).exit_code(), 1);
    assert_eq!(exited(i32::MAX).exit_code(), 1);
    assert_eq!(exited(i32::MIN).exit_code(), 1);
}

#[test]
fn child_ended_by_a_signal_is_a_failure() {
    let killed = ExitStatus { code: None, signal: Some(9) };
    assert_eq!(MicromambaResult::Completed(killed).exit_code(), 1);
}

#[test]
fn child_ended_by_a_signal_has_completed_with_its_status_as_it_is() {
    let mut log = Vec::new();
    let killed = ExitStatus { code: None, signal: Some(9) };
    let spawned = SpawnOutcome::Started(WaitOutcome::Exited(killed));
    let result = exec_micromamba(spawned, &mut log);
    assert_eq!(result, MicromambaResult::Completed(killed));
    assert!(matches!(
        result,
        MicromambaResult::Completed(s) if s.code == None && s.signal == Some(9)
    ));
    assert_eq!(log, vec![Notice::Exited(killed)]);
}

#[test]
fn child_without_a_code_is_a_failure() {
    assert_eq!(MicromambaResult::Completed(ExitStatus { code: None, signal: None }).exit_code(), 1);
}

#[test]
fn not_found_and_could_not_run_are_failures() {
    assert_eq!(MicromambaResult::NotFound.exit_code(), 1);
    assert_eq!(MicromambaResult::CouldNotRun.exit_code(), 1);
}

#[test]
fn descriptor_keeps_path_and_arguments() {
    let args = vec!["env", "create", "--name", "test-env"];
    let mut log = Vec::new();
    let cmd = micromamba_at("/cache/csm/micromamba", &Config::default(), &args, &mut log);
    assert_eq!(cmd.program, "/cache/csm/micromamba");
    assert_eq!(cmd.args, vec!["env", "create", "--name", "test-env"]);
    assert!(cmd.envs.is_empty());
}

#[test]
fn descriptor_without_arguments() {
    let cmd = micromamba_at("micromamba", &Config::default(), &Vec::new(), &mut Vec::new());
    assert_eq!(cmd.program, "micromamba");
    assert!(cmd.args.is_empty());
    assert!(cmd.envs.is_empty());
}

#[test]
fn descriptor_sets_the_root_prefix_where_configured() {
    let config = Config { mamba_root_prefix: Some("/opt/mamba".to_string()), ..Config::default() };
    let cmd = micromamba_at("micromamba", &config, &vec!["info"], &mut Vec::new());
    assert_eq!(cmd.envs, vec![("MAMBA_ROOT_PREFIX".to_string(), "/opt/mamba".to_string())]);
    assert_eq!(cmd.args, vec!["info"]);
}

#[test]
fn descriptor_is_the_same_in_noop_mode() {
    let config = Config { noop_mode: true, ..Config::default() };
    let cmd = micromamba_at("micromamba", &config, &vec!["info"], &mut Vec::new());
    let usual = micromamba_at("micromamba", &Config::default(), &vec!["info"], &mut Vec::new());
    assert_eq!(cmd, usual);
}

#[test]
fn launch_is_logged_as_about_to_run() {
    let mut log = vec![Notice::FallingBackToCache];
    let cmd = micromamba_at("/c/micromamba", &Config::default(), &vec!["info"], &mut log);
    assert_eq!(log, vec![Notice::FallingBackToCache, Notice::AboutToRun(cmd)]);
    assert_eq!(log[1].level(), Level::Debug);
}

#[test]
fn launch_is_logged_as_would_run_in_noop_mode() {
    let config = Config { noop_mode: true, ..Config::default() };
    let mut log = Vec::new();
    let cmd = micromamba_at("micromamba", &config, &vec!["info"], &mut log);
    assert_eq!(log, vec![Notice::WouldRun(cmd)]);
    assert_eq!(log[0].level(), Level::Info);
}

#[test]
fn child_that_ends_has_completed_whatever_its_code() {
    let mut log = Vec::new();
    let status = ExitStatus { code: Some(2), signal: None };
    let result = block_on_child_exit(WaitOutcome::Exited(status), &mut log);
    assert_eq!(result, MicromambaResult::Completed(status));
    assert_eq!(log, vec![Notice::Exited(status)]);
}

#[test]
fn failed_wait_means_could_not_run() {
    let mut log = vec![Notice::RanFromPath];
    let result = block_on_child_exit(WaitOutcome::Failed("interrupted".to_string()), &mut log);
    assert_eq!(result, MicromambaResult::CouldNotRun);
    assert_eq!(log, vec![Notice::RanFromPath, Notice::WaitFailed("interrupted".to_string())]);
}

#[test]
fn only_not_found_means_not_found() {
    let mut log = Vec::new();
    let spawned = SpawnOutcome::NotFound("No such file or directory (os error 2)".to_string());
    assert_eq!(exec_micromamba(spawned, &mut log), MicromambaResult::NotFound);
    assert_eq!(log, vec![Notice::NotAtPath("No such file or directory (os error 2)".to_string())]);
}

#[test]
fn other_spawn_failures_mean_could_not_run() {
    let mut log = Vec::new();
    let spawned = SpawnOutcome::Failed("Permission denied (os error 13)".to_string());
    assert_eq!(exec_micromamba(spawned, &mut log), MicromambaResult::CouldNotRun);
    assert_eq!(log, vec![Notice::SpawnFailed("Permission denied (os error 13)".to_string())]);
}

#[test]
fn started_child_is_judged_by_its_wait() {
    let mut log = Vec::new();
    let status = ExitStatus { code: None, signal: None };
    let spawned = SpawnOutcome::Started(WaitOutcome::Exited(status));
    assert_eq!(exec_micromamba(spawned, &mut log), MicromambaResult::Completed(status));
    let spawned = SpawnOutcome::Started(WaitOutcome::Failed("gone".to_string()));
    assert_eq!(exec_micromamba(spawned, &mut log), MicromambaResult::CouldNotRun);
    assert_eq!(log, vec![Notice::Exited(status), Notice::WaitFailed("gone".to_string())]);
}

#[test]
fn errors_are_logged_as_errors() {
    assert_eq!(Notice::SpawnFailed("x".to_string()).level(), Level::Error);
    assert_eq!(Notice::WaitFailed("x".to_string()).level(), Level::Error);
    assert_eq!(Notice::CouldNotDownload(DownloadError::BinNotInArchive).level(), Level::Error);
    assert_eq!(Notice::NoSuitableBinary.level(), Level::Error);
    assert_eq!(Notice::UnexpectedReply.level(), Level::Error);
}

#[test]
fn launch_is_announced_at_info_only_in_noop_mode() {
    let cmd = micromamba_at("micromamba", &Config::default(), &Vec::new(), &mut Vec::new());
    assert_eq!(Notice::WouldRun(cmd.clone()).level(), Level::Info);
    assert_eq!(Notice::AboutToRun(cmd).level(), Level::Debug);
}

#[test]
fn progress_is_logged_for_debugging() {
    assert_eq!(Notice::Exited(ExitStatus { code: Some(0), signal: None }).level(), Level::Debug);
    assert_eq!(Notice::NotAtPath("x".to_string()).level(), Level::Debug);
    assert_eq!(Notice::RanFromPath.level(), Level::Debug);
    assert_eq!(Notice::PathBinaryBroken.level(), Level::Debug);
    assert_eq!(Notice::FallingBackToCache.level(), Level::Debug);
    assert_eq!(Notice::RanCached("p".to_string()).level(), Level::Debug);
    assert_eq!(Notice::CachedCouldNotRun("p".to_string()).level(), Level::Debug);
    assert_eq!(Notice::Downloading("u".to_string()).level(), Level::Info);
}

#[test]
fn summaries_name_the_transitions() {
    let cmd = micromamba_at("micromamba", &Config::default(), &Vec::new(), &mut Vec::new());
    assert_eq!(Notice::WouldRun(cmd.clone()).summary(), "Would run");
    assert_eq!(Notice::AboutToRun(cmd).summary(), "About to run");
    assert_eq!(Notice::RanFromPath.summary(), "Ran micromamba found in $PATH");
    assert_eq!(
        Notice::PathBinaryBroken.summary(),
        "micromamba found in $PATH could not be run, aborting"
    );
    assert_eq!(
        Notice::FallingBackToCache.summary(),
        "micromamba not found in $PATH, falling back to cache"
    );
    assert_eq!(
        Notice::CouldNotDownload(DownloadError::IncompatibleOS).summary(),
        "Could not download micromamba"
    );
    assert_eq!(Notice::RanCached("p".to_string()).summary(), "Ran downloaded/cached micromamba");
    assert!(Notice::NoSuitableBinary
        .summary()
        .starts_with("Could not find a suitable micromamba binary to run"));
    assert!(Notice::NoSuitableBinary.summary().contains("place it somewhere in $PATH"));
}

#[test]
fn download_errors_render_with_their_reason() {
    assert_eq!(DownloadError::IncompatibleOS.message(), "Incompatible OS for micromamba download");
    assert_eq!(
        DownloadError::BinNotInArchive.message(),
        "micromamba binary not found in downloaded archive"
    );
    assert_eq!(DownloadError::IO("disk full".to_string()).message(), "IO error: disk full");
    assert_eq!(
        DownloadError::Transport("connection refused".to_string()).message(),
        "Failed to download micromamba: connection refused"
    );
}

#[test]
fn blank_log_has_no_lines() {
    assert!(csm::micromamba::blank_log().is_empty());
}

#[test]
fn note_adds_a_line_at_the_end() {
    let mut log = csm::micromamba::blank_log();
    csm::micromamba::note(&mut log, Notice::FallingBackToCache);
    csm::micromamba::note(&mut log, Notice::NoSuitableBinary);
    assert_eq!(log, vec![Notice::FallingBackToCache, Notice::NoSuitableBinary]);
}

#[test]
fn runtime_and_its_root_variable_have_their_names() {
    assert_eq!(csm::micromamba::RUNTIME, "micromamba");
    assert_eq!(csm::micromamba::ROOT_PREFIX_VAR, "MAMBA_ROOT_PREFIX");
}

#[test]
fn duplicate_of_a_descriptor_is_equal_to_it() {
    let config = Config { mamba_root_prefix: Some("/opt/mamba".to_string()), ..Config::default() };
    let cmd = micromamba_at("/c/micromamba", &config, &vec!["env", "list"], &mut Vec::new());
    assert_eq!(cmd.duplicate(), cmd);
    assert_eq!(cmd.duplicate().args, vec!["env", "list"]);
}
