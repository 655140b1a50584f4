use csm::csmrc::Config;
use csm::download::{csm_cache_dir, DownloadError};
use csm::micromamba::Notice;
use csm::mambarc::{create_mambarc, settle, CreateOutcome, MambarcPlan, MambarcState};
use csm::platform::TargetOs;
use csm::robot;
use csm::util::{homedir, micromamba};

#[test]
fn home_comes_before_user_profile() {
    assert_eq!(
        homedir(Some("/home/u".to_string()), Some("C:\\Users\\u".to_string())),
        Some("/home/u".to_string())
    );
    assert_eq!(homedir(None, Some("C:\\Users\\u".to_string())), Some("C:\\Users\\u".to_string()));
    assert_eq!(homedir(Some("/home/u".to_string()), None), Some("/home/u".to_string()));
    assert_eq!(homedir(None, None), None);
}

#[test]
fn util_descriptor_launches_the_bare_name() {
    let config = Config { mamba_root_prefix: Some("/r".to_string()), ..Config::default() };
    let mut log = Vec::new();
    let cmd = micromamba(&config, vec!["env", "list"], &mut log);
    assert_eq!(cmd.program, "micromamba");
    assert_eq!(cmd.args, vec!["env", "list"]);
    assert_eq!(cmd.envs, vec![("MAMBA_ROOT_PREFIX".to_string(), "/r".to_string())]);
    assert_eq!(log, vec![Notice::AboutToRun(cmd)]);
}

#[test]
fn util_descriptor_is_logged_as_about_to_run_even_in_noop_mode() {
    let config = Config { noop_mode: true, ..Config::default() };
    let mut log = vec![Notice::RanFromPath];
    let cmd = micromamba(&config, vec!["info"], &mut log);
    assert_eq!(log, vec![Notice::RanFromPath, Notice::AboutToRun(cmd)]);
}

#[test]
fn mambarc_is_only_announced_in_noop_mode() {
    let noop = Config { noop_mode: true, ..Config::default() };
    assert_eq!(create_mambarc(&noop, false), MambarcPlan::Announce);
    assert_eq!(create_mambarc(&noop, true), MambarcPlan::Create);
    assert_eq!(create_mambarc(&Config::default(), false), MambarcPlan::Create);
    assert_eq!(create_mambarc(&Config::default(), true), MambarcPlan::Create);
}

#[test]
fn existing_mambarc_is_no_error() {
    assert_eq!(settle(CreateOutcome::Written), Ok(MambarcState::Created));
    assert_eq!(settle(CreateOutcome::AlreadyExists), Ok(MambarcState::Kept));
    assert_eq!(
        settle(CreateOutcome::Failed("Permission denied".to_string())),
        Err("Permission denied".to_string())
    );
}

#[test]
fn cache_directory_override_wins() {
    let config = Config { cache_dir: Some("/tmp/x".to_string()), ..Config::default() };
    assert_eq!(
        csm_cache_dir(&config, TargetOs::Posix, Some("/home/u/.cache".to_string())),
        Ok("/tmp/x".to_string())
    );
    assert_eq!(csm_cache_dir(&config, TargetOs::Posix, None), Ok("/tmp/x".to_string()));
}

#[test]
fn cache_directory_is_csm_below_the_cache_root() {
    assert_eq!(
        csm_cache_dir(&Config::default(), TargetOs::Posix, Some("/home/u/.cache".to_string())),
        Ok("/home/u/.cache/csm".to_string())
    );
    assert_eq!(
        csm_cache_dir(&Config::default(), TargetOs::Windows, Some("C:\\Local".to_string())),
        Ok("C:\\Local\\csm".to_string())
    );
}

#[test]
fn no_cache_root_is_an_io_error() {
    assert_eq!(
        csm_cache_dir(&Config::default(), TargetOs::Posix, None),
        Err(DownloadError::IO("could not determine user cache directory".to_string()))
    );
}

#[test]
fn robot_subcommands_hold_their_arguments() {
    let new = robot::Subcommand::New(robot::CreateArgs { path: "robots/first".to_string() });
    assert_eq!(new, robot::Subcommand::New(robot::CreateArgs { path: "robots/first".to_string() }));
    assert_ne!(new, robot::Subcommand::Run);
}
