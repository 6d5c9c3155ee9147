use dev_launcher::dialog::folder_choice;
use dev_launcher::manager::{
    detect_package_manager, dev_script_args, launch_command, lockfile_path, Lockfile,
    PackageManager,
};
use dev_launcher::server::{stop_reply, DevServerState, DEV_SERVER_PORT};

#[test]
fn only_pnpm_lockfile_picks_pnpm() {
    assert_eq!(detect_package_manager(true, false), PackageManager::Pnpm);
}

#[test]
fn only_yarn_lockfile_picks_yarn() {
    assert_eq!(detect_package_manager(false, true), PackageManager::Yarn);
}

#[test]
fn no_lockfile_picks_npm() {
    assert_eq!(detect_package_manager(false, false), PackageManager::Npm);
}

#[test]
fn pnpm_lockfile_wins_over_yarn_lockfile() {
    assert_eq!(detect_package_manager(true, true), PackageManager::Pnpm);
}

#[test]
fn program_names() {
    assert_eq!(PackageManager::Pnpm.program(), "pnpm");
    assert_eq!(PackageManager::Yarn.program(), "yarn");
    assert_eq!(PackageManager::Npm.program(), "npm");
}

#[test]
fn lockfile_paths_join_with_slash() {
    assert_eq!(lockfile_path("/home/me/app", Lockfile::Pnpm), "/home/me/app/pnpm-lock.yaml");
    assert_eq!(lockfile_path("/home/me/app", Lockfile::Yarn), "/home/me/app/yarn.lock");
    assert_eq!(lockfile_path("", Lockfile::Yarn), "/yarn.lock");
}

#[test]
fn dev_script_args_are_run_dev() {
    assert_eq!(dev_script_args(), vec!["run", "dev"]);
}

#[test]
fn launch_command_for_yarn_project() {
    let c = launch_command("/work/site", false, true);
    assert_eq!(c.program, "yarn");
    assert_eq!(c.args, vec!["run", "dev"]);
    assert_eq!(c.dir, "/work/site");
}

#[test]
fn launch_command_prefers_pnpm() {
    let c = launch_command("/work/site", true, true);
    assert_eq!(c.program, "pnpm");
    assert_eq!(c.dir, "/work/site");
}

#[test]
fn launch_command_falls_back_to_npm() {
    let c = launch_command("/w", false, false);
    assert_eq!(c.program, "npm");
}

#[test]
fn new_state_is_empty() {
    let s: DevServerState<u32> = DevServerState::new();
    assert!(!s.is_running());
}

#[test]
fn stop_twice_when_idle_succeeds() {
    let mut s: DevServerState<u32> = DevServerState::new();
    let first = s.take_process();
    assert_eq!(first, None);
    assert_eq!(stop_reply(first.map(|_| Ok(()))), Ok(()));
    let second = s.take_process();
    assert_eq!(second, None);
    assert_eq!(stop_reply(second.map(|_| Ok(()))), Ok(()));
}

#[test]
fn start_then_stop_kills_the_started_process() {
    let mut s: DevServerState<u32> = DevServerState::new();
    assert_eq!(s.record_start(Ok(41)), Ok(3001));
    assert!(s.is_running());
    let target = s.take_process();
    assert_eq!(target, Some(41));
    assert!(!s.is_running());
    assert_eq!(stop_reply(Some(Ok(()))), Ok(()));
}

#[test]
fn second_start_replaces_first_without_stopping_it() {
    let mut s: DevServerState<u32> = DevServerState::new();
    assert_eq!(s.record_start(Ok(1)), Ok(DEV_SERVER_PORT));
    assert_eq!(s.record_start(Ok(2)), Ok(DEV_SERVER_PORT));
    assert_eq!(s.take_process(), Some(2));
    assert_eq!(s.take_process(), None);
}

#[test]
fn port_is_fixed() {
    assert_eq!(DEV_SERVER_PORT, 3001);
}

#[test]
fn failed_spawn_reports_and_keeps_state() {
    let mut s: DevServerState<u32> = DevServerState::new();
    assert_eq!(s.record_start(Ok(7)), Ok(3001));
    let r = s.record_start(Err("No such file or directory (os error 2)".to_string()));
    assert_eq!(
        r,
        Err("Failed to start dev server: No such file or directory (os error 2)".to_string())
    );
    assert_eq!(s.take_process(), Some(7));
}

#[test]
fn failed_spawn_on_empty_state_stays_empty() {
    let mut s: DevServerState<u32> = DevServerState::new();
    assert!(s.record_start(Err("denied".to_string())).is_err());
    assert!(!s.is_running());
}

#[test]
fn failed_kill_is_reported() {
    assert_eq!(
        stop_reply(Some(Err("Operation not permitted".to_string()))),
        Err("Failed to stop dev server: Operation not permitted".to_string())
    );
}

#[test]
fn cancelled_folder_pick_is_no_selection() {
    assert_eq!(folder_choice(None), Err("No folder selected".to_string()));
}

#[test]
fn chosen_folder_is_passed_on() {
    assert_eq!(
        folder_choice(Some("/home/me/repo".to_string())),
        Ok("/home/me/repo".to_string())
    );
}
