use wazuh_installer::errors::InstallError;
use wazuh_installer::installer::InstallCommand;
use wazuh_installer::run::Action;
use wazuh_installer::run::Event;
use wazuh_installer::run::RunState;
use wazuh_installer::run::action_of;
use wazuh_installer::run::check_wazuh_installed;
use wazuh_installer::run::initial_state;
use wazuh_installer::run::is_finished;
use wazuh_installer::run::step;

fn drive_to_downloading(os_release: &str, target_arch: &str) -> RunState {
    let mut state = initial_state();
    state = step(state, Event::Proceed);
    assert!(matches!(state, RunState::CheckingPresence));
    assert!(matches!(action_of(&state), Some(Action::LookUpAgentTool)));
    state = step(state, Event::PresenceChecked { lookup: Some(false) });
    assert!(matches!(state, RunState::Detecting));
    assert!(matches!(action_of(&state), Some(Action::ReadHostMetadata)));
    state = step(
        state,
        Event::MetadataRead {
            os_release: Some(os_release.to_string()),
            target_arch: target_arch.to_string(),
        },
    );
    assert!(matches!(state, RunState::Resolving { .. }));
    assert!(action_of(&state).is_none());
    state = step(state, Event::Proceed);
    assert!(matches!(state, RunState::Downloading { .. }));
    state
}

#[test]
fn presence_check_cannot_fail() {
    assert!(matches!(check_wazuh_installed(None), Ok(false)));
    assert!(matches!(check_wazuh_installed(Some(false)), Ok(false)));
    assert!(matches!(check_wazuh_installed(Some(true)), Ok(true)));
}

#[test]
fn ubuntu_end_to_end_install() {
    // The extension function says rpm for ubuntu, so the temporary path
    // is an .rpm one; the install command still goes by the filename's
    // .deb suffix.
    let mut state = drive_to_downloading("ID=ubuntu\nVERSION_ID=22.04\n", "x86_64");
    match &state {
        RunState::Downloading { descriptor, package_path } => {
            assert_eq!(descriptor.filename, "wazuh-agent_4.7.3-1_amd64.deb");
            assert_eq!(descriptor.extension, "rpm");
            assert_eq!(
                descriptor.url,
                "https://packages.wazuh.com/4.x/ubuntu/22.04/x86_64/wazuh-agent_4.7.3-1_amd64.deb"
            );
            assert_eq!(package_path, "/tmp/wazuh-agent.rpm");
        }
        _ => panic!("expected the downloading state"),
    }
    match action_of(&state) {
        Some(Action::Fetch { url, dest }) => {
            assert_eq!(
                url,
                "https://packages.wazuh.com/4.x/ubuntu/22.04/x86_64/wazuh-agent_4.7.3-1_amd64.deb"
            );
            assert_eq!(dest, "/tmp/wazuh-agent.rpm");
        }
        _ => panic!("expected a fetch action"),
    }
    state = step(state, Event::FetchFinished { tool_present: true, fetch_ok: true });
    assert!(matches!(state, RunState::Escalating { .. }));
    assert!(matches!(action_of(&state), Some(Action::CheckElevation)));
    state = step(state, Event::ElevationChecked { ok: true });
    assert!(matches!(state, RunState::Installing { .. }));
    match action_of(&state) {
        Some(Action::Install { command, package_path }) => {
            assert_eq!(command, InstallCommand::DebianInstall);
            assert_eq!(package_path, "/tmp/wazuh-agent.rpm");
        }
        _ => panic!("expected an install action"),
    }
    state = step(state, Event::InstallFinished { ok: true });
    assert!(matches!(state, RunState::Cleanup { .. }));
    match action_of(&state) {
        Some(Action::RemoveFile { path }) => assert_eq!(path, "/tmp/wazuh-agent.rpm"),
        _ => panic!("expected a remove action"),
    }
    state = step(state, Event::FileRemoved);
    assert!(matches!(state, RunState::Done { already_installed: false }));
    assert!(is_finished(&state));
    assert!(action_of(&state).is_none());
}

#[test]
fn centos_five_resolves_to_the_legacy_name() {
    let state = drive_to_downloading("ID=centos\nVERSION_ID=\"5\"\n", "aarch64");
    match &state {
        RunState::Downloading { descriptor, package_path } => {
            assert_eq!(descriptor.filename, "wazuh-agent-4.7.3-1.el5.x86_64.rpm");
            assert_eq!(
                descriptor.url,
                "https://packages.wazuh.com/4.x/centos/5/aarch64/wazuh-agent-4.7.3-1.el5.x86_64.rpm"
            );
            assert_eq!(package_path, "/tmp/wazuh-agent.rpm");
        }
        _ => panic!("expected the downloading state"),
    }
}

#[test]
fn missing_download_tool_aborts_before_any_privilege_check() {
    let state = drive_to_downloading("ID=fedora\nVERSION_ID=39\n", "x86_64");
    let state = step(state, Event::FetchFinished { tool_present: false, fetch_ok: false });
    match &state {
        RunState::Failed { error: InstallError::DownloadError(m) } => {
            assert_eq!(m, "Curl is not installed.");
        }
        _ => panic!("expected a download failure"),
    }
    // The run is over: it never asks for the privilege check.
    assert!(is_finished(&state));
    assert!(action_of(&state).is_none());
}

#[test]
fn failed_fetch_aborts_with_a_download_error() {
    let state = drive_to_downloading("ID=fedora\nVERSION_ID=39\n", "x86_64");
    let state = step(state, Event::FetchFinished { tool_present: true, fetch_ok: false });
    match &state {
        RunState::Failed { error: InstallError::DownloadError(m) } => {
            assert_eq!(m, "Failed to download the Wazuh agent package.");
        }
        _ => panic!("expected a download failure"),
    }
}

#[test]
fn agent_already_present_short_circuits_the_run() {
    let mut state = initial_state();
    state = step(state, Event::Proceed);
    state = step(state, Event::PresenceChecked { lookup: Some(true) });
    assert!(matches!(state, RunState::Done { already_installed: true }));
    assert!(is_finished(&state));
    assert!(action_of(&state).is_none());
    // Terminal states absorb every further event.
    state = step(state, Event::Proceed);
    assert!(matches!(state, RunState::Done { already_installed: true }));
}

#[test]
fn absent_lookup_tool_counts_as_not_installed() {
    let mut state = initial_state();
    state = step(state, Event::Proceed);
    state = step(state, Event::PresenceChecked { lookup: None });
    assert!(matches!(state, RunState::Detecting));
}

#[test]
fn unreadable_metadata_fails_the_detection() {
    let mut state = initial_state();
    state = step(state, Event::Proceed);
    state = step(state, Event::PresenceChecked { lookup: Some(false) });
    state = step(
        state,
        Event::MetadataRead { os_release: None, target_arch: "x86_64".to_string() },
    );
    match &state {
        RunState::Failed { error: InstallError::DistributionDetectionError(m) } => {
            assert_eq!(m, "Failed to read /etc/os-release");
        }
        _ => panic!("expected a distribution detection failure"),
    }
}

#[test]
fn unrecognized_metadata_fails_the_detection() {
    let mut state = initial_state();
    state = step(state, Event::Proceed);
    state = step(state, Event::PresenceChecked { lookup: Some(false) });
    state = step(
        state,
        Event::MetadataRead {
            os_release: Some("ID=windows\n".to_string()),
            target_arch: "x86_64".to_string(),
        },
    );
    assert!(matches!(
        state,
        RunState::Failed { error: InstallError::DistributionDetectionError(_) }
    ));
}

#[test]
fn unrecognized_architecture_fails_the_detection() {
    let mut state = initial_state();
    state = step(state, Event::Proceed);
    state = step(state, Event::PresenceChecked { lookup: Some(false) });
    state = step(
        state,
        Event::MetadataRead {
            os_release: Some("ID=ubuntu\nVERSION_ID=22.04\n".to_string()),
            target_arch: "mips".to_string(),
        },
    );
    assert!(matches!(
        state,
        RunState::Failed { error: InstallError::ArchitectureDetectionError(_) }
    ));
}

#[test]
fn denied_elevation_aborts_with_a_sudo_error() {
    let state = drive_to_downloading("ID=debian\nVERSION_ID=12\n", "x86_64");
    let state = step(state, Event::FetchFinished { tool_present: true, fetch_ok: true });
    let state = step(state, Event::ElevationChecked { ok: false });
    match &state {
        RunState::Failed { error: InstallError::SudoError(m) } => {
            assert_eq!(m, "Sudo privileges are required for installation.");
            assert_eq!(
                InstallError::SudoError(m.clone()).message(),
                "Sudo error: Sudo privileges are required for installation."
            );
        }
        _ => panic!("expected a sudo failure"),
    }
}

#[test]
fn failed_install_still_cleans_up_then_fails() {
    let state = drive_to_downloading("ID=fedora\nVERSION_ID=39\n", "x86_64");
    let state = step(state, Event::FetchFinished { tool_present: true, fetch_ok: true });
    let state = step(state, Event::ElevationChecked { ok: true });
    let state = step(state, Event::InstallFinished { ok: false });
    // The file is removed whatever the install outcome.
    assert!(matches!(state, RunState::Cleanup { install_ok: false, .. }));
    match action_of(&state) {
        Some(Action::RemoveFile { path }) => assert_eq!(path, "/tmp/wazuh-agent.rpm"),
        _ => panic!("expected a remove action"),
    }
    let state = step(state, Event::FileRemoved);
    match &state {
        RunState::Failed { error: InstallError::InstallationError(m) } => {
            assert_eq!(m, "Failed to install Wazuh agent package.");
        }
        _ => panic!("expected an installation failure"),
    }
}

#[test]
fn an_unexpected_event_leaves_the_state_alone() {
    let mut state = initial_state();
    state = step(state, Event::Proceed);
    state = step(state, Event::PresenceChecked { lookup: Some(false) });
    assert!(matches!(state, RunState::Detecting));
    state = step(state, Event::Proceed);
    assert!(matches!(state, RunState::Detecting));
    state = step(state, Event::FileRemoved);
    assert!(matches!(state, RunState::Detecting));
}
