use vstd::prelude::*;

use crate::errors::InstallError;
use crate::host::HostProfile;
use crate::host::detect_host;
use crate::host::spec_architecture_of;
use crate::host::spec_distribution_of;
use crate::host::spec_raw_distribution;
use crate::host::spec_resolved_version;
use crate::installer::InstallCommand;
use crate::installer::select_install_command;
use crate::installer::spec_install_command;
use crate::resolver::PackageDescriptor;
use crate::resolver::resolve_package;
use crate::resolver::spec_package_extension;
use crate::resolver::spec_package_name;
use crate::resolver::spec_package_url;
use crate::resolver::spec_temp_package_path;
use crate::resolver::temp_package_path;

verus! {

/// The states of one provisioning run. The run is strictly linear: a
/// found agent ends it at once, any failure ends it at once, and there
/// are no backward transitions and no retries.
#[derive(Debug)]
pub enum RunState {
    Start,
    CheckingPresence,
    Detecting,
    Resolving { profile: HostProfile },
    Downloading { descriptor: PackageDescriptor, package_path: String },
    Escalating { package_path: String, filename: String },
    Installing { package_path: String, filename: String },
    Cleanup { package_path: String, install_ok: bool },
    Done { already_installed: bool },
    Failed { error: InstallError },
}

/// What the driver reports back after performing an action. `Proceed`
/// carries the steps that need no outside work.
#[derive(Debug)]
pub enum Event {
    Proceed,
    /// Outcome of the path lookup of the agent's control tool: `None`
    /// when the lookup tool itself could not be run, otherwise whether
    /// the lookup succeeded.
    PresenceChecked { lookup: Option<bool> },
    /// The OS metadata text (`None` when unreadable) and the build
    /// target's CPU architecture name.
    MetadataRead { os_release: Option<String>, target_arch: String },
    /// Whether the download tool could be run at all, and whether the
    /// fetch itself finished with success.
    FetchFinished { tool_present: bool, fetch_ok: bool },
    /// Whether elevated privileges are available.
    ElevationChecked { ok: bool },
    /// Whether the native package tool finished with success.
    InstallFinished { ok: bool },
    /// The downloaded file was removed, or the removal failed; the
    /// outcome is deliberately not reported.
    FileRemoved,
}

/// The outside work a state asks the driver to perform.
#[derive(Debug)]
pub enum Action {
    /// Look the agent's control tool up on the search path.
    LookUpAgentTool,
    /// Read the OS metadata file and the build target's architecture.
    ReadHostMetadata,
    /// Download `url` to `dest`, following redirects.
    Fetch { url: String, dest: String },
    /// Check that elevated privileges can be obtained.
    CheckElevation,
    /// Run the native install command on the downloaded file, elevated.
    Install { command: InstallCommand, package_path: String },
    /// Best-effort removal of the downloaded file.
    RemoveFile { path: String },
}

/// Whether the agent counts as installed, given the outcome of the path
/// lookup of its control tool. An absent lookup tool means "not
/// installed", never an error, so this check cannot fail the run.
pub fn check_wazuh_installed(lookup: Option<bool>) -> (r: Result<bool, InstallError>)
    ensures
        r matches Ok(b) && b == (lookup == Some(true)),
{
    match lookup {
        Some(b) => Ok(b),
        None => Ok(false),
    }
}

/// The full transition table of one run: `spec_step_rel(s, e, r)` holds
/// exactly when `step(s, e)` may return `r`. Every case pins the result;
/// a state given an event it does not expect stays where it is.
pub open spec fn spec_step_rel(s: RunState, e: Event, r: RunState) -> bool {
    match (s, e) {
        (RunState::Start, Event::Proceed) => r is CheckingPresence,
        (RunState::CheckingPresence, Event::PresenceChecked { lookup }) => if lookup == Some(true) {
            r == (RunState::Done { already_installed: true })
        } else {
            r is Detecting
        },
        (RunState::Detecting, Event::MetadataRead { os_release, target_arch }) => match os_release {
            None => r matches RunState::Failed { error } && error matches
                InstallError::DistributionDetectionError(m) && m@
                == "Failed to read /etc/os-release"@,
            Some(content) => match spec_distribution_of(spec_raw_distribution(content@)) {
                None => r matches RunState::Failed { error } && error matches
                    InstallError::DistributionDetectionError(m) && m@
                    == "Unsupported distribution"@,
                Some(d) => match spec_architecture_of(target_arch@) {
                    None => r matches RunState::Failed { error } && error matches
                        InstallError::ArchitectureDetectionError(m) && m@
                        == "Unsupported architecture"@,
                    Some(a) => r matches RunState::Resolving { profile } && profile.distribution
                        == d && profile.version@ == spec_resolved_version(content@)
                        && profile.architecture == a,
                },
            },
        },
        (RunState::Resolving { profile }, Event::Proceed) => {
            &&& r matches RunState::Downloading { descriptor, package_path }
            &&& descriptor.filename@ == spec_package_name(profile.distribution, profile.version@)
            &&& descriptor.extension@ == spec_package_extension(profile.distribution)
            &&& descriptor.url@ == spec_package_url(
                profile.distribution,
                profile.version@,
                profile.architecture,
            )
            &&& package_path@ == spec_temp_package_path(
                spec_package_extension(profile.distribution),
            )
        },
        (
            RunState::Downloading { descriptor, package_path },
            Event::FetchFinished { tool_present, fetch_ok },
        ) => if !tool_present {
            r matches RunState::Failed { error } && error matches InstallError::DownloadError(m)
                && m@ == "Curl is not installed."@
        } else if !fetch_ok {
            r matches RunState::Failed { error } && error matches InstallError::DownloadError(m)
                && m@ == "Failed to download the Wazuh agent package."@
        } else {
            r == (RunState::Escalating { package_path, filename: descriptor.filename })
        },
        (RunState::Escalating { package_path, filename }, Event::ElevationChecked { ok }) => if ok {
            r == (RunState::Installing { package_path, filename })
        } else {
            r matches RunState::Failed { error } && error matches InstallError::SudoError(m) && m@
                == "Sudo privileges are required for installation."@
        },
        (RunState::Installing { package_path, filename }, Event::InstallFinished { ok }) => r == (
        RunState::Cleanup { package_path, install_ok: ok }),
        (RunState::Cleanup { package_path, install_ok }, Event::FileRemoved) => if install_ok {
            r == (RunState::Done { already_installed: false })
        } else {
            r matches RunState::Failed { error } && error matches
                InstallError::InstallationError(m) && m@
                == "Failed to install Wazuh agent package."@
        },
        (other, _) => r == other,
    }
}

/// The state every run begins in.
pub fn initial_state() -> (r: RunState)
    ensures
        r is Start,
{
    RunState::Start
}

/// Whether the run has reached a terminal state.
pub fn is_finished(state: &RunState) -> (r: bool)
    ensures
        r == (state is Done || state is Failed),
{
    match state {
        RunState::Done { .. } => true,
        RunState::Failed { .. } => true,
        _ => false,
    }
}

/// The outside work the driver must perform in this state; `None` for
/// the steps that need none and for the terminal states.
pub fn action_of(state: &RunState) -> (r: Option<Action>)
    ensures
        match state {
            RunState::CheckingPresence => r == Some(Action::LookUpAgentTool),
            RunState::Detecting => r == Some(Action::ReadHostMetadata),
            RunState::Downloading { descriptor, package_path } => r matches Some(
                Action::Fetch { url, dest },
            ) && url@ == descriptor.url@ && dest@ == package_path@,
            RunState::Escalating { .. } => r == Some(Action::CheckElevation),
            RunState::Installing { package_path, filename } => r matches Some(
                Action::Install { command, package_path: p },
            ) && command == spec_install_command(filename@) && p@ == package_path@,
            RunState::Cleanup { package_path, .. } => r matches Some(Action::RemoveFile { path })
                && path@ == package_path@,
            _ => r is None,
        },
{
    match state {
        RunState::CheckingPresence => Some(Action::LookUpAgentTool),
        RunState::Detecting => Some(Action::ReadHostMetadata),
        RunState::Downloading { descriptor, package_path } => Some(
            Action::Fetch { url: descriptor.url.clone(), dest: package_path.clone() },
        ),
        RunState::Escalating { .. } => Some(Action::CheckElevation),
        RunState::Installing { package_path, filename } => Some(
            Action::Install {
                command: select_install_command(filename.as_str()),
                package_path: package_path.clone(),
            },
        ),
        RunState::Cleanup { package_path, .. } => Some(
            Action::RemoveFile { path: package_path.clone() },
        ),
        _ => None,
    }
}

/// Performs one transition of the run. The whole behaviour is the
/// transition table `spec_step_rel`.
pub fn step(state: RunState, event: Event) -> (r: RunState)
    ensures
        spec_step_rel(state, event, r),
{
    match (state, event) {
        (RunState::Start, Event::Proceed) => RunState::CheckingPresence,
        (RunState::CheckingPresence, Event::PresenceChecked { lookup }) => {
            match check_wazuh_installed(lookup) {
                Ok(true) => RunState::Done { already_installed: true },
                Ok(false) => RunState::Detecting,
                Err(error) => {
                    proof {
                        assert(false);
                    }
                    RunState::Failed { error }
                },
            }
        },
        (RunState::Detecting, Event::MetadataRead { os_release, target_arch }) => {
            match os_release {
                None => RunState::Failed {
                    error: InstallError::DistributionDetectionError(
                        "Failed to read /etc/os-release".to_owned(),
                    ),
                },
                Some(content) => match detect_host(content.as_str(), target_arch.as_str()) {
                    Ok(profile) => RunState::Resolving { profile },
                    Err(error) => RunState::Failed { error },
                },
            }
        },
        (RunState::Resolving { profile }, Event::Proceed) => {
            let descriptor = resolve_package(&profile);
            let package_path = temp_package_path(descriptor.extension.as_str());
            RunState::Downloading { descriptor, package_path }
        },
        (
            RunState::Downloading { descriptor, package_path },
            Event::FetchFinished { tool_present, fetch_ok },
        ) => {
            if !tool_present {
                RunState::Failed {
                    error: InstallError::DownloadError("Curl is not installed.".to_owned()),
                }
            } else if !fetch_ok {
                RunState::Failed {
                    error: InstallError::DownloadError(
                        "Failed to download the Wazuh agent package.".to_owned(),
                    ),
                }
            } else {
                RunState::Escalating { package_path, filename: descriptor.filename }
            }
        },
        (RunState::Escalating { package_path, filename }, Event::ElevationChecked { ok }) => {
            if ok {
                RunState::Installing { package_path, filename }
            } else {
                RunState::Failed {
                    error: InstallError::SudoError(
                        "Sudo privileges are required for installation.".to_owned(),
                    ),
                }
            }
        },
        (RunState::Installing { package_path, filename: _ }, Event::InstallFinished { ok }) => {
            RunState::Cleanup { package_path, install_ok: ok }
        },
        (RunState::Cleanup { package_path: _, install_ok }, Event::FileRemoved) => {
            if install_ok {
                RunState::Done { already_installed: false }
            } else {
                RunState::Failed {
                    error: InstallError::InstallationError(
                        "Failed to install Wazuh agent package.".to_owned(),
                    ),
                }
            }
        },
        (other, _) => other,
    }
}

/// A finished run never moves again: both terminal states absorb every
/// event.
pub proof fn lemma_terminal_states_absorb(s: RunState, e: Event, r: RunState)
    requires
        spec_step_rel(s, e, r),
        s is Done || s is Failed,
    ensures
        r == s,
{
}

/// The privilege check is reached only out of a download whose tool was
/// present and whose fetch succeeded: a missing download tool or a
/// failed fetch aborts the run before any privilege check.
pub proof fn lemma_escalation_needs_download(s: RunState, e: Event, r: RunState)
    requires
        spec_step_rel(s, e, r),
        r is Escalating,
        !(s is Escalating),
    ensures
        s is Downloading,
        e matches Event::FetchFinished { tool_present, fetch_ok } && tool_present && fetch_ok,
{
}

/// A present agent short-circuits the run: the presence check alone
/// finishes it, with nothing downloaded and nothing installed.
pub proof fn lemma_presence_short_circuit(e: Event, r: RunState)
    requires
        spec_step_rel(RunState::CheckingPresence, e, r),
        e matches Event::PresenceChecked { lookup } && lookup == Some(true),
    ensures
        r == (RunState::Done { already_installed: true }),
{
}

/// The install step is reached only out of a successful privilege check:
/// without elevation the run fails before any installation attempt.
pub proof fn lemma_install_needs_elevation(s: RunState, e: Event, r: RunState)
    requires
        spec_step_rel(s, e, r),
        r is Installing,
        !(s is Installing),
    ensures
        s is Escalating,
        e matches Event::ElevationChecked { ok } && ok,
{
}

} // verus!
