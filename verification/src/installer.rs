use vstd::prelude::*;

use crate::strutil::ends_with;
use crate::strutil::str_ends_with;

verus! {

/// The two native install invocations: the Debian package tool in
/// install mode, or the RPM tool in upgrade/verbose mode.
#[derive(Clone, Copy, Debug, PartialEq, Eq, Structural)]
pub enum InstallCommand {
    DebianInstall,
    RpmInstall,
}

/// The install command a filename calls for: the Debian tool exactly when
/// the filename carries the Debian package suffix, the RPM tool otherwise.
pub open spec fn spec_install_command(filename: Seq<char>) -> InstallCommand {
    if ends_with(filename, ".deb"@) {
        InstallCommand::DebianInstall
    } else {
        InstallCommand::RpmInstall
    }
}

impl InstallCommand {
    /// The command line prefix the package path is appended to.
    pub open spec fn spec_command_line(self) -> Seq<char> {
        if self is DebianInstall {
            "dpkg -i"@
        } else {
            "rpm -Uvh"@
        }
    }

    /// The command line prefix the package path is appended to.
    pub fn command_line(&self) -> (r: String)
        ensures
            r@ == self.spec_command_line(),
    {
        match self {
            InstallCommand::DebianInstall => "dpkg -i".to_owned(),
            InstallCommand::RpmInstall => "rpm -Uvh".to_owned(),
        }
    }
}

/// Selects the install invocation by the package filename's own suffix,
/// not by the extension the temporary path was given: the Debian tool is
/// chosen if and only if the filename ends in `.deb`.
pub fn select_install_command(filename: &str) -> (r: InstallCommand)
    ensures
        r == spec_install_command(filename@),
        r is DebianInstall <==> ends_with(filename@, ".deb"@),
{
    if str_ends_with(filename, ".deb") {
        InstallCommand::DebianInstall
    } else {
        InstallCommand::RpmInstall
    }
}

} // verus!
