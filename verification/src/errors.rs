use vstd::prelude::*;
use vstd::string::StringExecFns;

verus! {

/// The failure kinds of a provisioning run. Every component reports its
/// failure as one of these; the run stops at the first one.
#[derive(Debug)]
pub enum InstallError {
    /// The OS metadata was unreadable or named an unrecognized distribution.
    DistributionDetectionError(String),
    /// The host's CPU architecture is not one of the recognized tags.
    ArchitectureDetectionError(String),
    /// The retrieval tool is missing or the fetch failed.
    DownloadError(String),
    /// Elevated privileges could not be obtained.
    SudoError(String),
    /// The native package tool is missing or failed.
    InstallationError(String),
    /// A filesystem failure outside the kinds above.
    IOError(String),
}

impl InstallError {
    /// The one-line diagnostic for this failure, naming its kind.
    pub open spec fn spec_message(&self) -> Seq<char> {
        match self {
            InstallError::DistributionDetectionError(m) => "Distribution detection error: "@ + m@,
            InstallError::ArchitectureDetectionError(m) => "Architecture detection error: "@ + m@,
            InstallError::DownloadError(m) => "Download error: "@ + m@,
            InstallError::SudoError(m) => "Sudo error: "@ + m@,
            InstallError::InstallationError(m) => "Installation error: "@ + m@,
            InstallError::IOError(m) => "IO error: "@ + m@,
        }
    }

    /// Renders the diagnostic line: the kind's label followed by the detail.
    pub fn message(&self) -> (r: String)
        ensures
            r@ == self.spec_message(),
    {
        match self {
            InstallError::DistributionDetectionError(m) => {
                "Distribution detection error: ".to_owned().concat(m.as_str())
            },
            InstallError::ArchitectureDetectionError(m) => {
                "Architecture detection error: ".to_owned().concat(m.as_str())
            },
            InstallError::DownloadError(m) => "Download error: ".to_owned().concat(m.as_str()),
            InstallError::SudoError(m) => "Sudo error: ".to_owned().concat(m.as_str()),
            InstallError::InstallationError(m) => {
                "Installation error: ".to_owned().concat(m.as_str())
            },
            InstallError::IOError(m) => "IO error: ".to_owned().concat(m.as_str()),
        }
    }

    /// The process exit code for this failure kind; each kind gets its
    /// own nonzero code so that scripts can tell the outcomes apart.
    pub open spec fn spec_exit_code(&self) -> i32 {
        match self {
            InstallError::DistributionDetectionError(_) => 1,
            InstallError::ArchitectureDetectionError(_) => 2,
            InstallError::DownloadError(_) => 3,
            InstallError::SudoError(_) => 4,
            InstallError::InstallationError(_) => 5,
            InstallError::IOError(_) => 6,
        }
    }

    /// The process exit code for this failure kind.
    pub fn exit_code(&self) -> (r: i32)
        ensures
            r == self.spec_exit_code(),
            r != 0,
    {
        match self {
            InstallError::DistributionDetectionError(_) => 1,
            InstallError::ArchitectureDetectionError(_) => 2,
            InstallError::DownloadError(_) => 3,
            InstallError::SudoError(_) => 4,
            InstallError::InstallationError(_) => 5,
            InstallError::IOError(_) => 6,
        }
    }
}

} // verus!
