use vstd::prelude::*;
use vstd::string::StringExecFns;

use crate::host::Architecture;
use crate::host::Distribution;
use crate::host::HostProfile;
use crate::host::spec_architecture_tag;
use crate::host::spec_distribution_name;
use crate::strutil::str_eq;

verus! {

/// The resolved package: its filename, the extension used for the
/// temporary download path, and the full download URL.
#[derive(Debug)]
pub struct PackageDescriptor {
    pub filename: String,
    pub extension: String,
    pub url: String,
}

/// The vendor package filename for a distribution and version. Four
/// legacy combinations are pinned to one `el5` filename whatever the
/// architecture; Amazon is pinned to a `ppc64le` filename; the Debian
/// family gets `amd64` or `armhf` `.deb` names; everything else shares
/// one `x86_64` RPM name. The table is pinned to one vendor release.
pub open spec fn spec_package_name(d: Distribution, version: Seq<char>) -> Seq<char> {
    match d {
        Distribution::Alpine => "wazuh-agent-4.7.3-r1.apk"@,
        Distribution::Amazon => "wazuh-agent-4.7.3-1.ppc64le.rpm"@,
        Distribution::Centos => if version == "5"@ {
            "wazuh-agent-4.7.3-1.el5.x86_64.rpm"@
        } else {
            "wazuh-agent-4.7.3-1.x86_64.rpm"@
        },
        Distribution::Debian => "wazuh-agent_4.7.3-1_amd64.deb"@,
        Distribution::Fedora => "wazuh-agent-4.7.3-1.x86_64.rpm"@,
        Distribution::Opensuse => "wazuh-agent-4.7.3-1.x86_64.rpm"@,
        Distribution::Oracle => if version == "5"@ {
            "wazuh-agent-4.7.3-1.el5.x86_64.rpm"@
        } else {
            "wazuh-agent-4.7.3-1.x86_64.rpm"@
        },
        Distribution::Redhat => if version == "5"@ {
            "wazuh-agent-4.7.3-1.el5.x86_64.rpm"@
        } else {
            "wazuh-agent-4.7.3-1.x86_64.rpm"@
        },
        Distribution::Suse => if version == "11"@ {
            "wazuh-agent-4.7.3-1.el5.x86_64.rpm"@
        } else {
            "wazuh-agent-4.7.3-1.x86_64.rpm"@
        },
        Distribution::Ubuntu => "wazuh-agent_4.7.3-1_amd64.deb"@,
        Distribution::Raspbian => "wazuh-agent_4.7.3-1_armhf.deb"@,
    }
}

/// The extension used for the temporary download path. It depends on the
/// distribution alone and can disagree with the filename's own suffix;
/// choosing the install command goes by the filename, never by this.
pub open spec fn spec_package_extension(d: Distribution) -> Seq<char> {
    if d is Alpine {
        "apk"@
    } else {
        "rpm"@
    }
}

/// The download URL: the vendor host and release line, then the
/// distribution, version, architecture and filename as path segments.
pub open spec fn spec_package_url(d: Distribution, version: Seq<char>, a: Architecture) -> Seq<
    char,
> {
    "https://packages.wazuh.com/4.x/"@ + spec_distribution_name(d) + "/"@ + version + "/"@
        + spec_architecture_tag(a) + "/"@ + spec_package_name(d, version)
}

/// The fixed temporary path the package is downloaded to.
pub open spec fn spec_temp_package_path(extension: Seq<char>) -> Seq<char> {
    "/tmp/wazuh-agent."@ + extension
}

/// The vendor package filename for this distribution and version.
pub fn get_package_name(distribution: &Distribution, version: &str) -> (r: String)
    ensures
        r@ == spec_package_name(*distribution, version@),
{
    match distribution {
        Distribution::Alpine => "wazuh-agent-4.7.3-r1.apk".to_owned(),
        Distribution::Amazon => "wazuh-agent-4.7.3-1.ppc64le.rpm".to_owned(),
        Distribution::Centos => if str_eq(version, "5") {
            "wazuh-agent-4.7.3-1.el5.x86_64.rpm".to_owned()
        } else {
            "wazuh-agent-4.7.3-1.x86_64.rpm".to_owned()
        },
        Distribution::Debian => "wazuh-agent_4.7.3-1_amd64.deb".to_owned(),
        Distribution::Fedora => "wazuh-agent-4.7.3-1.x86_64.rpm".to_owned(),
        Distribution::Opensuse => "wazuh-agent-4.7.3-1.x86_64.rpm".to_owned(),
        Distribution::Oracle => if str_eq(version, "5") {
            "wazuh-agent-4.7.3-1.el5.x86_64.rpm".to_owned()
        } else {
            "wazuh-agent-4.7.3-1.x86_64.rpm".to_owned()
        },
        Distribution::Redhat => if str_eq(version, "5") {
            "wazuh-agent-4.7.3-1.el5.x86_64.rpm".to_owned()
        } else {
            "wazuh-agent-4.7.3-1.x86_64.rpm".to_owned()
        },
        Distribution::Suse => if str_eq(version, "11") {
            "wazuh-agent-4.7.3-1.el5.x86_64.rpm".to_owned()
        } else {
            "wazuh-agent-4.7.3-1.x86_64.rpm".to_owned()
        },
        Distribution::Ubuntu => "wazuh-agent_4.7.3-1_amd64.deb".to_owned(),
        Distribution::Raspbian => "wazuh-agent_4.7.3-1_armhf.deb".to_owned(),
    }
}

/// The extension used for the temporary download path.
pub fn get_package_extension(distribution: &Distribution) -> (r: String)
    ensures
        r@ == spec_package_extension(*distribution),
{
    match distribution {
        Distribution::Alpine => "apk".to_owned(),
        _ => "rpm".to_owned(),
    }
}

/// The fixed temporary path the package is downloaded to.
pub fn temp_package_path(extension: &str) -> (r: String)
    ensures
        r@ == spec_temp_package_path(extension@),
{
    "/tmp/wazuh-agent.".to_owned().concat(extension)
}

/// Resolves the host profile to the package to install: filename,
/// temporary-path extension, and download URL.
pub fn resolve_package(profile: &HostProfile) -> (r: PackageDescriptor)
    ensures
        r.filename@ == spec_package_name(profile.distribution, profile.version@),
        r.extension@ == spec_package_extension(profile.distribution),
        r.url@ == spec_package_url(profile.distribution, profile.version@, profile.architecture),
{
    let filename = get_package_name(&profile.distribution, profile.version.as_str());
    let extension = get_package_extension(&profile.distribution);
    let mut url = "https://packages.wazuh.com/4.x/".to_owned();
    url.append(profile.distribution.name().as_str());
    url.append("/");
    url.append(profile.version.as_str());
    url.append("/");
    url.append(profile.architecture.tag().as_str());
    url.append("/");
    url.append(filename.as_str());
    proof {
        assert(url@ =~= spec_package_url(
            profile.distribution,
            profile.version@,
            profile.architecture,
        ));
    }
    PackageDescriptor { filename, extension, url }
}

} // verus!
