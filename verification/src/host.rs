use vstd::prelude::*;
use vstd::string::StrSliceExecFns;

use crate::errors::InstallError;
use crate::strutil::find_from;
use crate::strutil::starts_with;
use crate::strutil::trim_matching;
use crate::strutil::find_char_from;
use crate::strutil::str_eq;
use crate::strutil::str_starts_with;
use crate::strutil::trim_char;

verus! {

/// The recognized distribution identifiers. Any other `ID` in the OS
/// metadata is rejected rather than silently defaulted.
#[derive(Clone, Copy, Debug, PartialEq, Eq, Structural)]
pub enum Distribution {
    Alpine,
    Amazon,
    Centos,
    Debian,
    Fedora,
    Opensuse,
    Oracle,
    Redhat,
    Suse,
    Ubuntu,
    Raspbian,
}

/// The recognized CPU architecture tags. Any other build target is
/// rejected.
#[derive(Clone, Copy, Debug, PartialEq, Eq, Structural)]
pub enum Architecture {
    I386,
    X86_64,
    Aarch64,
    Armhf,
    Powerpc,
}

/// What one run learns about the host: its distribution, the version
/// token used in the download URL, and the CPU architecture tag.
#[derive(Debug)]
pub struct HostProfile {
    pub distribution: Distribution,
    pub version: String,
    pub architecture: Architecture,
}

/// A line without its trailing carriage return, if it has one.
pub open spec fn strip_cr(l: Seq<char>) -> Seq<char> {
    if l.len() > 0 && l.last() == '\r' {
        l.drop_last()
    } else {
        l
    }
}

/// The value a single metadata line contributes for `key` (the field name
/// with its equals sign): for a line starting with `key`, the text up to
/// the next equals sign or the end of the line, with surrounding quote
/// characters removed; `None` for any other line.
pub open spec fn line_field(line: Seq<char>, key: Seq<char>) -> Option<Seq<char>> {
    if starts_with(line, key) {
        Some(
            trim_matching(
                line.subrange(key.len() as int, find_from(line, '=', key.len() as int)),
                '"',
            ),
        )
    } else {
        None
    }
}

pub proof fn lemma_find_from_bounds(s: Seq<char>, c: char, from: int)
    requires
        0 <= from <= s.len(),
    ensures
        from <= find_from(s, c, from) <= s.len(),
    decreases s.len() - from,
{
    if from < s.len() && s[from] != c {
        lemma_find_from_bounds(s, c, from + 1);
    }
}

/// The value of field `key` in the newline-separated text `s` from
/// position `from` on: the contribution of the last line that has one.
pub open spec fn field_from(s: Seq<char>, key: Seq<char>, from: int) -> Option<Seq<char>>
    decreases s.len() - from,
    when 0 <= from <= s.len()
    via field_from_decreases
{
    let end = find_from(s, '\n', from);
    let line = strip_cr(s.subrange(from, end));
    let rest = if end < s.len() {
        field_from(s, key, end + 1)
    } else {
        None::<Seq<char>>
    };
    if rest is Some {
        rest
    } else {
        line_field(line, key)
    }
}

#[via_fn]
proof fn field_from_decreases(s: Seq<char>, key: Seq<char>, from: int) {
    lemma_find_from_bounds(s, '\n', from);
}

/// The view of an optional owned string.
pub open spec fn opt_str_view(o: Option<String>) -> Option<Seq<char>> {
    match o {
        Some(s) => Some(s@),
        None => None,
    }
}

/// Scans key=value metadata text for the field named by `key` (given with
/// its trailing equals sign). The last matching line wins, as it does when
/// such a file is read top to bottom into one slot per field.
pub fn os_release_field(content: &str, key: &str) -> (r: Option<String>)
    ensures
        opt_str_view(r) == field_from(content@, key@, 0),
{
    let n = content.unicode_len();
    let mut start: usize = 0;
    let mut done: bool = false;
    let mut found: Option<String> = None;
    while !done
        invariant
            n == content@.len(),
            start <= n,
            !done ==> (match field_from(content@, key@, start as int) {
                Some(v) => Some(v),
                None => opt_str_view(found),
            }) == field_from(content@, key@, 0),
            done ==> opt_str_view(found) == field_from(content@, key@, 0),
        decreases (if done {
            0int
        } else {
            n as int + 1 - start
        }),
    {
        let end = find_char_from(content, '\n', start);
        let mut line_end = end;
        if line_end > start && content.get_char(line_end - 1) == '\r' {
            line_end = line_end - 1;
        }
        let line = content.substring_char(start, line_end);
        proof {
            if end > start && content@.subrange(start as int, end as int).last() == '\r' {
                assert(content@.subrange(start as int, end as int).drop_last() =~= content@
                    .subrange(start as int, end as int - 1));
            }
            assert(line@ == strip_cr(content@.subrange(start as int, end as int)));
        }
        if str_starts_with(line, key) {
            let vstart = key.unicode_len();
            let vend = find_char_from(line, '=', vstart);
            let value = trim_char(line.substring_char(vstart, vend), '"');
            found = Some(value);
        }
        if end < n {
            start = end + 1;
        } else {
            done = true;
        }
    }
    found
}

/// Maps a raw distribution identifier to the recognized set.
pub open spec fn spec_distribution_of(id: Seq<char>) -> Option<Distribution> {
    if id == "alpine"@ {
        Some(Distribution::Alpine)
    } else if id == "amazon"@ {
        Some(Distribution::Amazon)
    } else if id == "centos"@ {
        Some(Distribution::Centos)
    } else if id == "debian"@ {
        Some(Distribution::Debian)
    } else if id == "fedora"@ {
        Some(Distribution::Fedora)
    } else if id == "opensuse"@ {
        Some(Distribution::Opensuse)
    } else if id == "oracle"@ {
        Some(Distribution::Oracle)
    } else if id == "redhat"@ {
        Some(Distribution::Redhat)
    } else if id == "suse"@ {
        Some(Distribution::Suse)
    } else if id == "ubuntu"@ {
        Some(Distribution::Ubuntu)
    } else if id == "raspbian"@ {
        Some(Distribution::Raspbian)
    } else {
        None
    }
}

/// The identifier a distribution is known by, as it appears in the OS
/// metadata and in the download URL.
pub open spec fn spec_distribution_name(d: Distribution) -> Seq<char> {
    match d {
        Distribution::Alpine => "alpine"@,
        Distribution::Amazon => "amazon"@,
        Distribution::Centos => "centos"@,
        Distribution::Debian => "debian"@,
        Distribution::Fedora => "fedora"@,
        Distribution::Opensuse => "opensuse"@,
        Distribution::Oracle => "oracle"@,
        Distribution::Redhat => "redhat"@,
        Distribution::Suse => "suse"@,
        Distribution::Ubuntu => "ubuntu"@,
        Distribution::Raspbian => "raspbian"@,
    }
}

/// The architecture tag used in the download URL.
pub open spec fn spec_architecture_tag(a: Architecture) -> Seq<char> {
    match a {
        Architecture::I386 => "i386"@,
        Architecture::X86_64 => "x86_64"@,
        Architecture::Aarch64 => "aarch64"@,
        Architecture::Armhf => "armhf"@,
        Architecture::Powerpc => "powerpc"@,
    }
}

/// Maps a build target's architecture name to the recognized tags.
pub open spec fn spec_architecture_of(target: Seq<char>) -> Option<Architecture> {
    if target == "x86"@ {
        Some(Architecture::I386)
    } else if target == "x86_64"@ {
        Some(Architecture::X86_64)
    } else if target == "aarch64"@ {
        Some(Architecture::Aarch64)
    } else if target == "arm"@ {
        Some(Architecture::Armhf)
    } else if target == "powerpc64"@ {
        Some(Architecture::Powerpc)
    } else {
        None
    }
}

/// The raw `ID` field of the OS metadata, or empty when absent.
pub open spec fn spec_raw_distribution(content: Seq<char>) -> Seq<char> {
    match field_from(content, "ID="@, 0) {
        Some(v) => v,
        None => Seq::<char>::empty(),
    }
}

/// The raw `VERSION_ID` field of the OS metadata, or empty when absent.
pub open spec fn spec_raw_version(content: Seq<char>) -> Seq<char> {
    match field_from(content, "VERSION_ID="@, 0) {
        Some(v) => v,
        None => Seq::<char>::empty(),
    }
}

/// The version token a run uses: always `latest` on an Amazon host,
/// whatever the metadata's version field says; the raw version otherwise.
pub open spec fn spec_resolved_version(content: Seq<char>) -> Seq<char> {
    if spec_distribution_of(spec_raw_distribution(content)) == Some(Distribution::Amazon) {
        "latest"@
    } else {
        spec_raw_version(content)
    }
}

impl Distribution {
    /// The identifier this distribution is known by.
    pub fn name(&self) -> (r: String)
        ensures
            r@ == spec_distribution_name(*self),
    {
        match self {
            Distribution::Alpine => "alpine".to_owned(),
            Distribution::Amazon => "amazon".to_owned(),
            Distribution::Centos => "centos".to_owned(),
            Distribution::Debian => "debian".to_owned(),
            Distribution::Fedora => "fedora".to_owned(),
            Distribution::Opensuse => "opensuse".to_owned(),
            Distribution::Oracle => "oracle".to_owned(),
            Distribution::Redhat => "redhat".to_owned(),
            Distribution::Suse => "suse".to_owned(),
            Distribution::Ubuntu => "ubuntu".to_owned(),
            Distribution::Raspbian => "raspbian".to_owned(),
        }
    }
}

impl Architecture {
    /// The tag this architecture is known by in the download URL.
    pub fn tag(&self) -> (r: String)
        ensures
            r@ == spec_architecture_tag(*self),
    {
        match self {
            Architecture::I386 => "i386".to_owned(),
            Architecture::X86_64 => "x86_64".to_owned(),
            Architecture::Aarch64 => "aarch64".to_owned(),
            Architecture::Armhf => "armhf".to_owned(),
            Architecture::Powerpc => "powerpc".to_owned(),
        }
    }
}

/// Maps a raw distribution identifier to the recognized set.
pub fn distribution_of(id: &str) -> (r: Option<Distribution>)
    ensures
        r == spec_distribution_of(id@),
{
    proof {
        reveal_strlit("alpine");
        reveal_strlit("amazon");
        reveal_strlit("centos");
        reveal_strlit("debian");
        reveal_strlit("fedora");
        reveal_strlit("opensuse");
        reveal_strlit("oracle");
        reveal_strlit("redhat");
        reveal_strlit("suse");
        reveal_strlit("ubuntu");
        reveal_strlit("raspbian");
    }
    if str_eq(id, "alpine") {
        Some(Distribution::Alpine)
    } else if str_eq(id, "amazon") {
        Some(Distribution::Amazon)
    } else if str_eq(id, "centos") {
        Some(Distribution::Centos)
    } else if str_eq(id, "debian") {
        Some(Distribution::Debian)
    } else if str_eq(id, "fedora") {
        Some(Distribution::Fedora)
    } else if str_eq(id, "opensuse") {
        Some(Distribution::Opensuse)
    } else if str_eq(id, "oracle") {
        Some(Distribution::Oracle)
    } else if str_eq(id, "redhat") {
        Some(Distribution::Redhat)
    } else if str_eq(id, "suse") {
        Some(Distribution::Suse)
    } else if str_eq(id, "ubuntu") {
        Some(Distribution::Ubuntu)
    } else if str_eq(id, "raspbian") {
        Some(Distribution::Raspbian)
    } else {
        None
    }
}

/// Extracts the distribution and version from the OS metadata text.
/// The distribution must be one of the recognized identifiers; an Amazon
/// host always reports version `latest`, whatever the metadata says.
pub fn get_distribution_and_version(content: &str) -> (r: Result<
    (Distribution, String),
    InstallError,
>)
    ensures
        match spec_distribution_of(spec_raw_distribution(content@)) {
            Some(d) => r matches Ok(p) && p.0 == d && p.1@ == spec_resolved_version(content@),
            None => r matches Err(e) && e matches InstallError::DistributionDetectionError(m)
                && m@ == "Unsupported distribution"@,
        },
{
    let id = match os_release_field(content, "ID=") {
        Some(v) => v,
        None => String::new(),
    };
    let version = match os_release_field(content, "VERSION_ID=") {
        Some(v) => v,
        None => String::new(),
    };
    match distribution_of(id.as_str()) {
        Some(d) => {
            let resolved = if d == Distribution::Amazon {
                "latest".to_owned()
            } else {
                version
            };
            Ok((d, resolved))
        },
        None => Err(InstallError::DistributionDetectionError("Unsupported distribution".to_owned())),
    }
}

/// Maps the build target's architecture name to one of the five
/// recognized tags; any other target is rejected.
pub fn get_architecture(target_arch: &str) -> (r: Result<Architecture, InstallError>)
    ensures
        match spec_architecture_of(target_arch@) {
            Some(a) => r matches Ok(x) && x == a,
            None => r matches Err(e) && e matches InstallError::ArchitectureDetectionError(m)
                && m@ == "Unsupported architecture"@,
        },
{
    proof {
        reveal_strlit("x86");
        reveal_strlit("x86_64");
        reveal_strlit("aarch64");
        reveal_strlit("arm");
        reveal_strlit("powerpc64");
    }
    if str_eq(target_arch, "x86") {
        Ok(Architecture::I386)
    } else if str_eq(target_arch, "x86_64") {
        Ok(Architecture::X86_64)
    } else if str_eq(target_arch, "aarch64") {
        Ok(Architecture::Aarch64)
    } else if str_eq(target_arch, "arm") {
        Ok(Architecture::Armhf)
    } else if str_eq(target_arch, "powerpc64") {
        Ok(Architecture::Powerpc)
    } else {
        Err(InstallError::ArchitectureDetectionError("Unsupported architecture".to_owned()))
    }
}

/// Reads the whole host profile out of the OS metadata text and the build
/// target's architecture name: distribution first, then architecture, as
/// the probe runs them.
pub fn detect_host(content: &str, target_arch: &str) -> (r: Result<HostProfile, InstallError>)
    ensures
        match spec_distribution_of(spec_raw_distribution(content@)) {
            None => r matches Err(e) && e matches InstallError::DistributionDetectionError(m)
                && m@ == "Unsupported distribution"@,
            Some(d) => match spec_architecture_of(target_arch@) {
                None => r matches Err(e) && e matches InstallError::ArchitectureDetectionError(m)
                    && m@ == "Unsupported architecture"@,
                Some(a) => r matches Ok(h) && h.distribution == d && h.version@
                    == spec_resolved_version(content@) && h.architecture == a,
            },
        },
{
    let (distribution, version) = match get_distribution_and_version(content) {
        Ok(p) => p,
        Err(e) => {
            return Err(e);
        },
    };
    let architecture = match get_architecture(target_arch) {
        Ok(a) => a,
        Err(e) => {
            return Err(e);
        },
    };
    Ok(HostProfile { distribution, version, architecture })
}

} // verus!
