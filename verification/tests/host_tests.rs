use wazuh_installer::errors::InstallError;
use wazuh_installer::host::Architecture;
use wazuh_installer::host::Distribution;
use wazuh_installer::host::detect_host;
use wazuh_installer::host::get_architecture;
use wazuh_installer::host::get_distribution_and_version;
use wazuh_installer::host::os_release_field;

#[test]
fn plain_id_and_version() {
    let r = get_distribution_and_version("ID=ubuntu\nVERSION_ID=22.04\n").unwrap();
    assert_eq!(r.0, Distribution::Ubuntu);
    assert_eq!(r.1, "22.04");
}

#[test]
fn quoted_values_are_stripped() {
    let r = get_distribution_and_version("ID=\"centos\"\nVERSION_ID=\"5\"\n").unwrap();
    assert_eq!(r.0, Distribution::Centos);
    assert_eq!(r.1, "5");
}

#[test]
fn amazon_version_is_always_latest() {
    let r = get_distribution_and_version("ID=amazon\nVERSION_ID=\"2023\"\n").unwrap();
    assert_eq!(r.0, Distribution::Amazon);
    assert_eq!(r.1, "latest");

    let r = get_distribution_and_version("ID=amazon\n").unwrap();
    assert_eq!(r.1, "latest");
}

#[test]
fn unrecognized_id_is_rejected() {
    let r = get_distribution_and_version("ID=windows\nVERSION_ID=11\n");
    match r {
        Err(InstallError::DistributionDetectionError(m)) => {
            assert_eq!(m, "Unsupported distribution");
        }
        _ => panic!("expected a distribution detection error"),
    }
}

#[test]
fn missing_id_is_rejected() {
    assert!(matches!(
        get_distribution_and_version("NAME=Some Linux\nVERSION_ID=1\n"),
        Err(InstallError::DistributionDetectionError(_))
    ));
    assert!(matches!(
        get_distribution_and_version(""),
        Err(InstallError::DistributionDetectionError(_))
    ));
}

#[test]
fn version_id_does_not_match_the_id_key() {
    // A VERSION_ID line must not be taken for the ID line.
    let r = get_distribution_and_version("VERSION_ID=9\nID=debian\n").unwrap();
    assert_eq!(r.0, Distribution::Debian);
    assert_eq!(r.1, "9");
}

#[test]
fn last_matching_line_wins() {
    let r = get_distribution_and_version("ID=debian\nID=ubuntu\nVERSION_ID=22.04\n").unwrap();
    assert_eq!(r.0, Distribution::Ubuntu);
}

#[test]
fn carriage_returns_are_stripped() {
    let r = get_distribution_and_version("ID=suse\r\nVERSION_ID=11\r\n").unwrap();
    assert_eq!(r.0, Distribution::Suse);
    assert_eq!(r.1, "11");
}

#[test]
fn value_stops_at_a_second_equals_sign() {
    let r = os_release_field("ID=fedora=extra\n", "ID=");
    assert_eq!(r.as_deref(), Some("fedora"));
}

#[test]
fn absent_field_yields_none() {
    assert_eq!(os_release_field("NAME=x\n", "ID="), None);
    assert_eq!(os_release_field("", "VERSION_ID="), None);
}

#[test]
fn missing_version_id_yields_an_empty_version() {
    let r = get_distribution_and_version("ID=fedora\n").unwrap();
    assert_eq!(r.0, Distribution::Fedora);
    assert_eq!(r.1, "");
}

#[test]
fn no_trailing_newline_is_fine() {
    let r = get_distribution_and_version("VERSION_ID=12\nID=debian").unwrap();
    assert_eq!(r.0, Distribution::Debian);
    assert_eq!(r.1, "12");
}

#[test]
fn all_recognized_distributions_parse() {
    let cases = [
        ("alpine", Distribution::Alpine),
        ("amazon", Distribution::Amazon),
        ("centos", Distribution::Centos),
        ("debian", Distribution::Debian),
        ("fedora", Distribution::Fedora),
        ("opensuse", Distribution::Opensuse),
        ("oracle", Distribution::Oracle),
        ("redhat", Distribution::Redhat),
        ("suse", Distribution::Suse),
        ("ubuntu", Distribution::Ubuntu),
        ("raspbian", Distribution::Raspbian),
    ];
    for (id, expected) in cases {
        let content = format!("ID={}\nVERSION_ID=1\n", id);
        let r = get_distribution_and_version(&content).unwrap();
        assert_eq!(r.0, expected);
    }
}

#[test]
fn five_architectures_are_recognized() {
    assert_eq!(get_architecture("x86").unwrap(), Architecture::I386);
    assert_eq!(get_architecture("x86_64").unwrap(), Architecture::X86_64);
    assert_eq!(get_architecture("aarch64").unwrap(), Architecture::Aarch64);
    assert_eq!(get_architecture("arm").unwrap(), Architecture::Armhf);
    assert_eq!(get_architecture("powerpc64").unwrap(), Architecture::Powerpc);
}

#[test]
fn architecture_tags() {
    assert_eq!(get_architecture("x86").unwrap().tag(), "i386");
    assert_eq!(get_architecture("x86_64").unwrap().tag(), "x86_64");
    assert_eq!(get_architecture("aarch64").unwrap().tag(), "aarch64");
    assert_eq!(get_architecture("arm").unwrap().tag(), "armhf");
    assert_eq!(get_architecture("powerpc64").unwrap().tag(), "powerpc");
}

#[test]
fn other_architectures_are_rejected() {
    match get_architecture("mips") {
        Err(InstallError::ArchitectureDetectionError(m)) => {
            assert_eq!(m, "Unsupported architecture");
        }
        _ => panic!("expected an architecture detection error"),
    }
    assert!(matches!(
        get_architecture(""),
        Err(InstallError::ArchitectureDetectionError(_))
    ));
}

#[test]
fn detect_host_combines_both_probes() {
    let h = detect_host("ID=ubuntu\nVERSION_ID=\"22.04\"\n", "x86_64").unwrap();
    assert_eq!(h.distribution, Distribution::Ubuntu);
    assert_eq!(h.version, "22.04");
    assert_eq!(h.architecture, Architecture::X86_64);
}

#[test]
fn detect_host_reports_distribution_before_architecture() {
    assert!(matches!(
        detect_host("ID=windows\n", "mips"),
        Err(InstallError::DistributionDetectionError(_))
    ));
    assert!(matches!(
        detect_host("ID=ubuntu\nVERSION_ID=22.04\n", "mips"),
        Err(InstallError::ArchitectureDetectionError(_))
    ));
}
