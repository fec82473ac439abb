use mopro::arch::{FlutterArch, HostFamily, Mode};
use mopro::error::{BuildError, ConfigIssue};
use mopro::flutter::parse_archs;
use mopro::grouping::group_target_archs;

#[test]
fn mixed_targets_on_arm_host_form_device_then_simulator_group() {
    let archs = vec![
        FlutterArch::Aarch64Apple,
        FlutterArch::Aarch64AppleSim,
        FlutterArch::X8664Apple,
    ];
    let groups = group_target_archs(&archs, HostFamily::Arm64);
    assert_eq!(
        groups,
        vec![
            vec![FlutterArch::Aarch64Apple],
            vec![FlutterArch::Aarch64AppleSim, FlutterArch::X8664Apple],
        ]
    );
}

#[test]
fn mixed_targets_on_x86_host_treat_arm_as_simulator() {
    let archs = vec![
        FlutterArch::Aarch64Apple,
        FlutterArch::Aarch64AppleSim,
        FlutterArch::X8664Apple,
    ];
    let groups = group_target_archs(&archs, HostFamily::X86_64);
    assert_eq!(
        groups,
        vec![
            vec![FlutterArch::X8664Apple],
            vec![FlutterArch::Aarch64Apple, FlutterArch::Aarch64AppleSim],
        ]
    );
    let total: usize = groups.iter().map(|g| g.len()).sum();
    assert_eq!(total, archs.len());
}

#[test]
fn simulator_only_request_forms_one_group() {
    let archs = vec![FlutterArch::X8664Apple, FlutterArch::Aarch64AppleSim];
    let groups = group_target_archs(&archs, HostFamily::Arm64);
    assert_eq!(groups, vec![archs.clone()]);
}

#[test]
fn device_only_request_forms_one_group() {
    let archs = vec![FlutterArch::Aarch64Apple];
    let groups = group_target_archs(&archs, HostFamily::Arm64);
    assert_eq!(groups, vec![archs.clone()]);
}

#[test]
fn empty_request_forms_no_group() {
    let groups = group_target_archs(&Vec::new(), HostFamily::Arm64);
    assert!(groups.is_empty());
}

#[test]
fn host_family_detection() {
    assert_eq!(HostFamily::detect("aarch64"), Some(HostFamily::Arm64));
    assert_eq!(HostFamily::detect("x86_64"), Some(HostFamily::X86_64));
    assert_eq!(HostFamily::detect("riscv64"), None);
    assert_eq!(HostFamily::detect("x86"), None);
}

#[test]
fn target_names_round_trip() {
    for a in [
        FlutterArch::Aarch64Apple,
        FlutterArch::Aarch64AppleSim,
        FlutterArch::X8664Apple,
    ] {
        assert_eq!(FlutterArch::parse(a.as_str()), Some(a));
    }
    assert_eq!(FlutterArch::Aarch64AppleSim.as_str(), "aarch64-apple-ios-sim");
    assert_eq!(FlutterArch::parse("aarch64-apple-ios-simx"), None);
}

#[test]
fn unknown_target_name_is_a_configuration_error() {
    let names = vec!["aarch64-apple-ios".to_string(), "wasm32".to_string()];
    assert_eq!(
        parse_archs(&names).err(),
        Some(BuildError::Configuration(ConfigIssue::UnknownArch))
    );
    let names = vec!["x86_64-apple-ios".to_string()];
    assert_eq!(parse_archs(&names).ok(), Some(vec![FlutterArch::X8664Apple]));
}

#[test]
fn mode_names() {
    assert_eq!(Mode::parse("release"), Mode::Release);
    assert_eq!(Mode::parse("debug"), Mode::Debug);
    assert_eq!(Mode::parse("Release"), Mode::Debug);
    assert_eq!(Mode::Release.as_str(), "release");
    assert_eq!(Mode::Debug.as_str(), "debug");
}
