use mopro::arch::{FlutterArch, Mode};
use mopro::build;
use mopro::command::{join_path, merge_command};
use mopro::error::{BuildError, ConfigIssue, ManifestIssue};
use mopro::flutter::{merge_invocation, FlutterPlatform, Step, FLUTTER_BINDINGS_DIR};
use mopro::run::BuildRun;
use mopro::FlutterBindingsParams;

const PROJECT_MANIFEST: &str = "[package]\nname = \"my-circuits\"\nversion = \"0.1.0\"\n";

fn names(v: &[&str]) -> Vec<String> {
    v.iter().map(|s| s.to_string()).collect()
}

fn three_targets() -> Vec<String> {
    names(&["aarch64-apple-ios", "aarch64-apple-ios-sim", "x86_64-apple-ios"])
}

#[test]
fn plan_for_mixed_targets_on_arm_host() {
    let plan = build(
        "release",
        &three_targets(),
        "/p",
        PROJECT_MANIFEST,
        &FlutterBindingsParams::default(),
        "aarch64",
    )
    .unwrap();
    assert_eq!(plan.output, FLUTTER_BINDINGS_DIR);
    let steps = &plan.steps;
    assert_eq!(steps.len(), 4 + 3 + 2 + 1);
    let merges: Vec<&Step> = steps.iter().filter(|s| matches!(s, Step::Merge { .. })).collect();
    assert_eq!(merges.len(), 2);
    match merges[0] {
        Step::Merge { group, archs, inputs, lib_name, .. } => {
            assert_eq!(*group, 0);
            assert_eq!(archs, &vec![FlutterArch::Aarch64Apple]);
            assert_eq!(inputs, &names(&["/p/build/aarch64-apple-ios/release/libmy_circuits.a"]));
            assert_eq!(lib_name, "libmy_circuits.a");
        }
        _ => unreachable!(),
    }
    match merges[1] {
        Step::Merge { group, archs, inputs, .. } => {
            assert_eq!(*group, 1);
            assert_eq!(archs, &vec![FlutterArch::Aarch64AppleSim, FlutterArch::X8664Apple]);
            assert_eq!(
                inputs,
                &names(&[
                    "/p/build/aarch64-apple-ios-sim/release/libmy_circuits.a",
                    "/p/build/x86_64-apple-ios/release/libmy_circuits.a",
                ])
            );
        }
        _ => unreachable!(),
    }
    let codegens = steps.iter().filter(|s| matches!(s, Step::Codegen { .. })).count();
    assert_eq!(codegens, 1);
    match steps.last().unwrap() {
        Step::Codegen { command } => {
            assert_eq!(command.program, "flutter_rust_bridge_codegen");
            assert_eq!(
                command.args,
                names(&[
                    "generate",
                    "--rust-root",
                    "/p/mopro_flutter_bindings/rust",
                    "--rust-input",
                    "my-circuits",
                    "--dart-output",
                    "/p/mopro_flutter_bindings/lib/src/rust",
                ])
            );
            assert_eq!(command.current_dir.as_deref(), Some("/p"));
        }
        _ => panic!("the last step must generate the bindings"),
    }
}

#[test]
fn plan_starts_with_template_integration() {
    let plan = build(
        "debug",
        &names(&["aarch64-apple-ios"]),
        "/p",
        PROJECT_MANIFEST,
        &FlutterBindingsParams::default(),
        "aarch64",
    )
    .unwrap();
    let steps = &plan.steps;
    assert_eq!(steps.len(), 4 + 1 + 1 + 1);
    match &steps[0] {
        Step::Scaffold { template_dir, command } => {
            assert_eq!(template_dir, "/p/mopro_flutter_bindings");
            assert_eq!(command.args, names(&["create", "mopro_flutter_bindings", "--template", "plugin"]));
        }
        _ => panic!("scaffold first"),
    }
    match &steps[1] {
        Step::DeclareWorkspace { manifest_path } => {
            assert_eq!(manifest_path, "/p/mopro_flutter_bindings/rust/Cargo.toml")
        }
        _ => panic!("workspace second"),
    }
    match &steps[2] {
        Step::Register { command } => {
            assert_eq!(command.program, "cargo");
            assert_eq!(command.args, names(&["add", "my-circuits", "--path", "/p"]));
            assert_eq!(command.current_dir.as_deref(), Some("/p/mopro_flutter_bindings/rust"));
        }
        _ => panic!("registration third"),
    }
    match &steps[3] {
        Step::Canonicalize { manifest_path, crate_name, project_dir } => {
            assert_eq!(manifest_path, "/p/mopro_flutter_bindings/rust/Cargo.toml");
            assert_eq!(crate_name, "my-circuits");
            assert_eq!(project_dir, "/p");
        }
        _ => panic!("canonicalization fourth"),
    }
    match &steps[4] {
        Step::Compile { arch, install, command, artifact } => {
            assert_eq!(*arch, FlutterArch::Aarch64Apple);
            assert_eq!(install.program, "rustup");
            assert_eq!(install.args, names(&["target", "add", "aarch64-apple-ios"]));
            assert_eq!(command.args, names(&["build", "--lib"]));
            assert_eq!(
                command.envs,
                vec![
                    ("CARGO_BUILD_TARGET_DIR".to_string(), "/p/build".to_string()),
                    ("CARGO_BUILD_TARGET".to_string(), "aarch64-apple-ios".to_string()),
                ]
            );
            assert_eq!(artifact, "/p/build/aarch64-apple-ios/debug/libmy_circuits.a");
        }
        _ => panic!("compile fifth"),
    }
}

#[test]
fn noir_builds_raise_the_deployment_target() {
    let plan = FlutterPlatform::build(
        Mode::Release,
        "/p",
        &vec![FlutterArch::X8664Apple],
        &FlutterBindingsParams { using_noir: true },
        "x86_64",
        "c",
        "c",
    )
    .unwrap();
    match &plan.steps[4] {
        Step::Compile { command, .. } => {
            assert_eq!(command.args, names(&["build", "--release", "--lib"]));
            assert_eq!(
                command.envs[0],
                ("IPHONEOS_DEPLOYMENT_TARGET".to_string(), "15.0".to_string())
            );
            assert_eq!(command.envs.len(), 3);
        }
        _ => panic!("compile fifth"),
    }
}

#[test]
fn unsupported_host_fails_before_any_step() {
    let r = build(
        "debug",
        &three_targets(),
        "/p",
        PROJECT_MANIFEST,
        &FlutterBindingsParams::default(),
        "riscv64",
    );
    assert_eq!(r.err(), Some(BuildError::Configuration(ConfigIssue::UnsupportedHost)));
}

#[test]
fn empty_target_list_is_refused() {
    let r = build("debug", &Vec::new(), "/p", PROJECT_MANIFEST, &FlutterBindingsParams::default(), "aarch64");
    assert_eq!(r.err(), Some(BuildError::Configuration(ConfigIssue::NoArchs)));
}

#[test]
fn unknown_target_is_refused() {
    let r = build(
        "debug",
        &names(&["aarch64-linux-android"]),
        "/p",
        PROJECT_MANIFEST,
        &FlutterBindingsParams::default(),
        "aarch64",
    );
    assert_eq!(r.err(), Some(BuildError::Configuration(ConfigIssue::UnknownArch)));
}

#[test]
fn project_manifest_errors() {
    let r = build("debug", &three_targets(), "/p", "[package", &FlutterBindingsParams::default(), "aarch64");
    assert_eq!(r.err(), Some(BuildError::Manifest(ManifestIssue::Parse)));
    let r = build("debug", &three_targets(), "/p", "[workspace]\n", &FlutterBindingsParams::default(), "aarch64");
    assert_eq!(r.err(), Some(BuildError::Manifest(ManifestIssue::MissingEntry)));
}

#[test]
fn merge_takes_inputs_in_order_and_one_output() {
    let group = vec![FlutterArch::Aarch64AppleSim, FlutterArch::X8664Apple];
    let inputs = names(&["/b/a.a", "/b/x.a"]);
    let cmd = merge_invocation(&group, &inputs, &vec![true, true], "/tmp/u/lib.a", Mode::Debug).unwrap();
    assert_eq!(cmd.program, "lipo");
    assert_eq!(cmd.args, names(&["-create", "-output", "/tmp/u/lib.a", "/b/a.a", "/b/x.a"]));
    assert_eq!(cmd.args.iter().filter(|a| *a == "-output").count(), 1);
    let direct = merge_command(&inputs, "/o");
    assert_eq!(direct.args, names(&["-create", "-output", "/o", "/b/a.a", "/b/x.a"]));
}

#[test]
fn missing_artifact_prevents_merge() {
    let group = vec![FlutterArch::Aarch64AppleSim, FlutterArch::X8664Apple];
    let inputs = names(&["/b/a.a", "/b/x.a"]);
    let r = merge_invocation(&group, &inputs, &vec![true, false], "/o", Mode::Release);
    assert_eq!(
        r.err(),
        Some(BuildError::Compile { arch: FlutterArch::X8664Apple, mode: Mode::Release, code: None })
    );
    let r = merge_invocation(&group, &inputs, &vec![false, false], "/o", Mode::Debug);
    assert_eq!(
        r.err(),
        Some(BuildError::Compile { arch: FlutterArch::Aarch64AppleSim, mode: Mode::Debug, code: None })
    );
}

#[test]
fn failures_name_their_stage() {
    let plan = FlutterPlatform::build(
        Mode::Debug,
        "/p",
        &vec![FlutterArch::Aarch64Apple, FlutterArch::X8664Apple],
        &FlutterBindingsParams::default(),
        "aarch64",
        "c",
        "c",
    )
    .unwrap();
    let s = &plan.steps;
    assert_eq!(s[0].failure(Mode::Debug, Some(1)), BuildError::Scaffold { code: Some(1) });
    assert_eq!(s[1].failure(Mode::Debug, None), BuildError::Manifest(ManifestIssue::Io));
    assert_eq!(s[2].failure(Mode::Debug, Some(2)), BuildError::DependencyRegistration { code: Some(2) });
    assert_eq!(
        s[4].failure(Mode::Debug, Some(101)),
        BuildError::Compile { arch: FlutterArch::Aarch64Apple, mode: Mode::Debug, code: Some(101) }
    );
    assert_eq!(s[5].failure(Mode::Debug, Some(1)), BuildError::Merge { group: 0, code: Some(1) });
    assert_eq!(s[s.len() - 1].failure(Mode::Debug, None), BuildError::Codegen { code: None });
}

#[test]
fn paths_join_with_a_separator() {
    assert_eq!(join_path("/a", "b"), "/a/b");
}

fn two_group_plan() -> mopro::flutter::BuildPlan {
    FlutterPlatform::build(
        Mode::Release,
        "/p",
        &vec![FlutterArch::Aarch64Apple, FlutterArch::X8664Apple],
        &FlutterBindingsParams::default(),
        "aarch64",
        "c",
        "c",
    )
    .unwrap()
}

#[test]
fn run_hands_out_steps_in_order_and_ends_ok() {
    let plan = two_group_plan();
    let mut run = BuildRun::new();
    let mut seen = 0;
    while let Some(i) = run.pending(&plan) {
        assert_eq!(i, seen);
        run.finish_step(&plan, Mode::Release, Ok(()));
        seen += 1;
    }
    assert_eq!(seen, plan.steps.len());
    assert_eq!(run.result, Some(Ok(())));
}

#[test]
fn failed_compile_stops_before_merge_and_codegen() {
    let plan = two_group_plan();
    let mut run = BuildRun::new();
    for _ in 0..4 {
        run.finish_step(&plan, Mode::Release, Ok(()));
    }
    assert_eq!(run.pending(&plan), Some(4));
    assert!(matches!(plan.steps[4], Step::Compile { .. }));
    run.finish_step(&plan, Mode::Release, Err(Some(101)));
    assert_eq!(
        run.result,
        Some(Err(BuildError::Compile {
            arch: FlutterArch::Aarch64Apple,
            mode: Mode::Release,
            code: Some(101)
        }))
    );
    assert_eq!(run.pending(&plan), None);
    run.finish_step(&plan, Mode::Release, Ok(()));
    assert_eq!(run.pending(&plan), None);
}

#[test]
fn missing_artifact_aborts_the_run() {
    let plan = two_group_plan();
    let mut run = BuildRun::new();
    for _ in 0..5 {
        run.finish_step(&plan, Mode::Release, Ok(()));
    }
    let (archs, inputs) = match &plan.steps[5] {
        Step::Merge { archs, inputs, .. } => (archs.clone(), inputs.clone()),
        _ => panic!("merge sixth"),
    };
    let e = merge_invocation(&archs, &inputs, &vec![false], "/o", Mode::Release).err().unwrap();
    run.abort(&plan, e);
    assert_eq!(
        run.result,
        Some(Err(BuildError::Compile { arch: FlutterArch::Aarch64Apple, mode: Mode::Release, code: None }))
    );
    assert_eq!(run.pending(&plan), None);
}
