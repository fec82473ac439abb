//! The Flutter platform: the ordered steps of a bindings build, from
//! scaffolding the template to generating the Dart sources.
use vstd::prelude::*;
use crate::arch::{arch_named, mode_named, family_of_host, FlutterArch, HostFamily, Mode};
use crate::command::{join, join_path, merge_command, merge_model, text, texts, Command, CommandModel};
use crate::error::{BuildError, ConfigIssue, ManifestIssue};
use crate::manifest::{
    library_name, manifest_library_name, manifest_package_name, package_name, parse_manifest,
    parses_as_toml, project_name, raw_project_name,
};
use crate::grouping::{arch_groups, group_target_archs, group_views};

verus! {

/// Directory of the binding template, inside the project directory.
pub const FLUTTER_BINDINGS_DIR: &'static str = "mopro_flutter_bindings";

/// Settings of a Flutter bindings build.
pub struct FlutterBindingsParams {
    /// The crate uses Noir, whose dependencies need iOS 15 or later.
    pub using_noir: bool,
}

impl Default for FlutterBindingsParams {
    fn default() -> (r: Self)
        ensures
            !r.using_noir,
    {
        FlutterBindingsParams { using_noir: false }
    }
}

/// What a build is about, as plain values.
pub struct BuildSetup {
    pub mode: Mode,
    pub project_dir: Seq<char>,
    pub crate_name: Seq<char>,
    pub lib_id: Seq<char>,
    pub using_noir: bool,
}

pub open spec fn template_dir(p: Seq<char>) -> Seq<char> {
    join(p, FLUTTER_BINDINGS_DIR@)
}

pub open spec fn crate_root(p: Seq<char>) -> Seq<char> {
    join(template_dir(p), "rust"@)
}

pub open spec fn template_manifest(p: Seq<char>) -> Seq<char> {
    join(crate_root(p), "Cargo.toml"@)
}

pub open spec fn dart_output(p: Seq<char>) -> Seq<char> {
    join(template_dir(p), "lib/src/rust"@)
}

pub open spec fn build_dir(p: Seq<char>) -> Seq<char> {
    join(p, "build"@)
}

/// File name of the static library of the crate `id`.
pub open spec fn lib_file(id: Seq<char>) -> Seq<char> {
    "lib"@ + id + ".a"@
}

/// Where the build of `arch` in `mode` leaves its static library.
pub open spec fn artifact_path(c: BuildSetup, arch: FlutterArch) -> Seq<char> {
    join(join(join(build_dir(c.project_dir), arch.spec_str()), c.mode.spec_str()), lib_file(c.lib_id))
}

pub open spec fn scaffold_model(p: Seq<char>) -> CommandModel {
    CommandModel {
        program: "flutter_rust_bridge_codegen"@,
        args: seq!["create"@, FLUTTER_BINDINGS_DIR@, "--template"@, "plugin"@],
        current_dir: Some(p),
        envs: Seq::empty(),
    }
}

pub open spec fn register_model(p: Seq<char>, name: Seq<char>) -> CommandModel {
    CommandModel {
        program: "cargo"@,
        args: seq!["add"@, name, "--path"@, p],
        current_dir: Some(crate_root(p)),
        envs: Seq::empty(),
    }
}

pub open spec fn install_model(arch: FlutterArch) -> CommandModel {
    CommandModel {
        program: "rustup"@,
        args: seq!["target"@, "add"@, arch.spec_str()],
        current_dir: None,
        envs: Seq::empty(),
    }
}

pub open spec fn compile_args(mode: Mode) -> Seq<Seq<char>> {
    if mode == Mode::Release {
        seq!["build"@, "--release"@, "--lib"@]
    } else {
        seq!["build"@, "--lib"@]
    }
}

pub open spec fn compile_envs(c: BuildSetup, arch: FlutterArch) -> Seq<(Seq<char>, Seq<char>)> {
    (if c.using_noir {
        seq![("IPHONEOS_DEPLOYMENT_TARGET"@, "15.0"@)]
    } else {
        Seq::empty()
    }) + seq![
        ("CARGO_BUILD_TARGET_DIR"@, build_dir(c.project_dir)),
        ("CARGO_BUILD_TARGET"@, arch.spec_str()),
    ]
}

pub open spec fn compile_model(c: BuildSetup, arch: FlutterArch) -> CommandModel {
    CommandModel {
        program: "cargo"@,
        args: compile_args(c.mode),
        current_dir: Some(c.project_dir),
        envs: compile_envs(c, arch),
    }
}

pub open spec fn codegen_model(p: Seq<char>, name: Seq<char>) -> CommandModel {
    CommandModel {
        program: "flutter_rust_bridge_codegen"@,
        args: seq![
            "generate"@,
            "--rust-root"@,
            crate_root(p),
            "--rust-input"@,
            name,
            "--dart-output"@,
            dart_output(p),
        ],
        current_dir: Some(p),
        envs: Seq::empty(),
    }
}

/// One step of a bindings build.
pub enum Step {
    /// Create the binding template with `command`, unless `template_dir`
    /// already exists.
    Scaffold { template_dir: String, command: Command },
    /// Make sure the manifest at `manifest_path` declares a workspace.
    DeclareWorkspace { manifest_path: String },
    /// Add the user crate as a dependency of the template's crate.
    Register { command: Command },
    /// Point the dependency entry `crate_name` of the manifest at
    /// `manifest_path` to the directory `project_dir`, made absolute.
    Canonicalize { manifest_path: String, crate_name: String, project_dir: String },
    /// Install the toolchain target of `arch` with `install`, then build the
    /// library for it with `command`, which leaves it at `artifact`.
    Compile { arch: FlutterArch, install: Command, command: Command, artifact: String },
    /// Merge the libraries `inputs` of the targets `archs` of group `group`
    /// into one archive named `lib_name`, in a fresh directory under
    /// `build_dir`.
    Merge {
        group: usize,
        archs: Vec<FlutterArch>,
        inputs: Vec<String>,
        build_dir: String,
        lib_name: String,
    },
    /// Generate the bindings.
    Codegen { command: Command },
}

/// The mathematical value of a [`Step`].
pub enum StepModel {
    Scaffold { template_dir: Seq<char>, command: CommandModel },
    DeclareWorkspace { manifest_path: Seq<char> },
    Register { command: CommandModel },
    Canonicalize { manifest_path: Seq<char>, crate_name: Seq<char>, project_dir: Seq<char> },
    Compile { arch: FlutterArch, install: CommandModel, command: CommandModel, artifact: Seq<char> },
    Merge {
        group: nat,
        archs: Seq<FlutterArch>,
        inputs: Seq<Seq<char>>,
        build_dir: Seq<char>,
        lib_name: Seq<char>,
    },
    Codegen { command: CommandModel },
}

impl View for Step {
    type V = StepModel;

    open spec fn view(&self) -> StepModel {
        match self {
            Step::Scaffold { template_dir, command } => StepModel::Scaffold {
                template_dir: template_dir@,
                command: command@,
            },
            Step::DeclareWorkspace { manifest_path } => StepModel::DeclareWorkspace {
                manifest_path: manifest_path@,
            },
            Step::Register { command } => StepModel::Register { command: command@ },
            Step::Canonicalize { manifest_path, crate_name, project_dir } => StepModel::Canonicalize {
                manifest_path: manifest_path@,
                crate_name: crate_name@,
                project_dir: project_dir@,
            },
            Step::Compile { arch, install, command, artifact } => StepModel::Compile {
                arch: *arch,
                install: install@,
                command: command@,
                artifact: artifact@,
            },
            Step::Merge { group, archs, inputs, build_dir, lib_name } => StepModel::Merge {
                group: *group as nat,
                archs: archs@,
                inputs: texts(inputs@),
                build_dir: build_dir@,
                lib_name: lib_name@,
            },
            Step::Codegen { command } => StepModel::Codegen { command: command@ },
        }
    }
}

pub open spec fn step_views(v: Seq<Step>) -> Seq<StepModel> {
    v.map_values(|s: Step| s@)
}

pub open spec fn setup_steps(c: BuildSetup) -> Seq<StepModel> {
    seq![
        StepModel::Scaffold {
            template_dir: template_dir(c.project_dir),
            command: scaffold_model(c.project_dir),
        },
        StepModel::DeclareWorkspace { manifest_path: template_manifest(c.project_dir) },
        StepModel::Register { command: register_model(c.project_dir, c.crate_name) },
        StepModel::Canonicalize {
            manifest_path: template_manifest(c.project_dir),
            crate_name: c.crate_name,
            project_dir: c.project_dir,
        },
    ]
}

pub open spec fn compile_step(c: BuildSetup, arch: FlutterArch) -> StepModel {
    StepModel::Compile {
        arch,
        install: install_model(arch),
        command: compile_model(c, arch),
        artifact: artifact_path(c, arch),
    }
}

pub open spec fn merge_step(c: BuildSetup, k: nat, g: Seq<FlutterArch>) -> StepModel {
    StepModel::Merge {
        group: k,
        archs: g,
        inputs: g.map_values(|a: FlutterArch| artifact_path(c, a)),
        build_dir: build_dir(c.project_dir),
        lib_name: lib_file(c.lib_id),
    }
}

/// The builds of the targets of group `k`, then their merge.
pub open spec fn group_block(c: BuildSetup, k: nat, g: Seq<FlutterArch>) -> Seq<StepModel> {
    g.map_values(|a: FlutterArch| compile_step(c, a)).push(merge_step(c, k, g))
}

/// The blocks of all groups `gs`, in order.
pub open spec fn group_steps(c: BuildSetup, gs: Seq<Seq<FlutterArch>>) -> Seq<StepModel>
    decreases gs.len(),
{
    if gs.len() == 0 {
        Seq::empty()
    } else {
        group_steps(c, gs.drop_last()) + group_block(c, (gs.len() - 1) as nat, gs.last())
    }
}

pub open spec fn codegen_step(c: BuildSetup) -> StepModel {
    StepModel::Codegen { command: codegen_model(c.project_dir, c.crate_name) }
}

/// The whole build: integrate the template, build and merge each group,
/// then generate the bindings once.
pub open spec fn flutter_plan(c: BuildSetup, gs: Seq<Seq<FlutterArch>>) -> Seq<StepModel> {
    setup_steps(c) + group_steps(c, gs) + seq![codegen_step(c)]
}

fn scaffold_command(p: &str) -> (r: Command)
    ensures
        r@ == scaffold_model(p@),
{
    let args = vec![text("create"), text(FLUTTER_BINDINGS_DIR), text("--template"), text("plugin")];
    let r = Command {
        program: text("flutter_rust_bridge_codegen"),
        args,
        current_dir: Some(text(p)),
        envs: Vec::new(),
    };
    assert(r@.args =~= scaffold_model(p@).args);
    assert(r@.envs =~= scaffold_model(p@).envs);
    r
}

fn register_command(p: &str, name: &str) -> (r: Command)
    ensures
        r@ == register_model(p@, name@),
{
    let root = join_path(join_path(p, FLUTTER_BINDINGS_DIR).as_str(), "rust");
    let args = vec![text("add"), text(name), text("--path"), text(p)];
    let r = Command { program: text("cargo"), args, current_dir: Some(root), envs: Vec::new() };
    assert(r@.args =~= register_model(p@, name@).args);
    assert(r@.envs =~= register_model(p@, name@).envs);
    r
}

fn install_command(arch: FlutterArch) -> (r: Command)
    ensures
        r@ == install_model(arch),
{
    let args = vec![text("target"), text("add"), text(arch.as_str())];
    let r = Command { program: text("rustup"), args, current_dir: None, envs: Vec::new() };
    assert(r@.args =~= install_model(arch).args);
    assert(r@.envs =~= install_model(arch).envs);
    r
}

fn compile_command(
    p: &str,
    arch: FlutterArch,
    mode: Mode,
    using_noir: bool,
    c: Ghost<BuildSetup>,
) -> (r: Command)
    requires
        c@.project_dir == p@,
        c@.mode == mode,
        c@.using_noir == using_noir,
    ensures
        r@ == compile_model(c@, arch),
{
    let mut args: Vec<String> = vec![text("build")];
    if mode == Mode::Release {
        args.push(text("--release"));
    }
    args.push(text("--lib"));
    let mut envs: Vec<(String, String)> = Vec::new();
    if using_noir {
        envs.push((text("IPHONEOS_DEPLOYMENT_TARGET"), text("15.0")));
    }
    envs.push((text("CARGO_BUILD_TARGET_DIR"), join_path(p, "build")));
    envs.push((text("CARGO_BUILD_TARGET"), text(arch.as_str())));
    let r = Command { program: text("cargo"), args, current_dir: Some(text(p)), envs };
    assert(r@.args =~= compile_model(c@, arch).args);
    assert(r@.envs =~= compile_model(c@, arch).envs);
    r
}

fn codegen_command(p: &str, name: &str) -> (r: Command)
    ensures
        r@ == codegen_model(p@, name@),
{
    let template = join_path(p, FLUTTER_BINDINGS_DIR);
    let args = vec![
        text("generate"),
        text("--rust-root"),
        join_path(template.as_str(), "rust"),
        text("--rust-input"),
        text(name),
        text("--dart-output"),
        join_path(template.as_str(), "lib/src/rust"),
    ];
    let r = Command {
        program: text("flutter_rust_bridge_codegen"),
        args,
        current_dir: Some(text(p)),
        envs: Vec::new(),
    };
    assert(r@.args =~= codegen_model(p@, name@).args);
    assert(r@.envs =~= codegen_model(p@, name@).envs);
    r
}

fn artifact(p: &str, arch: FlutterArch, mode: Mode, lib_name: &str, c: Ghost<BuildSetup>) -> (r:
    String)
    requires
        c@.project_dir == p@,
        c@.mode == mode,
        lib_name@ == lib_file(c@.lib_id),
    ensures
        r@ == artifact_path(c@, arch),
{
    let d = join_path(join_path(join_path(p, "build").as_str(), arch.as_str()).as_str(), mode.as_str());
    join_path(d.as_str(), lib_name)
}

fn lib_file_name(id: &str) -> (r: String)
    ensures
        r@ == lib_file(id@),
{
    let mut r = text("lib");
    r.append(id);
    r.append(".a");
    r
}

fn push_step(steps: &mut Vec<Step>, s: Step)
    ensures
        step_views(final(steps)@) == step_views(old(steps)@).push(s@),
{
    steps.push(s);
    assert(step_views(final(steps)@) =~= step_views(old(steps)@).push(s@));
}

/// What a build with these arguments is about.
pub open spec fn setup_of(
    mode: Mode,
    project_dir: Seq<char>,
    crate_name: Seq<char>,
    lib_id: Seq<char>,
    using_noir: bool,
) -> BuildSetup {
    BuildSetup { mode, project_dir, crate_name, lib_id, using_noir }
}

/// The steps of a build, and the template directory that holds the
/// generated bindings once they have all run.
pub struct BuildPlan {
    pub steps: Vec<Step>,
    pub output: String,
}

/// The Flutter platform.
pub struct FlutterPlatform;

impl FlutterPlatform {
    /// Plans the build of Flutter bindings for the crate `crate_name`
    /// (whose library is `lib_id`) in `project_dir`, for `target_archs` on
    /// a host whose architecture is named `host_arch`. A host of neither
    /// family, or an empty target list, is refused before any step.
    pub fn build(
        mode: Mode,
        project_dir: &str,
        target_archs: &Vec<FlutterArch>,
        params: &FlutterBindingsParams,
        host_arch: &str,
        crate_name: &str,
        lib_id: &str,
    ) -> (r: Result<BuildPlan, BuildError>)
        ensures
            family_of_host(host_arch@) is None ==> r == Err::<BuildPlan, BuildError>(
                BuildError::Configuration(ConfigIssue::UnsupportedHost),
            ),
            family_of_host(host_arch@) is Some && target_archs@.len() == 0 ==> r == Err::<
                BuildPlan,
                BuildError,
            >(BuildError::Configuration(ConfigIssue::NoArchs)),
            match family_of_host(host_arch@) {
                Some(h) => target_archs@.len() > 0 ==> r is Ok && step_views(r->Ok_0.steps@)
                    == flutter_plan(
                    setup_of(mode, project_dir@, crate_name@, lib_id@, params.using_noir),
                    arch_groups(target_archs@, h),
                ) && r->Ok_0.output@ == FLUTTER_BINDINGS_DIR@,
                None => true,
            },
    {
        let host = match HostFamily::detect(host_arch) {
            Some(h) => h,
            None => return Err(BuildError::Configuration(ConfigIssue::UnsupportedHost)),
        };
        if target_archs.len() == 0 {
            return Err(BuildError::Configuration(ConfigIssue::NoArchs));
        }
        let ghost c = setup_of(mode, project_dir@, crate_name@, lib_id@, params.using_noir);
        let p = project_dir;
        let using_noir = params.using_noir;
        let template = join_path(p, FLUTTER_BINDINGS_DIR);
        let manifest = join_path(join_path(template.as_str(), "rust").as_str(), "Cargo.toml");
        let mut steps: Vec<Step> = Vec::new();
        push_step(
            &mut steps,
            Step::Scaffold { template_dir: template, command: scaffold_command(p) },
        );
        push_step(&mut steps, Step::DeclareWorkspace { manifest_path: manifest.clone() });
        push_step(&mut steps, Step::Register { command: register_command(p, crate_name) });
        push_step(
            &mut steps,
            Step::Canonicalize {
                manifest_path: manifest,
                crate_name: text(crate_name),
                project_dir: text(p),
            },
        );
        assert(step_views(steps@) =~= setup_steps(c));
        assert(group_steps(c, Seq::<Seq<FlutterArch>>::empty()) =~= Seq::<StepModel>::empty());
        let groups = group_target_archs(target_archs, host);
        let ghost gv = group_views(groups@);
        let lib_name = lib_file_name(lib_id);
        let mut k: usize = 0;
        while k < groups.len()
            invariant
                k <= groups@.len(),
                gv == group_views(groups@),
                c == setup_of(mode, p@, crate_name@, lib_id@, using_noir),
                lib_name@ == lib_file(lib_id@),
                step_views(steps@) == setup_steps(c) + group_steps(c, gv.subrange(0, k as int)),
            decreases groups@.len() - k,
        {
            let g = &groups[k];
            let ghost base = step_views(steps@);
            let mut archs: Vec<FlutterArch> = Vec::new();
            let mut inputs: Vec<String> = Vec::new();
            let mut j: usize = 0;
            while j < g.len()
                invariant
                    k < groups@.len(),
                    j <= g@.len(),
                    g@ == gv[k as int],
                    gv == group_views(groups@),
                    c == setup_of(mode, p@, crate_name@, lib_id@, using_noir),
                    lib_name@ == lib_file(lib_id@),
                    step_views(steps@) == base + g@.subrange(0, j as int).map_values(
                        |a: FlutterArch| compile_step(c, a),
                    ),
                    archs@ == g@.subrange(0, j as int),
                    texts(inputs@) == g@.subrange(0, j as int).map_values(
                        |a: FlutterArch| artifact_path(c, a),
                    ),
                decreases g@.len() - j,
            {
                let a = g[j];
                let art = artifact(p, a, mode, lib_name.as_str(), Ghost(c));
                let ghost before = step_views(steps@);
                push_step(
                    &mut steps,
                    Step::Compile {
                        arch: a,
                        install: install_command(a),
                        command: compile_command(p, a, mode, using_noir, Ghost(c)),
                        artifact: art.clone(),
                    },
                );
                let ghost ins = inputs@;
                archs.push(a);
                inputs.push(art);
                let ghost sub = g@.subrange(0, j + 1);
                assert(sub =~= g@.subrange(0, j as int).push(a));
                assert(sub.map_values(|a: FlutterArch| compile_step(c, a)) =~= g@.subrange(
                    0,
                    j as int,
                ).map_values(|a: FlutterArch| compile_step(c, a)).push(compile_step(c, a)));
                assert(sub.map_values(|a: FlutterArch| artifact_path(c, a)) =~= g@.subrange(
                    0,
                    j as int,
                ).map_values(|a: FlutterArch| artifact_path(c, a)).push(artifact_path(c, a)));
                assert(texts(inputs@) =~= texts(ins).push(artifact_path(c, a)));
                assert(step_views(steps@) =~= base + sub.map_values(
                    |a: FlutterArch| compile_step(c, a),
                ));
                j = j + 1;
            }
            assert(g@.subrange(0, j as int) =~= g@);
            push_step(
                &mut steps,
                Step::Merge {
                    group: k,
                    archs,
                    inputs,
                    build_dir: join_path(p, "build"),
                    lib_name: lib_name.clone(),
                },
            );
            let ghost done = gv.subrange(0, k + 1);
            assert(done.drop_last() =~= gv.subrange(0, k as int));
            assert(step_views(steps@) =~= setup_steps(c) + group_steps(c, done));
            k = k + 1;
        }
        assert(gv.subrange(0, k as int) =~= gv);
        push_step(&mut steps, Step::Codegen { command: codegen_command(p, crate_name) });
        assert(step_views(steps@) =~= flutter_plan(c, gv));
        Ok(BuildPlan { steps, output: text(FLUTTER_BINDINGS_DIR) })
    }
}

proof fn lemma_group_steps(c: BuildSetup, gs: Seq<Seq<FlutterArch>>)
    ensures
        forall|i: int|
            0 <= i < group_steps(c, gs).len() ==> !(#[trigger] group_steps(c, gs)[i] is Codegen),
        forall|i: int|
            0 <= i < group_steps(c, gs).len() && (#[trigger] group_steps(c, gs)[i] is Merge) ==> {
                let k = group_steps(c, gs)[i]->Merge_group;
                k < gs.len() && group_steps(c, gs)[i] == merge_step(c, k, gs[k as int])
            },
        forall|k: int|
            0 <= k < gs.len() ==> exists|i: int|
                0 <= i < group_steps(c, gs).len() && #[trigger] group_steps(c, gs)[i]
                    == merge_step(c, k as nat, #[trigger] gs[k]),
    decreases gs.len(),
{
    if gs.len() > 0 {
        let t = gs.drop_last();
        lemma_group_steps(c, t);
        let n = (gs.len() - 1) as nat;
        let g = gs.last();
        let head = group_steps(c, t);
        let block = group_block(c, n, g);
        let all = group_steps(c, gs);
        assert(all == head + block);
        assert forall|i: int| 0 <= i < block.len() - 1 implies (#[trigger] block[i]) == compile_step(
            c,
            g[i],
        ) by {}
        assert forall|i: int| 0 <= i < all.len() implies !(#[trigger] all[i] is Codegen) && (
        all[i] is Merge ==> {
            let k = all[i]->Merge_group;
            k < gs.len() && all[i] == merge_step(c, k, gs[k as int])
        }) by {
            if i < head.len() {
                assert(all[i] == head[i]);
                if head[i] is Merge {
                    assert(t[head[i]->Merge_group as int] == gs[head[i]->Merge_group as int]);
                }
            } else {
                assert(all[i] == block[i - head.len()]);
            }
        }
        assert forall|k: int| 0 <= k < gs.len() implies exists|i: int|
            0 <= i < all.len() && #[trigger] all[i] == merge_step(c, k as nat, #[trigger] gs[k]) by {
            if k < t.len() {
                assert(t[k] == gs[k]);
                let i = choose|i: int|
                    0 <= i < head.len() && #[trigger] head[i] == merge_step(c, k as nat, t[k]);
                assert(all[i] == head[i]);
            } else {
                let i = all.len() - 1;
                assert(all[i] == block[block.len() - 1]);
            }
        }
    }
}

/// In a planned build the bindings are generated exactly once, as the last
/// step; every group is merged before that, and each merge takes the
/// libraries of its group's targets in the group's order.
pub proof fn lemma_plan_codegen_once_after_merges(c: BuildSetup, gs: Seq<Seq<FlutterArch>>)
    ensures
        flutter_plan(c, gs).len() > 0,
        flutter_plan(c, gs).last() == codegen_step(c),
        forall|i: int|
            0 <= i < flutter_plan(c, gs).len() - 1 ==> !(#[trigger] flutter_plan(c, gs)[i] is Codegen),
        forall|i: int|
            0 <= i < flutter_plan(c, gs).len() && (#[trigger] flutter_plan(c, gs)[i] is Merge) ==> {
                let k = flutter_plan(c, gs)[i]->Merge_group;
                k < gs.len() && flutter_plan(c, gs)[i]->Merge_archs == gs[k as int]
                    && flutter_plan(c, gs)[i]->Merge_inputs == gs[k as int].map_values(
                    |a: FlutterArch| artifact_path(c, a),
                )
            },
        forall|k: int|
            0 <= k < gs.len() ==> exists|i: int|
                0 <= i < flutter_plan(c, gs).len() - 1 && #[trigger] flutter_plan(c, gs)[i]
                    == merge_step(c, k as nat, #[trigger] gs[k]),
{
    lemma_group_steps(c, gs);
    let plan = flutter_plan(c, gs);
    let head = setup_steps(c);
    let mid = group_steps(c, gs);
    assert forall|i: int| 0 <= i < plan.len() - 1 implies !(#[trigger] plan[i] is Codegen) && (
    plan[i] is Merge ==> {
        let k = plan[i]->Merge_group;
        k < gs.len() && plan[i] == merge_step(c, k, gs[k as int])
    }) by {
        if i >= head.len() {
            assert(plan[i] == mid[i - head.len()]);
        }
    }
    assert forall|k: int| 0 <= k < gs.len() implies exists|i: int|
        0 <= i < plan.len() - 1 && #[trigger] plan[i] == merge_step(c, k as nat, #[trigger] gs[k]) by {
        let j = choose|j: int| 0 <= j < mid.len() && #[trigger] mid[j] == merge_step(c, k as nat, gs[k]);
        assert(plan[head.len() + j] == mid[j]);
    }
}

/// Whether the library of the `i`-th target of a group was found.
pub open spec fn found(present: Seq<bool>, i: int) -> bool {
    i < present.len() && present[i]
}

/// Index of the first target of `group` whose library was not found, if any.
pub open spec fn first_missing(group: Seq<FlutterArch>, present: Seq<bool>) -> Option<int> {
    if exists|i: int| 0 <= i < group.len() && !found(present, i) {
        Some(choose|i: int| 0 <= i < group.len() && !found(present, i) && forall|j: int| 0 <= j < i ==> found(present, j))
    } else {
        None
    }
}

/// The merge of a group whose targets' libraries `inputs` were looked for
/// (`present[i]` tells whether the `i`-th was found): the merge invocation
/// writing `output` when all were found, else the build failure of the first
/// target whose library is missing, so that no merge runs.
pub fn merge_invocation(
    group: &Vec<FlutterArch>,
    inputs: &Vec<String>,
    present: &Vec<bool>,
    output: &str,
    mode: Mode,
) -> (r: Result<Command, BuildError>)
    ensures
        match first_missing(group@, present@) {
            None => r is Ok && r->Ok_0@ == merge_model(texts(inputs@), output@),
            Some(i) => r == Err::<Command, BuildError>(
                BuildError::Compile { arch: group@[i], mode, code: None },
            ),
        },
{
    let mut i: usize = 0;
    while i < group.len()
        invariant
            i <= group@.len(),
            forall|j: int| 0 <= j < i ==> found(present@, j),
        decreases group@.len() - i,
    {
        if i >= present.len() || !present[i] {
            assert(exists|k: int| 0 <= k < group@.len() && !found(present@, k) && forall|j: int|
                0 <= j < k ==> found(present@, j)) by {
                assert(!found(present@, i as int));
            }
            let ghost m = first_missing(group@, present@)->Some_0;
            assert(m == i) by {
                if m < i {
                    assert(found(present@, m));
                } else if m > i {
                    assert(found(present@, i as int));
                }
            }
            return Err(BuildError::Compile { arch: group[i], mode, code: None });
        }
        i = i + 1;
    }
    Ok(merge_command(inputs, output))
}

/// The failure that `step` reports when it ends unsuccessfully with `code`.
pub open spec fn failure_of(step: StepModel, mode: Mode, code: Option<i32>) -> BuildError {
    match step {
        StepModel::Scaffold { .. } => BuildError::Scaffold { code },
        StepModel::DeclareWorkspace { .. } => BuildError::Manifest(ManifestIssue::Io),
        StepModel::Register { .. } => BuildError::DependencyRegistration { code },
        StepModel::Canonicalize { .. } => BuildError::Manifest(ManifestIssue::Io),
        StepModel::Compile { arch, .. } => BuildError::Compile { arch, mode, code },
        StepModel::Merge { group, .. } => BuildError::Merge { group: group as usize, code },
        StepModel::Codegen { .. } => BuildError::Codegen { code },
    }
}

impl Step {
    /// The build failure reported when this step's tool exits unsuccessfully
    /// with `code`, or when the manifest it edits cannot be read or written.
    pub fn failure(&self, mode: Mode, code: Option<i32>) -> (r: BuildError)
        ensures
            r == failure_of(self@, mode, code),
    {
        match self {
            Step::Scaffold { .. } => BuildError::Scaffold { code },
            Step::DeclareWorkspace { .. } => BuildError::Manifest(ManifestIssue::Io),
            Step::Register { .. } => BuildError::DependencyRegistration { code },
            Step::Canonicalize { .. } => BuildError::Manifest(ManifestIssue::Io),
            Step::Compile { arch, .. } => BuildError::Compile { arch: *arch, mode, code },
            Step::Merge { group, .. } => BuildError::Merge { group: *group, code },
            Step::Codegen { .. } => BuildError::Codegen { code },
        }
    }
}

/// Every name of `names` names a target.
pub open spec fn all_known(names: Seq<String>) -> bool {
    forall|i: int| 0 <= i < names.len() ==> (#[trigger] arch_named(names[i]@)) is Some
}

/// The targets that `names` name.
pub open spec fn named_archs(names: Seq<String>) -> Seq<FlutterArch> {
    names.map_values(|n: String| arch_named(n@)->Some_0)
}

/// The targets named by `names`, or a configuration failure when one names
/// no target.
pub fn parse_archs(names: &Vec<String>) -> (r: Result<Vec<FlutterArch>, BuildError>)
    ensures
        all_known(names@) ==> r is Ok && r->Ok_0@ == named_archs(names@),
        !all_known(names@) ==> r == Err::<Vec<FlutterArch>, BuildError>(
            BuildError::Configuration(ConfigIssue::UnknownArch),
        ),
{
    let mut archs: Vec<FlutterArch> = Vec::new();
    let mut i: usize = 0;
    while i < names.len()
        invariant
            i <= names@.len(),
            forall|j: int| 0 <= j < i ==> (#[trigger] arch_named(names@[j]@)) is Some,
            archs@ == named_archs(names@.subrange(0, i as int)),
        decreases names@.len() - i,
    {
        match FlutterArch::parse(names[i].as_str()) {
            Some(a) => {
                archs.push(a);
                assert(named_archs(names@.subrange(0, i + 1)) =~= named_archs(
                    names@.subrange(0, i as int),
                ).push(a));
            },
            None => {
                return Err(BuildError::Configuration(ConfigIssue::UnknownArch));
            },
        }
        i = i + 1;
    }
    assert(names@.subrange(0, i as int) =~= names@);
    Ok(archs)
}

/// Plans a Flutter build for the project in `project_dir` whose manifest is
/// `doc`, taking the crate and library names from it.
pub fn plan_with_manifest(
    doc: &toml::Value,
    mode: Mode,
    project_dir: &str,
    target_archs: &Vec<FlutterArch>,
    params: &FlutterBindingsParams,
    host_arch: &str,
) -> (r: Result<BuildPlan, BuildError>)
    ensures
        family_of_host(host_arch@) is None ==> r == Err::<BuildPlan, BuildError>(
            BuildError::Configuration(ConfigIssue::UnsupportedHost),
        ),
        family_of_host(host_arch@) is Some && target_archs@.len() == 0 ==> r == Err::<
            BuildPlan,
            BuildError,
        >(BuildError::Configuration(ConfigIssue::NoArchs)),
        match (family_of_host(host_arch@), package_name(*doc), library_name(*doc)) {
            (Some(h), Some(name), Some(lib)) => target_archs@.len() > 0 ==> r is Ok && step_views(
                r->Ok_0.steps@,
            ) == flutter_plan(
                setup_of(mode, project_dir@, name, lib, params.using_noir),
                arch_groups(target_archs@, h),
            ) && r->Ok_0.output@ == FLUTTER_BINDINGS_DIR@,
            (Some(_), _, _) => target_archs@.len() > 0 ==> r == Err::<BuildPlan, BuildError>(
                BuildError::Manifest(ManifestIssue::MissingEntry),
            ),
            _ => true,
        },
{
    if HostFamily::detect(host_arch).is_none() {
        return Err(BuildError::Configuration(ConfigIssue::UnsupportedHost));
    }
    if target_archs.len() == 0 {
        return Err(BuildError::Configuration(ConfigIssue::NoArchs));
    }
    let crate_name = raw_project_name(doc)?;
    let lib_id = project_name(doc)?;
    FlutterPlatform::build(
        mode,
        project_dir,
        target_archs,
        params,
        host_arch,
        crate_name.as_str(),
        lib_id.as_str(),
    )
}

/// Plans a Flutter build from plain settings: the build configuration name
/// (`release` or anything else for debug), the requested target triples,
/// the project directory and the text of its manifest, and the host's
/// architecture name. Target names and the host are checked before the
/// manifest is read.
pub fn build(
    configuration: &str,
    target_archs: &Vec<String>,
    project_dir: &str,
    project_manifest: &str,
    params: &FlutterBindingsParams,
    host_arch: &str,
) -> (r: Result<BuildPlan, BuildError>)
    ensures
        !all_known(target_archs@) ==> r == Err::<BuildPlan, BuildError>(
            BuildError::Configuration(ConfigIssue::UnknownArch),
        ),
        all_known(target_archs@) && family_of_host(host_arch@) is None ==> r == Err::<
            BuildPlan,
            BuildError,
        >(BuildError::Configuration(ConfigIssue::UnsupportedHost)),
        all_known(target_archs@) && family_of_host(host_arch@) is Some && target_archs@.len() == 0
            ==> r == Err::<BuildPlan, BuildError>(BuildError::Configuration(ConfigIssue::NoArchs)),
        all_known(target_archs@) && family_of_host(host_arch@) is Some && target_archs@.len() > 0
            && !parses_as_toml(project_manifest@) ==> r == Err::<BuildPlan, BuildError>(
            BuildError::Manifest(ManifestIssue::Parse),
        ),
        all_known(target_archs@) && family_of_host(host_arch@) is Some && target_archs@.len() > 0
            && parses_as_toml(project_manifest@) && manifest_package_name(project_manifest@) is None
            ==> r == Err::<BuildPlan, BuildError>(BuildError::Manifest(ManifestIssue::MissingEntry)),
        match (family_of_host(host_arch@), manifest_package_name(project_manifest@)) {
            (Some(h), Some(name)) => all_known(target_archs@) && target_archs@.len() > 0
                && parses_as_toml(project_manifest@) ==> r is Ok && step_views(r->Ok_0.steps@)
                == flutter_plan(
                setup_of(
                    mode_named(configuration@),
                    project_dir@,
                    name,
                    manifest_library_name(project_manifest@)->Some_0,
                    params.using_noir,
                ),
                arch_groups(named_archs(target_archs@), h),
            ) && r->Ok_0.output@ == FLUTTER_BINDINGS_DIR@,
            _ => true,
        },
{
    let mode = Mode::parse(configuration);
    let archs = parse_archs(target_archs)?;
    if HostFamily::detect(host_arch).is_none() {
        return Err(BuildError::Configuration(ConfigIssue::UnsupportedHost));
    }
    if archs.len() == 0 {
        return Err(BuildError::Configuration(ConfigIssue::NoArchs));
    }
    let doc = parse_manifest(project_manifest)?;
    proof {
        assert(package_name(doc) == manifest_package_name(project_manifest@));
        assert(library_name(doc) == manifest_library_name(project_manifest@));
    }
    plan_with_manifest(&doc, mode, project_dir, &archs, params, host_arch)
}

} // verus!
