//! Installing a project: building its plugins, bringing the runtime into the
//! game's folder, and merging what was built over it.

use crate::fspath::{join, joined};
use crate::plugins::{
    build, build_outputs, build_root_of, create_build_root, outputs, plugin_build, PluginBuild,
};
use crate::project::{Game, Package};
use crate::repo::{first_missing, PluginDefinitionProvider, RepoError, RepoErrorView};
use crate::sdk::{
    branch_version, sdk_name, wanted_sdk_dir, Branch, Environment, Manager, Runtime, SdkError,
};
use vstd::prelude::*;
use vstd::string::*;

verus! {

/// One step of an installation once the plugins are built, carried out by the
/// caller in the order given. A step that cannot be carried out ends the
/// installation; nothing done before it is undone.
#[derive(Debug)]
pub enum InstallStep {
    /// The game's folder has to be there: an installation is never started
    /// from nothing.
    RequireModFolder { path: String },
    /// The latest metamod of the branch is brought into the folder.
    InstallMetamod { branch: Branch, target_dir: String },
    /// The latest sourcemod of the branch is brought into the folder.
    InstallSourcemod { branch: Branch, target_dir: String },
    /// Everything below `from` is copied to below `to`. Files that exist on
    /// both sides are overwritten; files that exist only below `to` stay.
    MergeTree { from: String, to: String },
    /// The configuration files of the project are generated anew.
    WriteConfigs,
}

pub enum InstallStepView {
    RequireModFolder { path: Seq<char> },
    InstallMetamod { branch: Branch, target_dir: Seq<char> },
    InstallSourcemod { branch: Branch, target_dir: Seq<char> },
    MergeTree { from: Seq<char>, to: Seq<char> },
    WriteConfigs,
}

impl DeepView for InstallStep {
    type V = InstallStepView;

    open spec fn deep_view(&self) -> InstallStepView {
        match self {
            InstallStep::RequireModFolder { path } => InstallStepView::RequireModFolder {
                path: path@,
            },
            InstallStep::InstallMetamod { branch, target_dir } => InstallStepView::InstallMetamod {
                branch: *branch,
                target_dir: target_dir@,
            },
            InstallStep::InstallSourcemod { branch, target_dir } =>
                InstallStepView::InstallSourcemod { branch: *branch, target_dir: target_dir@ },
            InstallStep::MergeTree { from, to } => InstallStepView::MergeTree {
                from: from@,
                to: to@,
            },
            InstallStep::WriteConfigs => InstallStepView::WriteConfigs,
        }
    }
}

/// Why an installation stopped.
#[derive(Debug)]
pub enum InstallError {
    /// No installed SDK serves the branch of the manifest.
    Sdk(SdkError),
    /// A plugin of the manifest is unknown.
    Plugin(RepoError),
    /// The game's folder does not exist.
    ModFolderMissing(String),
}

pub enum InstallErrorView {
    Sdk(SdkError),
    Plugin(RepoErrorView),
    ModFolderMissing(Seq<char>),
}

impl DeepView for InstallError {
    type V = InstallErrorView;

    open spec fn deep_view(&self) -> InstallErrorView {
        match self {
            InstallError::Sdk(e) => InstallErrorView::Sdk(*e),
            InstallError::Plugin(e) => InstallErrorView::Plugin(e.deep_view()),
            InstallError::ModFolderMissing(path) => InstallErrorView::ModFolderMissing(path@),
        }
    }
}

impl InstallErrorView {
    /// The message shown for the error.
    pub open spec fn message(self) -> Seq<char> {
        match self {
            InstallErrorView::Sdk(e) => e.text(),
            InstallErrorView::Plugin(e) => e.message(),
            InstallErrorView::ModFolderMissing(path) => "Mod folder does not exist: "@ + path,
        }
    }
}

impl InstallError {
    /// The message shown for the error.
    pub fn message(&self) -> (r: String)
        ensures
            r@ == self.deep_view().message(),
    {
        match self {
            InstallError::Sdk(e) => e.message(),
            InstallError::Plugin(e) => e.message(),
            InstallError::ModFolderMissing(path) => {
                let mut r = String::from_str("Mod folder does not exist: ");
                r.append(path.as_str());
                r
            },
        }
    }
}

impl InstallStep {
    /// Whether the installation goes on after this step, given whether the
    /// folder it requires exists. Only a missing game folder ends it, with
    /// an error that names the folder.
    pub fn check(&self, present: bool) -> (r: Result<(), InstallError>)
        ensures
            match r {
                Ok(_) => present || !(self is RequireModFolder),
                Err(e) => !present && e is ModFolderMissing && self.deep_view() == (
                InstallStepView::RequireModFolder { path: e.deep_view()->ModFolderMissing_0 }),
            },
    {
        match self {
            InstallStep::RequireModFolder { path } => if present {
                Ok(())
            } else {
                Err(InstallError::ModFolderMissing(path.clone()))
            },
            _ => Ok(()),
        }
    }
}

/// Where the plugins of a game live.
pub open spec fn sourcemod_root(mod_folder: Seq<char>) -> Seq<char> {
    joined(joined(mod_folder, "addons"@), "sourcemod"@)
}

/// One merge for each build output, in order.
pub open spec fn merge_steps(outputs: Seq<Seq<char>>, to: Seq<char>) -> Seq<InstallStepView> {
    Seq::new(outputs.len(), |i: int| InstallStepView::MergeTree { from: outputs[i], to })
}

/// The steps that install the build outputs `outputs` into the game's folder
/// `mod_folder`: the folder is required, metamod and sourcemod are brought
/// into it, each output is merged over the plugins of the game, and the
/// configuration files are written last, whether or not anything was built.
pub open spec fn install_steps(mod_folder: Seq<char>, branch: Branch, outputs: Seq<Seq<char>>) -> Seq<
    InstallStepView,
> {
    seq![
        InstallStepView::RequireModFolder { path: mod_folder },
        InstallStepView::InstallMetamod { branch, target_dir: mod_folder },
        InstallStepView::InstallSourcemod { branch, target_dir: mod_folder },
    ] + merge_steps(outputs, sourcemod_root(mod_folder)) + seq![InstallStepView::WriteConfigs]
}

/// The steps that install build outputs for a game below `project_root`;
/// none for a game whose folder is not known.
pub open spec fn game_steps(
    project_root: Seq<char>,
    game: Game,
    branch: Branch,
    outputs: Seq<Seq<char>>,
) -> Option<Seq<InstallStepView>> {
    match game.spec_mod_folder() {
        Some(folder) => Some(install_steps(joined(project_root, folder), branch, outputs)),
        None => None,
    }
}

/// The steps that install the build outputs `outputs` for `manifest`.
pub fn plan_install(project_root: &str, manifest: &Package, outputs: &Vec<String>) -> (r: Vec<
    InstallStep,
>)
    requires
        manifest.game.is_supported(),
    ensures
        game_steps(project_root@, manifest.game, manifest.branch, outputs.deep_view()) == Some(
            r.deep_view(),
        ),
{
    let mod_folder = join(project_root, manifest.game.mod_folder());
    let addons = join(mod_folder.as_str(), "addons");
    let sm_root = join(addons.as_str(), "sourcemod");
    let ghost all = outputs.deep_view();
    let mut steps: Vec<InstallStep> = Vec::new();
    steps.push(InstallStep::RequireModFolder { path: mod_folder.clone() });
    steps.push(InstallStep::InstallMetamod { branch: manifest.branch, target_dir: mod_folder.clone() });
    steps.push(InstallStep::InstallSourcemod { branch: manifest.branch, target_dir: mod_folder.clone() });
    let ghost head = steps.deep_view();
    assert(head =~= seq![
        InstallStepView::RequireModFolder { path: mod_folder@ },
        InstallStepView::InstallMetamod { branch: manifest.branch, target_dir: mod_folder@ },
        InstallStepView::InstallSourcemod { branch: manifest.branch, target_dir: mod_folder@ },
    ]);
    let mut i: usize = 0;
    assert(steps.deep_view() =~= head + merge_steps(all.take(0), sm_root@));
    while i < outputs.len()
        invariant
            i <= outputs.len(),
            all == outputs.deep_view(),
            steps.deep_view() == head + merge_steps(all.take(i as int), sm_root@),
        decreases outputs.len() - i,
    {
        let ghost so_far = steps.deep_view();
        steps.push(InstallStep::MergeTree { from: outputs[i].clone(), to: sm_root.clone() });
        proof {
            assert(steps.deep_view() =~= so_far.push(
                InstallStepView::MergeTree { from: outputs@[i as int]@, to: sm_root@ },
            ));
            assert(all.take(i + 1)[i as int] == outputs@[i as int]@);
            assert(steps.deep_view() =~= head + merge_steps(all.take(i + 1), sm_root@));
        }
        i += 1;
    }
    assert(all.take(i as int) =~= all);
    let ghost merged = steps.deep_view();
    steps.push(InstallStep::WriteConfigs);
    assert(steps.deep_view() =~= merged + seq![InstallStepView::WriteConfigs]);
    steps
}

/// An installation: the toolchain and the build root it uses, the builds of
/// the manifest's plugins, then the steps that bring their outputs into the
/// game.
#[derive(Debug)]
pub struct InstallPlan {
    /// The SDK of the manifest's branch.
    pub sdk_env: Environment,
    /// The build root, which the caller creates before the first build.
    pub build_root: String,
    pub builds: Vec<PluginBuild>,
    /// The steps that follow the builds; none for a game whose folder is
    /// not known, into which nothing can be installed.
    pub steps: Option<Vec<InstallStep>>,
}

/// Plans the installation of `manifest` into the project at `project_root`,
/// `now` seconds after the epoch, with the SDKs `sdks` installed below
/// `app_root`.
///
/// The toolchain is the installed SDK of the manifest's branch; where it is
/// not among `sdks` the call fails with the error of the toolchain. Then a
/// build root is named after `now`, and the plugins of the manifest are
/// resolved through `repo` and built below it, in order; an unknown plugin
/// fails the call with `NotFound`, naming the first such plugin. The steps
/// that follow the builds require the game's folder, bring metamod and
/// sourcemod into it, merge each build output over the plugins of the game,
/// and write the configuration files. Where the call fails nothing is
/// planned.
pub fn install<P: PluginDefinitionProvider>(
    app_root: &str,
    manifest: &Package,
    project_root: &str,
    repo: &P,
    sdks: &Vec<String>,
    now: u64,
) -> (r: Result<InstallPlan, InstallError>)
    ensures
        ({
            let version = branch_version(Runtime::Sourcemod, manifest.branch);
            let installed = sdks.deep_view();
            let names = manifest.plugin_names();
            let outcomes = Seq::new(names.len(), |i: int| repo.resolution(names[i]));
            match r {
                Ok(plan) => {
                    &&& installed.contains(sdk_name(version))
                    &&& plan.sdk_env.spec_root() == wanted_sdk_dir(app_root@, version)
                    &&& plan.build_root@ == build_root_of(app_root@, now as nat)
                    &&& forall|i: int| 0 <= i < names.len() ==> (#[trigger] outcomes[i]) is Some
                    &&& plan.builds.deep_view() == Seq::new(
                        names.len(),
                        |i: int|
                            plugin_build(
                                app_root@,
                                plan.sdk_env.spec_root(),
                                plan.build_root@,
                                outcomes[i].unwrap(),
                            ),
                    )
                    &&& plan.steps.deep_view() == game_steps(
                        project_root@,
                        manifest.game,
                        manifest.branch,
                        build_outputs(plan.builds.deep_view()),
                    )
                },
                Err(e) => match e.deep_view() {
                    InstallErrorView::Sdk(cause) => !installed.contains(sdk_name(version)) && cause
                        == if sdks.len() == 0 {
                        SdkError::NoSdksInstalled
                    } else {
                        SdkError::NoSdkForBranch
                    },
                    InstallErrorView::Plugin(cause) => {
                        &&& installed.contains(sdk_name(version))
                        &&& exists|i: int|
                            first_missing(outcomes, i) && cause == RepoErrorView::NotFound(names[i])
                    },
                    InstallErrorView::ModFolderMissing(_) => false,
                },
            }
        }),
{
    let manager = Manager::new(app_root);
    let sdk_env = match manager.get_sdk_env(&manifest.branch, sdks) {
        Ok(sdk_env) => sdk_env,
        Err(e) => {
            return Err(InstallError::Sdk(e));
        },
    };
    let build_root = create_build_root(app_root, now);
    let builds = match build(app_root, &sdk_env, build_root.as_str(), repo, &manifest.plugins) {
        Ok(builds) => builds,
        Err(e) => {
            return Err(InstallError::Plugin(e));
        },
    };
    let built = outputs(&builds);
    let steps = if manifest.game.is_supported() {
        Some(plan_install(project_root, manifest, &built))
    } else {
        None
    };
    Ok(InstallPlan { sdk_env, build_root, builds, steps })
}

} // verus!
