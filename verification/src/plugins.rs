//! Plugin definitions and the staging of a build.

use crate::fspath::{join, joined};
use crate::project::{clone_configs, Game, SimpleConfig, SimpleConfigView};
use crate::repo::{
    all_found, first_missing, names_of, PluginDefinitionProvider, RepoError, RepoErrorView,
};
use crate::sdk::args::{compiler_bin_name, or_empty, sdk_include_dir};
use crate::sdk::{
    calls_for, compiler_program, CompilerArgs, CompilerArgsView, CompilerCall, Environment,
};
use crate::text::{clone_opt_text, clone_opt_texts, decimal, decimal_text};
use vstd::prelude::*;
use vstd::string::*;

verus! {

/// Name of the definition file inside a plugin's source directory.
pub const PLUGIN_DEFINITION_FILE: &'static str = "plugin.yaml";

/// Describes one buildable plugin.
#[derive(Debug)]
pub struct Definition {
    /// Name of the plugin; equals the name of its directory in the repository.
    pub name: String,
    pub description: String,
    pub version: String,
    /// The scripts to compile, relative to the plugin's `scripting` directory.
    /// Without inputs the plugin is staged and nothing is compiled.
    pub inputs: Option<Vec<String>>,
    pub url: Option<String>,
    pub authors: Option<Vec<String>>,
    pub license: Option<String>,
    /// Plugins whose include trees are staged beside this one's sources.
    pub dependencies: Option<Vec<String>>,
    /// Where the plugin's scripts are; set by the provider that resolved the
    /// definition, absent in an index.
    pub path: Option<String>,
    pub configs: Option<Vec<SimpleConfig>>,
    pub games: Option<Vec<Game>>,
}

pub struct DefinitionView {
    pub name: Seq<char>,
    pub description: Seq<char>,
    pub version: Seq<char>,
    pub inputs: Option<Seq<Seq<char>>>,
    pub url: Option<Seq<char>>,
    pub authors: Option<Seq<Seq<char>>>,
    pub license: Option<Seq<char>>,
    pub dependencies: Option<Seq<Seq<char>>>,
    pub path: Option<Seq<char>>,
    pub configs: Option<Seq<SimpleConfigView>>,
    pub games: Option<Seq<Game>>,
}

impl DefinitionView {
    /// The same definition, resolved to `path`.
    pub open spec fn at(self, path: Seq<char>) -> DefinitionView {
        DefinitionView { path: Some(path), ..self }
    }
}

impl DeepView for Definition {
    type V = DefinitionView;

    open spec fn deep_view(&self) -> DefinitionView {
        DefinitionView {
            name: self.name.deep_view(),
            description: self.description.deep_view(),
            version: self.version.deep_view(),
            inputs: self.inputs.deep_view(),
            url: self.url.deep_view(),
            authors: self.authors.deep_view(),
            license: self.license.deep_view(),
            dependencies: self.dependencies.deep_view(),
            path: self.path.deep_view(),
            configs: self.configs.deep_view(),
            games: self.games.deep_view(),
        }
    }
}

impl Clone for Definition {
    fn clone(&self) -> (r: Self)
        ensures
            r.deep_view() == self.deep_view(),
    {
        let configs = match &self.configs {
            Some(c) => Some(clone_configs(c)),
            None => None,
        };
        let games = match &self.games {
            Some(g) => {
                let h = g.clone();
                assert(h.deep_view() =~= g.deep_view());
                Some(h)
            },
            None => None,
        };
        Definition {
            name: self.name.clone(),
            description: self.description.clone(),
            version: self.version.clone(),
            inputs: clone_opt_texts(&self.inputs),
            url: clone_opt_text(&self.url),
            authors: clone_opt_texts(&self.authors),
            license: clone_opt_text(&self.license),
            dependencies: clone_opt_texts(&self.dependencies),
            path: clone_opt_text(&self.path),
            configs,
            games,
        }
    }
}

impl Definition {
    /// The text a definition is shown as: its name.
    pub fn to_string(&self) -> (r: String)
        ensures
            r@ == self.name@,
    {
        self.name.clone()
    }
}

/// One step of staging a plugin, carried out by the caller in the order
/// given. A step that cannot be carried out ends the build.
#[derive(Debug)]
pub enum BuildStep {
    /// The plugin's source tree has to be there.
    RequireSource { path: String, plugin: String },
    /// The directory is created, with the directories above it.
    CreateDir { path: String },
    /// Everything below `from` is copied to below `to`; files that are there
    /// already are overwritten.
    CopyTree { from: String, to: String },
    /// The include tree of a dependency has to be there.
    RequireIncludes { path: String, dependency: String },
}

pub enum BuildStepView {
    RequireSource { path: Seq<char>, plugin: Seq<char> },
    CreateDir { path: Seq<char> },
    CopyTree { from: Seq<char>, to: Seq<char> },
    RequireIncludes { path: Seq<char>, dependency: Seq<char> },
}

impl DeepView for BuildStep {
    type V = BuildStepView;

    open spec fn deep_view(&self) -> BuildStepView {
        match self {
            BuildStep::RequireSource { path, plugin } => BuildStepView::RequireSource {
                path: path@,
                plugin: plugin@,
            },
            BuildStep::CreateDir { path } => BuildStepView::CreateDir { path: path@ },
            BuildStep::CopyTree { from, to } => BuildStepView::CopyTree { from: from@, to: to@ },
            BuildStep::RequireIncludes { path, dependency } => BuildStepView::RequireIncludes {
                path: path@,
                dependency: dependency@,
            },
        }
    }
}

/// Why a build stopped.
#[derive(Debug)]
pub enum BuildError {
    /// The plugin has no source tree at `path`.
    SourceMissing { plugin: String, path: String },
    /// The dependency has no include tree at `path`.
    IncludesMissing { dependency: String, path: String },
}

pub enum BuildErrorView {
    SourceMissing { plugin: Seq<char>, path: Seq<char> },
    IncludesMissing { dependency: Seq<char>, path: Seq<char> },
}

impl DeepView for BuildError {
    type V = BuildErrorView;

    open spec fn deep_view(&self) -> BuildErrorView {
        match self {
            BuildError::SourceMissing { plugin, path } => BuildErrorView::SourceMissing {
                plugin: plugin@,
                path: path@,
            },
            BuildError::IncludesMissing { dependency, path } => BuildErrorView::IncludesMissing {
                dependency: dependency@,
                path: path@,
            },
        }
    }
}

impl BuildErrorView {
    /// The message shown for the error.
    pub open spec fn message(self) -> Seq<char> {
        match self {
            BuildErrorView::SourceMissing { plugin, path } => "Source directory of plugin "@
                + plugin + " not found: "@ + path,
            BuildErrorView::IncludesMissing { dependency, path } =>
                "Include directory of dependency "@ + dependency + " not found: "@ + path,
        }
    }
}

impl BuildError {
    /// The message shown for the error.
    pub fn message(&self) -> (r: String)
        ensures
            r@ == self.deep_view().message(),
    {
        match self {
            BuildError::SourceMissing { plugin, path } => {
                let mut r = String::from_str("Source directory of plugin ");
                r.append(plugin.as_str());
                r.append(" not found: ");
                r.append(path.as_str());
                r
            },
            BuildError::IncludesMissing { dependency, path } => {
                let mut r = String::from_str("Include directory of dependency ");
                r.append(dependency.as_str());
                r.append(" not found: ");
                r.append(path.as_str());
                r
            },
        }
    }
}

impl BuildStepView {
    /// The directory that has to exist before the step, if the step asks for
    /// one.
    pub open spec fn required_dir(self) -> Option<Seq<char>> {
        match self {
            BuildStepView::RequireSource { path, .. } => Some(path),
            BuildStepView::RequireIncludes { path, .. } => Some(path),
            _ => None,
        }
    }

    /// The error that ends the build where the required directory is missing.
    pub open spec fn failure(self) -> Option<BuildErrorView> {
        match self {
            BuildStepView::RequireSource { path, plugin } => Some(
                BuildErrorView::SourceMissing { plugin, path },
            ),
            BuildStepView::RequireIncludes { path, dependency } => Some(
                BuildErrorView::IncludesMissing { dependency, path },
            ),
            _ => None,
        }
    }
}

impl BuildStep {
    /// The directory whose existence decides whether the build goes on.
    pub fn required_dir(&self) -> (r: Option<&str>)
        ensures
            match r {
                Some(path) => self.deep_view().required_dir() == Some(path@),
                None => self.deep_view().required_dir() is None,
            },
    {
        match self {
            BuildStep::RequireSource { path, .. } => Some(path.as_str()),
            BuildStep::RequireIncludes { path, .. } => Some(path.as_str()),
            _ => None,
        }
    }

    /// Whether the build goes on after this step, given whether the
    /// directory it requires exists. A step that requires none always passes;
    /// a missing source tree or include tree ends the build with an error that
    /// names the plugin or the dependency, and the missing path.
    pub fn check(&self, present: bool) -> (r: Result<(), BuildError>)
        ensures
            match r {
                Ok(_) => present || self.deep_view().failure() is None,
                Err(e) => !present && self.deep_view().failure() == Some(e.deep_view()),
            },
    {
        if present {
            return Ok(());
        }
        match self {
            BuildStep::RequireSource { path, plugin } => Err(
                BuildError::SourceMissing { plugin: plugin.clone(), path: path.clone() },
            ),
            BuildStep::RequireIncludes { path, dependency } => Err(
                BuildError::IncludesMissing { dependency: dependency.clone(), path: path.clone() },
            ),
            _ => Ok(()),
        }
    }
}

/// The sources of a plugin in the checkout below `app_root`.
pub open spec fn source_tree(app_root: Seq<char>, name: Seq<char>) -> Seq<char> {
    joined(joined(joined(app_root, "repo"@), name), "src"@)
}

/// The include files that a plugin offers to those that depend on it.
pub open spec fn include_tree(app_root: Seq<char>, name: Seq<char>) -> Seq<char> {
    joined(joined(joined(app_root, "repo"@), name), "src/scripting/include"@)
}

/// The staging directory of a plugin, which is also its build output.
pub open spec fn build_dir(build_root: Seq<char>, name: Seq<char>) -> Seq<char> {
    joined(build_root, name)
}

/// The steps that bring the include trees of `dependencies` into
/// `include_dir`, in the order declared: a later dependency overwrites what an
/// earlier one has put there.
pub open spec fn dependency_steps(
    app_root: Seq<char>,
    include_dir: Seq<char>,
    dependencies: Seq<Seq<char>>,
) -> Seq<BuildStepView>
    decreases dependencies.len(),
{
    if dependencies.len() == 0 {
        Seq::empty()
    } else {
        let dependency = dependencies.last();
        dependency_steps(app_root, include_dir, dependencies.drop_last()) + seq![
            BuildStepView::RequireIncludes {
                path: include_tree(app_root, dependency),
                dependency,
            },
            BuildStepView::CopyTree { from: include_tree(app_root, dependency), to: include_dir },
        ]
    }
}

/// The steps that stage one plugin: its whole source tree is copied into a
/// fresh build directory, then the include trees of its dependencies into the
/// `include` directory there. That directory is made for every plugin, so
/// that it can be put on the include path whether or not anything goes
/// into it.
pub open spec fn staging(app_root: Seq<char>, build_root: Seq<char>, d: DefinitionView) -> Seq<
    BuildStepView,
> {
    let dir = build_dir(build_root, d.name);
    let own = seq![
        BuildStepView::RequireSource { path: source_tree(app_root, d.name), plugin: d.name },
        BuildStepView::CreateDir { path: dir },
        BuildStepView::CopyTree { from: source_tree(app_root, d.name), to: dir },
    ];
    own + seq![BuildStepView::CreateDir { path: joined(dir, "include"@) }] + dependency_steps(
        app_root,
        joined(dir, "include"@),
        match d.dependencies {
            Some(dependencies) => dependencies,
            None => Seq::empty(),
        },
    )
}

/// The build of one plugin: what to stage, and what to compile with.
#[derive(Debug)]
pub struct PluginBuild {
    pub definition: Definition,
    /// The plugin's staging directory and build output.
    pub build_dir: String,
    /// The staging steps, in order.
    pub steps: Vec<BuildStep>,
    /// The staged include directory. Its absolute form is added to the
    /// include path of `args` once the steps are done.
    pub include_dir: String,
    /// The compiler options: those of the toolchain, with the staged
    /// `scripting` directory as the active directory.
    pub args: CompilerArgs,
}

pub struct PluginBuildView {
    pub definition: DefinitionView,
    pub build_dir: Seq<char>,
    pub steps: Seq<BuildStepView>,
    pub include_dir: Seq<char>,
    pub args: CompilerArgsView,
}

impl DeepView for PluginBuild {
    type V = PluginBuildView;

    open spec fn deep_view(&self) -> PluginBuildView {
        PluginBuildView {
            definition: self.definition.deep_view(),
            build_dir: self.build_dir@,
            steps: self.steps.deep_view(),
            include_dir: self.include_dir@,
            args: self.args.deep_view(),
        }
    }
}

impl PluginBuild {
    /// The compiler runs of the build, once its steps are done:
    /// `staged_includes`, the absolute path of the staged include directory,
    /// is put on the include path, and each input of the plugin is compiled
    /// with the options of the build.
    pub fn compile(&self, sdk_env: &Environment, staged_includes: String) -> (r: Vec<CompilerCall>)
        ensures
            r.deep_view() == calls_for(
                compiler_program(sdk_env.spec_root(), compiler_bin_name()),
                self.deep_view().args.with_include(staged_includes@),
                or_empty(self.deep_view().definition.inputs),
            ),
    {
        let mut args = self.args.clone();
        args.add_include(staged_includes);
        sdk_env.compile(&mut args, &self.definition)
    }
}

/// The build of the plugin `d` with the toolchain at `sdk_root`.
pub open spec fn plugin_build(
    app_root: Seq<char>,
    sdk_root: Seq<char>,
    build_root: Seq<char>,
    d: DefinitionView,
) -> PluginBuildView {
    let dir = build_dir(build_root, d.name);
    PluginBuildView {
        definition: d,
        build_dir: dir,
        steps: staging(app_root, build_root, d),
        include_dir: joined(dir, "include"@),
        args: CompilerArgsView::defaults().with_include(sdk_include_dir(sdk_root)).with_active_dir(
            joined(dir, "scripting"@),
        ),
    }
}

/// The outputs of a list of builds: one directory for each, in order.
pub open spec fn build_outputs(builds: Seq<PluginBuildView>) -> Seq<Seq<char>> {
    Seq::new(builds.len(), |i: int| builds[i].build_dir)
}

/// The steps that stage the include trees of `dependencies`.
fn stage_dependencies(
    steps: &mut Vec<BuildStep>,
    app_root: &str,
    include_dir: &str,
    dependencies: &Vec<String>,
)
    ensures
        final(steps).deep_view() == old(steps).deep_view() + dependency_steps(
            app_root@,
            include_dir@,
            dependencies.deep_view(),
        ),
{
    let ghost before = steps.deep_view();
    let ghost all = dependencies.deep_view();
    let repo = join(app_root, "repo");
    let mut i: usize = 0;
    assert(all.take(0) =~= Seq::<Seq<char>>::empty());
    assert(steps.deep_view() =~= before + dependency_steps(app_root@, include_dir@, all.take(0)));
    while i < dependencies.len()
        invariant
            i <= dependencies.len(),
            all == dependencies.deep_view(),
            repo@ == joined(app_root@, "repo"@),
            steps.deep_view() == before + dependency_steps(
                app_root@,
                include_dir@,
                all.take(i as int),
            ),
        decreases dependencies.len() - i,
    {
        let dependency = &dependencies[i];
        let base = join(repo.as_str(), dependency.as_str());
        let tree = join(base.as_str(), "src/scripting/include");
        let ghost so_far = steps.deep_view();
        steps.push(BuildStep::RequireIncludes { path: tree.clone(), dependency: dependency.clone() });
        steps.push(BuildStep::CopyTree { from: tree, to: String::from_str(include_dir) });
        proof {
            assert(all.take(i + 1).drop_last() =~= all.take(i as int));
            assert(all.take(i + 1).last() == dependency@);
            assert(steps.deep_view() =~= so_far + seq![
                BuildStepView::RequireIncludes {
                    path: include_tree(app_root@, dependency@),
                    dependency: dependency@,
                },
                BuildStepView::CopyTree {
                    from: include_tree(app_root@, dependency@),
                    to: include_dir@,
                },
            ]);
            assert(steps.deep_view() =~= before + dependency_steps(
                app_root@,
                include_dir@,
                all.take(i + 1),
            ));
        }
        i += 1;
    }
    assert(all.take(i as int) =~= all);
}

/// Plans the build of one resolved plugin below `build_root`.
pub fn build_one(app_root: &str, sdk_env: &Environment, build_root: &str, plugin: Definition) -> (r:
    PluginBuild)
    ensures
        r.deep_view() == plugin_build(
            app_root@,
            sdk_env.spec_root(),
            build_root@,
            plugin.deep_view(),
        ),
{
    let repo = join(app_root, "repo");
    let base = join(repo.as_str(), plugin.name.as_str());
    let src_tree = join(base.as_str(), "src");
    let dir = join(build_root, plugin.name.as_str());
    let include_dir = join(dir.as_str(), "include");
    let mut steps: Vec<BuildStep> = Vec::new();
    steps.push(BuildStep::RequireSource { path: src_tree.clone(), plugin: plugin.name.clone() });
    steps.push(BuildStep::CreateDir { path: dir.clone() });
    steps.push(BuildStep::CopyTree { from: src_tree, to: dir.clone() });
    let ghost own = steps.deep_view();
    assert(own =~= seq![
        BuildStepView::RequireSource {
            path: source_tree(app_root@, plugin.name@),
            plugin: plugin.name@,
        },
        BuildStepView::CreateDir { path: dir@ },
        BuildStepView::CopyTree { from: source_tree(app_root@, plugin.name@), to: dir@ },
    ]);
    steps.push(BuildStep::CreateDir { path: include_dir.clone() });
    assert(steps.deep_view() =~= own + seq![BuildStepView::CreateDir { path: include_dir@ }]);
    match &plugin.dependencies {
        Some(dependencies) => {
            stage_dependencies(&mut steps, app_root, include_dir.as_str(), dependencies);
        },
        None => {
            assert(steps.deep_view() =~= steps.deep_view() + dependency_steps(
                app_root@,
                include_dir@,
                Seq::empty(),
            ));
        },
    }
    let mut args = sdk_env.args();
    args.active_dir = Some(join(dir.as_str(), "scripting"));
    PluginBuild { definition: plugin, build_dir: dir, steps, include_dir, args }
}

/// Plans the build of `plugins` below `build_root`. The names are resolved
/// through `repo`, all or nothing; where one is unknown the call fails with
/// `NotFound`, naming the first such name, and nothing is planned. Otherwise
/// there is one build for each name, in the order of the names, and the
/// output of each is the directory of that name below `build_root`.
pub fn build<P: PluginDefinitionProvider>(
    app_root: &str,
    sdk_env: &Environment,
    build_root: &str,
    repo: &P,
    plugins: &Vec<String>,
) -> (r: Result<Vec<PluginBuild>, RepoError>)
    ensures
        ({
            let names = plugins.deep_view();
            let outcomes = Seq::new(names.len(), |i: int| repo.resolution(names[i]));
            match r {
                Ok(builds) => {
                    &&& forall|i: int| 0 <= i < names.len() ==> (#[trigger] outcomes[i]) is Some
                    &&& builds.deep_view() == Seq::new(
                        names.len(),
                        |i: int|
                            plugin_build(
                                app_root@,
                                sdk_env.spec_root(),
                                build_root@,
                                outcomes[i].unwrap(),
                            ),
                    )
                    &&& build_outputs(builds.deep_view()) == Seq::new(
                        names.len(),
                        |i: int| build_dir(build_root@, names[i]),
                    )
                },
                Err(e) => exists|i: int|
                    first_missing(outcomes, i) && e.deep_view() == RepoErrorView::NotFound(names[i]),
            }
        }),
{
    let found = match repo.find_plugin_definitions(plugins) {
        Ok(found) => found,
        Err(e) => {
            return Err(e);
        },
    };
    let ghost names = plugins.deep_view();
    let ghost outcomes = Seq::new(names.len(), |i: int| repo.resolution(names[i]));
    assert(found.len() == names.len()) by {
        assert(outcomes.len() == all_found(found.deep_view()).len());
    }
    assert forall|i: int| 0 <= i < names.len() implies #[trigger] outcomes[i] == Some(
        found@[i].deep_view(),
    ) && found@[i].name@ == names[i] by {
        assert(outcomes[i] == all_found(found.deep_view())[i]);
        assert(names[i] == names_of(found.deep_view())[i]);
    }
    let mut builds: Vec<PluginBuild> = Vec::new();
    let mut i: usize = 0;
    while i < found.len()
        invariant
            i <= found.len(),
            builds.len() == i,
            forall|k: int|
                0 <= k < i ==> (#[trigger] builds@[k]).deep_view() == plugin_build(
                    app_root@,
                    sdk_env.spec_root(),
                    build_root@,
                    found@[k].deep_view(),
                ),
        decreases found.len() - i,
    {
        builds.push(build_one(app_root, sdk_env, build_root, found[i].clone()));
        i += 1;
    }
    assert(builds.deep_view() =~= Seq::new(
        names.len(),
        |i: int| plugin_build(app_root@, sdk_env.spec_root(), build_root@, outcomes[i].unwrap()),
    ));
    assert(build_outputs(builds.deep_view()) =~= Seq::new(
        names.len(),
        |i: int| build_dir(build_root@, names[i]),
    ));
    Ok(builds)
}

/// The output directories of the builds, in order.
pub fn outputs(builds: &Vec<PluginBuild>) -> (r: Vec<String>)
    ensures
        r.deep_view() == build_outputs(builds.deep_view()),
{
    let mut r: Vec<String> = Vec::new();
    let mut i: usize = 0;
    while i < builds.len()
        invariant
            i <= builds.len(),
            r.len() == i,
            forall|k: int| 0 <= k < i ==> (#[trigger] r@[k])@ == builds@[k].build_dir@,
        decreases builds.len() - i,
    {
        r.push(builds[i].build_dir.clone());
        i += 1;
    }
    assert(r.deep_view() =~= build_outputs(builds.deep_view()));
    r
}

/// The build root of the build started `now` seconds after the epoch.
pub open spec fn build_root_of(app_root: Seq<char>, now: nat) -> Seq<char> {
    joined(joined(app_root, "build"@), "bld-"@ + decimal_text(now))
}

/// Names a fresh build root for the build started `now` seconds after the
/// epoch: `build/bld-<now>` below the application root. The caller creates
/// the directory.
pub fn create_build_root(app_root: &str, now: u64) -> (r: String)
    ensures
        r@ == build_root_of(app_root@, now as nat),
{
    let mut name = String::from_str("bld-");
    let stamp = decimal(now);
    name.append(stamp.as_str());
    let build = join(app_root, "build");
    join(build.as_str(), name.as_str())
}

} // verus!
