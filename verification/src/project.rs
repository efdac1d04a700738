//! The project manifest: which game, which branch and which plugins a target
//! installation wants, and the configuration files generated for it.

pub mod configs;

use crate::fspath::{join, joined};
use crate::plugins::Definition;
use crate::repo::LocalRepo;
use crate::sdk::Branch;
use crate::templates::{
    AdminGroupsCfg, AdminOverridesCfg, AdminsCfg, AdminsSimpleIni, CoreCfg, DatabasesCfg,
    MaplistsCfg, SourcemodCfg, StartSh,
};
use crate::text::{list_contains, lowercase, lowercase_of, same_text};
use vstd::prelude::*;
use vstd::string::*;

verus! {

/// Name of the manifest file inside a project root.
pub const PROJECT_FILE: &'static str = "sm-pkg.yaml";

/// The version that generated files are signed with.
pub const VERSION: &'static str = "0.1.0";

/// The games a project can target.
#[derive(Debug, Clone, Copy, PartialEq, Eq, Structural)]
pub enum Game {
    AG2,
    ALIENSWARM,
    AOC,
    BG2,
    BMS,
    CSPROMOD,
    CSTRIKE,
    DINODDAY,
    DOD,
    DOI,
    DYSTOPIA,
    EMPIRES,
    ESMOD,
    FAS,
    FF,
    FOF,
    GESOURCE,
    GMOD9,
    HIDDEN,
    HL1MP,
    HL2CTF,
    HL2MP,
    INSURGENCY,
    IOS,
    KZ,
    LEFT4DEAD2,
    MODULARCOMBAT,
    NEOTOKYO,
    NMRIH,
    NUCLEARDAWN,
    OBSIDIAN,
    OPENFORTRESS,
    PF2,
    PVKILL,
    REACTIVEDROP,
    MKBETA,
    SHIP,
    SOURCEFORTS,
    SYNERGY,
    TF,
    TF2CLASSIC,
    TF2CLASSIFIED,
    TREASON,
    ZM,
    ZPANIC,
}

impl DeepView for Game {
    type V = Game;

    open spec fn deep_view(&self) -> Game {
        *self
    }
}

impl Default for Game {
    fn default() -> (r: Self)
        ensures
            r == Game::TF,
    {
        Game::TF
    }
}

impl Game {
    /// Whether the game's folder and name are known. Only such a game can be
    /// installed into.
    pub open spec fn spec_is_supported(&self) -> bool {
        *self == Game::TF
    }

    #[verifier::when_used_as_spec(spec_is_supported)]
    pub fn is_supported(&self) -> (r: bool)
        ensures
            r == self.spec_is_supported(),
    {
        match self {
            Game::TF => true,
            _ => false,
        }
    }

    /// The game's directory below the server root, for the games whose
    /// directory is known.
    pub open spec fn spec_mod_folder(&self) -> Option<Seq<char>> {
        match self {
            Game::TF => Some("tf"@),
            _ => None,
        }
    }

    /// The game's directory below the server root.
    pub fn mod_folder(&self) -> (r: &'static str)
        requires
            self.is_supported(),
        ensures
            self.spec_mod_folder() == Some(r@),
    {
        "tf"
    }

    /// The game's full name, for the games whose name is known.
    pub open spec fn title(&self) -> Option<Seq<char>> {
        match self {
            Game::TF => Some("Team Fortress 2"@),
            _ => None,
        }
    }

    /// The game's full name.
    pub fn to_string(&self) -> (r: String)
        requires
            self.is_supported(),
        ensures
            self.title() == Some(r@),
    {
        String::from_str("Team Fortress 2")
    }
}

/// A configuration file given as plain `key "value"` lines. No key occurs
/// twice among the options of a well-formed file.
#[derive(Debug)]
pub struct SimpleConfig {
    /// Where the file goes, relative to the project root.
    pub path: String,
    pub options: Vec<(String, String)>,
}

pub struct SimpleConfigView {
    pub path: Seq<char>,
    pub options: Seq<(Seq<char>, Seq<char>)>,
}

impl DeepView for SimpleConfig {
    type V = SimpleConfigView;

    open spec fn deep_view(&self) -> SimpleConfigView {
        SimpleConfigView { path: self.path.deep_view(), options: self.options.deep_view() }
    }
}

/// A copy of a list of options.
pub fn clone_options(v: &Vec<(String, String)>) -> (r: Vec<(String, String)>)
    ensures
        r.deep_view() == v.deep_view(),
{
    let mut r: Vec<(String, String)> = Vec::new();
    let mut i: usize = 0;
    while i < v.len()
        invariant
            i <= v.len(),
            r.len() == i,
            forall|k: int| 0 <= k < i ==> r@[k].deep_view() == v@[k].deep_view(),
        decreases v.len() - i,
    {
        r.push((v[i].0.clone(), v[i].1.clone()));
        i += 1;
    }
    assert(r.deep_view() =~= v.deep_view());
    r
}

impl Clone for SimpleConfig {
    fn clone(&self) -> (r: Self)
        ensures
            r.deep_view() == self.deep_view(),
    {
        SimpleConfig { path: self.path.clone(), options: clone_options(&self.options) }
    }
}

/// A copy of a list of configuration files.
pub fn clone_configs(v: &Vec<SimpleConfig>) -> (r: Vec<SimpleConfig>)
    ensures
        r.deep_view() == v.deep_view(),
{
    let mut r: Vec<SimpleConfig> = Vec::new();
    let mut i: usize = 0;
    while i < v.len()
        invariant
            i <= v.len(),
            r.len() == i,
            forall|k: int| 0 <= k < i ==> r@[k].deep_view() == v@[k].deep_view(),
        decreases v.len() - i,
    {
        r.push(v[i].clone());
        i += 1;
    }
    assert(r.deep_view() =~= v.deep_view());
    r
}

/// The values of the generated configuration files that a project sets.
#[derive(Debug, Clone)]
pub struct TemplateSet {
    pub sourcemod_cfg: Option<SourcemodCfg>,
    pub maplists_cfg: Option<MaplistsCfg>,
    pub databases_cfg: Option<DatabasesCfg>,
    pub core_cfg: Option<CoreCfg>,
    pub admins_simple_ini: Option<AdminsSimpleIni>,
    pub admins_cfg: Option<AdminsCfg>,
    pub admin_groups_cfg: Option<AdminGroupsCfg>,
    pub admin_overrides_cfg: Option<AdminOverridesCfg>,
}

/// The manifest of a project. Its plugin names are stored in lower case, and
/// in a well-formed manifest none occurs twice.
#[derive(Debug, Clone)]
pub struct Package {
    pub game: Game,
    pub branch: Branch,
    pub plugins: Vec<String>,
    pub create_startup_script: Option<bool>,
    pub startup_opts: Option<StartSh>,
    pub description: Option<String>,
    pub templates: Option<TemplateSet>,
    pub raw_configs: Option<Vec<SimpleConfig>>,
    pub plugin_configs: Option<Vec<SimpleConfig>>,
}

/// No name occurs twice in the list.
pub open spec fn no_duplicates(names: Seq<Seq<char>>) -> bool {
    forall|i: int, j: int| 0 <= i < j < names.len() ==> names[i] != names[j]
}

impl Package {
    /// The plugin names of the manifest, in order.
    pub open spec fn plugin_names(&self) -> Seq<Seq<char>> {
        self.plugins.deep_view()
    }

    /// Whether the manifest names no plugin twice.
    pub open spec fn well_formed(&self) -> bool {
        no_duplicates(self.plugin_names())
    }

    /// The manifest with another list of plugins and everything else as it
    /// is.
    pub open spec fn same_but_plugins(&self, other: &Package) -> bool {
        &&& self.game == other.game
        &&& self.branch == other.branch
        &&& self.create_startup_script == other.create_startup_script
        &&& self.startup_opts == other.startup_opts
        &&& self.description == other.description
        &&& self.templates == other.templates
        &&& self.raw_configs == other.raw_configs
        &&& self.plugin_configs == other.plugin_configs
    }

    /// Whether `stored` is among the plugin names, compared as it stands.
    pub fn has_name(&self, stored: &str) -> (r: bool)
        ensures
            r == self.plugin_names().contains(stored@),
    {
        list_contains(&self.plugins, stored)
    }

    /// Appends `stored` to the plugin names unless it is among them already.
    /// Returns whether it was appended.
    pub fn add_name(&mut self, stored: String) -> (added: bool)
        ensures
            added == !old(self).plugin_names().contains(stored@),
            final(self).plugin_names() == if added {
                old(self).plugin_names().push(stored@)
            } else {
                old(self).plugin_names()
            },
            !added ==> *final(self) == *old(self),
            final(self).same_but_plugins(old(self)),
            old(self).well_formed() ==> final(self).well_formed(),
    {
        if self.has_name(stored.as_str()) {
            return false;
        }
        let ghost before = self.plugins.deep_view();
        self.plugins.push(stored);
        proof {
            let name = stored@;
            assert(self.plugins.deep_view() =~= before.push(name));
            if no_duplicates(before) {
                assert forall|i: int, j: int|
                    0 <= i < j < before.push(name).len() implies before.push(name)[i]
                    != before.push(name)[j] by {
                    if j == before.len() && before[i] == name {
                        assert(before.contains(name));
                    }
                }
            }
        }
        true
    }

    /// Takes every entry equal to `name` out of the plugin names; the others
    /// keep their order.
    pub fn remove_name(&mut self, name: &str)
        ensures
            final(self).plugin_names() == without(old(self).plugin_names(), name@),
            !final(self).plugin_names().contains(name@),
            final(self).same_but_plugins(old(self)),
            old(self).well_formed() ==> final(self).well_formed(),
    {
        let kept = remove_name(&self.plugins, name);
        proof {
            if kept.deep_view().contains(name@) {
                lemma_without_subset(self.plugins.deep_view(), name@, name@);
            }
        }
        self.plugins = kept;
    }

    /// A manifest for `game` on `branch` that names no plugin and sets
    /// nothing else.
    pub fn new(game: Game, branch: Branch) -> (r: Self)
        ensures
            r.game == game,
            r.branch == branch,
            r.plugin_names() == Seq::<Seq<char>>::empty(),
            r.well_formed(),
            r.create_startup_script is None,
            r.startup_opts is None,
            r.description is None,
            r.templates is None,
            r.raw_configs is None,
            r.plugin_configs is None,
    {
        let r = Package {
            game,
            branch,
            plugins: Vec::new(),
            create_startup_script: None,
            startup_opts: None,
            description: None,
            templates: None,
            raw_configs: None,
            plugin_configs: None,
        };
        assert(r.plugins.deep_view() =~= Seq::<Seq<char>>::empty());
        r
    }
}

/// Why a project operation was refused.
#[derive(Debug)]
pub enum ProjectError {
    /// The manifest names the plugin already.
    AlreadyExists(String),
    /// The manifest does not name the plugin.
    NotFound(String),
    /// No manifest is loaded.
    NoPackage,
    /// The project root holds no manifest.
    NotInitialized,
    /// A start script is asked for, but its options are missing.
    NoStartupOptions,
    /// A plugin of the manifest is not in the repository.
    UnknownPlugin(String),
}

pub enum ProjectErrorView {
    AlreadyExists(Seq<char>),
    NotFound(Seq<char>),
    NoPackage,
    NotInitialized,
    NoStartupOptions,
    UnknownPlugin(Seq<char>),
}

impl DeepView for ProjectError {
    type V = ProjectErrorView;

    open spec fn deep_view(&self) -> ProjectErrorView {
        match self {
            ProjectError::AlreadyExists(name) => ProjectErrorView::AlreadyExists(name@),
            ProjectError::NotFound(name) => ProjectErrorView::NotFound(name@),
            ProjectError::NoPackage => ProjectErrorView::NoPackage,
            ProjectError::NotInitialized => ProjectErrorView::NotInitialized,
            ProjectError::NoStartupOptions => ProjectErrorView::NoStartupOptions,
            ProjectError::UnknownPlugin(name) => ProjectErrorView::UnknownPlugin(name@),
        }
    }
}

impl ProjectErrorView {
    /// The message shown for the error.
    pub open spec fn message(self) -> Seq<char> {
        match self {
            ProjectErrorView::AlreadyExists(name) => "Plugin already exists: "@ + name,
            ProjectErrorView::NotFound(name) => "Plugin doesnt exists in project: "@ + name,
            ProjectErrorView::NoPackage => "No package loaded"@,
            ProjectErrorView::NotInitialized =>
                "No sm-pkg.yaml found, has the project been initialized?"@,
            ProjectErrorView::NoStartupOptions => "No startup_opts definition found"@,
            ProjectErrorView::UnknownPlugin(name) => "Plugin not found: "@ + name,
        }
    }
}

impl ProjectError {
    /// The message shown for the error.
    pub fn message(&self) -> (r: String)
        ensures
            r@ == self.deep_view().message(),
    {
        match self {
            ProjectError::AlreadyExists(name) => {
                let mut r = String::from_str("Plugin already exists: ");
                r.append(name.as_str());
                r
            },
            ProjectError::NotFound(name) => {
                let mut r = String::from_str("Plugin doesnt exists in project: ");
                r.append(name.as_str());
                r
            },
            ProjectError::NoPackage => String::from_str("No package loaded"),
            ProjectError::NotInitialized => String::from_str(
                "No sm-pkg.yaml found, has the project been initialized?",
            ),
            ProjectError::NoStartupOptions => String::from_str("No startup_opts definition found"),
            ProjectError::UnknownPlugin(name) => {
                let mut r = String::from_str("Plugin not found: ");
                r.append(name.as_str());
                r
            },
        }
    }
}

/// The list without the entries equal to `name`, in order.
pub open spec fn without(names: Seq<Seq<char>>, name: Seq<char>) -> Seq<Seq<char>> {
    names.filter(|n: Seq<char>| n != name)
}

/// A project: a root directory, the manifest loaded from it, and the
/// repository its plugins come from.
#[derive(Debug)]
pub struct Project<'p> {
    /// Root directory of the project.
    pub project_root: String,
    /// The manifest, once it is loaded.
    pub package: Option<Package>,
    /// Where the plugins of the manifest are looked up.
    pub repo: &'p LocalRepo,
}

impl<'p> Project<'p> {
    /// The root directory of the project.
    pub open spec fn spec_root(&self) -> Seq<char> {
        self.project_root@
    }

    /// The repository the project resolves its plugins through.
    pub open spec fn spec_repo(&self) -> LocalRepo {
        *self.repo
    }

    /// The plugin names of the loaded manifest; none where no manifest is
    /// loaded.
    pub open spec fn plugin_names(&self) -> Seq<Seq<char>> {
        match self.package {
            Some(package) => package.plugin_names(),
            None => Seq::empty(),
        }
    }

    /// A project at `project_root` with no manifest loaded.
    pub fn new(project_root: &str, repo: &'p LocalRepo) -> (r: Result<Self, ProjectError>)
        ensures
            r matches Ok(project) && project.spec_root() == project_root@
                && project.spec_repo() == *repo && project.package is None,
    {
        Ok(Project { project_root: String::from_str(project_root), repo, package: None })
    }

    pub fn project_root(&self) -> (r: &str)
        ensures
            r@ == self.spec_root(),
    {
        self.project_root.as_str()
    }

    /// Where the manifest is kept.
    pub fn project_file_path(&self) -> (r: String)
        ensures
            r@ == joined(self.spec_root(), PROJECT_FILE@),
    {
        join(self.project_root.as_str(), PROJECT_FILE)
    }

    /// Takes the manifest read from the project file, `None` standing for a
    /// project root without one. Fails with `NotInitialized` where there is
    /// none, and leaves the project as it was.
    pub fn open(&mut self, existing: Option<Package>) -> (r: Result<(), ProjectError>)
        ensures
            final(self).spec_root() == old(self).spec_root(),
            final(self).spec_repo() == old(self).spec_repo(),
            match r {
                Ok(_) => existing is Some && final(self).package == existing,
                Err(e) => existing is None && e.deep_view() == ProjectErrorView::NotInitialized
                    && final(self).package == old(self).package,
            },
    {
        match existing {
            Some(package) => {
                self.package = Some(package);
                Ok(())
            },
            None => Err(ProjectError::NotInitialized),
        }
    }

    /// Takes the manifest read from the project file, or, where the project
    /// root has none yet, starts a new one for `game` on `branch`. Returns
    /// whether a new manifest was started, which the caller then saves.
    pub fn open_or_new(&mut self, existing: Option<Package>, branch: Branch, game: Game) -> (created:
        bool)
        ensures
            final(self).spec_root() == old(self).spec_root(),
            final(self).spec_repo() == old(self).spec_repo(),
            created == (existing is None),
            existing is Some ==> final(self).package == existing,
            existing is None ==> (final(self).package matches Some(p) && p.game == game && p.branch
                == branch && p.plugin_names() == Seq::<Seq<char>>::empty()),
    {
        match existing {
            Some(package) => {
                self.package = Some(package);
                false
            },
            None => {
                self.create_package_config(branch, game);
                true
            },
        }
    }

    /// Starts a new manifest for `game` on `branch`, in place of the one
    /// loaded.
    pub fn create_package_config(&mut self, branch: Branch, game: Game)
        ensures
            final(self).spec_root() == old(self).spec_root(),
            final(self).spec_repo() == old(self).spec_repo(),
            final(self).package matches Some(p) && p.game == game && p.branch == branch
                && p.plugin_names() == Seq::<Seq<char>>::empty() && p.well_formed()
                && p.templates is None && p.raw_configs is None && p.plugin_configs is None
                && p.create_startup_script is None && p.startup_opts is None && p.description is None,
    {
        self.package = Some(Package::new(game, branch));
    }

    /// The manifest to be written to the project file. Fails with
    /// `NoPackage` where none is loaded.
    pub fn save_package_config(&self) -> (r: Result<&Package, ProjectError>)
        ensures
            match r {
                Ok(package) => self.package == Some(*package),
                Err(e) => self.package is None && e.deep_view() == ProjectErrorView::NoPackage,
            },
    {
        match &self.package {
            Some(package) => Ok(package),
            None => Err(ProjectError::NoPackage),
        }
    }

    /// Whether the manifest names the plugin: whether the lower-case form of
    /// `plugin_name` is among its plugins. `false` where no manifest is loaded.
    pub fn has_plugin(&self, plugin_name: &str) -> (r: bool)
        ensures
            r == self.plugin_names().contains(lowercase_of(plugin_name@)),
    {
        match &self.package {
            None => {
                assert(!Seq::<Seq<char>>::empty().contains(lowercase_of(plugin_name@)));
                false
            },
            Some(package) => {
                let lowered = lowercase(plugin_name);
                package.has_name(lowered.as_str())
            },
        }
    }

    /// Adds the plugin to the manifest: the lower-case form of its name is
    /// appended to the plugins. Fails with `AlreadyExists` where that form is
    /// among them already, and with `NoPackage` where no manifest is loaded;
    /// the project is then left as it was.
    pub fn add_plugin(&mut self, plugin: Definition) -> (r: Result<(), ProjectError>)
        ensures
            final(self).spec_root() == old(self).spec_root(),
            final(self).spec_repo() == old(self).spec_repo(),
            match r {
                Ok(_) => {
                    &&& old(self).package matches Some(before)
                    &&& final(self).package matches Some(after)
                    &&& !before.plugin_names().contains(lowercase_of(plugin.name@))
                    &&& final(self).plugin_names() == old(self).plugin_names().push(
                        lowercase_of(plugin.name@),
                    )
                    &&& after.same_but_plugins(&before)
                    &&& before.well_formed() ==> after.well_formed()
                },
                Err(e) => {
                    &&& final(self).package == old(self).package
                    &&& final(self).plugin_names() == old(self).plugin_names()
                    &&& e.deep_view() == if old(self).plugin_names().contains(
                        lowercase_of(plugin.name@),
                    ) {
                        ProjectErrorView::AlreadyExists(plugin.name@)
                    } else {
                        ProjectErrorView::NoPackage
                    }
                    &&& old(self).package is None || old(self).plugin_names().contains(
                        lowercase_of(plugin.name@),
                    )
                },
            },
    {
        if self.has_plugin(plugin.name.as_str()) {
            return Err(ProjectError::AlreadyExists(plugin.name));
        }
        match &mut self.package {
            Some(config) => {
                let added = config.add_name(lowercase(plugin.name.as_str()));
                assert(added);
                Ok(())
            },
            None => Err(ProjectError::NoPackage),
        }
    }

    /// Removes the plugin from the manifest: every entry equal to the
    /// lower-case form of its name is taken out, the others keep their order,
    /// and the manifest names the plugin no more. Fails with `NotFound` where
    /// that form is not among the plugins, which includes the case that no
    /// manifest is loaded; the project is then left as it was.
    pub fn remove_plugin(&mut self, plugin: Definition) -> (r: Result<(), ProjectError>)
        ensures
            final(self).spec_root() == old(self).spec_root(),
            final(self).spec_repo() == old(self).spec_repo(),
            match r {
                Ok(_) => {
                    &&& old(self).package matches Some(before)
                    &&& final(self).package matches Some(after)
                    &&& before.plugin_names().contains(lowercase_of(plugin.name@))
                    &&& final(self).plugin_names() == without(
                        old(self).plugin_names(),
                        lowercase_of(plugin.name@),
                    )
                    &&& !final(self).plugin_names().contains(lowercase_of(plugin.name@))
                    &&& after.same_but_plugins(&before)
                    &&& before.well_formed() ==> after.well_formed()
                },
                Err(e) => {
                    &&& final(self).package == old(self).package
                    &&& final(self).plugin_names() == old(self).plugin_names()
                    &&& !old(self).plugin_names().contains(lowercase_of(plugin.name@))
                    &&& e.deep_view() == ProjectErrorView::NotFound(plugin.name@)
                },
            },
    {
        if !self.has_plugin(plugin.name.as_str()) {
            return Err(ProjectError::NotFound(plugin.name));
        }
        match &mut self.package {
            Some(config) => {
                let stored = lowercase(plugin.name.as_str());
                let ghost before = config.plugin_names();
                config.remove_name(stored.as_str());
                proof {
                    if without(before, stored@).contains(stored@) {
                        lemma_without_subset(before, stored@, stored@);
                    }
                }
                Ok(())
            },
            None => {
                assert(false);
                Err(ProjectError::NoPackage)
            },
        }
    }
}

/// What is left after taking `name` out was there before, and is not `name`.
pub proof fn lemma_without_subset(names: Seq<Seq<char>>, name: Seq<char>, x: Seq<char>)
    requires
        without(names, name).contains(x),
    ensures
        names.contains(x),
        x != name,
    decreases names.len(),
{
    reveal(Seq::filter);
    if names.len() > 0 {
        let front = names.drop_last();
        let last = names.last();
        let kept = without(front, name);
        if last != name {
            assert(without(names, name) == kept.push(last));
            let i = choose|i: int| 0 <= i < kept.push(last).len() && kept.push(last)[i] == x;
            if i < kept.len() {
                assert(kept[i] == x);
                assert(kept.contains(x));
                lemma_without_subset(front, name, x);
                let k = choose|k: int| 0 <= k < front.len() && front[k] == x;
                assert(names[k] == x);
            } else {
                assert(names[names.len() - 1] == x);
            }
        } else {
            assert(without(names, name) == kept);
            lemma_without_subset(front, name, x);
            let k = choose|k: int| 0 <= k < front.len() && front[k] == x;
            assert(names[k] == x);
        }
    }
}

/// Taking entries out of a list without duplicates leaves none.
pub proof fn lemma_without_keeps_no_duplicates(names: Seq<Seq<char>>, name: Seq<char>)
    requires
        no_duplicates(names),
    ensures
        no_duplicates(without(names, name)),
    decreases names.len(),
{
    reveal(Seq::filter);
    if names.len() > 0 {
        let front = names.drop_last();
        let last = names.last();
        assert forall|i: int, j: int| 0 <= i < j < front.len() implies front[i] != front[j] by {
            assert(front[i] == names[i] && front[j] == names[j]);
        }
        lemma_without_keeps_no_duplicates(front, name);
        let kept = without(front, name);
        if last != name {
            assert(without(names, name) == kept.push(last));
            assert forall|i: int, j: int| 0 <= i < j < kept.push(last).len() implies kept.push(
                last,
            )[i] != kept.push(last)[j] by {
                if j == kept.len() {
                    assert(kept.contains(kept[i]));
                    lemma_without_subset(front, name, kept[i]);
                    let k = choose|k: int| 0 <= k < front.len() && front[k] == kept[i];
                    assert(names[k] == front[k]);
                    assert(names[k] != names[names.len() - 1]);
                }
            }
        } else {
            assert(without(names, name) == kept);
        }
    }
}

/// The list without the entries equal to `name`.
fn remove_name(names: &Vec<String>, name: &str) -> (r: Vec<String>)
    ensures
        r.deep_view() == without(names.deep_view(), name@),
        no_duplicates(names.deep_view()) ==> no_duplicates(r.deep_view()),
{
    let mut kept: Vec<String> = Vec::new();
    let mut i: usize = 0;
    assert(names.deep_view().take(0) =~= Seq::<Seq<char>>::empty());
    while i < names.len()
        invariant
            i <= names.len(),
            kept.deep_view() == without(names.deep_view().take(i as int), name@),
        decreases names.len() - i,
    {
        proof {
            let all = names.deep_view();
            assert(all.take(i + 1).drop_last() =~= all.take(i as int));
            assert(all.take(i + 1).last() == names@[i as int]@);
            reveal(Seq::filter);
        }
        if !same_text(names[i].as_str(), name) {
            let ghost before = kept.deep_view();
            kept.push(names[i].clone());
            assert(kept.deep_view() =~= before.push(names@[i as int]@));
        }
        i += 1;
    }
    proof {
        assert(names.deep_view().take(i as int) =~= names.deep_view());
        if no_duplicates(names.deep_view()) {
            lemma_without_keeps_no_duplicates(names.deep_view(), name@);
        }
    }
    kept
}

} // verus!
