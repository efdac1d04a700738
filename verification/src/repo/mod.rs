//! Sources of plugin definitions. A provider resolves a plugin name to a
//! definition and says where the plugin's scripts are to be found.

pub mod git;
pub mod local_path;
pub mod overlay;
pub mod snapshot;

use crate::fspath::{join, joined};
use crate::plugins::{Definition, DefinitionView};
use crate::repo::local_path::PathOverlay;
use crate::repo::overlay::PluginOverlays;
use crate::text::{contains_text, lowercase, lowercase_of, occurs_in, same_text};
use vstd::prelude::*;
use vstd::string::*;

verus! {

/// Name of the index file below `<root>/repo`.
pub const INDEX_FILE: &'static str = "index.yaml";

/// Where a snapshot of every plugin's sources is downloaded from.
pub const REPO_URL: &'static str =
    "https://github.com/sm-pkg/plugins/archive/refs/heads/master.zip";

/// Where the index alone is downloaded from.
pub const UPDATE_URL: &'static str =
    "https://raw.githubusercontent.com/sm-pkg/plugins/refs/heads/master/index.yaml";

/// Why a provider returned nothing.
#[derive(Debug)]
pub enum RepoError {
    /// No definition goes by this name.
    NotFound(String),
    /// A search matched no definition.
    NoMatches,
    /// The downloaded snapshot cannot be unpacked.
    BadArchive,
    /// An entry of the snapshot lies outside the snapshot's directory.
    OutsideSnapshot(String),
    /// Two definitions of an index go by this name.
    DuplicateName(String),
}

pub enum RepoErrorView {
    NotFound(Seq<char>),
    NoMatches,
    BadArchive,
    OutsideSnapshot(Seq<char>),
    DuplicateName(Seq<char>),
}

impl DeepView for RepoError {
    type V = RepoErrorView;

    open spec fn deep_view(&self) -> RepoErrorView {
        match self {
            RepoError::NotFound(name) => RepoErrorView::NotFound(name@),
            RepoError::NoMatches => RepoErrorView::NoMatches,
            RepoError::BadArchive => RepoErrorView::BadArchive,
            RepoError::OutsideSnapshot(path) => RepoErrorView::OutsideSnapshot(path@),
            RepoError::DuplicateName(name) => RepoErrorView::DuplicateName(name@),
        }
    }
}

impl RepoErrorView {
    /// The message shown for the error.
    pub open spec fn message(self) -> Seq<char> {
        match self {
            RepoErrorView::NotFound(name) => "Plugin not found: "@ + name,
            RepoErrorView::NoMatches => "No matches found"@,
            RepoErrorView::BadArchive => "The repository snapshot cannot be unpacked"@,
            RepoErrorView::OutsideSnapshot(path) => "Entry outside the snapshot: "@ + path,
            RepoErrorView::DuplicateName(name) => "Plugin defined twice: "@ + name,
        }
    }
}

impl RepoError {
    /// The message shown for the error.
    pub fn message(&self) -> (r: String)
        ensures
            r@ == self.deep_view().message(),
    {
        match self {
            RepoError::NotFound(name) => {
                let mut r = String::from_str("Plugin not found: ");
                r.append(name.as_str());
                r
            },
            RepoError::NoMatches => String::from_str("No matches found"),
            RepoError::BadArchive => String::from_str("The repository snapshot cannot be unpacked"),
            RepoError::OutsideSnapshot(path) => {
                let mut r = String::from_str("Entry outside the snapshot: ");
                r.append(path.as_str());
                r
            },
            RepoError::DuplicateName(name) => {
                let mut r = String::from_str("Plugin defined twice: ");
                r.append(name.as_str());
                r
            },
        }
    }
}

/// A source that resolves plugin names to definitions.
pub trait PluginDefinitionProvider {
    /// What the provider resolves `name` to: the definition, with the place of
    /// the plugin's scripts filled in, or `None` where it knows no such plugin.
    spec fn resolution(&self, name: Seq<char>) -> Option<DefinitionView>;

    /// Resolves one name. Succeeds exactly where `resolution` gives a
    /// definition, and returns that definition, which goes by the name asked
    /// for. Fails with `NotFound` otherwise, and the error names `plugin`.
    fn find_plugin_definition(&self, plugin: &String) -> (r: Result<Definition, RepoError>)
        ensures
            match r {
                Ok(d) => self.resolution(plugin@) == Some(d.deep_view()) && d.name@ == plugin@,
                Err(e) => self.resolution(plugin@) is None && e.deep_view()
                    == RepoErrorView::NotFound(plugin@),
            },
    ;

    /// Resolves a list of names, all or nothing. Where every name resolves,
    /// the definitions come in the order of the names, one for each, and each
    /// goes by the name at its place; otherwise the call fails with
    /// `NotFound`, and the error names the first name that does not resolve.
    fn find_plugin_definitions(&self, plugins: &Vec<String>) -> (r: Result<
        Vec<Definition>,
        RepoError,
    >)
        ensures
            ({
                let names = plugins.deep_view();
                let outcomes = Seq::new(names.len(), |i: int| self.resolution(names[i]));
                match r {
                    Ok(found) => outcomes == all_found(found.deep_view()) && names == names_of(
                        found.deep_view(),
                    ),
                    Err(e) => exists|i: int|
                        first_missing(outcomes, i) && e.deep_view() == RepoErrorView::NotFound(
                            names[i],
                        ),
                }
            }),
    ;
}

/// The outcomes of a lookup in which every definition was found.
pub open spec fn all_found(found: Seq<DefinitionView>) -> Seq<Option<DefinitionView>> {
    Seq::new(found.len(), |i: int| Some(found[i]))
}

/// The names of a list of definitions, in order.
pub open spec fn names_of(found: Seq<DefinitionView>) -> Seq<Seq<char>> {
    Seq::new(found.len(), |i: int| found[i].name)
}

/// Outcome `i` is the first that is missing.
pub open spec fn first_missing(outcomes: Seq<Option<DefinitionView>>, i: int) -> bool {
    &&& 0 <= i < outcomes.len()
    &&& outcomes[i] is None
    &&& forall|j: int| 0 <= j < i ==> (#[trigger] outcomes[j]) is Some
}

/// The first definition of the index that goes by `name`.
pub open spec fn find_named(index: Seq<DefinitionView>, name: Seq<char>) -> Option<DefinitionView>
    decreases index.len(),
{
    if index.len() == 0 {
        None
    } else if index[0].name == name {
        Some(index[0])
    } else {
        find_named(index.drop_first(), name)
    }
}

/// Entries that do not go by `name` can be skipped.
pub proof fn lemma_find_named_skip(index: Seq<DefinitionView>, name: Seq<char>, n: int)
    requires
        0 <= n <= index.len(),
        forall|k: int| 0 <= k < n ==> (#[trigger] index[k]).name != name,
    ensures
        find_named(index, name) == find_named(index.skip(n), name),
    decreases n,
{
    if n == 0 {
        assert(index.skip(0) =~= index);
    } else {
        assert(index[0].name != name);
        let rest = index.drop_first();
        assert forall|k: int| 0 <= k < n - 1 implies (#[trigger] rest[k]).name != name by {
            assert(rest[k] == index[k + 1]);
        }
        lemma_find_named_skip(rest, name, n - 1);
        assert(rest.skip(n - 1) =~= index.skip(n));
    }
}

/// What `find_named` returns goes by `name`.
pub proof fn lemma_find_named_name(index: Seq<DefinitionView>, name: Seq<char>)
    ensures
        find_named(index, name) matches Some(d) ==> d.name == name,
    decreases index.len(),
{
    if index.len() > 0 && index[0].name != name {
        lemma_find_named_name(index.drop_first(), name);
    }
}

/// No two definitions of the index go by the same name.
pub open spec fn unique_names(index: Seq<DefinitionView>) -> bool {
    forall|i: int, j: int| 0 <= i < j < index.len() ==> index[i].name != index[j].name
}

/// In an index without duplicates a name finds the one definition that goes
/// by it, wherever in the index it stands.
pub proof fn lemma_unique_lookup(index: Seq<DefinitionView>, i: int)
    requires
        unique_names(index),
        0 <= i < index.len(),
    ensures
        find_named(index, index[i].name) == Some(index[i]),
{
    lemma_find_named_skip(index, index[i].name, i);
    assert(index.skip(i)[0] == index[i]);
}

/// The place of the first definition of `index` that goes by `name`.
pub fn position_of(index: &Vec<Definition>, name: &str) -> (r: Option<usize>)
    ensures
        match r {
            Some(i) => {
                &&& i < index.len()
                &&& index@[i as int].name@ == name@
                &&& forall|k: int| 0 <= k < i ==> (#[trigger] index.deep_view()[k]).name != name@
                &&& find_named(index.deep_view(), name@) == Some(index@[i as int].deep_view())
            },
            None => {
                &&& forall|k: int|
                    0 <= k < index.len() ==> (#[trigger] index.deep_view()[k]).name != name@
                &&& find_named(index.deep_view(), name@) is None
            },
        },
{
    let mut i: usize = 0;
    while i < index.len()
        invariant
            i <= index.len(),
            forall|k: int| 0 <= k < i ==> (#[trigger] index.deep_view()[k]).name != name@,
        decreases index.len() - i,
    {
        assert(index.deep_view()[i as int] == index@[i as int].deep_view());
        if same_text(index[i].name.as_str(), name) {
            proof {
                let idx = index.deep_view();
                lemma_find_named_skip(idx, name@, i as int);
                assert(idx.skip(i as int)[0] == idx[i as int]);
            }
            return Some(i);
        }
        i += 1;
    }
    proof {
        let idx = index.deep_view();
        lemma_find_named_skip(idx, name@, idx.len() as int);
    }
    None
}

/// Checks that no two definitions of an index go by the same name. Fails
/// with `DuplicateName`, naming the first name that an earlier definition has
/// already.
pub fn validate_index(index: &Vec<Definition>) -> (r: Result<(), RepoError>)
    ensures
        match r {
            Ok(_) => unique_names(index.deep_view()),
            Err(e) => exists|i: int, j: int|
                0 <= i < j < index.len() && index.deep_view()[i].name == index.deep_view()[j].name
                    && unique_names(index.deep_view().take(j)) && e.deep_view()
                    == RepoErrorView::DuplicateName(index.deep_view()[j].name),
        },
{
    let ghost all = index.deep_view();
    let mut j: usize = 0;
    while j < index.len()
        invariant
            j <= index.len(),
            all == index.deep_view(),
            unique_names(all.take(j as int)),
        decreases index.len() - j,
    {
        assert(all[j as int] == index@[j as int].deep_view());
        match position_of(index, index[j].name.as_str()) {
            Some(i) => {
                if i < j {
                    assert(all[i as int].name == all[j as int].name);
                    return Err(RepoError::DuplicateName(index[j].name.clone()));
                }
            },
            None => {
                // The definition itself goes by its name, so some place is found.
                assert(all[j as int].name != all[j as int].name);
            },
        }
        proof {
            let before = all.take(j as int);
            let next = all.take(j + 1);
            assert forall|a: int, b: int| 0 <= a < b < next.len() implies next[a].name
                != next[b].name by {
                if b < j {
                    assert(before[a].name != before[b].name);
                } else {
                    assert(all[a] == all.take(j as int)[a]);
                }
            }
        }
        j += 1;
    }
    assert(all.take(j as int) =~= all);
    Ok(())
}

/// The index of a local checkout: the definitions of `<root>/repo/index.yaml`,
/// with the sources of each plugin below `<root>/repo/<name>`.
#[derive(Debug)]
pub struct LocalRepo {
    root: String,
    index: Vec<Definition>,
}

/// Where a local checkout keeps the scripts of the plugin `name`.
pub open spec fn local_scripting_dir(root: Seq<char>, name: Seq<char>) -> Seq<char> {
    joined(root, "repo/"@ + name + "/src/scripting"@)
}

/// Whether a definition matches a search: the query occurs in the lower-case
/// form of its name or of its description.
pub open spec fn matches_query(d: DefinitionView, query: Seq<char>) -> bool {
    occurs_in(query, lowercase_of(d.name)) || occurs_in(query, lowercase_of(d.description))
}

/// Whether a definition with the lower-case name `name` and the lower-case
/// description `description` matches a search for `query`.
pub fn is_hit(name: &str, description: &str, query: &str) -> (r: bool)
    ensures
        r == (occurs_in(query@, name@) || occurs_in(query@, description@)),
{
    contains_text(name, query) || contains_text(description, query)
}

/// The definitions of an index that match a search, in the order of the
/// index.
pub open spec fn search_hits(index: Seq<DefinitionView>, query: Seq<char>) -> Seq<DefinitionView> {
    index.filter(|d: DefinitionView| matches_query(d, query))
}

/// The definitions of an index, each resolved to the checkout below `root`.
pub open spec fn resolved_index(root: Seq<char>, index: Seq<DefinitionView>) -> Seq<DefinitionView> {
    Seq::new(index.len(), |i: int| index[i].at(local_scripting_dir(root, index[i].name)))
}

impl LocalRepo {
    /// The application root the checkout lives under.
    pub closed spec fn spec_root(&self) -> Seq<char> {
        self.root@
    }

    /// The definitions of the index, in the order of the file.
    pub closed spec fn spec_index(&self) -> Seq<DefinitionView> {
        self.index.deep_view()
    }

    /// A repository below `root` whose index has not been loaded: it holds
    /// no definition.
    pub fn new(root: &str) -> (r: Self)
        ensures
            r.spec_root() == root@,
            r.spec_index() == Seq::<DefinitionView>::empty(),
    {
        let r = LocalRepo { root: String::from_str(root), index: Vec::new() };
        assert(r.index.deep_view() =~= Seq::<DefinitionView>::empty());
        r
    }

    /// A repository below `root` with the definitions read from its index.
    pub fn with_index(root: &str, index: Vec<Definition>) -> (r: Self)
        ensures
            r.spec_root() == root@,
            r.spec_index() == index.deep_view(),
    {
        LocalRepo { root: String::from_str(root), index }
    }

    pub fn root_dir(&self) -> (r: &str)
        ensures
            r@ == self.spec_root(),
    {
        self.root.as_str()
    }

    /// Where the index file is read from.
    pub fn index_path(&self) -> (r: String)
        ensures
            r@ == joined(joined(self.spec_root(), "repo"@), INDEX_FILE@),
    {
        let repo = join(self.root.as_str(), "repo");
        join(repo.as_str(), INDEX_FILE)
    }

    /// Where the scripts of the plugin `name` are.
    pub fn scripting_dir(&self, name: &str) -> (r: String)
        ensures
            r@ == local_scripting_dir(self.spec_root(), name@),
    {
        let mut part = String::from_str("repo/");
        part.append(name);
        part.append("/src/scripting");
        join(self.root.as_str(), part.as_str())
    }

    /// A copy of an index entry, resolved to this checkout.
    fn resolved(&self, entry: &Definition) -> (r: Definition)
        ensures
            r.deep_view() == entry.deep_view().at(
                local_scripting_dir(self.spec_root(), entry.name@),
            ),
    {
        let mut d = entry.clone();
        d.path = Some(self.scripting_dir(entry.name.as_str()));
        d
    }

    /// The first entry of the index that goes by `name`, resolved.
    fn lookup(&self, name: &str) -> (r: Option<Definition>)
        ensures
            r.deep_view() == self.resolution(name@),
    {
        match position_of(&self.index, name) {
            Some(i) => Some(self.resolved(&self.index[i])),
            None => None,
        }
    }

    /// The definitions whose name or description, in lower case, holds
    /// `query`, in the order of the index. An empty result is an error.
    pub fn search(&self, query: &str) -> (r: Result<Vec<Definition>, RepoError>)
        ensures
            match r {
                Ok(found) => found.len() > 0 && found.deep_view() == search_hits(
                    self.spec_index(),
                    query@,
                ),
                Err(e) => e.deep_view() == RepoErrorView::NoMatches && search_hits(
                    self.spec_index(),
                    query@,
                ).len() == 0,
            },
    {
        let mut found: Vec<Definition> = Vec::new();
        let mut i: usize = 0;
        assert(self.index.deep_view().take(0) =~= Seq::<DefinitionView>::empty());
        while i < self.index.len()
            invariant
                i <= self.index.len(),
                found.deep_view() == search_hits(self.index.deep_view().take(i as int), query@),
            decreases self.index.len() - i,
        {
            let entry = &self.index[i];
            let name = lowercase(entry.name.as_str());
            let description = lowercase(entry.description.as_str());
            let hit = is_hit(name.as_str(), description.as_str(), query);
            proof {
                let idx = self.index.deep_view();
                assert(idx.take(i + 1).drop_last() =~= idx.take(i as int));
                assert(idx.take(i + 1).last() == entry.deep_view());
                reveal(Seq::filter);
            }
            if hit {
                let ghost before = found.deep_view();
                found.push(entry.clone());
                assert(found.deep_view() =~= before.push(entry.deep_view()));
            }
            i += 1;
        }
        assert(self.index.deep_view().take(i as int) =~= self.index.deep_view());
        if found.len() == 0 {
            Err(RepoError::NoMatches)
        } else {
            Ok(found)
        }
    }

    /// Every definition of the index, resolved to this checkout.
    pub fn plugins(&self) -> (r: Vec<Definition>)
        ensures
            r.deep_view() == resolved_index(self.spec_root(), self.spec_index()),
    {
        let mut all: Vec<Definition> = Vec::new();
        let mut i: usize = 0;
        while i < self.index.len()
            invariant
                i <= self.index.len(),
                all.len() == i,
                forall|k: int|
                    0 <= k < i ==> (#[trigger] all@[k]).deep_view() == self.index@[k].deep_view().at(
                        local_scripting_dir(self.spec_root(), self.index@[k].name@),
                    ),
            decreases self.index.len() - i,
        {
            all.push(self.resolved(&self.index[i]));
            i += 1;
        }
        assert(all.deep_view() =~= resolved_index(self.spec_root(), self.spec_index()));
        all
    }
}

impl LocalRepo {
    /// Resolves one name against the index. Returns the first entry that
    /// goes by `plugin`, with `path` set to the plugin's scripts in this
    /// checkout; fails with `NotFound`, naming `plugin`, where the index has
    /// no such entry.
    pub fn find_plugin_definition(&self, plugin: &String) -> (r: Result<Definition, RepoError>)
        ensures
            match r {
                Ok(d) => self.resolution(plugin@) == Some(d.deep_view()) && d.name@ == plugin@,
                Err(e) => self.resolution(plugin@) is None && e.deep_view()
                    == RepoErrorView::NotFound(plugin@),
            },
    {
        proof {
            lemma_find_named_name(self.spec_index(), plugin@);
        }
        match self.lookup(plugin.as_str()) {
            Some(d) => Ok(d),
            None => Err(RepoError::NotFound(plugin.clone())),
        }
    }

    /// Resolves a list of names against the index, all or nothing: the
    /// definitions come in the order of the names; the call fails with
    /// `NotFound`, naming the first of `plugins` that the index does not hold.
    pub fn find_plugin_definitions(&self, plugins: &Vec<String>) -> (r: Result<
        Vec<Definition>,
        RepoError,
    >)
        ensures
            ({
                let names = plugins.deep_view();
                let outcomes = Seq::new(names.len(), |i: int| self.resolution(names[i]));
                match r {
                    Ok(found) => outcomes == all_found(found.deep_view()) && names == names_of(
                        found.deep_view(),
                    ),
                    Err(e) => exists|i: int|
                        first_missing(outcomes, i) && e.deep_view() == RepoErrorView::NotFound(
                            names[i],
                        ),
                }
            }),
    {
        let ghost names = plugins.deep_view();
        let ghost outcomes = Seq::new(names.len(), |i: int| self.resolution(names[i]));
        let mut found: Vec<Definition> = Vec::new();
        let mut i: usize = 0;
        while i < plugins.len()
            invariant
                i <= plugins.len(),
                names == plugins.deep_view(),
                outcomes == Seq::new(names.len(), |i: int| self.resolution(names[i])),
                found.len() == i,
                forall|k: int| 0 <= k < i ==> #[trigger] outcomes[k] == Some(found@[k].deep_view()),
                forall|k: int| 0 <= k < i ==> (#[trigger] found@[k]).name@ == names[k],
            decreases plugins.len() - i,
        {
            assert(names[i as int] == plugins@[i as int]@);
            match self.find_plugin_definition(&plugins[i]) {
                Ok(d) => found.push(d),
                Err(e) => {
                    assert(first_missing(outcomes, i as int));
                    assert(e.deep_view() == RepoErrorView::NotFound(names[i as int]));
                    return Err(e);
                },
            }
            i += 1;
        }
        assert(outcomes =~= all_found(found.deep_view()));
        assert(names =~= names_of(found.deep_view()));
        Ok(found)
    }
}

impl PluginDefinitionProvider for LocalRepo {
    open spec fn resolution(&self, name: Seq<char>) -> Option<DefinitionView> {
        match find_named(self.spec_index(), name) {
            Some(d) => Some(d.at(local_scripting_dir(self.spec_root(), d.name))),
            None => None,
        }
    }

    fn find_plugin_definition(&self, plugin: &String) -> (r: Result<Definition, RepoError>) {
        LocalRepo::find_plugin_definition(self, plugin)
    }

    fn find_plugin_definitions(&self, plugins: &Vec<String>) -> (r: Result<
        Vec<Definition>,
        RepoError,
    >) {
        LocalRepo::find_plugin_definitions(self, plugins)
    }
}

/// A provider of one of the kinds the library knows, so that providers of
/// different kinds can stand in one chain.
#[derive(Debug)]
pub enum Overlay {
    /// The index of the local checkout.
    Local(LocalRepo),
    /// Plugins developed in a directory on this machine.
    Path(PathOverlay),
}

impl PluginDefinitionProvider for Overlay {
    open spec fn resolution(&self, name: Seq<char>) -> Option<DefinitionView> {
        match self {
            Overlay::Local(repo) => repo.resolution(name),
            Overlay::Path(path) => path.resolution(name),
        }
    }

    /// Fails with `NotFound`, naming `plugin`.
    fn find_plugin_definition(&self, plugin: &String) -> (r: Result<Definition, RepoError>)
    {
        match self {
            Overlay::Local(repo) => repo.find_plugin_definition(plugin),
            Overlay::Path(path) => path.find_plugin_definition(plugin),
        }
    }

    /// Fails with `NotFound`, naming the first of `plugins` that does not
    /// resolve.
    fn find_plugin_definitions(&self, plugins: &Vec<String>) -> (r: Result<
        Vec<Definition>,
        RepoError,
    >)
    {
        let ghost names = plugins.deep_view();
        match self {
            Overlay::Local(repo) => {
                assert(Seq::new(names.len(), |i: int| self.resolution(names[i])) =~= Seq::new(
                    names.len(),
                    |i: int| repo.resolution(names[i]),
                ));
                repo.find_plugin_definitions(plugins)
            },
            Overlay::Path(path) => {
                assert(Seq::new(names.len(), |i: int| self.resolution(names[i])) =~= Seq::new(
                    names.len(),
                    |i: int| path.resolution(names[i]),
                ));
                path.find_plugin_definitions(plugins)
            },
        }
    }
}

/// The chain every command starts from: the local checkout below
/// `root_path`, holding the definitions of `index`.
pub fn open_default_overlays(root_path: &str, index: Vec<Definition>) -> (r: PluginOverlays<
    Overlay,
>)
    ensures
        r.providers().len() == 1,
        r.providers()[0] matches Overlay::Local(repo) && repo.spec_root() == root_path@
            && repo.spec_index() == index.deep_view(),
{
    let mut overlays: PluginOverlays<Overlay> = PluginOverlays::default();
    overlays.add_overlay(Overlay::Local(LocalRepo::with_index(root_path, index)));
    overlays
}

} // verus!
