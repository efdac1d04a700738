use crate::fspath::{join, joined};
use crate::plugins::{Definition, DefinitionView, PLUGIN_DEFINITION_FILE};
use crate::repo::{
    all_found, find_named, first_missing, lemma_find_named_name, names_of, position_of,
    PluginDefinitionProvider, RepoError, RepoErrorView,
};
use vstd::prelude::*;
use vstd::string::*;

verus! {

/// Plugins under development in a directory of this machine, one directory
/// for each below `root_path`. Put in front of a chain, it shadows the
/// definitions of the same name that the index holds.
#[derive(Debug)]
pub struct PathOverlay {
    root_path: String,
    definitions: Vec<Definition>,
}

/// Where the scripts of the plugin `name` are below `root`.
pub open spec fn overlay_scripting_dir(root: Seq<char>, name: Seq<char>) -> Seq<char> {
    joined(joined(root, name), "src/scripting"@)
}

impl PathOverlay {
    /// The directory that holds the plugins.
    pub closed spec fn spec_root(&self) -> Seq<char> {
        self.root_path@
    }

    /// The definitions found below the directory.
    pub closed spec fn spec_definitions(&self) -> Seq<DefinitionView> {
        self.definitions.deep_view()
    }

    /// An overlay on `root_path` that holds no definition yet.
    pub fn new(root_path: &str) -> (r: Self)
        ensures
            r.spec_root() == root_path@,
            r.spec_definitions() == Seq::<DefinitionView>::empty(),
    {
        let r = PathOverlay { root_path: String::from_str(root_path), definitions: Vec::new() };
        assert(r.definitions.deep_view() =~= Seq::<DefinitionView>::empty());
        r
    }

    /// An overlay on `root_path` with the definitions read from the plugin
    /// directories below it.
    pub fn with_definitions(root_path: &str, definitions: Vec<Definition>) -> (r: Self)
        ensures
            r.spec_root() == root_path@,
            r.spec_definitions() == definitions.deep_view(),
    {
        PathOverlay { root_path: String::from_str(root_path), definitions }
    }

    /// Where the definition file of `plugin` is looked for.
    pub fn definition_path(&self, plugin: &str) -> (r: String)
        ensures
            r@ == joined(joined(self.spec_root(), plugin@), PLUGIN_DEFINITION_FILE@),
    {
        let dir = join(self.root_path.as_str(), plugin);
        join(dir.as_str(), PLUGIN_DEFINITION_FILE)
    }

    /// The first definition that goes by `name`, resolved.
    fn lookup(&self, name: &str) -> (r: Option<Definition>)
        ensures
            r.deep_view() == self.resolution(name@),
    {
        match position_of(&self.definitions, name) {
            Some(i) => {
                let entry = &self.definitions[i];
                let mut d = entry.clone();
                let dir = join(self.root_path.as_str(), entry.name.as_str());
                d.path = Some(join(dir.as_str(), "src/scripting"));
                Some(d)
            },
            None => None,
        }
    }
}

impl PluginDefinitionProvider for PathOverlay {
    open spec fn resolution(&self, name: Seq<char>) -> Option<DefinitionView> {
        match find_named(self.spec_definitions(), name) {
            Some(d) => Some(d.at(overlay_scripting_dir(self.spec_root(), d.name))),
            None => None,
        }
    }

    /// Fails with `NotFound`, naming `plugin`, where no definition goes by
    /// that name.
    fn find_plugin_definition(&self, plugin: &String) -> (r: Result<Definition, RepoError>)
    {
        proof {
            lemma_find_named_name(self.spec_definitions(), plugin@);
        }
        match self.lookup(plugin.as_str()) {
            Some(d) => Ok(d),
            None => Err(RepoError::NotFound(plugin.clone())),
        }
    }

    /// Fails with `NotFound`, naming the first of `plugins` that has no
    /// definition.
    fn find_plugin_definitions(&self, plugins: &Vec<String>) -> (r: Result<
        Vec<Definition>,
        RepoError,
    >)
    {
        let ghost names = plugins.deep_view();
        let ghost outcomes = Seq::new(names.len(), |i: int| self.resolution(names[i]));
        let mut found: Vec<Definition> = Vec::new();
        let mut i: usize = 0;
        while i < plugins.len()
            invariant
                i <= plugins.len(),
                names == plugins.deep_view(),
                outcomes == Seq::new(names.len(), |i: int| self.resolution(names[i])),
                found.len() == i,
                forall|k: int| 0 <= k < i ==> #[trigger] outcomes[k] == Some(found@[k].deep_view()),
                forall|k: int| 0 <= k < i ==> (#[trigger] found@[k]).name@ == names[k],
            decreases plugins.len() - i,
        {
            assert(names[i as int] == plugins@[i as int]@);
            match self.find_plugin_definition(&plugins[i]) {
                Ok(d) => found.push(d),
                Err(e) => {
                    assert(first_missing(outcomes, i as int));
                    assert(e.deep_view() == RepoErrorView::NotFound(names[i as int]));
                    return Err(e);
                },
            }
            i += 1;
        }
        assert(outcomes =~= all_found(found.deep_view()));
        assert(names =~= names_of(found.deep_view()));
        Ok(found)
    }
}

} // verus!
