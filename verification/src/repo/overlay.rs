use crate::plugins::{Definition, DefinitionView};
use crate::repo::{
    all_found, first_missing, names_of, PluginDefinitionProvider, RepoError, RepoErrorView,
};
use vstd::prelude::*;
use vstd::string::*;

verus! {

/// A chain of providers in which the provider added last is asked first, so
/// that a later source shadows an earlier one.
pub struct PluginOverlays<P: PluginDefinitionProvider> {
    overlays: Vec<P>,
}

/// What a chain resolves `name` to: the resolution of the first provider, from
/// the front, that resolves it.
pub open spec fn chain_resolution<P: PluginDefinitionProvider>(
    overlays: Seq<P>,
    name: Seq<char>,
) -> Option<DefinitionView>
    decreases overlays.len(),
{
    if overlays.len() == 0 {
        None
    } else if overlays[0].resolution(name) is Some {
        overlays[0].resolution(name)
    } else {
        chain_resolution(overlays.drop_first(), name)
    }
}

/// Providers at the front that do not resolve `name` can be skipped.
pub proof fn lemma_chain_skip<P: PluginDefinitionProvider>(
    overlays: Seq<P>,
    name: Seq<char>,
    n: int,
)
    requires
        0 <= n <= overlays.len(),
        forall|k: int| 0 <= k < n ==> (#[trigger] overlays[k]).resolution(name) is None,
    ensures
        chain_resolution(overlays, name) == chain_resolution(overlays.skip(n), name),
    decreases n,
{
    if n == 0 {
        assert(overlays.skip(0) =~= overlays);
    } else {
        assert(overlays[0].resolution(name) is None);
        let rest = overlays.drop_first();
        assert forall|k: int| 0 <= k < n - 1 implies (#[trigger] rest[k]).resolution(
            name,
        ) is None by {
            assert(rest[k] == overlays[k + 1]);
        }
        lemma_chain_skip(rest, name, n - 1);
        assert(rest.skip(n - 1) =~= overlays.skip(n));
    }
}

/// The provider added last wins: where it resolves a name, the chain returns
/// its resolution, whatever the providers added before it say; where it does
/// not, the chain resolves the name as it did before.
pub proof fn lemma_latest_overlay_wins<P: PluginDefinitionProvider>(
    overlays: Seq<P>,
    latest: P,
    name: Seq<char>,
)
    ensures
        chain_resolution(overlays.insert(0, latest), name) == if latest.resolution(name) is Some {
            latest.resolution(name)
        } else {
            chain_resolution(overlays, name)
        },
{
    let chain = overlays.insert(0, latest);
    assert(chain[0] == latest);
    assert(chain.drop_first() =~= overlays);
}

/// A chain knows a name exactly where one of its providers resolves it.
pub proof fn lemma_chain_unknown<P: PluginDefinitionProvider>(overlays: Seq<P>, name: Seq<char>)
    ensures
        chain_resolution(overlays, name) is None <==> forall|k: int|
            0 <= k < overlays.len() ==> (#[trigger] overlays[k]).resolution(name) is None,
    decreases overlays.len(),
{
    if overlays.len() > 0 {
        let rest = overlays.drop_first();
        lemma_chain_unknown(rest, name);
        if overlays[0].resolution(name) is None {
            if chain_resolution(overlays, name) is None {
                assert forall|k: int| 0 <= k < overlays.len() implies (#[trigger] overlays[k]).resolution(
                    name,
                ) is None by {
                    if k > 0 {
                        assert(rest[k - 1] == overlays[k]);
                    }
                }
            } else {
                let k = choose|k: int|
                    0 <= k < rest.len() && !((#[trigger] rest[k]).resolution(name) is None);
                assert(rest[k] == overlays[k + 1]);
            }
        }
    }
}

impl<P: PluginDefinitionProvider> Default for PluginOverlays<P> {
    fn default() -> (r: Self)
        ensures
            r.providers().len() == 0,
    {
        PluginOverlays { overlays: Vec::new() }
    }
}

impl<P: PluginDefinitionProvider> PluginOverlays<P> {
    /// The providers of the chain, the one asked first in front.
    pub closed spec fn providers(&self) -> Seq<P> {
        self.overlays@
    }

    /// Puts `overlay` in front of the chain, so that it is asked before every
    /// provider added earlier: the chain then resolves a name as `overlay`
    /// does, and as it did before only where `overlay` knows no such name.
    pub fn add_overlay(&mut self, overlay: P)
        ensures
            final(self).providers() == old(self).providers().insert(0, overlay),
            forall|name: Seq<char>| #[trigger]
                final(self).resolution(name) == if overlay.resolution(name) is Some {
                    overlay.resolution(name)
                } else {
                    old(self).resolution(name)
                },
    {
        proof {
            assert forall|name: Seq<char>| #[trigger]
                chain_resolution(self.overlays@.insert(0, overlay), name) == if overlay.resolution(
                    name,
                ) is Some {
                    overlay.resolution(name)
                } else {
                    chain_resolution(self.overlays@, name)
                } by {
                lemma_latest_overlay_wins(self.overlays@, overlay, name);
            }
        }
        self.overlays.insert(0, overlay);
    }

    /// How many providers the chain holds.
    pub fn len(&self) -> (r: usize)
        ensures
            r == self.providers().len(),
    {
        self.overlays.len()
    }
}

impl<P: PluginDefinitionProvider> PluginDefinitionProvider for PluginOverlays<P> {
    open spec fn resolution(&self, name: Seq<char>) -> Option<DefinitionView> {
        chain_resolution(self.providers(), name)
    }

    /// Asks the providers from the front and returns the first resolution.
    /// A provider that fails, for whatever reason, is passed over. Where none
    /// resolves the name, the error is `NotFound` and names `plugin`.
    fn find_plugin_definition(&self, plugin: &String) -> (r: Result<Definition, RepoError>)
    {
        let mut i: usize = 0;
        while i < self.overlays.len()
            invariant
                i <= self.overlays.len(),
                forall|k: int| 0 <= k < i ==> (#[trigger] self.overlays@[k]).resolution(plugin@) is None,
            decreases self.overlays.len() - i,
        {
            match self.overlays[i].find_plugin_definition(plugin) {
                Ok(d) => {
                    proof {
                        lemma_chain_skip(self.overlays@, plugin@, i as int);
                        assert(self.overlays@.skip(i as int)[0] == self.overlays@[i as int]);
                    }
                    return Ok(d);
                },
                Err(_) => {},
            }
            i += 1;
        }
        proof {
            lemma_chain_skip(self.overlays@, plugin@, self.overlays@.len() as int);
        }
        Err(RepoError::NotFound(plugin.clone()))
    }

    /// Resolves each name by itself, in order, through
    /// `find_plugin_definition`. Fails with `NotFound`, naming the first of
    /// `plugins` that no provider resolves.
    fn find_plugin_definitions(&self, plugins: &Vec<String>) -> (r: Result<
        Vec<Definition>,
        RepoError,
    >)
    {
        let ghost names = plugins.deep_view();
        let ghost outcomes = Seq::new(names.len(), |i: int| self.resolution(names[i]));
        let mut found: Vec<Definition> = Vec::new();
        let mut i: usize = 0;
        while i < plugins.len()
            invariant
                i <= plugins.len(),
                names == plugins.deep_view(),
                outcomes == Seq::new(names.len(), |i: int| self.resolution(names[i])),
                found.len() == i,
                forall|k: int| 0 <= k < i ==> #[trigger] outcomes[k] == Some(found@[k].deep_view()),
                forall|k: int| 0 <= k < i ==> (#[trigger] found@[k]).name@ == names[k],
            decreases plugins.len() - i,
        {
            assert(names[i as int] == plugins@[i as int]@);
            match self.find_plugin_definition(&plugins[i]) {
                Ok(d) => found.push(d),
                Err(e) => {
                    assert(first_missing(outcomes, i as int));
                    assert(e.deep_view() == RepoErrorView::NotFound(names[i as int]));
                    return Err(e);
                },
            }
            i += 1;
        }
        assert(outcomes =~= all_found(found.deep_view()));
        assert(names =~= names_of(found.deep_view()));
        Ok(found)
    }
}

} // verus!
