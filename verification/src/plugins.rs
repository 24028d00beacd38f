use vstd::prelude::*;
use crate::registry::Registry;
use crate::text::{owned, str_eq};

verus! {

/// Version of the plugin interface.
pub fn plugin_api_version() -> (r: u32)
    ensures
        r == 1,
{
    1
}

/// A source definition of a plugin produces video.
pub const SOURCE_FLAG_VIDEO: u32 = 1u32;

/// A source definition of a plugin produces audio.
pub const SOURCE_FLAG_AUDIO: u32 = 2u32;

/// A source definition of a plugin runs asynchronously.
pub const SOURCE_FLAG_ASYNC: u32 = 4u32;

/// A source definition of a plugin takes user interaction.
pub const SOURCE_FLAG_INTERACTION: u32 = 8u32;

/// Who made a plugin and where it lives.
#[derive(Clone, Debug)]
pub struct PluginInfo {
    pub name: String,
    pub version: String,
    pub author: String,
    pub description: String,
    pub path: String,
}

/// What kinds of components a plugin provides.
#[derive(Clone, Copy, Debug, PartialEq, Eq, Structural)]
pub struct PluginCapabilities {
    pub sources: bool,
    pub encoders: bool,
    pub outputs: bool,
    pub audio: bool,
    pub ui: bool,
}

impl Default for PluginCapabilities {
    /// Provides nothing.
    fn default() -> (r: PluginCapabilities)
        ensures
            r == (PluginCapabilities {
                sources: false,
                encoders: false,
                outputs: false,
                audio: false,
                ui: false,
            }),
    {
        PluginCapabilities { sources: false, encoders: false, outputs: false, audio: false, ui: false }
    }
}

/// A plugin library that was found but is not understood: it provides
/// nothing.
pub struct UnknownPlugin {
    pub info: PluginInfo,
}

impl UnknownPlugin {
    pub fn new(info: PluginInfo) -> (r: UnknownPlugin)
        ensures
            r.info.name@ == info.name@,
            r.info.version@ == info.version@,
            r.info.author@ == info.author@,
            r.info.description@ == info.description@,
            r.info.path@ == info.path@,
    {
        UnknownPlugin { info }
    }

    pub fn name(&self) -> (r: &str)
        ensures
            r@ == self.info.name@,
    {
        self.info.name.as_str()
    }

    pub fn version(&self) -> (r: &str)
        ensures
            r@ == self.info.version@,
    {
        self.info.version.as_str()
    }

    pub fn author(&self) -> (r: &str)
        ensures
            r@ == self.info.author@,
    {
        self.info.author.as_str()
    }

    pub fn description(&self) -> (r: &str)
        ensures
            r@ == self.info.description@,
    {
        self.info.description.as_str()
    }

    /// No capabilities.
    pub fn capabilities(&self) -> (r: PluginCapabilities)
        ensures
            r == (PluginCapabilities {
                sources: false,
                encoders: false,
                outputs: false,
                audio: false,
                ui: false,
            }),
    {
        PluginCapabilities::default()
    }
}

/// Whether a file extension is that of a loadable library.
pub open spec fn is_library_extension(ext: Seq<char>) -> bool {
    ext == "dll"@ || ext == "so"@ || ext == "dylib"@
}

/// Whether a file with this extension is a plugin library (`dll`, `so`,
/// `dylib`).
pub fn is_plugin_library(ext: &str) -> (r: bool)
    ensures
        r == is_library_extension(ext@),
{
    str_eq(ext, "dll") || str_eq(ext, "so") || str_eq(ext, "dylib")
}

/// What is known of a plugin loaded from `path`: named after its path,
/// version 1.0 by an unknown author.
pub fn loaded_plugin_info(path: &str) -> (r: PluginInfo)
    ensures
        r.name@ == path@,
        r.version@ == "1.0"@,
        r.author@ == "Unknown"@,
        r.description@ == "Loaded plugin"@,
        r.path@ == path@,
{
    PluginInfo {
        name: owned(path),
        version: owned("1.0"),
        author: owned("Unknown"),
        description: owned("Loaded plugin"),
        path: owned(path),
    }
}

/// The registry after registering each named component in turn (a later
/// name replaces an earlier one).
pub open spec fn registered_all<T>(m: Map<Seq<char>, T>, entries: Seq<(String, T)>) -> Map<
    Seq<char>,
    T,
>
    decreases entries.len(),
{
    if entries.len() == 0 {
        m
    } else {
        registered_all(m, entries.drop_last()).insert(
            entries.last().0@,
            entries.last().1,
        )
    }
}

/// The registry after unregistering every name of `names`.
pub open spec fn unregistered_all<T>(m: Map<Seq<char>, T>, names: Seq<String>) -> Map<Seq<char>, T>
    decreases names.len(),
{
    if names.len() == 0 {
        m
    } else {
        unregistered_all(m, names.drop_last()).remove(names.last()@)
    }
}

/// Registers the components a plugin provides, under their type names.
pub fn register_components<T>(registry: &mut Registry<T>, entries: Vec<(String, T)>)
    requires
        old(registry).wf(),
    ensures
        final(registry).wf(),
        final(registry)@ == registered_all(old(registry)@, entries@),
{
    let ghost all = entries@;
    let mut rest = entries;
    let n = rest.len();
    let mut i: usize = 0;
    proof {
        assert(all.subrange(0, 0) =~= Seq::<(String, T)>::empty());
    }
    while i < n
        invariant
            n == all.len(),
            i <= n,
            rest@ == all.subrange(i as int, n as int),
            registry.wf(),
            registry@ == registered_all(old(registry)@, all.subrange(0, i as int)),
        decreases n - i,
    {
        let (name, component) = rest.remove(0);
        proof {
            assert(all.subrange(0, i + 1).drop_last() =~= all.subrange(0, i as int));
            assert(all.subrange(0, i + 1).last() == all[i as int]);
        }
        registry.register(name.as_str(), component);
        assert(rest@ =~= all.subrange(i + 1, n as int));
        i = i + 1;
    }
    assert(all.subrange(0, n as int) =~= all);
}

/// Unregisters the components of a plugin by their type names.
pub fn unregister_components<T>(registry: &mut Registry<T>, names: Vec<String>)
    requires
        old(registry).wf(),
    ensures
        final(registry).wf(),
        final(registry)@ == unregistered_all(old(registry)@, names@),
{
    let n = names.len();
    let mut i: usize = 0;
    proof {
        assert(names@.subrange(0, 0) =~= Seq::<String>::empty());
    }
    while i < n
        invariant
            n == names@.len(),
            i <= n,
            registry.wf(),
            registry@ == unregistered_all(old(registry)@, names@.subrange(0, i as int)),
        decreases n - i,
    {
        proof {
            assert(names@.subrange(0, i + 1).drop_last() =~= names@.subrange(0, i as int));
            assert(names@.subrange(0, i + 1).last() == names@[i as int]);
        }
        registry.unregister(names[i].as_str());
        i = i + 1;
    }
    assert(names@.subrange(0, n as int) =~= names@);
}

/// After unregistering a list of names, none of them is registered, and
/// every other name keeps its component.
pub proof fn lemma_unregistered_absent<T>(m: Map<Seq<char>, T>, names: Seq<String>, k: Seq<char>)
    ensures
        (exists|j: int| 0 <= j < names.len() && names[j]@ == k) ==> !unregistered_all(
            m,
            names,
        ).dom().contains(k),
        (forall|j: int| 0 <= j < names.len() ==> names[j]@ != k) ==> (unregistered_all(
            m,
            names,
        ).dom().contains(k) == m.dom().contains(k) && (m.dom().contains(k) ==> unregistered_all(
            m,
            names,
        )[k] == m[k])),
    decreases names.len(),
{
    if names.len() > 0 {
        lemma_unregistered_absent(m, names.drop_last(), k);
        if exists|j: int| 0 <= j < names.len() && names[j]@ == k {
            let j = choose|j: int| 0 <= j < names.len() && names[j]@ == k;
            if j < names.len() - 1 {
                assert(names.drop_last()[j]@ == k);
            }
        }
    }
}

/// Registering components and then unregistering their names leaves none of
/// them registered.
pub proof fn lemma_register_then_unregister<T>(
    m: Map<Seq<char>, T>,
    entries: Seq<(String, T)>,
    names: Seq<String>,
    i: int,
)
    requires
        names.len() == entries.len(),
        forall|j: int| 0 <= j < names.len() ==> #[trigger] names[j]@ == entries[j].0@,
        0 <= i < entries.len(),
    ensures
        !unregistered_all(registered_all(m, entries), names).dom().contains(entries[i].0@),
{
    assert(names[i]@ == entries[i].0@);
    lemma_unregistered_absent(registered_all(m, entries), names, entries[i].0@);
}

} // verus!
