use std::sync::Arc;
use vstd::prelude::*;

use crate::names::NameMap;
use crate::scene::{Scene, SceneView};
use crate::types::{IdAllocator, ObjectId, SceneId};

verus! {

/// The value an `Arc` points to.
pub open spec fn arc_value<T>(a: Arc<T>) -> T {
    *a
}

/// `Arc::clone`: another handle to the same value.
#[verifier::external_body]
fn arc_clone<T>(a: &Arc<T>) -> (r: Arc<T>)
    ensures
        arc_value(r) == arc_value(*a),
{
    Arc::clone(a)
}

/// Named, shared items (factories of sources, encoders or outputs).
pub struct Registry<T> {
    items: NameMap<Arc<T>>,
}

impl<T> Registry<T> {
    pub closed spec fn wf(&self) -> bool {
        self.items.wf()
    }

    /// The item registered under each name.
    pub closed spec fn view(&self) -> Map<Seq<char>, T> {
        self.items.view().map_values(|a: Arc<T>| arc_value(a))
    }

    pub fn new() -> (r: Registry<T>)
        ensures
            r.wf(),
            r@ == Map::<Seq<char>, T>::empty(),
    {
        let r = Registry { items: NameMap::new() };
        assert(r@ =~= Map::<Seq<char>, T>::empty());
        r
    }

    /// Registers `item` under `name`, replacing what was registered there.
    pub fn register(&mut self, name: &str, item: T)
        requires
            old(self).wf(),
        ensures
            final(self).wf(),
            final(self)@ == old(self)@.insert(name@, item),
            final(self)@.dom().finite(),
            final(self)@.len() == old(self)@.len() + if old(self)@.contains_key(name@) {
                0int
            } else {
                1int
            },
    {
        proof {
            old(self).lemma_view_finite();
        }
        self.items.insert(name.to_owned(), Arc::new(item));
        assert(self@ =~= old(self)@.insert(name@, item));
        proof {
            self.lemma_view_finite();
        }
    }

    /// Removes what is registered under `name`, if anything.
    pub fn unregister(&mut self, name: &str)
        requires
            old(self).wf(),
        ensures
            final(self).wf(),
            final(self)@ == old(self)@.remove(name@),
            final(self)@.dom().finite(),
            final(self)@.len() == old(self)@.len() - if old(self)@.contains_key(name@) {
                1int
            } else {
                0int
            },
    {
        proof {
            old(self).lemma_view_finite();
        }
        self.items.remove(name);
        assert(self@ =~= old(self)@.remove(name@));
        proof {
            self.lemma_view_finite();
        }
    }

    /// A registry holds finitely many names.
    pub proof fn lemma_view_finite(&self)
        requires
            self.wf(),
        ensures
            self@.dom().finite(),
    {
        self.items.lemma_view_finite();
        assert(self@.dom() =~= self.items.view().dom());
    }

    /// A handle to the item registered under `name`.
    pub fn get(&self, name: &str) -> (r: Option<Arc<T>>)
        requires
            self.wf(),
        ensures
            r is Some <==> self@.contains_key(name@),
            r matches Some(a) ==> arc_value(a) == self@[name@],
    {
        match self.items.get(name) {
            Some(a) => Some(arc_clone(a)),
            None => None,
        }
    }

    /// The registered names, each once (in no particular order).
    pub fn list(&self) -> (r: Vec<&str>)
        requires
            self.wf(),
        ensures
            r@.map_values(|s: &str| s@).no_duplicates(),
            forall|k: Seq<char>| self@.contains_key(k) <==> r@.map_values(|s: &str| s@).contains(k),
    {
        let r = self.items.key_list();
        proof {
            let rv = r@.map_values(|s: &str| s@);
            assert(rv =~= self.items.names());
        }
        r
    }

    pub fn count(&self) -> (r: usize)
        requires
            self.wf(),
        ensures
            r == self@.len(),
    {
        let n = self.items.len();
        assert(self@.dom() =~= self.items.view().dom());
        n
    }
}

/// The mathematical value of a scene collection.
pub struct SceneCollectionView {
    pub scenes: Map<Seq<char>, SceneView>,
    pub current: Option<Seq<char>>,
    /// Identity the next created scene receives.
    pub next_scene_id: u64,
}

impl SceneCollectionView {
    /// The counter after handing out one identity.
    pub open spec fn bumped(self) -> u64 {
        if self.next_scene_id == u64::MAX {
            0
        } else {
            (self.next_scene_id + 1) as u64
        }
    }

    /// A fresh empty scene of the given size stored under `name`.
    pub open spec fn create(self, name: Seq<char>, width: u32, height: u32) -> SceneCollectionView {
        SceneCollectionView {
            scenes: self.scenes.insert(
                name,
                SceneView::empty(SceneId(ObjectId(self.next_scene_id)), name, width, height),
            ),
            next_scene_id: self.bumped(),
            ..self
        }
    }

    /// The scene `name` removed; it is no longer current.
    pub open spec fn remove(self, name: Seq<char>) -> SceneCollectionView {
        SceneCollectionView {
            scenes: self.scenes.remove(name),
            current: if self.current == Some(name) {
                None
            } else {
                self.current
            },
            ..self
        }
    }

    /// `name` made current when it names a scene.
    pub open spec fn set_current(self, name: Seq<char>) -> (SceneCollectionView, bool) {
        if self.scenes.contains_key(name) {
            (SceneCollectionView { current: Some(name), ..self }, true)
        } else {
            (self, false)
        }
    }

    /// The scene under an existing `name` changed to `scene`.
    pub open spec fn replace(self, name: Seq<char>, scene: SceneView) -> SceneCollectionView {
        SceneCollectionView { scenes: self.scenes.insert(name, scene), ..self }
    }

    /// The current scene name, when set, names a scene of the collection.
    pub open spec fn current_valid(self) -> bool {
        self.current matches Some(c) ==> self.scenes.contains_key(c)
    }
}

/// The views of a map of scenes.
pub open spec fn scene_views(m: Map<Seq<char>, Scene>) -> Map<Seq<char>, SceneView> {
    m.map_values(|s: Scene| s@)
}

/// Replacing a scene replaces its view.
pub proof fn lemma_scene_views_insert()
    ensures
        forall|m: Map<Seq<char>, Scene>, k: Seq<char>, s: Scene|
            #[trigger] scene_views(m.insert(k, s)) == scene_views(m).insert(k, s@),
{
    assert forall|m: Map<Seq<char>, Scene>, k: Seq<char>, s: Scene|
        #[trigger] scene_views(m.insert(k, s)) == scene_views(m).insert(k, s@) by {
        assert(scene_views(m.insert(k, s)) =~= scene_views(m).insert(k, s@));
    }
}

/// Scenes by name, with one of them possibly marked current.
/// Scene identities are handed out by the collection, counting up from 1.
pub struct SceneCollection {
    scenes: NameMap<Scene>,
    current_scene_name: Option<String>,
    ids: IdAllocator,
}

impl View for SceneCollection {
    type V = SceneCollectionView;

    closed spec fn view(&self) -> SceneCollectionView {
        SceneCollectionView {
            scenes: scene_views(self.scenes.view()),
            current: match self.current_scene_name {
                Some(s) => Some(s@),
                None => None,
            },
            next_scene_id: self.ids.next_value(),
        }
    }
}

impl SceneCollection {
    /// The name map is well formed and the current scene name, when set,
    /// names a scene of the collection.
    pub closed spec fn wf(&self) -> bool {
        &&& self.scenes.wf()
        &&& self@.current_valid()
    }

    /// A well-formed collection's current scene name, when set, names one
    /// of its scenes.
    pub proof fn lemma_wf_current_valid(&self)
        requires
            self.wf(),
        ensures
            self@.current_valid(),
    {
    }

    /// A scene collection holds finitely many scenes.
    pub proof fn lemma_scenes_finite(&self)
        requires
            self.wf(),
        ensures
            self@.scenes.dom().finite(),
    {
        self.scenes.lemma_view_finite();
        assert(self@.scenes.dom() =~= self.scenes.view().dom());
    }

    pub fn new() -> (r: SceneCollection)
        ensures
            r.wf(),
            r@.scenes == Map::<Seq<char>, SceneView>::empty(),
            r@.current is None,
            r@.next_scene_id == 1,
    {
        let r = SceneCollection { scenes: NameMap::new(), current_scene_name: None, ids: IdAllocator::new() };
        assert(r@.scenes =~= Map::<Seq<char>, SceneView>::empty());
        r
    }

    /// Creates an empty 1920x1080 scene under `name` (replacing a scene of that
    /// name) and returns it.
    pub fn create_scene(&mut self, name: String) -> (r: Option<&Scene>)
        requires
            old(self).wf(),
        ensures
            final(self).wf(),
            final(self)@ == old(self)@.create(name@, 1920, 1080),
            final(self)@.scenes.dom().finite(),
            final(self)@.scenes.len() == old(self)@.scenes.len() + if old(self)@.scenes.contains_key(name@) {
                0int
            } else {
                1int
            },
            r matches Some(s) && s@ == final(self)@.scenes[name@],
    {
        proof {
            self.lemma_scenes_finite();
        }
        let id = SceneId(self.ids.allocate());
        let scene = Scene::new(id, name.clone());
        let ghost sv = scene@;
        self.scenes.insert(name.clone(), scene);
        proof {
            assert(scene_views(self.scenes.view()) =~= scene_views(old(self).scenes.view()).insert(name@, sv));
            self.lemma_scenes_finite();
        }
        self.scenes.get(name.as_str())
    }

    /// Creates an empty scene of the given output size under `name` (replacing a
    /// scene of that name) and returns it.
    pub fn create_scene_with_resolution(&mut self, name: String, width: u32, height: u32) -> (r: Option<&Scene>)
        requires
            old(self).wf(),
        ensures
            final(self).wf(),
            final(self)@ == old(self)@.create(name@, width, height),
            final(self)@.scenes.dom().finite(),
            final(self)@.scenes.len() == old(self)@.scenes.len() + if old(self)@.scenes.contains_key(name@) {
                0int
            } else {
                1int
            },
            r matches Some(s) && s@ == final(self)@.scenes[name@],
    {
        proof {
            self.lemma_scenes_finite();
        }
        let id = SceneId(self.ids.allocate());
        let scene = Scene::with_resolution(id, name.clone(), width, height);
        let ghost sv = scene@;
        self.scenes.insert(name.clone(), scene);
        proof {
            assert(scene_views(self.scenes.view()) =~= scene_views(old(self).scenes.view()).insert(name@, sv));
            self.lemma_scenes_finite();
        }
        self.scenes.get(name.as_str())
    }

    pub fn get(&self, name: &str) -> (r: Option<&Scene>)
        requires
            self.wf(),
        ensures
            r is Some <==> self@.scenes.contains_key(name@),
            r matches Some(s) ==> s@ == self@.scenes[name@],
    {
        self.scenes.get(name)
    }

    /// The scene named `name`, for changing it in place.
    pub fn get_mut(&mut self, name: &str) -> (r: Option<&mut Scene>)
        requires
            old(self).wf(),
        ensures
            final(self).wf(),
            r is Some <==> old(self)@.scenes.contains_key(name@),
            r matches Some(s) ==> s@ == old(self)@.scenes[name@] && final(self)@ == old(
                self,
            )@.replace(name@, final(s)@),
            r is None ==> final(self)@ == old(self)@,
    {
        proof {
            lemma_scene_views_insert();
        }
        self.scenes.get_mut(name)
    }

    /// The current scene, if one is set and exists.
    pub fn current_scene(&self) -> (r: Option<&Scene>)
        requires
            self.wf(),
        ensures
            r is Some <==> (self@.current matches Some(c) && self@.scenes.contains_key(c)),
            r is Some <==> self@.current is Some,
            r matches Some(s) ==> s@ == self@.scenes[self@.current->0],
    {
        match &self.current_scene_name {
            Some(n) => self.scenes.get(n.as_str()),
            None => None,
        }
    }

    /// The current scene, for changing it in place.
    pub fn current_scene_mut(&mut self) -> (r: Option<&mut Scene>)
        requires
            old(self).wf(),
        ensures
            final(self).wf(),
            r is Some <==> (old(self)@.current matches Some(c) && old(self)@.scenes.contains_key(c)),
            r matches Some(s) ==> s@ == old(self)@.scenes[old(self)@.current->0] && final(self)@ == old(
                self,
            )@.replace(old(self)@.current->0, final(s)@),
            r is None ==> final(self)@ == old(self)@,
    {
        match &self.current_scene_name {
            Some(n) => {
                proof {
                    lemma_scene_views_insert();
                }
                self.scenes.get_mut(n.as_str())
            },
            None => None,
        }
    }

    /// Makes `name` current when such a scene exists.
    pub fn set_current_scene(&mut self, name: &str) -> (r: bool)
        requires
            old(self).wf(),
        ensures
            final(self).wf(),
            (final(self)@, r) == old(self)@.set_current(name@),
    {
        if self.scenes.contains_key(name) {
            self.current_scene_name = Some(name.to_owned());
            true
        } else {
            false
        }
    }

    pub fn current_scene_name(&self) -> (r: Option<&str>)
        ensures
            r is Some <==> self@.current is Some,
            r matches Some(s) ==> s@ == self@.current->0,
    {
        match &self.current_scene_name {
            Some(s) => Some(s.as_str()),
            None => None,
        }
    }

    /// The scene names, each once (in no particular order).
    pub fn list(&self) -> (r: Vec<&str>)
        requires
            self.wf(),
        ensures
            r@.map_values(|s: &str| s@).no_duplicates(),
            forall|k: Seq<char>| self@.scenes.contains_key(k) <==> r@.map_values(|s: &str| s@).contains(k),
    {
        let r = self.scenes.key_list();
        proof {
            let rv = r@.map_values(|s: &str| s@);
            assert(rv =~= self.scenes.names());
        }
        r
    }

    /// Removes the scene `name`; when it was current, no scene is current any more.
    pub fn remove(&mut self, name: &str) -> (r: bool)
        requires
            old(self).wf(),
        ensures
            final(self).wf(),
            r == old(self)@.scenes.contains_key(name@),
            final(self)@ == old(self)@.remove(name@),
            final(self)@.scenes.dom().finite(),
            final(self)@.scenes.len() == old(self)@.scenes.len() - if r {
                1int
            } else {
                0int
            },
    {
        proof {
            self.lemma_scenes_finite();
        }
        let clear = match &self.current_scene_name {
            Some(c) => *c == name.to_owned(),
            None => false,
        };
        if clear {
            self.current_scene_name = None;
        }
        let removed = self.scenes.remove(name);
        assert(scene_views(self.scenes.view()) =~= scene_views(old(self).scenes.view()).remove(name@));
        proof {
            self.lemma_scenes_finite();
        }
        removed.is_some()
    }

    pub fn count(&self) -> (r: usize)
        requires
            self.wf(),
        ensures
            r == self@.scenes.len(),
    {
        let n = self.scenes.len();
        assert(self@.scenes.dom() =~= self.scenes.view().dom());
        n
    }

    pub fn scene_exists(&self, name: &str) -> (r: bool)
        requires
            self.wf(),
        ensures
            r == self@.scenes.contains_key(name@),
    {
        self.scenes.contains_key(name)
    }

    /// All scenes by name.
    pub fn scenes(&self) -> (r: &NameMap<Scene>)
        requires
            self.wf(),
        ensures
            r.wf(),
            scene_views(r.view()) == self@.scenes,
    {
        &self.scenes
    }

    /// All scenes by name, for changing in place.
    pub fn scenes_mut(&mut self) -> (r: &mut NameMap<Scene>)
        requires
            old(self).wf(),
        ensures
            r.wf(),
            scene_views(r.view()) == old(self)@.scenes,
            final(self).wf() == (final(r).wf() && final(self)@.current_valid()),
            final(self)@ == (SceneCollectionView { scenes: scene_views(final(r).view()), ..old(self)@ }),
    {
        &mut self.scenes
    }
}

impl Default for SceneCollection {
    fn default() -> (r: SceneCollection)
        ensures
            r.wf(),
            r@.scenes == Map::<Seq<char>, SceneView>::empty(),
            r@.current is None,
            r@.next_scene_id == 1,
    {
        SceneCollection::new()
    }
}

/// Registering an item makes it the one found under its name; unregistering
/// leaves nothing under the name; other names are unaffected either way.
pub proof fn lemma_registry_read_after_write<T>(m: Map<Seq<char>, T>, name: Seq<char>, other: Seq<char>, item: T)
    requires
        other != name,
    ensures
        m.insert(name, item).contains_key(name),
        m.insert(name, item)[name] == item,
        !m.remove(name).contains_key(name),
        m.insert(name, item).contains_key(other) == m.contains_key(other),
        m.remove(name).contains_key(other) == m.contains_key(other),
        m.contains_key(other) ==> m.insert(name, item)[other] == m[other] && m.remove(name)[other]
            == m[other],
{
}

/// Every operation of a scene collection keeps the current scene name naming
/// a scene of the collection.
pub proof fn lemma_collection_keeps_current_valid(
    c: SceneCollectionView,
    name: Seq<char>,
    width: u32,
    height: u32,
    scene: SceneView,
)
    requires
        c.current_valid(),
    ensures
        c.create(name, width, height).current_valid(),
        c.remove(name).current_valid(),
        c.set_current(name).0.current_valid(),
        c.scenes.contains_key(name) ==> c.replace(name, scene).current_valid(),
{
}

/// Creating a scene makes an empty scene of that name findable; removing it
/// makes the name unknown; making a scene current succeeds exactly for known names.
pub proof fn lemma_collection_create_remove(c: SceneCollectionView, name: Seq<char>, width: u32, height: u32)
    ensures
        c.create(name, width, height).scenes.contains_key(name),
        c.create(name, width, height).scenes[name].items.len() == 0,
        c.create(name, width, height).scenes[name].name == name,
        !c.remove(name).scenes.contains_key(name),
        c.create(name, width, height).set_current(name).1,
        !c.remove(name).set_current(name).1,
{
}

} // verus!
