use vstd::prelude::*;

use crate::scene_item::{
    Alignment, BoundsType, Crop, Position, Scale, SceneItem, SceneItemView,
};
use crate::types::{ObjectId, SceneId, SceneItemId, SourceId};

verus! {

/// The views of a sequence of items.
pub open spec fn item_views(items: Seq<SceneItem>) -> Seq<SceneItemView> {
    items.map_values(|i: SceneItem| i@)
}

/// Whether some item carries `id`.
pub open spec fn has_item(items: Seq<SceneItemView>, id: SceneItemId) -> bool {
    exists|i: int| 0 <= i < items.len() && #[trigger] items[i].id == id
}

/// `i` is the first position of an item carrying `id`.
pub open spec fn is_first_index(items: Seq<SceneItemView>, id: SceneItemId, i: int) -> bool {
    &&& 0 <= i < items.len()
    &&& items[i].id == id
    &&& forall|j: int| 0 <= j < i ==> #[trigger] items[j].id != id
}

/// The first position of an item carrying `id` (meaningful when `has_item`).
pub open spec fn index_of(items: Seq<SceneItemView>, id: SceneItemId) -> int {
    choose|i: int| is_first_index(items, id, i)
}

/// No two items carry the same identity.
pub open spec fn ids_distinct(items: Seq<SceneItemView>) -> bool {
    forall|i: int, j: int|
        0 <= i < items.len() && 0 <= j < items.len() && i != j ==> #[trigger] items[i].id
            != #[trigger] items[j].id
}

/// Every item's identity was handed out before `next`.
pub open spec fn ids_below(items: Seq<SceneItemView>, next: u64) -> bool {
    forall|i: int| 0 <= i < items.len() ==> (#[trigger] items[i].id).0.0 < next
}

/// Items whose `visible` flag is set, topmost first (the reverse of z-order).
pub open spec fn visible_top_down(items: Seq<SceneItemView>) -> Seq<SceneItemView>
    decreases items.len(),
{
    if items.len() == 0 {
        Seq::empty()
    } else if items[0].visible {
        visible_top_down(items.drop_first()).push(items[0])
    } else {
        visible_top_down(items.drop_first())
    }
}

/// Identities of the visible items in the order they are drawn: bottom
/// first (z-order).
pub open spec fn render_order_of(items: Seq<SceneItemView>) -> Seq<SceneItemId> {
    items.filter(|i: SceneItemView| i.visible).map_values(|i: SceneItemView| i.id)
}

/// Exchange the elements at `i` and `j`.
pub open spec fn swapped<A>(s: Seq<A>, i: int, j: int) -> Seq<A> {
    s.update(i, s[j]).update(j, s[i])
}

/// The mathematical value of a scene.
pub struct SceneView {
    pub id: SceneId,
    pub name: Seq<char>,
    /// Z-ordered: index 0 is rendered first (bottom).
    pub items: Seq<SceneItemView>,
    pub output_width: u32,
    pub output_height: u32,
    pub background_color: [u8; 4],
    /// Identity the next added item receives.
    pub next_item_id: u64,
}

impl SceneView {
    pub open spec fn with_items(self, items: Seq<SceneItemView>) -> SceneView {
        SceneView { items, ..self }
    }

    /// An empty scene of the given size on a black, opaque background.
    pub open spec fn empty(id: SceneId, name: Seq<char>, width: u32, height: u32) -> SceneView {
        SceneView {
            id,
            name,
            items: Seq::empty(),
            output_width: width,
            output_height: height,
            background_color: [0u8, 0u8, 0u8, 255u8],
            next_item_id: 1,
        }
    }

    /// Item identities are distinct and all below the next one handed out.
    pub open spec fn wf(self) -> bool {
        ids_distinct(self.items) && ids_below(self.items, self.next_item_id)
    }
}

impl SceneView {
    /// Position of `id` (meaningful when the scene has such an item).
    pub open spec fn pos(self, id: SceneItemId) -> int {
        index_of(self.items, id)
    }

    /// Adds a fresh item on top under the next identity, which the counter hands
    /// out (wrapping around after `u64::MAX`).
    pub open spec fn add(self, source_id: SourceId, source_name: Seq<char>) -> (SceneView, SceneItemId) {
        let id = SceneItemId(ObjectId(self.next_item_id));
        (
            SceneView {
                items: self.items.push(SceneItemView::fresh(id, source_id, source_name)),
                next_item_id: if self.next_item_id == u64::MAX {
                    0
                } else {
                    (self.next_item_id + 1) as u64
                },
                ..self
            },
            id,
        )
    }

    /// Removes the first item carrying `id`; false when none does.
    pub open spec fn remove(self, id: SceneItemId) -> (SceneView, bool) {
        if has_item(self.items, id) {
            (self.with_items(self.items.remove(self.pos(id))), true)
        } else {
            (self, false)
        }
    }

    /// Replaces the first item carrying `id` by `new_item`; false when none does.
    pub open spec fn update_item(self, id: SceneItemId, new_item: SceneItemView) -> (SceneView, bool) {
        if has_item(self.items, id) {
            (self.with_items(self.items.update(self.pos(id), new_item)), true)
        } else {
            (self, false)
        }
    }

    /// Moves the item to z-position `min(new_index, len - 1)`, keeping the
    /// order of the others; a no-op when it already stands at `new_index`.
    pub open spec fn reorder(self, id: SceneItemId, new_index: int) -> (SceneView, bool) {
        if has_item(self.items, id) {
            let i = self.pos(id);
            if i == new_index {
                (self, true)
            } else {
                let rest = self.items.remove(i);
                let target = if new_index < rest.len() { new_index } else { rest.len() as int };
                (self.with_items(rest.insert(target, self.items[i])), true)
            }
        } else {
            (self, false)
        }
    }

    /// Exchanges the item with the one above it; false at the top.
    pub open spec fn move_up(self, id: SceneItemId) -> (SceneView, bool) {
        if has_item(self.items, id) && self.pos(id) < self.items.len() - 1 {
            let i = self.pos(id);
            (self.with_items(swapped(self.items, i, i + 1)), true)
        } else {
            (self, false)
        }
    }

    /// Exchanges the item with the one below it; false at the bottom.
    pub open spec fn move_down(self, id: SceneItemId) -> (SceneView, bool) {
        if has_item(self.items, id) && self.pos(id) > 0 {
            let i = self.pos(id);
            (self.with_items(swapped(self.items, i, i - 1)), true)
        } else {
            (self, false)
        }
    }

    /// Moves the item to the top (rendered last); false when it is there already.
    pub open spec fn move_to_top(self, id: SceneItemId) -> (SceneView, bool) {
        if has_item(self.items, id) && self.pos(id) < self.items.len() - 1 {
            let i = self.pos(id);
            (self.with_items(self.items.remove(i).push(self.items[i])), true)
        } else {
            (self, false)
        }
    }

    /// Moves the item to the bottom (rendered first); false when it is there already.
    pub open spec fn move_to_bottom(self, id: SceneItemId) -> (SceneView, bool) {
        if has_item(self.items, id) && self.pos(id) > 0 {
            let i = self.pos(id);
            (self.with_items(self.items.remove(i).insert(0, self.items[i])), true)
        } else {
            (self, false)
        }
    }
}

/// A scene: sources arranged as z-ordered items with transforms.
/// Item identities are handed out by the scene itself, counting up from 1.
#[derive(Debug)]
pub struct Scene {
    id: SceneId,
    name: String,
    items: Vec<SceneItem>,
    output_width: u32,
    output_height: u32,
    background_color: [u8; 4],
    next_item_id: u64,
}

impl View for Scene {
    type V = SceneView;

    closed spec fn view(&self) -> SceneView {
        SceneView {
            id: self.id,
            name: self.name@,
            items: item_views(self.items@),
            output_width: self.output_width,
            output_height: self.output_height,
            background_color: self.background_color,
            next_item_id: self.next_item_id,
        }
    }
}

/// Replacing an item replaces its view.
proof fn lemma_item_views_update(s: Seq<SceneItem>, i: int, x: SceneItem)
    requires
        0 <= i < s.len(),
    ensures
        item_views(s.update(i, x)) == item_views(s).update(i, x@),
{
    assert(item_views(s.update(i, x)) =~= item_views(s).update(i, x@));
}

/// Two first positions of the same identity coincide.
pub proof fn lemma_first_index_unique(items: Seq<SceneItemView>, id: SceneItemId, i: int, j: int)
    requires
        is_first_index(items, id, i),
        is_first_index(items, id, j),
    ensures
        i == j,
{
    if i < j {
        assert(items[i].id != id);
    } else if j < i {
        assert(items[j].id != id);
    }
}

/// A first position found by search is the one `index_of` names.
pub proof fn lemma_index_of(items: Seq<SceneItemView>, id: SceneItemId, i: int)
    requires
        is_first_index(items, id, i),
    ensures
        index_of(items, id) == i,
        has_item(items, id),
{
    let k = index_of(items, id);
    assert(is_first_index(items, id, k));
    lemma_first_index_unique(items, id, i, k);
}

proof fn lemma_first_below(items: Seq<SceneItemView>, id: SceneItemId, k: int)
    requires
        0 <= k < items.len(),
        items[k].id == id,
    ensures
        is_first_index(items, id, index_of(items, id)),
    decreases k,
{
    if forall|j: int| 0 <= j < k ==> #[trigger] items[j].id != id {
        lemma_index_of(items, id, k);
    } else {
        let j = choose|j: int| 0 <= j < k && #[trigger] items[j].id == id;
        lemma_first_below(items, id, j);
    }
}

/// When some item carries `id`, `index_of` names its first position.
pub proof fn lemma_has_item_first(items: Seq<SceneItemView>, id: SceneItemId)
    requires
        has_item(items, id),
    ensures
        is_first_index(items, id, index_of(items, id)),
{
    let k = choose|k: int| 0 <= k < items.len() && #[trigger] items[k].id == id;
    lemma_first_below(items, id, k);
}

/// With distinct identities, any position of `id` is its first position.
pub proof fn lemma_distinct_index(items: Seq<SceneItemView>, id: SceneItemId, i: int)
    requires
        ids_distinct(items),
        0 <= i < items.len(),
        items[i].id == id,
    ensures
        index_of(items, id) == i,
{
    assert forall|j: int| 0 <= j < i implies #[trigger] items[j].id != id by {
        assert(items[j].id != items[i].id);
    }
    lemma_index_of(items, id, i);
}

impl Clone for Scene {
    fn clone(&self) -> (r: Self)
        ensures
            r@ == self@,
    {
        let mut items: Vec<SceneItem> = Vec::new();
        let mut i: usize = 0;
        while i < self.items.len()
            invariant
                i <= self.items.len(),
                items@.len() == i,
                item_views(items@) == item_views(self.items@).subrange(0, i as int),
            decreases self.items.len() - i,
        {
            let c = self.items[i].clone();
            let ghost before = items@;
            items.push(c);
            proof {
                assert(items@ == before.push(c));
                assert forall|k: int| 0 <= k < i + 1 implies #[trigger] item_views(items@)[k]
                    == item_views(self.items@)[k] by {
                    if k < i {
                        assert(items@[k] == before[k]);
                        assert(item_views(before)[k] == item_views(self.items@).subrange(0, i as int)[k]);
                    }
                }
            }
            i = i + 1;
            assert(item_views(items@) =~= item_views(self.items@).subrange(0, i as int));
        }
        assert(item_views(items@) =~= item_views(self.items@));
        Scene {
            id: self.id,
            name: self.name.clone(),
            items,
            output_width: self.output_width,
            output_height: self.output_height,
            background_color: self.background_color,
            next_item_id: self.next_item_id,
        }
    }
}

impl Scene {
    /// An empty 1920x1080 scene on a black background.
    pub fn new(id: SceneId, name: String) -> (r: Scene)
        ensures
            r@ == SceneView::empty(id, name@, 1920, 1080),
            r@.wf(),
    {
        let r = Scene {
            id,
            name,
            items: Vec::new(),
            output_width: 1920,
            output_height: 1080,
            background_color: [0, 0, 0, 255],
            next_item_id: 1,
        };
        assert(item_views(r.items@) =~= Seq::empty());
        r
    }

    /// An empty scene of the given output size on a black background.
    pub fn with_resolution(id: SceneId, name: String, width: u32, height: u32) -> (r: Scene)
        ensures
            r@ == SceneView::empty(id, name@, width, height),
            r@.wf(),
    {
        let r = Scene {
            id,
            name,
            items: Vec::new(),
            output_width: width,
            output_height: height,
            background_color: [0, 0, 0, 255],
            next_item_id: 1,
        };
        assert(item_views(r.items@) =~= Seq::empty());
        r
    }

    pub fn id(&self) -> (r: SceneId)
        ensures
            r == self@.id,
    {
        self.id
    }

    pub fn name(&self) -> (r: &str)
        ensures
            r@ == self@.name,
    {
        self.name.as_str()
    }

    /// The items in z-order (index 0 at the bottom).
    pub fn items(&self) -> (r: &[SceneItem])
        ensures
            item_views(r@) == self@.items,
    {
        self.items.as_slice()
    }

    pub fn output_size(&self) -> (r: (u32, u32))
        ensures
            r == (self@.output_width, self@.output_height),
    {
        (self.output_width, self.output_height)
    }

    pub fn background_color(&self) -> (r: [u8; 4])
        ensures
            r == self@.background_color,
    {
        self.background_color
    }

    /// Position of the first item carrying `item_id`.
    pub fn item_index(&self, item_id: SceneItemId) -> (r: Option<usize>)
        ensures
            r is Some <==> has_item(self@.items, item_id),
            r matches Some(i) ==> i == index_of(self@.items, item_id) && is_first_index(
                self@.items,
                item_id,
                i as int,
            ),
    {
        let mut i: usize = 0;
        while i < self.items.len()
            invariant
                i <= self.items.len(),
                self@.items.len() == self.items@.len(),
                forall|j: int| 0 <= j < i ==> #[trigger] self@.items[j].id != item_id,
            decreases self.items.len() - i,
        {
            if self.items[i].id() == item_id {
                proof {
                    lemma_index_of(self@.items, item_id, i as int);
                }
                return Some(i);
            }
            i = i + 1;
        }
        None
    }

    /// The first item carrying `item_id`.
    pub fn item(&self, item_id: SceneItemId) -> (r: Option<&SceneItem>)
        ensures
            r is Some <==> has_item(self@.items, item_id),
            r matches Some(it) ==> it@ == self@.items[index_of(self@.items, item_id)],
    {
        match self.item_index(item_id) {
            Some(i) => Some(&self.items[i]),
            None => None,
        }
    }

    /// The first item carrying `item_id`, to change in place.
    pub fn item_mut(&mut self, item_id: SceneItemId) -> (r: Option<&mut SceneItem>)
        ensures
            r is Some <==> has_item(old(self)@.items, item_id),
            r matches Some(it) ==> it@ == old(self)@.items[old(self)@.pos(item_id)]
                && final(self)@ == old(self)@.with_items(
                old(self)@.items.update(old(self)@.pos(item_id), final(it)@),
            ),
            r is None ==> final(self)@ == old(self)@,
    {
        match self.item_index(item_id) {
            Some(i) => {
                let r = &mut self.items[i];
                proof {
                    lemma_item_views_update(old(self).items@, i as int, *final(r));
                }
                Some(r)
            },
            None => None,
        }
    }

    /// Visible items, topmost first.
    pub fn visible_items(&self) -> (r: Vec<&SceneItem>)
        ensures
            r@.len() == visible_top_down(self@.items).len(),
            forall|k: int| 0 <= k < r@.len() ==> (#[trigger] r@[k])@ == visible_top_down(self@.items)[k],
    {
        let ghost items = self@.items;
        let mut r: Vec<&SceneItem> = Vec::new();
        let mut i: usize = self.items.len();
        while i > 0
            invariant
                i <= self.items.len(),
                items == self@.items,
                items.len() == self.items@.len(),
                r@.len() == visible_top_down(items.subrange(i as int, items.len() as int)).len(),
                forall|k: int|
                    0 <= k < r@.len() ==> (#[trigger] r@[k])@ == visible_top_down(
                        items.subrange(i as int, items.len() as int),
                    )[k],
            decreases i,
        {
            let ghost tail = items.subrange(i as int, items.len() as int);
            i = i - 1;
            let ghost longer = items.subrange(i as int, items.len() as int);
            assert(longer.drop_first() =~= tail);
            assert(longer[0] == items[i as int]);
            if self.items[i].is_visible() {
                r.push(&self.items[i]);
            }
        }
        assert(items.subrange(0, items.len() as int) =~= items);
        r
    }

    /// Identities of the visible items in drawing order, bottom first.
    pub fn render_order(&self) -> (r: Vec<SceneItemId>)
        ensures
            r@ == render_order_of(self@.items),
    {
        let ghost items = self@.items;
        let mut r: Vec<SceneItemId> = Vec::new();
        let n = self.items.len();
        let mut i: usize = 0;
        while i < n
            invariant
                n == self.items@.len(),
                items == self@.items,
                items.len() == n,
                i <= n,
                r@ == render_order_of(items.subrange(0, i as int)),
            decreases n - i,
        {
            proof {
                assert(items.subrange(0, i + 1).drop_last() =~= items.subrange(0, i as int));
                assert(items.subrange(0, i + 1).last() == items[i as int]);
                reveal(Seq::filter);
            }
            assert(self.items@[i as int]@ == items[i as int]);
            if self.items[i].is_visible() {
                r.push(self.items[i].id());
            }
            proof {
                let f = items.subrange(0, i as int).filter(|it: SceneItemView| it.visible);
                let g = items.subrange(0, i + 1).filter(|it: SceneItemView| it.visible);
                if items[i as int].visible {
                    assert(g =~= f.push(items[i as int]));
                } else {
                    assert(g =~= f);
                }
                assert(r@ =~= render_order_of(items.subrange(0, i + 1)));
            }
            i = i + 1;
        }
        assert(items.subrange(0, n as int) =~= items);
        r
    }

    pub fn set_name(&mut self, name: String)
        ensures
            final(self)@ == (SceneView { name: name@, ..old(self)@ }),
    {
        self.name = name;
    }

    pub fn set_output_resolution(&mut self, width: u32, height: u32)
        ensures
            final(self)@ == (SceneView { output_width: width, output_height: height, ..old(self)@ }),
    {
        self.output_width = width;
        self.output_height = height;
    }

    pub fn set_background_color(&mut self, color: [u8; 4])
        ensures
            final(self)@ == (SceneView { background_color: color, ..old(self)@ }),
    {
        self.background_color = color;
    }

    /// Adds a fresh item for the source on top of the scene and returns its
    /// identity, the scene's next one (the counter wraps around after `u64::MAX`).
    pub fn add_source(&mut self, source_id: SourceId, source_name: String) -> (r: SceneItemId)
        ensures
            (final(self)@, r) == old(self)@.add(source_id, source_name@),
    {
        let id = SceneItemId(ObjectId(self.next_item_id));
        let item = SceneItem::new(id, source_id, source_name);
        self.items.push(item);
        self.next_item_id = self.next_item_id.wrapping_add(1);
        proof {
            assert(item_views(self.items@) =~= item_views(old(self).items@).push(item@));
        }
        id
    }

    /// Removes the first item carrying `item_id`; false when there is none.
    pub fn remove_item(&mut self, item_id: SceneItemId) -> (r: bool)
        ensures
            (final(self)@, r) == old(self)@.remove(item_id),
    {
        match self.item_index(item_id) {
            Some(pos) => {
                self.items.remove(pos);
                proof {
                    assert(item_views(self.items@) =~= item_views(old(self).items@).remove(
                        pos as int,
                    ));
                }
                true
            },
            None => false,
        }
    }

    fn put_item(&mut self, i: usize, item: SceneItem)
        requires
            i < old(self)@.items.len(),
        ensures
            final(self)@ == old(self)@.with_items(old(self)@.items.update(i as int, item@)),
    {
        let ghost iv = item@;
        self.items[i] = item;
        proof {
            assert(item_views(self.items@) =~= item_views(old(self).items@).update(i as int, iv));
        }
    }

    pub fn set_item_position(&mut self, item_id: SceneItemId, position: Position) -> (r: bool)
        ensures
            (final(self)@, r) == old(self)@.update_item(
                item_id,
                old(self)@.items[old(self)@.pos(item_id)].with_position(position),
            ),
    {
        match self.item_index(item_id) {
            Some(i) => {
                let mut item = self.items[i].clone();
                item.set_position(position);
                self.put_item(i, item);
                true
            },
            None => false,
        }
    }

    pub fn set_item_scale(&mut self, item_id: SceneItemId, scale: Scale) -> (r: bool)
        ensures
            (final(self)@, r) == old(self)@.update_item(
                item_id,
                old(self)@.items[old(self)@.pos(item_id)].with_scale(scale),
            ),
    {
        match self.item_index(item_id) {
            Some(i) => {
                let mut item = self.items[i].clone();
                item.set_scale(scale);
                self.put_item(i, item);
                true
            },
            None => false,
        }
    }

    /// Sets the rotation (degrees, as an `f32` bit pattern).
    pub fn set_item_rotation(&mut self, item_id: SceneItemId, rotation: u32) -> (r: bool)
        ensures
            (final(self)@, r) == old(self)@.update_item(
                item_id,
                old(self)@.items[old(self)@.pos(item_id)].with_rotation(rotation),
            ),
    {
        match self.item_index(item_id) {
            Some(i) => {
                let mut item = self.items[i].clone();
                item.set_rotation(rotation);
                self.put_item(i, item);
                true
            },
            None => false,
        }
    }

    pub fn set_item_crop(&mut self, item_id: SceneItemId, crop: Crop) -> (r: bool)
        ensures
            (final(self)@, r) == old(self)@.update_item(
                item_id,
                old(self)@.items[old(self)@.pos(item_id)].with_crop(crop),
            ),
    {
        match self.item_index(item_id) {
            Some(i) => {
                let mut item = self.items[i].clone();
                item.set_crop(crop);
                self.put_item(i, item);
                true
            },
            None => false,
        }
    }

    pub fn set_item_visible(&mut self, item_id: SceneItemId, visible: bool) -> (r: bool)
        ensures
            (final(self)@, r) == old(self)@.update_item(
                item_id,
                old(self)@.items[old(self)@.pos(item_id)].with_visible(visible),
            ),
    {
        match self.item_index(item_id) {
            Some(i) => {
                let mut item = self.items[i].clone();
                item.set_visible(visible);
                self.put_item(i, item);
                true
            },
            None => false,
        }
    }

    pub fn set_item_locked(&mut self, item_id: SceneItemId, locked: bool) -> (r: bool)
        ensures
            (final(self)@, r) == old(self)@.update_item(
                item_id,
                old(self)@.items[old(self)@.pos(item_id)].with_locked(locked),
            ),
    {
        match self.item_index(item_id) {
            Some(i) => {
                let mut item = self.items[i].clone();
                item.set_locked(locked);
                self.put_item(i, item);
                true
            },
            None => false,
        }
    }

    pub fn set_item_alignment(&mut self, item_id: SceneItemId, alignment: Alignment) -> (r: bool)
        ensures
            (final(self)@, r) == old(self)@.update_item(
                item_id,
                old(self)@.items[old(self)@.pos(item_id)].with_alignment(alignment),
            ),
    {
        match self.item_index(item_id) {
            Some(i) => {
                let mut item = self.items[i].clone();
                item.set_alignment(alignment);
                self.put_item(i, item);
                true
            },
            None => false,
        }
    }

    /// Sets the bounds (width and height as `f32` bit patterns).
    pub fn set_item_bounds(
        &mut self,
        item_id: SceneItemId,
        bounds_type: BoundsType,
        width: u32,
        height: u32,
        alignment: Alignment,
    ) -> (r: bool)
        ensures
            (final(self)@, r) == old(self)@.update_item(
                item_id,
                old(self)@.items[old(self)@.pos(item_id)].with_bounds(bounds_type, width, height, alignment),
            ),
    {
        match self.item_index(item_id) {
            Some(i) => {
                let mut item = self.items[i].clone();
                item.set_bounds(bounds_type, width, height, alignment);
                self.put_item(i, item);
                true
            },
            None => false,
        }
    }

    /// Moves the item to z-position `new_index` (clamped to the top).
    pub fn reorder_item(&mut self, item_id: SceneItemId, new_index: usize) -> (r: bool)
        ensures
            (final(self)@, r) == old(self)@.reorder(item_id, new_index as int),
    {
        if let Some(current_index) = self.item_index(item_id) {
            if current_index == new_index {
                return true;
            }
            let item = self.items.remove(current_index);
            let target_index = if new_index < self.items.len() {
                new_index
            } else {
                self.items.len()
            };
            self.items.insert(target_index, item);
            proof {
                let ov = item_views(old(self).items@);
                assert(item_views(self.items@) =~= ov.remove(current_index as int).insert(
                    target_index as int,
                    ov[current_index as int],
                ));
            }
            true
        } else {
            false
        }
    }

    /// Moves the item one step up in z-order.
    pub fn move_item_up(&mut self, item_id: SceneItemId) -> (r: bool)
        ensures
            (final(self)@, r) == old(self)@.move_up(item_id),
    {
        if let Some(idx) = self.item_index(item_id) {
            if idx < self.items.len() - 1 {
                let item = self.items.remove(idx);
                self.items.insert(idx + 1, item);
                proof {
                    let ov = item_views(old(self).items@);
                    assert(item_views(self.items@) =~= swapped(ov, idx as int, idx + 1));
                }
                true
            } else {
                false
            }
        } else {
            false
        }
    }

    /// Moves the item one step down in z-order.
    pub fn move_item_down(&mut self, item_id: SceneItemId) -> (r: bool)
        ensures
            (final(self)@, r) == old(self)@.move_down(item_id),
    {
        if let Some(idx) = self.item_index(item_id) {
            if idx > 0 {
                let item = self.items.remove(idx);
                self.items.insert(idx - 1, item);
                proof {
                    let ov = item_views(old(self).items@);
                    assert(item_views(self.items@) =~= ov.remove(idx as int).insert(
                        idx - 1,
                        ov[idx as int],
                    ));
                    assert(ov.remove(idx as int).insert(idx - 1, ov[idx as int]) =~= swapped(
                        ov,
                        idx as int,
                        idx - 1,
                    ));
                }
                true
            } else {
                false
            }
        } else {
            false
        }
    }

    /// Moves the item to the top (rendered last).
    pub fn move_item_to_top(&mut self, item_id: SceneItemId) -> (r: bool)
        ensures
            (final(self)@, r) == old(self)@.move_to_top(item_id),
    {
        if let Some(idx) = self.item_index(item_id) {
            if idx < self.items.len() - 1 {
                let item = self.items.remove(idx);
                self.items.push(item);
                proof {
                    let ov = item_views(old(self).items@);
                    assert(item_views(self.items@) =~= ov.remove(idx as int).push(ov[idx as int]));
                }
                true
            } else {
                false
            }
        } else {
            false
        }
    }

    /// Moves the item to the bottom (rendered first).
    pub fn move_item_to_bottom(&mut self, item_id: SceneItemId) -> (r: bool)
        ensures
            (final(self)@, r) == old(self)@.move_to_bottom(item_id),
    {
        if let Some(idx) = self.item_index(item_id) {
            if idx > 0 {
                let item = self.items.remove(idx);
                self.items.insert(0, item);
                proof {
                    let ov = item_views(old(self).items@);
                    assert(item_views(self.items@) =~= ov.remove(idx as int).insert(0, ov[idx as int]));
                }
                true
            } else {
                false
            }
        } else {
            false
        }
    }

    pub fn item_count(&self) -> (r: usize)
        ensures
            r == self@.items.len(),
    {
        self.items.len()
    }
}

proof fn lemma_remove_keeps_wf(items: Seq<SceneItemView>, next: u64, i: int)
    requires
        ids_distinct(items),
        ids_below(items, next),
        0 <= i < items.len(),
    ensures
        ids_distinct(items.remove(i)),
        ids_below(items.remove(i), next),
        forall|k: int| 0 <= k < items.remove(i).len() ==> #[trigger] items.remove(i)[k].id != items[i].id,
{
    let r = items.remove(i);
    assert forall|a: int, b: int|
        0 <= a < r.len() && 0 <= b < r.len() && a != b implies #[trigger] r[a].id != #[trigger] r[b].id by {
        let ia = if a < i { a } else { a + 1 };
        let ib = if b < i { b } else { b + 1 };
        assert(r[a] == items[ia]);
        assert(r[b] == items[ib]);
    }
    assert forall|k: int| 0 <= k < r.len() implies (#[trigger] r[k].id).0.0 < next by {
        let ik = if k < i { k } else { k + 1 };
        assert(r[k] == items[ik]);
    }
    assert forall|k: int| 0 <= k < r.len() implies #[trigger] r[k].id != items[i].id by {
        let ik = if k < i { k } else { k + 1 };
        assert(r[k] == items[ik]);
    }
}

proof fn lemma_insert_keeps_wf(items: Seq<SceneItemView>, next: u64, t: int, x: SceneItemView)
    requires
        ids_distinct(items),
        ids_below(items, next),
        0 <= t <= items.len(),
        x.id.0.0 < next,
        forall|k: int| 0 <= k < items.len() ==> #[trigger] items[k].id != x.id,
    ensures
        ids_distinct(items.insert(t, x)),
        ids_below(items.insert(t, x), next),
{
    let r = items.insert(t, x);
    assert forall|a: int, b: int|
        0 <= a < r.len() && 0 <= b < r.len() && a != b implies #[trigger] r[a].id != #[trigger] r[b].id by {
        if a != t && b != t {
            let ia = if a < t { a } else { a - 1 };
            let ib = if b < t { b } else { b - 1 };
            assert(r[a] == items[ia]);
            assert(r[b] == items[ib]);
        } else if a == t {
            let ib = if b < t { b } else { b - 1 };
            assert(r[b] == items[ib]);
        } else {
            let ia = if a < t { a } else { a - 1 };
            assert(r[a] == items[ia]);
        }
    }
    assert forall|k: int| 0 <= k < r.len() implies (#[trigger] r[k].id).0.0 < next by {
        if k != t {
            let ik = if k < t { k } else { k - 1 };
            assert(r[k] == items[ik]);
        }
    }
}

proof fn lemma_swap_keeps_wf(items: Seq<SceneItemView>, next: u64, i: int, j: int)
    requires
        ids_distinct(items),
        ids_below(items, next),
        0 <= i < items.len(),
        0 <= j < items.len(),
    ensures
        ids_distinct(swapped(items, i, j)),
        ids_below(swapped(items, i, j), next),
{
    let r = swapped(items, i, j);
    assert forall|a: int, b: int|
        0 <= a < r.len() && 0 <= b < r.len() && a != b implies #[trigger] r[a].id != #[trigger] r[b].id by {
        let ia = if a == i { j } else if a == j { i } else { a };
        let ib = if b == i { j } else if b == j { i } else { b };
        assert(r[a] == items[ia]);
        assert(r[b] == items[ib]);
    }
    assert forall|k: int| 0 <= k < r.len() implies (#[trigger] r[k].id).0.0 < next by {
        let ik = if k == i { j } else if k == j { i } else { k };
        assert(r[k] == items[ik]);
    }
}

/// Item identities stay distinct (and below the counter) under every scene
/// operation: adding a source while the counter has not wrapped around,
/// removing, changing an item's transform or state, and every z-order move.
pub proof fn lemma_scene_ops_keep_wf(
    s: SceneView,
    id: SceneItemId,
    new_index: int,
    source_id: SourceId,
    source_name: Seq<char>,
    new_item: SceneItemView,
)
    requires
        s.wf(),
        new_index >= 0,
        has_item(s.items, id) ==> new_item.id == s.items[s.pos(id)].id,
    ensures
        s.next_item_id < u64::MAX ==> s.add(source_id, source_name).0.wf(),
        s.remove(id).0.wf(),
        s.update_item(id, new_item).0.wf(),
        s.reorder(id, new_index).0.wf(),
        s.move_up(id).0.wf(),
        s.move_down(id).0.wf(),
        s.move_to_top(id).0.wf(),
        s.move_to_bottom(id).0.wf(),
{
    let items = s.items;
    let next = s.next_item_id;
    if next < u64::MAX {
        let fresh = SceneItemView::fresh(SceneItemId(ObjectId(next)), source_id, source_name);
        assert forall|k: int| 0 <= k < items.len() implies #[trigger] items[k].id != fresh.id by {
            assert(items[k].id.0.0 < next);
        }
        lemma_insert_keeps_wf(items, (next + 1) as u64, items.len() as int, fresh);
        assert(items.insert(items.len() as int, fresh) =~= items.push(fresh));
    }
    if has_item(items, id) {
        let i = s.pos(id);
        lemma_has_item_first(items, id);
        lemma_remove_keeps_wf(items, next, i);
        // update: the identity at i is unchanged
        let u = items.update(i, new_item);
        assert forall|a: int, b: int|
            0 <= a < u.len() && 0 <= b < u.len() && a != b implies #[trigger] u[a].id != #[trigger] u[b].id by {
            assert(u[a].id == items[a].id);
            assert(u[b].id == items[b].id);
        }
        assert forall|k: int| 0 <= k < u.len() implies (#[trigger] u[k].id).0.0 < next by {
            assert(u[k].id == items[k].id);
        }
        // reorder, to top, to bottom: remove then insert
        let rest = items.remove(i);
        let target = if new_index < rest.len() { new_index } else { rest.len() as int };
        lemma_insert_keeps_wf(rest, next, target, items[i]);
        lemma_insert_keeps_wf(rest, next, 0, items[i]);
        lemma_insert_keeps_wf(rest, next, rest.len() as int, items[i]);
        assert(rest.insert(rest.len() as int, items[i]) =~= rest.push(items[i]));
        if i < items.len() - 1 {
            lemma_swap_keeps_wf(items, next, i, i + 1);
        }
        if i > 0 {
            lemma_swap_keeps_wf(items, next, i, i - 1);
        }
    }
}

/// Z-order moves only rearrange the items: the multiset of items is unchanged.
pub proof fn lemma_zorder_moves_permute(s: SceneView, id: SceneItemId, new_index: int)
    requires
        new_index >= 0,
    ensures
        s.reorder(id, new_index).0.items.to_multiset() == s.items.to_multiset(),
        s.move_up(id).0.items.to_multiset() == s.items.to_multiset(),
        s.move_down(id).0.items.to_multiset() == s.items.to_multiset(),
        s.move_to_top(id).0.items.to_multiset() == s.items.to_multiset(),
        s.move_to_bottom(id).0.items.to_multiset() == s.items.to_multiset(),
{
    broadcast use vstd::seq_lib::to_multiset_remove, vstd::seq_lib::to_multiset_insert, vstd::seq_lib::to_multiset_update, vstd::seq_lib::to_multiset_build, vstd::multiset::group_multiset_axioms;

    let items = s.items;
    if has_item(items, id) {
        let i = s.pos(id);
        lemma_has_item_first(items, id);
        let m = items.to_multiset();
        let rest = items.remove(i);
        assert(rest.to_multiset() == m.remove(items[i]));
        assert(m.count(items[i]) > 0) by {
            assert(items.contains(items[i]));
            vstd::seq_lib::to_multiset_contains(items, items[i]);
        }
        assert(m.remove(items[i]).insert(items[i]) =~= m);
        let target = if new_index < rest.len() { new_index } else { rest.len() as int };
        assert(rest.insert(target, items[i]).to_multiset() == m);
        assert(rest.insert(0, items[i]).to_multiset() == m);
        assert(rest.push(items[i]).to_multiset() == m);
        if i < items.len() - 1 {
            let a = items.update(i, items[i + 1]);
            assert(a.to_multiset() == m.insert(items[i + 1]).remove(items[i]));
            assert(a[i + 1] == items[i + 1]);
            assert(a.update(i + 1, items[i]).to_multiset() == a.to_multiset().insert(items[i]).remove(items[i + 1]));
            assert(m.insert(items[i + 1]).remove(items[i]).insert(items[i]).remove(items[i + 1]) =~= m);
        }
        if i > 0 {
            let a = items.update(i, items[i - 1]);
            assert(a.to_multiset() == m.insert(items[i - 1]).remove(items[i]));
            assert(a[i - 1] == items[i - 1]);
            assert(a.update(i - 1, items[i]).to_multiset() == a.to_multiset().insert(items[i]).remove(items[i - 1]));
            assert(m.insert(items[i - 1]).remove(items[i]).insert(items[i]).remove(items[i - 1]) =~= m);
        }
    }
}

/// Reordering puts the item where it was asked to go: when the scene holds
/// `id`, the call succeeds, the item carrying `id` then stands at
/// `min(new_index, len - 1)`, the number of items is unchanged, and the other
/// items keep their relative order (taking the item out of the new order
/// gives what taking it out of the old order gives). Without `id` the scene
/// is unchanged and the call fails.
pub proof fn lemma_reorder_places_item(s: SceneView, id: SceneItemId, new_index: int)
    requires
        new_index >= 0,
    ensures
        has_item(s.items, id) ==> {
            let (t, ok) = s.reorder(id, new_index);
            let k = if new_index < s.items.len() { new_index } else { s.items.len() - 1 };
            &&& ok
            &&& t.items.len() == s.items.len()
            &&& t.items[k] == s.items[s.pos(id)]
            &&& t.items[k].id == id
            &&& t.items.remove(k) == s.items.remove(s.pos(id))
            &&& t == s.with_items(t.items)
        },
        !has_item(s.items, id) ==> s.reorder(id, new_index) == (s, false),
{
    if has_item(s.items, id) {
        lemma_has_item_first(s.items, id);
        let i = s.pos(id);
        let items = s.items;
        let k = if new_index < items.len() { new_index } else { items.len() - 1 };
        if i == new_index {
            assert(k == i);
            assert(s.with_items(s.items) == s);
        } else {
            let rest = items.remove(i);
            let target = if new_index < rest.len() { new_index } else { rest.len() as int };
            assert(target == k);
            let t = rest.insert(target, items[i]);
            assert(t[target] == items[i]);
            assert(t.remove(target) =~= rest);
        }
    }
}

/// Moving an item up and then down (or down and then up) restores the scene.
pub proof fn lemma_move_up_down_round_trip(s: SceneView, id: SceneItemId)
    requires
        s.wf(),
    ensures
        s.move_up(id).1 ==> s.move_up(id).0.move_down(id) == (s, true),
        s.move_down(id).1 ==> s.move_down(id).0.move_up(id) == (s, true),
{
    let items = s.items;
    if has_item(items, id) {
        let i = s.pos(id);
        lemma_has_item_first(items, id);
        if i < items.len() - 1 {
            let t = swapped(items, i, i + 1);
            lemma_swap_keeps_wf(items, s.next_item_id, i, i + 1);
            assert(t[i + 1].id == id);
            lemma_distinct_index(t, id, i + 1);
            assert(swapped(t, i + 1, i) =~= items);
        }
        if i > 0 {
            let t = swapped(items, i, i - 1);
            lemma_swap_keeps_wf(items, s.next_item_id, i, i - 1);
            assert(t[i - 1].id == id);
            lemma_distinct_index(t, id, i - 1);
            assert(swapped(t, i - 1, i) =~= items);
        }
    }
}

/// Adding a source and looking its identity up finds the new item on top; while
/// the counter has not wrapped around the scene stays well formed.
pub proof fn lemma_add_then_find(s: SceneView, source_id: SourceId, source_name: Seq<char>)
    requires
        s.wf(),
        s.next_item_id < u64::MAX,
    ensures
        ({
            let (t, id) = s.add(source_id, source_name);
            &&& has_item(t.items, id)
            &&& t.pos(id) == s.items.len()
            &&& t.items[t.pos(id)] == SceneItemView::fresh(id, source_id, source_name)
            &&& t.items.len() == s.items.len() + 1
        }),
{
    let (t, id) = s.add(source_id, source_name);
    lemma_scene_ops_keep_wf(s, id, 0, source_id, source_name, SceneItemView::fresh(id, source_id, source_name));
    assert(t.items[s.items.len() as int].id == id);
    lemma_distinct_index(t.items, id, s.items.len() as int);
}

/// Removing an item of a well-formed scene leaves no item with its identity.
pub proof fn lemma_remove_then_absent(s: SceneView, id: SceneItemId)
    requires
        s.wf(),
    ensures
        !has_item(s.remove(id).0.items, id),
{
    if has_item(s.items, id) {
        let i = s.pos(id);
        lemma_has_item_first(s.items, id);
        lemma_remove_keeps_wf(s.items, s.next_item_id, i);
    }
}

/// A transform setter aimed at a locked item leaves the scene as it was.
pub proof fn lemma_locked_item_keeps_scene(
    s: SceneView,
    id: SceneItemId,
    p: Position,
    sc: Scale,
    rot: u32,
    a: Alignment,
    c: Crop,
    t: BoundsType,
    w: u32,
    h: u32,
    ba: Alignment,
)
    requires
        has_item(s.items, id),
        s.items[s.pos(id)].locked,
    ensures
        s.update_item(id, s.items[s.pos(id)].with_position(p)).0 == s,
        s.update_item(id, s.items[s.pos(id)].with_scale(sc)).0 == s,
        s.update_item(id, s.items[s.pos(id)].with_rotation(rot)).0 == s,
        s.update_item(id, s.items[s.pos(id)].with_alignment(a)).0 == s,
        s.update_item(id, s.items[s.pos(id)].with_crop(c)).0 == s,
        s.update_item(id, s.items[s.pos(id)].with_bounds(t, w, h, ba)).0 == s,
{
    let i = s.pos(id);
    lemma_has_item_first(s.items, id);
    assert(s.items.update(i, s.items[i]) =~= s.items);
}

} // verus!
