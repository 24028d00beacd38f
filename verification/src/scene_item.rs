use vstd::prelude::*;

use crate::types::{SceneItemId, SourceId};

verus! {

/// Anchor point for positioning and scaling.
#[derive(Clone, Copy, Debug, PartialEq, Eq, Structural)]
pub enum Alignment {
    TopLeft,
    TopCenter,
    TopRight,
    CenterLeft,
    Center,
    CenterRight,
    BottomLeft,
    BottomCenter,
    BottomRight,
}

impl Default for Alignment {
    fn default() -> (r: Alignment)
        ensures
            r == Alignment::TopLeft,
    {
        Alignment::TopLeft
    }
}

/// `len` less `a` then less `b`, each subtraction stopping at zero.
pub open spec fn spec_saturating_trim(len: u32, a: u32, b: u32) -> u32 {
    if len >= a + b {
        (len - a - b) as u32
    } else {
        0
    }
}

/// Crop values in source pixels, applied before scaling.
#[derive(Clone, Copy, Debug, PartialEq, Eq, Structural)]
pub struct Crop {
    pub left: u32,
    pub top: u32,
    pub right: u32,
    pub bottom: u32,
}

impl Default for Crop {
    fn default() -> (r: Crop)
        ensures
            r == (Crop { left: 0, top: 0, right: 0, bottom: 0 }),
    {
        Crop::none()
    }
}

impl Crop {
    pub fn new(left: u32, top: u32, right: u32, bottom: u32) -> (r: Crop)
        ensures
            r == (Crop { left, top, right, bottom }),
    {
        Crop { left, top, right, bottom }
    }

    /// The crop that removes nothing.
    pub fn none() -> (r: Crop)
        ensures
            r == (Crop { left: 0, top: 0, right: 0, bottom: 0 }),
    {
        Crop { left: 0, top: 0, right: 0, bottom: 0 }
    }

    /// Width that remains of a source `source_width` pixels wide.
    pub fn cropped_width(&self, source_width: u32) -> (r: u32)
        ensures
            r == spec_saturating_trim(source_width, self.left, self.right),
    {
        source_width.saturating_sub(self.left).saturating_sub(self.right)
    }

    /// Height that remains of a source `source_height` pixels high.
    pub fn cropped_height(&self, source_height: u32) -> (r: u32)
        ensures
            r == spec_saturating_trim(source_height, self.top, self.bottom),
    {
        source_height.saturating_sub(self.top).saturating_sub(self.bottom)
    }
}

/// Cropping never makes a source larger, and the empty crop keeps it whole.
pub proof fn lemma_crop_shrinks(c: Crop, len: u32)
    ensures
        spec_saturating_trim(len, c.left, c.right) <= len,
        spec_saturating_trim(len, 0, 0) == len,
{
}

/// How an item's size is constrained.
#[derive(Clone, Copy, Debug, PartialEq, Eq, Structural)]
pub enum BoundsType {
    NoBounds,
    Max,
    Scale,
    NoneKeepRatio,
    MaxKeepRatio,
}

impl Default for BoundsType {
    fn default() -> (r: BoundsType)
        ensures
            r == BoundsType::NoBounds,
    {
        BoundsType::NoBounds
    }
}

/// Position in output coordinates. Each coordinate is held as the IEEE 754 bit
/// pattern of an `f32` (`f32::to_bits`); the library stores and hands back
/// these values and never computes with them.
#[derive(Clone, Copy, Debug, PartialEq, Eq, Structural)]
pub struct Position {
    pub x: u32,
    pub y: u32,
}

/// Bit pattern of the `f32` value 0.0.
pub const F32_ZERO_BITS: u32 = 0u32;

/// Bit pattern of the `f32` value 1.0.
pub const F32_ONE_BITS: u32 = 0x3f80_0000u32;

impl Position {
    pub fn new(x: u32, y: u32) -> (r: Position)
        ensures
            r == (Position { x, y }),
    {
        Position { x, y }
    }

    /// The origin (0.0, 0.0).
    pub fn zero() -> (r: Position)
        ensures
            r == (Position { x: F32_ZERO_BITS, y: F32_ZERO_BITS }),
    {
        Position { x: F32_ZERO_BITS, y: F32_ZERO_BITS }
    }
}

impl Default for Position {
    fn default() -> (r: Position)
        ensures
            r == (Position { x: F32_ZERO_BITS, y: F32_ZERO_BITS }),
    {
        Position::zero()
    }
}

/// Scale factors (1.0 is the unscaled size), held as `f32` bit patterns like
/// `Position`.
#[derive(Clone, Copy, Debug, PartialEq, Eq, Structural)]
pub struct Scale {
    pub x: u32,
    pub y: u32,
}

impl Scale {
    pub fn new(x: u32, y: u32) -> (r: Scale)
        ensures
            r == (Scale { x, y }),
    {
        Scale { x, y }
    }

    /// The same factor on both axes.
    pub fn uniform(s: u32) -> (r: Scale)
        ensures
            r == (Scale { x: s, y: s }),
    {
        Scale { x: s, y: s }
    }

    /// Unscaled (1.0, 1.0).
    pub fn one() -> (r: Scale)
        ensures
            r == (Scale { x: F32_ONE_BITS, y: F32_ONE_BITS }),
    {
        Scale { x: F32_ONE_BITS, y: F32_ONE_BITS }
    }
}

impl Default for Scale {
    fn default() -> (r: Scale)
        ensures
            r == (Scale { x: F32_ZERO_BITS, y: F32_ZERO_BITS }),
    {
        Scale { x: F32_ZERO_BITS, y: F32_ZERO_BITS }
    }
}

/// The mathematical value of a scene item.
pub struct SceneItemView {
    pub id: SceneItemId,
    pub source_id: SourceId,
    pub source_name: Seq<char>,
    pub position: Position,
    pub scale: Scale,
    pub rotation: u32,
    pub alignment: Alignment,
    pub bounds_type: BoundsType,
    pub bounds_alignment: Alignment,
    pub bounds_width: u32,
    pub bounds_height: u32,
    pub crop: Crop,
    pub visible: bool,
    pub locked: bool,
}

impl SceneItemView {
    /// A fresh item: at the origin, unscaled, no rotation, aligned top-left,
    /// unbounded (bounds aligned to the centre), uncropped, visible and unlocked.
    pub open spec fn fresh(id: SceneItemId, source_id: SourceId, source_name: Seq<char>) -> SceneItemView {
        SceneItemView {
            id,
            source_id,
            source_name,
            position: Position { x: F32_ZERO_BITS, y: F32_ZERO_BITS },
            scale: Scale { x: F32_ONE_BITS, y: F32_ONE_BITS },
            rotation: F32_ZERO_BITS,
            alignment: Alignment::TopLeft,
            bounds_type: BoundsType::NoBounds,
            bounds_alignment: Alignment::Center,
            bounds_width: F32_ZERO_BITS,
            bounds_height: F32_ZERO_BITS,
            crop: Crop { left: 0, top: 0, right: 0, bottom: 0 },
            visible: true,
            locked: false,
        }
    }

    /// A locked item keeps its transform; an unlocked one takes the new value.
    pub open spec fn with_position(self, p: Position) -> SceneItemView {
        if self.locked { self } else { SceneItemView { position: p, ..self } }
    }

    pub open spec fn with_scale(self, s: Scale) -> SceneItemView {
        if self.locked { self } else { SceneItemView { scale: s, ..self } }
    }

    pub open spec fn with_rotation(self, r: u32) -> SceneItemView {
        if self.locked { self } else { SceneItemView { rotation: r, ..self } }
    }

    pub open spec fn with_alignment(self, a: Alignment) -> SceneItemView {
        if self.locked { self } else { SceneItemView { alignment: a, ..self } }
    }

    pub open spec fn with_crop(self, c: Crop) -> SceneItemView {
        if self.locked { self } else { SceneItemView { crop: c, ..self } }
    }

    pub open spec fn with_bounds(self, t: BoundsType, w: u32, h: u32, a: Alignment) -> SceneItemView {
        if self.locked {
            self
        } else {
            SceneItemView { bounds_type: t, bounds_width: w, bounds_height: h, bounds_alignment: a, ..self }
        }
    }

    /// Visibility and the lock change whether or not the item is locked.
    pub open spec fn with_visible(self, v: bool) -> SceneItemView {
        SceneItemView { visible: v, ..self }
    }

    pub open spec fn with_locked(self, l: bool) -> SceneItemView {
        SceneItemView { locked: l, ..self }
    }
}

/// One layer of a scene: a source with its transform, crop and state.
#[derive(Debug)]
pub struct SceneItem {
    id: SceneItemId,
    source_id: SourceId,
    source_name: String,
    position: Position,
    scale: Scale,
    rotation: u32,
    alignment: Alignment,
    bounds_type: BoundsType,
    bounds_alignment: Alignment,
    bounds_width: u32,
    bounds_height: u32,
    crop: Crop,
    visible: bool,
    locked: bool,
}

impl View for SceneItem {
    type V = SceneItemView;

    closed spec fn view(&self) -> SceneItemView {
        SceneItemView {
            id: self.id,
            source_id: self.source_id,
            source_name: self.source_name@,
            position: self.position,
            scale: self.scale,
            rotation: self.rotation,
            alignment: self.alignment,
            bounds_type: self.bounds_type,
            bounds_alignment: self.bounds_alignment,
            bounds_width: self.bounds_width,
            bounds_height: self.bounds_height,
            crop: self.crop,
            visible: self.visible,
            locked: self.locked,
        }
    }
}

impl Clone for SceneItem {
    fn clone(&self) -> (r: Self)
        ensures
            r@ == self@,
    {
        SceneItem {
            id: self.id,
            source_id: self.source_id,
            source_name: self.source_name.clone(),
            position: self.position,
            scale: self.scale,
            rotation: self.rotation,
            alignment: self.alignment,
            bounds_type: self.bounds_type,
            bounds_alignment: self.bounds_alignment,
            bounds_width: self.bounds_width,
            bounds_height: self.bounds_height,
            crop: self.crop,
            visible: self.visible,
            locked: self.locked,
        }
    }
}

impl SceneItem {
    /// A fresh item showing `source_id` under the identity `id`.
    pub fn new(id: SceneItemId, source_id: SourceId, source_name: String) -> (r: SceneItem)
        ensures
            r@ == SceneItemView::fresh(id, source_id, source_name@),
    {
        SceneItem {
            id,
            source_id,
            source_name,
            position: Position::zero(),
            scale: Scale::one(),
            rotation: F32_ZERO_BITS,
            alignment: Alignment::TopLeft,
            bounds_type: BoundsType::NoBounds,
            bounds_alignment: Alignment::Center,
            bounds_width: F32_ZERO_BITS,
            bounds_height: F32_ZERO_BITS,
            crop: Crop::none(),
            visible: true,
            locked: false,
        }
    }

    pub fn id(&self) -> (r: SceneItemId)
        ensures
            r == self@.id,
    {
        self.id
    }

    pub fn source_id(&self) -> (r: SourceId)
        ensures
            r == self@.source_id,
    {
        self.source_id
    }

    pub fn source_name(&self) -> (r: &str)
        ensures
            r@ == self@.source_name,
    {
        self.source_name.as_str()
    }

    pub fn position(&self) -> (r: Position)
        ensures
            r == self@.position,
    {
        self.position
    }

    pub fn scale(&self) -> (r: Scale)
        ensures
            r == self@.scale,
    {
        self.scale
    }

    /// Rotation in degrees, as the bit pattern of an `f32`.
    pub fn rotation(&self) -> (r: u32)
        ensures
            r == self@.rotation,
    {
        self.rotation
    }

    pub fn alignment(&self) -> (r: Alignment)
        ensures
            r == self@.alignment,
    {
        self.alignment
    }

    pub fn crop(&self) -> (r: Crop)
        ensures
            r == self@.crop,
    {
        self.crop
    }

    pub fn bounds_type(&self) -> (r: BoundsType)
        ensures
            r == self@.bounds_type,
    {
        self.bounds_type
    }

    pub fn bounds_alignment(&self) -> (r: Alignment)
        ensures
            r == self@.bounds_alignment,
    {
        self.bounds_alignment
    }

    /// Bounds width and height, as `f32` bit patterns.
    pub fn bounds(&self) -> (r: (u32, u32))
        ensures
            r == (self@.bounds_width, self@.bounds_height),
    {
        (self.bounds_width, self.bounds_height)
    }

    pub fn is_visible(&self) -> (r: bool)
        ensures
            r == self@.visible,
    {
        self.visible
    }

    pub fn is_locked(&self) -> (r: bool)
        ensures
            r == self@.locked,
    {
        self.locked
    }

    pub fn set_position(&mut self, position: Position)
        ensures
            final(self)@ == old(self)@.with_position(position),
    {
        if !self.locked {
            self.position = position;
        }
    }

    pub fn set_scale(&mut self, scale: Scale)
        ensures
            final(self)@ == old(self)@.with_scale(scale),
    {
        if !self.locked {
            self.scale = scale;
        }
    }

    pub fn set_rotation(&mut self, rotation: u32)
        ensures
            final(self)@ == old(self)@.with_rotation(rotation),
    {
        if !self.locked {
            self.rotation = rotation;
        }
    }

    pub fn set_alignment(&mut self, alignment: Alignment)
        ensures
            final(self)@ == old(self)@.with_alignment(alignment),
    {
        if !self.locked {
            self.alignment = alignment;
        }
    }

    pub fn set_crop(&mut self, crop: Crop)
        ensures
            final(self)@ == old(self)@.with_crop(crop),
    {
        if !self.locked {
            self.crop = crop;
        }
    }

    pub fn set_bounds(&mut self, bounds_type: BoundsType, width: u32, height: u32, alignment: Alignment)
        ensures
            final(self)@ == old(self)@.with_bounds(bounds_type, width, height, alignment),
    {
        if !self.locked {
            self.bounds_type = bounds_type;
            self.bounds_width = width;
            self.bounds_height = height;
            self.bounds_alignment = alignment;
        }
    }

    pub fn set_visible(&mut self, visible: bool)
        ensures
            final(self)@ == old(self)@.with_visible(visible),
    {
        self.visible = visible;
    }

    pub fn set_locked(&mut self, locked: bool)
        ensures
            final(self)@ == old(self)@.with_locked(locked),
    {
        self.locked = locked;
    }

    /// The source name, for display.
    pub fn name(&self) -> (r: &str)
        ensures
            r@ == self@.source_name,
    {
        self.source_name.as_str()
    }
}

/// While an item is locked no transform setter changes it.
pub proof fn lemma_locked_item_keeps_transform(
    item: SceneItemView,
    p: Position,
    s: Scale,
    rot: u32,
    a: Alignment,
    c: Crop,
    t: BoundsType,
    w: u32,
    h: u32,
    ba: Alignment,
)
    requires
        item.locked,
    ensures
        item.with_position(p) == item,
        item.with_scale(s) == item,
        item.with_rotation(rot) == item,
        item.with_alignment(a) == item,
        item.with_crop(c) == item,
        item.with_bounds(t, w, h, ba) == item,
{
}

} // verus!
