use robs::registry::{Registry, SceneCollection};
use robs::scene::Scene;
use robs::scene_item::{Alignment, BoundsType, Crop, Position, Scale, F32_ONE_BITS};
use robs::types::{IdAllocator, ObjectId, SceneId, SceneItemId, SourceId};

fn scene_with_three() -> (Scene, SceneItemId, SceneItemId, SceneItemId) {
    let mut s = Scene::new(SceneId(ObjectId(1)), "Main".to_string());
    let a = s.add_source(SourceId(ObjectId(10)), "A".to_string());
    let b = s.add_source(SourceId(ObjectId(11)), "B".to_string());
    let c = s.add_source(SourceId(ObjectId(12)), "C".to_string());
    (s, a, b, c)
}

fn order(s: &Scene) -> Vec<SceneItemId> {
    s.items().iter().map(|i| i.id()).collect()
}

#[test]
fn new_scene_defaults() {
    let s = Scene::new(SceneId(ObjectId(3)), "Intro".to_string());
    assert_eq!(s.name(), "Intro");
    assert_eq!(s.output_size(), (1920, 1080));
    assert_eq!(s.background_color(), [0, 0, 0, 255]);
    assert_eq!(s.item_count(), 0);
    let r = Scene::with_resolution(SceneId(ObjectId(4)), "Small".to_string(), 1280, 720);
    assert_eq!(r.output_size(), (1280, 720));
}

#[test]
fn add_source_gives_fresh_ids_on_top() {
    let (s, a, b, c) = scene_with_three();
    assert_eq!(a, SceneItemId(ObjectId(1)));
    assert_eq!(b, SceneItemId(ObjectId(2)));
    assert_eq!(c, SceneItemId(ObjectId(3)));
    assert_eq!(order(&s), vec![a, b, c]);
    assert_eq!(s.item(b).unwrap().source_name(), "B");
    assert_eq!(s.item_index(c), Some(2));
}

#[test]
fn remove_item_then_absent() {
    let (mut s, a, b, c) = scene_with_three();
    assert!(s.remove_item(b));
    assert_eq!(order(&s), vec![a, c]);
    assert!(s.item(b).is_none());
    assert!(!s.remove_item(b));
    assert_eq!(s.item_count(), 2);
}

#[test]
fn move_up_and_down_round_trip() {
    let (mut s, a, b, c) = scene_with_three();
    assert!(s.move_item_up(a));
    assert_eq!(order(&s), vec![b, a, c]);
    assert!(s.move_item_down(a));
    assert_eq!(order(&s), vec![a, b, c]);
    assert!(!s.move_item_down(a));
    assert!(!s.move_item_up(c));
    assert_eq!(order(&s), vec![a, b, c]);
}

#[test]
fn move_to_top_and_bottom() {
    let (mut s, a, b, c) = scene_with_three();
    assert!(s.move_item_to_top(a));
    assert_eq!(order(&s), vec![b, c, a]);
    assert!(s.move_item_to_bottom(c));
    assert_eq!(order(&s), vec![c, b, a]);
    assert!(!s.move_item_to_top(SceneItemId(ObjectId(99))));
}

#[test]
fn reorder_item_moves_to_index() {
    let (mut s, a, b, c) = scene_with_three();
    assert!(s.reorder_item(c, 0));
    assert_eq!(order(&s), vec![c, a, b]);
    assert!(!s.reorder_item(SceneItemId(ObjectId(42)), 0));
}

#[test]
fn locked_item_keeps_transform() {
    let (mut s, a, _b, _c) = scene_with_three();
    assert!(s.set_item_locked(a, true));
    assert!(s.set_item_position(a, Position::new(0x4120_0000, 0x4120_0000)));
    assert_eq!(s.item(a).unwrap().position(), Position::zero());
    assert!(s.set_item_locked(a, false));
    assert!(s.set_item_position(a, Position::new(0x4120_0000, 0)));
    assert_eq!(s.item(a).unwrap().position(), Position::new(0x4120_0000, 0));
}

#[test]
fn item_setters_report_missing_items() {
    let (mut s, a, _b, _c) = scene_with_three();
    let missing = SceneItemId(ObjectId(77));
    assert!(!s.set_item_visible(missing, false));
    assert!(!s.set_item_scale(missing, Scale::one()));
    assert!(s.set_item_scale(a, Scale::uniform(F32_ONE_BITS)));
    assert!(s.set_item_crop(a, Crop::new(1, 2, 3, 4)));
    assert_eq!(s.item(a).unwrap().crop(), Crop::new(1, 2, 3, 4));
    assert!(s.set_item_alignment(a, Alignment::Center));
    assert_eq!(s.item(a).unwrap().alignment(), Alignment::Center);
    assert!(s.set_item_bounds(a, BoundsType::Scale, 640, 360, Alignment::TopLeft));
    assert_eq!(s.item(a).unwrap().bounds(), (640, 360));
}

#[test]
fn visible_items_top_down_skip_hidden() {
    let (mut s, a, b, c) = scene_with_three();
    assert!(s.set_item_visible(b, false));
    let ids: Vec<SceneItemId> = s.visible_items().iter().map(|i| i.id()).collect();
    assert_eq!(ids, vec![c, a]);
}

#[test]
fn render_order_is_bottom_up_and_visible_only() {
    let (mut s, a, b, c) = scene_with_three();
    assert_eq!(s.render_order(), vec![a, b, c]);
    assert!(s.set_item_visible(b, false));
    assert_eq!(s.render_order(), vec![a, c]);
    assert!(s.move_item_to_top(a));
    assert_eq!(s.render_order(), vec![c, a]);
}

#[test]
fn crop_dimensions_saturate() {
    let c = Crop::new(10, 20, 30, 40);
    assert_eq!(c.cropped_width(100), 60);
    assert_eq!(c.cropped_height(100), 40);
    assert_eq!(c.cropped_width(30), 0);
    assert_eq!(Crop::none(), Crop::new(0, 0, 0, 0));
}

#[test]
fn scene_collection_create_and_current() {
    let mut col = SceneCollection::new();
    assert_eq!(col.count(), 0);
    assert!(col.current_scene().is_none());
    col.create_scene("One".to_string());
    col.create_scene_with_resolution("Two".to_string(), 1280, 720);
    assert_eq!(col.count(), 2);
    assert!(col.scene_exists("One"));
    assert_eq!(col.get("Two").unwrap().output_size(), (1280, 720));
    assert!(!col.set_current_scene("Three"));
    assert!(col.current_scene_name().is_none());
    assert!(col.set_current_scene("Two"));
    assert_eq!(col.current_scene_name(), Some("Two"));
    assert_eq!(col.current_scene().unwrap().name(), "Two");
}

#[test]
fn removing_current_scene_clears_current() {
    let mut col = SceneCollection::new();
    col.create_scene("One".to_string());
    assert!(col.set_current_scene("One"));
    assert!(col.remove("One"));
    assert!(col.current_scene().is_none());
    assert!(!col.scene_exists("One"));
    assert!(!col.remove("One"));
}

#[test]
fn scene_ids_differ() {
    let mut col = SceneCollection::new();
    let first = col.create_scene("A".to_string()).unwrap().id();
    let second = col.create_scene("B".to_string()).unwrap().id();
    assert_ne!(first, second);
}

#[test]
fn registry_read_after_write() {
    let mut r: Registry<u32> = Registry::new();
    r.register("x264", 1);
    r.register("aac", 2);
    assert_eq!(*r.get("x264").unwrap(), 1);
    assert_eq!(r.count(), 2);
    r.register("x264", 3);
    assert_eq!(*r.get("x264").unwrap(), 3);
    assert_eq!(r.count(), 2);
    r.unregister("x264");
    assert!(r.get("x264").is_none());
    assert_eq!(r.list(), vec!["aac"]);
}

#[test]
fn id_allocator_counts_up() {
    let mut ids = IdAllocator::new();
    assert_eq!(ids.allocate(), ObjectId(1));
    assert_eq!(ids.allocate(), ObjectId(2));
}

#[test]
fn item_mut_changes_the_item_in_place() {
    let mut s = Scene::new(SceneId(ObjectId(1)), "S".to_string());
    let a = s.add_source(SourceId(ObjectId(5)), "A".to_string());
    let b = s.add_source(SourceId(ObjectId(6)), "B".to_string());
    s.item_mut(b).unwrap().set_visible(false);
    assert!(!s.item(b).unwrap().is_visible());
    assert!(s.item(a).unwrap().is_visible());
    assert!(s.item_mut(SceneItemId(ObjectId(99))).is_none());
    assert_eq!(s.item_count(), 2);
}
