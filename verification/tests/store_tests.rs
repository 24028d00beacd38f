use robs::profile_store::{Profile, ProfileStore};
use robs::types::ProfileId;

#[test]
fn created_profiles_are_listed_in_creation_order() {
    let mut store = ProfileStore::new();
    assert_eq!(store.len(), 0);
    let a = store.create_with_id(ProfileId(7), "Gaming".to_string());
    let b = store.create_with_id(ProfileId(3), "Podcast".to_string());
    assert_eq!(a, ProfileId(7));
    assert_eq!(b, ProfileId(3));
    let list = store.list();
    assert_eq!(list.len(), 2);
    assert_eq!(list[0].0, ProfileId(7));
    assert_eq!(list[0].1, "Gaming");
    assert_eq!(list[1].0, ProfileId(3));
    assert_eq!(list[1].1, "Podcast");
    assert!(store.contains(ProfileId(3)));
    assert!(!store.contains(ProfileId(4)));
}

#[test]
fn random_ids_differ_between_profiles() {
    let mut store = ProfileStore::new();
    let a = store.create("One".to_string());
    let b = store.create("Two".to_string());
    assert_ne!(a, b);
    assert_eq!(store.len(), 2);
    assert_eq!(store.get(a).unwrap().name, "One");
}

#[test]
fn set_current_refuses_unknown_profile() {
    let mut store = ProfileStore::new();
    let id = store.create_with_id(ProfileId(1), "Main".to_string());
    assert!(store.current().is_none());
    assert_eq!(store.set_current(ProfileId(2)), Err("Profile not found".to_string()));
    assert_eq!(store.current_id(), None);
    assert_eq!(store.set_current(id), Ok(()));
    assert_eq!(store.current_id(), Some(id));
    assert_eq!(store.current().unwrap().name, "Main");
}

#[test]
fn duplicate_copies_settings_under_new_name() {
    let mut store = ProfileStore::new();
    let id = store.create_with_id(ProfileId(1), "Main".to_string());
    store.get_mut(id).unwrap().video_config.fps_num = 60;
    let copy = store.duplicate_with_id(id, ProfileId(9), "Main copy".to_string()).unwrap();
    assert_eq!(copy, ProfileId(9));
    let p = store.get(copy).unwrap();
    assert_eq!(p.name, "Main copy");
    assert_eq!(p.id, ProfileId(9));
    assert_eq!(p.video_config.fps_num, 60);
    assert_eq!(store.get(id).unwrap().name, "Main");
    assert_eq!(
        store.duplicate(ProfileId(5), "x".to_string()),
        Err("Profile not found".to_string())
    );
}

#[test]
fn delete_keeps_current_choice() {
    let mut store = ProfileStore::new();
    let id = store.create_with_id(ProfileId(1), "Main".to_string());
    store.set_current(id).unwrap();
    let removed = store.delete(id).unwrap();
    assert_eq!(removed.name, "Main");
    assert!(store.delete(id).is_none());
    assert_eq!(store.current_id(), Some(id));
    assert!(store.current().is_none());
    assert!(store.current_mut().is_none());
}

#[test]
fn new_profile_has_default_settings() {
    let p = Profile::new(ProfileId(1), "P".to_string());
    assert_eq!(p.video_config.width, 1280);
    assert_eq!(p.audio_config.tracks.len(), 1);
    assert_eq!(p.audio_config.tracks[0].name, "Track 1");
    assert!(p.sources.is_empty());
    let d = Profile::default();
    assert_eq!(d.name, "Untitled");
}
