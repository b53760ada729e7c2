use jester::{TextureId, TextureMeta, TextureRegistry};

#[test]
fn texture_id_depends_on_path_only() {
    let a = TextureId::from_path("assets/samurai.png");
    let b = TextureId::from_path("assets/samurai.png");
    let c = TextureId::from_path("assets/aseprite.png");
    assert_eq!(a, b);
    assert_ne!(a, c);
    assert_ne!(a.0, 0);
}

#[test]
fn registry_maps_ids_to_slots_and_sizes() {
    let mut r = TextureRegistry::new();
    let a = TextureId(11);
    let b = TextureId(22);
    assert_eq!(r.slot_of(a), None);
    assert_eq!(r.texture_meta(a), None);
    r.record(a, 0, 64, 32);
    r.record(b, 3, 16, 16);
    assert_eq!(r.slot_of(a), Some(0));
    assert_eq!(r.slot_of(b), Some(3));
    assert_eq!(r.texture_meta(a), Some(TextureMeta { w: 64, h: 32 }));
    assert_eq!(r.texture_meta(b), Some(TextureMeta { w: 16, h: 16 }));
    assert_eq!(r.texture_meta(TextureId(33)), None);
}

#[test]
fn reloading_an_id_moves_it() {
    let mut r = TextureRegistry::new();
    let a = TextureId(5);
    r.record(a, 1, 8, 8);
    r.record(a, 2, 4, 4);
    assert_eq!(r.slot_of(a), Some(2));
    assert_eq!(r.texture_meta(a), Some(TextureMeta { w: 4, h: 4 }));
}
