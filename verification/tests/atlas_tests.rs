use std::cell::Cell;

use render_core::atlas::{
    AtlasBuildError, AtlasKey, AtlasTextureKind, ImpellerAtlas,
};
use render_core::geometry::Size;

fn mono_key(id: u64) -> AtlasKey {
    AtlasKey { id, kind: AtlasTextureKind::Monochrome }
}

fn poly_key(id: u64) -> AtlasKey {
    AtlasKey { id, kind: AtlasTextureKind::Polychrome }
}

fn bound_atlas() -> ImpellerAtlas {
    let mut atlas = ImpellerAtlas::new();
    atlas.set_context();
    atlas
}

#[test]
fn miss_builds_and_hit_reuses() {
    let mut atlas = bound_atlas();
    let calls = Cell::new(0u32);
    let key = mono_key(7);

    let first = atlas
        .get_or_insert_with(&key, || {
            calls.set(calls.get() + 1);
            Ok(Some((Size { width: 2, height: 2 }, vec![1, 2, 3, 4])))
        })
        .unwrap()
        .unwrap();
    assert_eq!(calls.get(), 1);

    let second = atlas
        .get_or_insert_with(&key, || {
            calls.set(calls.get() + 1);
            Ok(Some((Size { width: 2, height: 2 }, vec![1, 2, 3, 4])))
        })
        .unwrap()
        .unwrap();
    assert_eq!(calls.get(), 1, "builder must not run on a hit");
    assert_eq!(first.texture_id, second.texture_id);
    assert_eq!(first.tile_id, second.tile_id);
    assert_eq!(atlas.texture_count(), 1);
    assert_eq!(atlas.tile_count(), 1);
}

#[test]
fn removal_forces_rebuild_and_spares_others() {
    let mut atlas = bound_atlas();
    let calls = Cell::new(0u32);
    let key_a = mono_key(1);
    let key_b = mono_key(2);

    let build = |c: &Cell<u32>| {
        c.set(c.get() + 1);
        Ok(Some((Size { width: 1, height: 1 }, vec![255])))
    };
    let tile_a = atlas.get_or_insert_with(&key_a, || build(&calls)).unwrap().unwrap();
    let tile_b = atlas.get_or_insert_with(&key_b, || build(&calls)).unwrap().unwrap();
    assert_eq!(calls.get(), 2);

    atlas.remove(&key_a);
    assert_eq!(atlas.tile_count(), 1);
    assert_eq!(atlas.texture_count(), 1);

    // The other key still resolves to its old tile with its texture intact.
    let tile_b_again = atlas.get_or_insert_with(&key_b, || build(&calls)).unwrap().unwrap();
    assert_eq!(calls.get(), 2);
    assert_eq!(tile_b_again.tile_id, tile_b.tile_id);
    assert!(atlas.get_texture(tile_b.texture_id).is_some());

    // The removed key misses and builds again, with fresh ids.
    let tile_a_new = atlas.get_or_insert_with(&key_a, || build(&calls)).unwrap().unwrap();
    assert_eq!(calls.get(), 3, "builder must run again after removal");
    assert_ne!(tile_a_new.tile_id, tile_a.tile_id);
    assert_ne!(tile_a_new.texture_id, tile_a.texture_id);
}

#[test]
fn fresh_atlas_has_id_headroom() {
    let mut atlas = bound_atlas();
    assert!(atlas.has_id_headroom());
    let _ = atlas.get_or_insert_with(&mono_key(1), || {
        Ok(Some((Size { width: 1, height: 1 }, vec![0])))
    });
    assert!(atlas.has_id_headroom());
}

#[test]
fn removing_unknown_key_is_noop() {
    let mut atlas = bound_atlas();
    atlas.remove(&mono_key(42));
    assert_eq!(atlas.tile_count(), 0);
    assert_eq!(atlas.texture_count(), 0);
}

#[test]
fn monochrome_size_mismatch_yields_no_texture() {
    let mut atlas = bound_atlas();
    let key = mono_key(3);
    // A 2x2 monochrome request wants 4 bytes; hand back w*h - 1.
    let tile = atlas
        .get_or_insert_with(&key, || {
            Ok(Some((Size { width: 2, height: 2 }, vec![9, 9, 9])))
        })
        .unwrap()
        .expect("a tile descriptor is still returned");
    assert!(atlas.get_texture(tile.texture_id).is_none());
    // The frame is not aborted: the key stays cached.
    assert_eq!(atlas.tile_count(), 1);
}

#[test]
fn polychrome_size_mismatch_yields_no_texture() {
    let mut atlas = bound_atlas();
    let key = poly_key(4);
    let tile = atlas
        .get_or_insert_with(&key, || {
            Ok(Some((Size { width: 2, height: 1 }, vec![0, 0, 0, 0])))
        })
        .unwrap()
        .unwrap();
    assert!(atlas.get_texture(tile.texture_id).is_none());
}

#[test]
fn nothing_to_draw_allocates_nothing() {
    let mut atlas = bound_atlas();
    let r = atlas.get_or_insert_with(&mono_key(5), || Ok(None)).unwrap();
    assert!(r.is_none());
    assert_eq!(atlas.tile_count(), 0);
    assert_eq!(atlas.texture_count(), 0);
}

#[test]
fn builder_error_propagates_and_changes_nothing() {
    let mut atlas = bound_atlas();
    let r = atlas.get_or_insert_with(&mono_key(6), || Err(AtlasBuildError));
    assert_eq!(r, Err(AtlasBuildError));
    assert_eq!(atlas.tile_count(), 0);
}

#[test]
fn monochrome_mask_expands_to_white_rgba() {
    let mut atlas = bound_atlas();
    let tile = atlas
        .get_or_insert_with(&mono_key(8), || {
            Ok(Some((Size { width: 2, height: 1 }, vec![7, 200])))
        })
        .unwrap()
        .unwrap();
    let content = atlas.get_texture(tile.texture_id).expect("texture built");
    assert_eq!(content.width, 2);
    assert_eq!(content.height, 1);
    assert_eq!(content.rgba, vec![255, 255, 255, 7, 255, 255, 255, 200]);
}

#[test]
fn polychrome_payload_is_premultiplied_and_swizzled() {
    let mut atlas = bound_atlas();
    let tile = atlas
        .get_or_insert_with(&poly_key(9), || {
            Ok(Some((Size { width: 1, height: 1 }, vec![100, 150, 200, 128])))
        })
        .unwrap()
        .unwrap();
    let content = atlas.get_texture(tile.texture_id).expect("texture built");
    // Input is BGRA; output is RGBA with color channels scaled by alpha.
    assert_eq!(
        content.rgba,
        vec![(200u32 * 128 / 255) as u8, (150u32 * 128 / 255) as u8, (100u32 * 128 / 255) as u8, 128]
    );
}

#[test]
fn unbound_context_builds_tile_without_texture() {
    let mut atlas = ImpellerAtlas::new();
    let tile = atlas
        .get_or_insert_with(&mono_key(10), || {
            Ok(Some((Size { width: 1, height: 1 }, vec![1])))
        })
        .unwrap()
        .unwrap();
    assert!(atlas.get_texture(tile.texture_id).is_none());
}

#[test]
fn tile_geometry_covers_produced_size() {
    let mut atlas = bound_atlas();
    let tile = atlas
        .get_or_insert_with(&mono_key(11), || {
            Ok(Some((Size { width: 3, height: 5 }, vec![0; 15])))
        })
        .unwrap()
        .unwrap();
    assert_eq!(tile.bounds.origin.x, 0);
    assert_eq!(tile.bounds.origin.y, 0);
    assert_eq!(tile.bounds.size, Size { width: 3, height: 5 });
    assert_eq!(tile.padding, 0);
    assert_eq!(tile.texture_id.kind, AtlasTextureKind::Monochrome);
}
