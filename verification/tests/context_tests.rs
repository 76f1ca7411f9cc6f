use render_core::atlas::{AtlasTextureKind, GlAtlas};
use render_core::context::{
    validate_window_handles, CreateRendererError, GlContext, ImpellerContext, NativeHandleKind,
};
use render_core::session_lock::SessionLockOptions;

#[test]
fn contexts_construct_cleanly() {
    assert!(GlContext::new().is_ok());
    assert!(ImpellerContext::new().is_ok());
}

#[test]
fn create_renderer_starts_fresh() {
    let context = ImpellerContext::new().unwrap();
    let renderer = context.create_renderer((640, 480));
    assert!(!renderer.has_preserved_frame);
    assert!(!renderer.destroyed);
    assert!(!renderer.transparent);
    assert_eq!(renderer.drawable_size.width, 640);
    assert_eq!(renderer.drawable_size.height, 480);
}

#[test]
fn wayland_handles_are_accepted() {
    assert_eq!(
        validate_window_handles(
            Some(NativeHandleKind::Wayland),
            Some(NativeHandleKind::Wayland)
        ),
        Ok(())
    );
}

#[test]
fn incompatible_handles_fail_cleanly() {
    assert_eq!(
        validate_window_handles(None, Some(NativeHandleKind::Wayland)),
        Err(CreateRendererError::NoDisplayHandle)
    );
    assert_eq!(
        validate_window_handles(Some(NativeHandleKind::X11), Some(NativeHandleKind::Wayland)),
        Err(CreateRendererError::UnsupportedDisplayHandle)
    );
    assert_eq!(
        validate_window_handles(Some(NativeHandleKind::Wayland), None),
        Err(CreateRendererError::NoWindowHandle)
    );
    assert_eq!(
        validate_window_handles(Some(NativeHandleKind::Wayland), Some(NativeHandleKind::Other)),
        Err(CreateRendererError::ExpectedWaylandWindow)
    );
}

#[test]
fn gl_atlas_shares_the_one_atlas_contract() {
    let mut atlas = GlAtlas::new();
    let key_a = render_core::atlas::AtlasKey { id: 5, kind: AtlasTextureKind::Monochrome };
    let key_b = render_core::atlas::AtlasKey { id: 6, kind: AtlasTextureKind::Monochrome };
    let builds = std::cell::Cell::new(0u32);
    let build = |c: &std::cell::Cell<u32>| {
        c.set(c.get() + 1);
        Ok(Some((render_core::geometry::Size { width: 1, height: 1 }, vec![255])))
    };

    // A miss runs the builder; distinct keys resolve to distinct tiles.
    let tile_a = atlas.get_or_insert_with(&key_a, || build(&builds)).unwrap().unwrap();
    let tile_b = atlas.get_or_insert_with(&key_b, || build(&builds)).unwrap().unwrap();
    assert_eq!(builds.get(), 2);
    assert_ne!(tile_a.tile_id, tile_b.tile_id);
    assert_ne!(tile_a.texture_id, tile_b.texture_id);

    // A hit returns the cached tile without running the builder.
    let again = atlas
        .get_or_insert_with(&key_a, || panic!("a hit never runs the builder"))
        .unwrap()
        .unwrap();
    assert_eq!(again, tile_a);

    // Removal forces a rebuild with fresh ids.
    atlas.remove(&key_a);
    let rebuilt = atlas.get_or_insert_with(&key_a, || build(&builds)).unwrap().unwrap();
    assert_eq!(builds.get(), 3);
    assert_ne!(rebuilt.tile_id, tile_a.tile_id);

    // No rendering context is bound, so no upload payload exists.
    assert!(atlas.cache.get_texture(tile_b.texture_id).is_none());
}

#[test]
fn session_lock_options_default_to_no_namespace() {
    let options = SessionLockOptions::new();
    assert!(options.namespace.is_none());
    let named = SessionLockOptions { namespace: Some("lock".to_string()) };
    assert_ne!(options, named);
}
