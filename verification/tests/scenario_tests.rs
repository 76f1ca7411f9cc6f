use std::cell::Cell;

use render_core::atlas::{AtlasKey, AtlasTextureKind, AtlasTile};
use render_core::color::Hsla;
use render_core::geometry::{Bounds, Size};
use render_core::renderer::ImpellerRenderer;
use render_core::scene::{MonochromeSprite, PrimitiveBatch, Scene, TransformationMatrix};

/// One paragraph of two hundred distinct glyphs, re-rendered for sixty
/// frames: after the first frame the atlas builds nothing further.
#[test]
fn glyph_cache_reuse_across_frames() {
    let mut renderer = ImpellerRenderer::new((800, 600));
    let builds = Cell::new(0u32);
    let glyph_count: u64 = 200;

    let mut frame_tiles: Vec<AtlasTile> = Vec::new();
    for frame in 0..60 {
        let mut tiles: Vec<AtlasTile> = Vec::new();
        for g in 0..glyph_count {
            let key = AtlasKey { id: g, kind: AtlasTextureKind::Monochrome };
            let tile = renderer
                .sprite_atlas
                .get_or_insert_with(&key, || {
                    builds.set(builds.get() + 1);
                    Ok(Some((Size { width: 4, height: 4 }, vec![128; 16])))
                })
                .unwrap()
                .unwrap();
            tiles.push(tile);
        }
        if frame == 0 {
            assert_eq!(builds.get(), glyph_count as u32);
            frame_tiles = tiles.clone();
        } else {
            assert_eq!(builds.get(), glyph_count as u32, "no rebuild after frame 1");
            assert_eq!(tiles, frame_tiles, "tiles stay identical across frames");
        }

        // Draw the paragraph as one monochrome batch per frame.
        let sprites: Vec<MonochromeSprite> = tiles
            .iter()
            .enumerate()
            .map(|(i, tile)| MonochromeSprite {
                bounds: Bounds::new((i as i32 % 40) * 10, (i as i32 / 40) * 12, 8, 10),
                color: Hsla::black(),
                tile: *tile,
                transformation: TransformationMatrix::identity(),
            })
            .collect();
        let scene = Scene {
            batches: vec![PrimitiveBatch::MonochromeSprites {
                texture_id: tiles[0].texture_id,
                sprites,
            }],
            changed_bounds: None,
        };
        renderer.draw(&scene);
    }
    assert_eq!(renderer.sprite_atlas.texture_count(), glyph_count as usize);
    assert_eq!(renderer.sprite_atlas.tile_count(), glyph_count as usize);
}
