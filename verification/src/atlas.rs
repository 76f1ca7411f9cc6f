//! The sprite atlas: a cache of small bitmaps keyed by content identity,
//! backed by per-tile texture records. Lookups build textures on demand from
//! raw pixel buffers handed in by the caller; removals release the backing
//! record once no key references it.
//!
//! The GPU upload itself happens outside this library: a texture is modelled
//! here by the exact RGBA payload that would be uploaded, so every byte of
//! the conversion pipeline is specified and checked.

use vstd::prelude::*;
use std::collections::HashMap;

use crate::geometry::{Bounds, Point, Size};

verus! {

broadcast use vstd::std_specs::hash::group_hash_axioms;

/// Whether a texture holds a one-byte-per-pixel alpha mask or a
/// four-byte-per-pixel color image.
#[derive(Clone, Copy, Debug, PartialEq, Eq, Structural)]
pub enum AtlasTextureKind {
    /// One byte per pixel: an alpha mask, tinted at draw time.
    Monochrome,
    /// Four bytes per pixel: premultiplied color.
    Polychrome,
}

/// Identifies one backing texture: an arena index plus its pixel kind.
#[derive(Clone, Copy, Debug, PartialEq, Eq, Structural)]
pub struct AtlasTextureId {
    pub index: u32,
    pub kind: AtlasTextureKind,
}

/// Identifies one tile placement within the atlas.
#[derive(Clone, Copy, Debug, PartialEq, Eq, Structural)]
pub struct TileId(pub u32);

/// A placement record: where a cached bitmap lives. Immutable once created.
#[derive(Clone, Copy, Debug, PartialEq, Eq, Structural)]
pub struct AtlasTile {
    pub texture_id: AtlasTextureId,
    pub tile_id: TileId,
    pub padding: u32,
    pub bounds: Bounds,
}

/// The identity of a cacheable bitmap. The numeric id uniquely determines
/// the pixel content; two equal ids must always resolve to identical pixels.
#[derive(Clone, Copy, Debug, PartialEq, Eq, Structural)]
pub struct AtlasKey {
    pub id: u64,
    pub kind: AtlasTextureKind,
}

impl AtlasKey {
    /// The texture kind this key's pixels are stored as.
    pub fn texture_kind(&self) -> (r: AtlasTextureKind)
        ensures
            r == self.kind,
    {
        self.kind
    }
}

/// The error a pixel-producer callback may signal; the lookup hands it back
/// to the caller unchanged.
#[derive(Clone, Copy, Debug, PartialEq, Eq, Structural)]
pub struct AtlasBuildError;

/// The exact RGBA payload a backing texture would be uploaded from.
pub struct TextureContent {
    pub width: u32,
    pub height: u32,
    pub rgba: Vec<u8>,
}

/// One backing texture record: its upload payload (absent when creation was
/// skipped or failed), its pixel size and its kind.
pub struct AtlasTexture {
    pub content: Option<TextureContent>,
    pub size: Size,
    pub kind: AtlasTextureKind,
}

/// The mathematical shape of a texture record: the payload as a byte
/// sequence.
pub struct AtlasTextureModel {
    pub content: Option<Seq<u8>>,
    pub size: Size,
    pub kind: AtlasTextureKind,
}

impl View for AtlasTexture {
    type V = AtlasTextureModel;

    open spec fn view(&self) -> AtlasTextureModel {
        AtlasTextureModel {
            content: match self.content {
                Some(c) => Some(c.rgba@),
                None => None,
            },
            size: self.size,
            kind: self.kind,
        }
    }
}

/// A channel scaled by an alpha byte: `c * a / 255`.
pub open spec fn spec_premul_channel(c: u8, a: u8) -> u8 {
    ((c as int) * (a as int) / 255) as u8
}

/// A one-byte alpha mask expanded to RGBA with white color channels, so the
/// mask can be tinted by a color-blend filter at draw time.
pub open spec fn mono_rgba_spec(mask: Seq<u8>) -> Seq<u8> {
    Seq::new(
        (mask.len() * 4) as nat,
        |j: int|
            if j % 4 == 3 {
                mask[j / 4]
            } else {
                255u8
            },
    )
}

/// A four-byte BGRA buffer converted to RGBA with each color channel
/// premultiplied by its pixel's alpha.
pub open spec fn premul_rgba_spec(bytes: Seq<u8>) -> Seq<u8> {
    Seq::new(
        bytes.len(),
        |j: int|
            {
                let p = 4 * (j / 4);
                let a = bytes[p + 3];
                if j % 4 == 0 {
                    spec_premul_channel(bytes[p + 2], a)
                } else if j % 4 == 1 {
                    spec_premul_channel(bytes[p + 1], a)
                } else if j % 4 == 2 {
                    spec_premul_channel(bytes[p], a)
                } else {
                    a
                }
            },
    )
}

/// Expand a monochrome alpha mask into the RGBA payload that would be
/// uploaded: white color channels, the mask as alpha.
pub fn expand_monochrome(mask: &Vec<u8>) -> (r: Vec<u8>)
    requires
        mask.len() * 4 <= usize::MAX,
    ensures
        r@ == mono_rgba_spec(mask@),
{
    let mut out: Vec<u8> = Vec::new();
    let mut i: usize = 0;
    while i < mask.len()
        invariant
            i <= mask.len(),
            mask.len() * 4 <= usize::MAX,
            out.len() == 4 * i,
            forall|j: int|
                0 <= j < out.len() ==> out[j] == #[trigger] mono_rgba_spec(mask@)[j],
        decreases mask.len() - i,
    {
        let m = mask[i];
        out.push(255);
        out.push(255);
        out.push(255);
        out.push(m);
        i += 1;
    }
    proof {
        assert(out@ =~= mono_rgba_spec(mask@));
    }
    out
}

/// Premultiply a BGRA buffer into the RGBA payload that would be uploaded.
pub fn premultiply_bgra(bytes: &Vec<u8>) -> (r: Vec<u8>)
    requires
        bytes.len() % 4 == 0,
    ensures
        r@ == premul_rgba_spec(bytes@),
{
    let mut out: Vec<u8> = Vec::new();
    let mut i: usize = 0;
    while i < bytes.len()
        invariant
            i % 4 == 0,
            i <= bytes.len(),
            bytes.len() % 4 == 0,
            out.len() == i,
            forall|j: int|
                0 <= j < out.len() ==> out[j] == #[trigger] premul_rgba_spec(bytes@)[j],
        decreases bytes.len() - i,
    {
        proof {
            assert((bytes.len() - i) % 4 == 0);
            assert(bytes.len() - i >= 4);
        }
        let a = bytes[i + 3];
        let c0 = premul_channel(bytes[i + 2], a);
        let c1 = premul_channel(bytes[i + 1], a);
        let c2 = premul_channel(bytes[i], a);
        proof {
            assert((i + 3) % 4 == 3 && (i + 2) % 4 == 2 && (i + 1) % 4 == 1 && i as int % 4 == 0);
            assert(4 * ((i as int) / 4) == i as int);
            assert(4 * ((i + 1) / 4) == i as int);
            assert(4 * ((i + 2) / 4) == i as int);
            assert(4 * ((i + 3) / 4) == i as int);
        }
        out.push(c0);
        out.push(c1);
        out.push(c2);
        out.push(a);
        i += 4;
    }
    proof {
        assert(out@ =~= premul_rgba_spec(bytes@));
    }
    out
}

/// No single atlas bitmap is larger than a GPU texture dimension limit; this
/// keeps every byte count within machine integers.
pub const TEXTURE_DIM_LIMIT: i32 = 16384;

/// Whether a pixel-producer's output is within machine limits: a produced
/// bitmap fits within the texture dimension limit, so byte counts fit a
/// `usize`.
pub open spec fn build_output_wf(o: Result<Option<(Size, Vec<u8>)>, AtlasBuildError>) -> bool {
    match o {
        Ok(Some((size, _bytes))) => 0 <= size.width <= TEXTURE_DIM_LIMIT && 0 <= size.height
            <= TEXTURE_DIM_LIMIT,
        _ => true,
    }
}

/// The sprite atlas: cache keys mapped to tile placements, tile placements
/// backed by texture records, and two monotonically increasing id counters.
/// Ids are arena style and never reused within one atlas.
pub struct ImpellerAtlas {
    tiles_by_key: HashMap<u64, AtlasTile>,
    textures: HashMap<u64, AtlasTexture>,
    next_texture_id: u32,
    next_tile_id: u32,
    context_bound: bool,
}

impl ImpellerAtlas {
    /// The key-to-tile mapping.
    pub closed spec fn tiles(&self) -> Map<u64, AtlasTile> {
        self.tiles_by_key@
    }

    /// The texture arena, by texture index.
    pub closed spec fn texture_models(&self) -> Map<u64, AtlasTextureModel> {
        self.textures@.map_values(|t: AtlasTexture| t@)
    }

    /// The next texture index to hand out.
    pub closed spec fn texture_counter(&self) -> u32 {
        self.next_texture_id
    }

    /// The next tile id to hand out.
    pub closed spec fn tile_counter(&self) -> u32 {
        self.next_tile_id
    }

    /// Whether a rendering context was attached; without one, lookups still
    /// cache tiles but no texture payload is built.
    pub closed spec fn context_is_bound(&self) -> bool {
        self.context_bound
    }

    /// A texture record is well formed when its size is in range and its
    /// payload, if present, holds exactly four bytes per pixel.
    pub open spec fn wf_texture(m: AtlasTextureModel) -> bool {
        &&& m.size.wf()
        &&& match m.content {
            Some(c) => c.len() == m.size.width * m.size.height * 4,
            None => true,
        }
    }

    /// The atlas invariant: every tile's texture id references a live arena
    /// entry of the matching kind and size, distinct keys never share a
    /// texture, ids already handed out stay below the counters, and every
    /// texture record is well formed.
    pub open spec fn inv(&self) -> bool {
        &&& forall|k: u64| #[trigger]
            self.tiles().contains_key(k) ==> {
                let t = self.tiles()[k];
                &&& self.texture_models().contains_key(t.texture_id.index as u64)
                &&& t.texture_id.index < self.texture_counter()
                &&& t.tile_id.0 < self.tile_counter()
                &&& self.texture_models()[t.texture_id.index as u64].kind == t.texture_id.kind
                &&& self.texture_models()[t.texture_id.index as u64].size == t.bounds.size
                &&& t.bounds.origin == (Point { x: 0, y: 0 })
            }
        &&& forall|k1: u64, k2: u64|
            #![trigger self.tiles()[k1], self.tiles()[k2]]
            self.tiles().contains_key(k1) && self.tiles().contains_key(k2) && k1 != k2
                ==> self.tiles()[k1].texture_id.index != self.tiles()[k2].texture_id.index
        &&& forall|i: u64| #[trigger]
            self.texture_models().contains_key(i) ==> (i as int) < self.texture_counter()
                && Self::wf_texture(self.texture_models()[i])
    }

    /// What a lookup of this key would find in the cache.
    pub open spec fn spec_lookup(&self, key: AtlasKey) -> Option<AtlasTile> {
        if self.tiles().contains_key(key.id) {
            Some(self.tiles()[key.id])
        } else {
            None
        }
    }

    /// The payload of the texture this id references, if one was built.
    pub open spec fn spec_texture(&self, id: AtlasTextureId) -> Option<Seq<u8>> {
        if self.texture_models().contains_key(id.index as u64) && self.texture_models()[id.index
            as u64].kind == id.kind {
            self.texture_models()[id.index as u64].content
        } else {
            None
        }
    }

    /// The tile a miss on this key would allocate: the next texture index
    /// and tile id, a zero origin and the produced size.
    pub open spec fn spec_new_tile(&self, key: AtlasKey, size: Size) -> AtlasTile {
        AtlasTile {
            texture_id: AtlasTextureId { index: self.texture_counter(), kind: key.kind },
            tile_id: TileId(self.tile_counter()),
            padding: 0,
            bounds: Bounds { origin: Point { x: 0, y: 0 }, size },
        }
    }

    /// The payload a miss would build: nothing without a bound context, and
    /// nothing on a byte-count mismatch (one byte per pixel for monochrome,
    /// four for polychrome); otherwise the converted upload payload.
    pub open spec fn spec_built_content(
        &self,
        kind: AtlasTextureKind,
        size: Size,
        bytes: Seq<u8>,
    ) -> Option<Seq<u8>> {
        if !self.context_is_bound() {
            None
        } else {
            match kind {
                AtlasTextureKind::Monochrome => if bytes.len() == size.width * size.height {
                    Some(mono_rgba_spec(bytes))
                } else {
                    None
                },
                AtlasTextureKind::Polychrome => if bytes.len() == size.width * size.height * 4 {
                    Some(premul_rgba_spec(bytes))
                } else {
                    None
                },
            }
        }
    }

    /// Both atlases hold the same abstract state.
    pub open spec fn spec_same(a: &ImpellerAtlas, b: &ImpellerAtlas) -> bool {
        &&& a.tiles() == b.tiles()
        &&& a.texture_models() == b.texture_models()
        &&& a.texture_counter() == b.texture_counter()
        &&& a.tile_counter() == b.tile_counter()
        &&& a.context_is_bound() == b.context_is_bound()
    }

    /// The state change of a successful miss: the key now maps to the fresh
    /// tile, the arena gained its record, both counters advanced.
    pub open spec fn spec_inserted(
        pre: &ImpellerAtlas,
        post: &ImpellerAtlas,
        key: AtlasKey,
        size: Size,
        bytes: Seq<u8>,
    ) -> bool {
        &&& post.tiles() == pre.tiles().insert(key.id, pre.spec_new_tile(key, size))
        &&& post.texture_models() == pre.texture_models().insert(
            pre.texture_counter() as u64,
            AtlasTextureModel {
                content: pre.spec_built_content(key.kind, size, bytes),
                size,
                kind: key.kind,
            },
        )
        &&& post.texture_counter() == pre.texture_counter() + 1
        &&& post.tile_counter() == pre.tile_counter() + 1
        &&& post.context_is_bound() == pre.context_is_bound()
    }

    /// The state change of a removal: the key's mapping is gone, and with it
    /// the backing texture of the tile it mapped to, if any.
    pub open spec fn spec_removed(pre: &ImpellerAtlas, post: &ImpellerAtlas, key: AtlasKey) -> bool {
        &&& post.tiles() == pre.tiles().remove(key.id)
        &&& (pre.tiles().contains_key(key.id) ==> post.texture_models() == pre.texture_models()
            .remove(pre.tiles()[key.id].texture_id.index as u64))
        &&& (!pre.tiles().contains_key(key.id) ==> post.texture_models() == pre.texture_models())
        &&& post.texture_counter() == pre.texture_counter()
        &&& post.tile_counter() == pre.tile_counter()
        &&& post.context_is_bound() == pre.context_is_bound()
    }

    /// An empty atlas with zeroed counters and no context.
    pub fn new() -> (r: ImpellerAtlas)
        ensures
            r.inv(),
            r.tiles() == Map::<u64, AtlasTile>::empty(),
            r.texture_models() == Map::<u64, AtlasTextureModel>::empty(),
            r.texture_counter() == 0,
            r.tile_counter() == 0,
            !r.context_is_bound(),
    {
        let r = ImpellerAtlas {
            tiles_by_key: HashMap::new(),
            textures: HashMap::new(),
            next_texture_id: 0,
            next_tile_id: 0,
            context_bound: false,
        };
        proof {
            assert(r.texture_models() =~= Map::<u64, AtlasTextureModel>::empty());
        }
        r
    }

    /// Attach the rendering context; from now on misses build payloads.
    pub fn set_context(&mut self)
        ensures
            final(self).context_is_bound(),
            final(self).tiles() == old(self).tiles(),
            final(self).texture_models() == old(self).texture_models(),
            final(self).texture_counter() == old(self).texture_counter(),
            final(self).tile_counter() == old(self).tile_counter(),
            old(self).inv() ==> final(self).inv(),
    {
        self.context_bound = true;
    }

    /// The upload payload backing this texture id, if the record is live and
    /// a payload was built.
    pub fn get_texture(&self, texture_id: AtlasTextureId) -> (r: Option<&TextureContent>)
        ensures
            match r {
                Some(c) => self.spec_texture(texture_id) == Some(c.rgba@),
                None => self.spec_texture(texture_id) is None,
            },
    {
        match self.textures.get(&(texture_id.index as u64)) {
            Some(t) => {
                if t.kind == texture_id.kind {
                    match &t.content {
                        Some(c) => Some(c),
                        None => None,
                    }
                } else {
                    None
                }
            },
            None => None,
        }
    }

    /// Look the key up; on a miss, run the caller's pixel producer and cache
    /// what it yields. On a hit the producer is never run and the cached
    /// tile is returned unchanged. A producer that signals "nothing to draw"
    /// caches nothing. A byte-count mismatch still caches a tile, but one
    /// backed by no built payload, which sprite planning treats as "draw
    /// nothing"; it never aborts the caller. The id counters must have
    /// headroom, which `has_id_headroom` reports. This is the one atlas
    /// contract, shared by every backend: see `atlas_lookup_ensures`.
    pub fn get_or_insert_with<F: FnOnce() -> Result<Option<(Size, Vec<u8>)>, AtlasBuildError>>(
        &mut self,
        key: &AtlasKey,
        build: F,
    ) -> (r: Result<Option<AtlasTile>, AtlasBuildError>)
        requires
            atlas_lookup_requires(old(self), build),
        ensures
            atlas_lookup_ensures(old(self), final(self), *key, build, r),
    {
        if let Some(t) = self.tiles_by_key.get(&key.id) {
            return Ok(Some(*t));
        }
        let built = build();
        let ghost witness = built;
        match built {
            Err(e) => Err(e),
            Ok(None) => Ok(None),
            Ok(Some((size, bytes))) => {
                proof {
                    assert(call_ensures(build, (), witness));
                    assert(build_output_wf(witness));
                }
                let kind = key.texture_kind();
                let width = size.width as usize;
                let height = size.height as usize;
                proof {
                    assert(0 <= width * height <= 0x10000000int) by (nonlinear_arith)
                        requires
                            0 <= width <= 16384,
                            0 <= height <= 16384,
                    ;
                }
                let content: Option<TextureContent> = if self.context_bound {
                    match kind {
                        AtlasTextureKind::Monochrome => {
                            if bytes.len() == width * height {
                                Some(
                                    TextureContent {
                                        width: size.width as u32,
                                        height: size.height as u32,
                                        rgba: expand_monochrome(&bytes),
                                    },
                                )
                            } else {
                                None
                            }
                        },
                        AtlasTextureKind::Polychrome => {
                            if bytes.len() == width * height * 4 {
                                Some(
                                    TextureContent {
                                        width: size.width as u32,
                                        height: size.height as u32,
                                        rgba: premultiply_bgra(&bytes),
                                    },
                                )
                            } else {
                                None
                            }
                        },
                    }
                } else {
                    None
                };
                let texture_index = self.next_texture_id;
                let texture_id = AtlasTextureId { index: texture_index, kind };
                self.next_texture_id = self.next_texture_id + 1;
                let tile_id = TileId(self.next_tile_id);
                self.next_tile_id = self.next_tile_id + 1;
                let ghost pre_textures = self.textures@;
                self.textures.insert(
                    texture_index as u64,
                    AtlasTexture { content, size, kind },
                );
                let tile = AtlasTile {
                    texture_id,
                    tile_id,
                    padding: 0,
                    bounds: Bounds { origin: Point { x: 0, y: 0 }, size },
                };
                self.tiles_by_key.insert(key.id, tile);
                proof {
                    lemma_map_values_insert(
                        pre_textures,
                        texture_index as u64,
                        AtlasTexture { content, size, kind },
                    );
                    assert(Self::spec_inserted(old(self), self, *key, size, bytes@));
                    assert(self.inv());
                }
                Ok(Some(tile))
            },
        }
    }

    /// Whether both id counters still have room, so the next miss can
    /// allocate fresh ids. Callers that cannot see the ghost counters test
    /// this before a lookup that may insert.
    pub fn has_id_headroom(&self) -> (r: bool)
        ensures
            r == (self.texture_counter() < u32::MAX && self.tile_counter() < u32::MAX),
    {
        self.next_texture_id < u32::MAX && self.next_tile_id < u32::MAX
    }

    /// How many backing texture records are live.
    pub fn texture_count(&self) -> (r: usize)
        ensures
            r == self.texture_models().len(),
    {
        proof {
            assert(self.textures@.map_values(|t: AtlasTexture| t@).dom() =~= self.textures@.dom());
        }
        self.textures.len()
    }

    /// How many keys are cached.
    pub fn tile_count(&self) -> (r: usize)
        ensures
            r == self.tiles().len(),
    {
        self.tiles_by_key.len()
    }

    /// Delete the key's mapping; release the backing texture record when no
    /// remaining key references it (with one texture per tile, that is
    /// always the removed tile's own record). Removing an unknown key does
    /// nothing.
    pub fn remove(&mut self, key: &AtlasKey)
        requires
            old(self).inv(),
        ensures
            final(self).inv(),
            Self::spec_removed(old(self), final(self), *key),
    {
        let ghost pre_textures = self.textures@;
        if let Some(t) = self.tiles_by_key.remove(&key.id) {
            self.textures.remove(&(t.texture_id.index as u64));
            proof {
                lemma_map_values_remove(pre_textures, t.texture_id.index as u64);
            }
        }
    }
}

/// What a cache lookup-or-build asks of the atlas and the pixel producer: a
/// sound cache with id headroom, and a callable producer whose every
/// outcome stays within the texture dimension limit.
pub open spec fn atlas_lookup_requires<
    F: FnOnce() -> Result<Option<(Size, Vec<u8>)>, AtlasBuildError>,
>(pre: &ImpellerAtlas, build: F) -> bool {
    &&& pre.inv()
    &&& pre.texture_counter() < u32::MAX
    &&& pre.tile_counter() < u32::MAX
    &&& call_requires(build, ())
    &&& forall|o: Result<Option<(Size, Vec<u8>)>, AtlasBuildError>| #[trigger]
        call_ensures(build, (), o) ==> build_output_wf(o)
}

/// What a cache lookup-or-build guarantees — the one atlas contract every
/// backend stands behind. A hit returns the cached tile and changes
/// nothing; on a miss the producer's own outcome decides: an error is
/// handed back unchanged, "nothing to draw" caches nothing, and produced
/// pixels insert a fresh tile with the converted payload.
pub open spec fn atlas_lookup_ensures<
    F: FnOnce() -> Result<Option<(Size, Vec<u8>)>, AtlasBuildError>,
>(
    pre: &ImpellerAtlas,
    post: &ImpellerAtlas,
    key: AtlasKey,
    build: F,
    r: Result<Option<AtlasTile>, AtlasBuildError>,
) -> bool {
    &&& post.inv()
    &&& pre.tiles().contains_key(key.id) ==> ImpellerAtlas::spec_same(pre, post) && r == Ok::<
        Option<AtlasTile>,
        AtlasBuildError,
    >(Some(pre.tiles()[key.id]))
    &&& !pre.tiles().contains_key(key.id) ==> exists|
        o: Result<Option<(Size, Vec<u8>)>, AtlasBuildError>,
    |
        {
            &&& #[trigger] call_ensures(build, (), o)
            &&& match o {
                Err(e) => ImpellerAtlas::spec_same(pre, post) && r == Err::<
                    Option<AtlasTile>,
                    AtlasBuildError,
                >(e),
                Ok(None) => ImpellerAtlas::spec_same(pre, post) && r == Ok::<
                    Option<AtlasTile>,
                    AtlasBuildError,
                >(None),
                Ok(Some((size, bytes))) => ImpellerAtlas::spec_inserted(
                    pre,
                    post,
                    key,
                    size,
                    bytes@,
                ) && r == Ok::<Option<AtlasTile>, AtlasBuildError>(
                    Some(pre.spec_new_tile(key, size)),
                ),
            }
        }
}

/// Atlas lookup is idempotent: once a miss on a key has inserted its tile, a
/// later lookup of the same key hits exactly that tile, so a repeated
/// `get_or_insert_with` returns the same texture id and tile id without
/// running the pixel producer again.
pub proof fn lemma_lookup_idempotent(
    pre: &ImpellerAtlas,
    post: &ImpellerAtlas,
    key: AtlasKey,
    size: Size,
    bytes: Seq<u8>,
)
    requires
        ImpellerAtlas::spec_inserted(pre, post, key, size, bytes),
    ensures
        post.spec_lookup(key) == Some(pre.spec_new_tile(key, size)),
{
}

/// Removal is exact: after removing a key its lookup misses (so the pixel
/// producer runs again), while any other key keeps its tile and the texture
/// behind that tile.
pub proof fn lemma_removal_correctness(
    pre: &ImpellerAtlas,
    post: &ImpellerAtlas,
    key: AtlasKey,
    other: AtlasKey,
)
    requires
        pre.inv(),
        ImpellerAtlas::spec_removed(pre, post, key),
        other.id != key.id,
    ensures
        post.spec_lookup(key) is None,
        post.spec_lookup(other) == pre.spec_lookup(other),
        match pre.spec_lookup(other) {
            Some(t) => post.spec_texture(t.texture_id) == pre.spec_texture(t.texture_id),
            None => true,
        },
{
    if pre.tiles().contains_key(other.id) && pre.tiles().contains_key(key.id) {
        assert(pre.tiles()[other.id].texture_id.index != pre.tiles()[key.id].texture_id.index);
    }
}

/// The pixel-size contract: a monochrome build that yields anything but one
/// byte per pixel caches a tile backed by no texture payload, so the tile
/// draws as nothing rather than reading out of bounds.
pub proof fn lemma_pixel_size_mismatch(
    pre: &ImpellerAtlas,
    post: &ImpellerAtlas,
    key: AtlasKey,
    size: Size,
    bytes: Seq<u8>,
)
    requires
        pre.inv(),
        ImpellerAtlas::spec_inserted(pre, post, key, size, bytes),
        key.kind == AtlasTextureKind::Monochrome,
        bytes.len() != size.width * size.height,
    ensures
        post.spec_texture(pre.spec_new_tile(key, size).texture_id) is None,
{
    if pre.texture_models().contains_key(pre.texture_counter() as u64) {
        assert((pre.texture_counter() as u64 as int) < pre.texture_counter());
    }
}

/// The GL backend's atlas: the same verified cache, behind the same
/// contract, as the Impeller backend's. This backend binds no rendering
/// context, so misses cache tiles without building upload payloads — its
/// sprites plan as flat fallbacks until the backend gains an upload path.
pub struct GlAtlas {
    pub cache: ImpellerAtlas,
}

impl GlAtlas {
    /// An empty cache with zeroed counters and no context.
    pub fn new() -> (r: GlAtlas)
        ensures
            r.cache.inv(),
            r.cache.tiles() == Map::<u64, AtlasTile>::empty(),
            r.cache.texture_models() == Map::<u64, AtlasTextureModel>::empty(),
            r.cache.texture_counter() == 0,
            r.cache.tile_counter() == 0,
            !r.cache.context_is_bound(),
    {
        GlAtlas { cache: ImpellerAtlas::new() }
    }

    /// Return the cached tile on a hit; on a miss run the caller's pixel
    /// producer and cache what it yields — the one atlas contract, shared
    /// across backends.
    pub fn get_or_insert_with<F: FnOnce() -> Result<Option<(Size, Vec<u8>)>, AtlasBuildError>>(
        &mut self,
        key: &AtlasKey,
        build: F,
    ) -> (r: Result<Option<AtlasTile>, AtlasBuildError>)
        requires
            atlas_lookup_requires(&old(self).cache, build),
        ensures
            atlas_lookup_ensures(&old(self).cache, &final(self).cache, *key, build, r),
    {
        self.cache.get_or_insert_with(key, build)
    }

    /// Delete the key's mapping and release its backing record; removing an
    /// unknown key does nothing.
    pub fn remove(&mut self, key: &AtlasKey)
        requires
            old(self).cache.inv(),
        ensures
            final(self).cache.inv(),
            ImpellerAtlas::spec_removed(&old(self).cache, &final(self).cache, *key),
    {
        self.cache.remove(key)
    }
}

/// Mapping values commutes with inserting one entry.
proof fn lemma_map_values_insert(m: Map<u64, AtlasTexture>, k: u64, v: AtlasTexture)
    ensures
        m.insert(k, v).map_values(|t: AtlasTexture| t@) == m.map_values(|t: AtlasTexture| t@)
            .insert(k, v@),
{
    assert(m.insert(k, v).map_values(|t: AtlasTexture| t@) =~= m.map_values(
        |t: AtlasTexture| t@,
    ).insert(k, v@));
}

/// Mapping values commutes with removing one entry.
proof fn lemma_map_values_remove(m: Map<u64, AtlasTexture>, k: u64)
    ensures
        m.remove(k).map_values(|t: AtlasTexture| t@) == m.map_values(|t: AtlasTexture| t@).remove(
            k,
        ),
{
    assert(m.remove(k).map_values(|t: AtlasTexture| t@) =~= m.map_values(
        |t: AtlasTexture| t@,
    ).remove(k));
}

/// One color channel premultiplied by alpha.
pub fn premul_channel(c: u8, a: u8) -> (r: u8)
    ensures
        r == spec_premul_channel(c, a),
{
    proof {
        assert((c as int) * (a as int) / 255 <= 255) by (nonlinear_arith)
            requires
                c <= 255,
                a <= 255,
        ;
        assert((c as int) * (a as int) / 255 >= 0) by (nonlinear_arith)
            requires
                c >= 0,
                a >= 0,
        ;
    }
    (((c as u32) * (a as u32)) / 255) as u8
}

} // verus!
