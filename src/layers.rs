use vstd::prelude::*;
use crate::image::{opt_encodable, ImageFile};

verus! {

/// Canvas width used when the configuration gives none.
pub const DEFAULT_WIDTH: u32 = 200;
/// Canvas height used when the configuration gives none.
pub const DEFAULT_HEIGHT: u32 = 250;
/// Drawing depth of the character when the configuration gives none.
pub const DEFAULT_CHARACTER_DEPTH: i32 = 0;
/// Drawing depth of a layer when its entry gives none.
pub const DEFAULT_LAYER_DEPTH: i32 = -1;
/// Sprite frame side, in pixels, when the configuration gives none.
pub const DEFAULT_FRAME_SIZE: u32 = 32;
/// Number of frames of an animation when its entry gives none.
pub const DEFAULT_FRAMES: u32 = 1;
/// Frame rate of an animation when its entry gives none.
pub const DEFAULT_RATE: u32 = 4;

/// The value held by `o`, or `d` when there is none.
pub open spec fn or_default<T>(o: Option<T>, d: T) -> T {
    match o {
        Some(v) => v,
        None => d,
    }
}

/// The repeat count of an animation whose entry gives none: loop forever.
pub fn neg_one() -> (r: i32)
    ensures
        r == -1,
{
    -1
}

/// One entry of the `layers` list: the image it names, if that file
/// exists, and its optional drawing depth.
pub struct LayerEntry {
    pub image: Option<ImageFile>,
    pub depth: Option<i32>,
}

/// A layer ready for drawing. `index` is the position of its entry in the
/// configured list.
pub struct LayerItem {
    pub index: usize,
    pub data_url: String,
    pub depth: i32,
}

/// One entry of the sprite animations: its key, the sheet's image if that
/// file exists, and its optional frame count and rate.
pub struct AnimEntry {
    pub key: String,
    pub image: Option<ImageFile>,
    pub frames: Option<u32>,
    pub rate: Option<u32>,
    pub repeat: i32,
}

impl AnimEntry {
    /// An entry with no frame count or rate, repeating forever.
    pub fn new(key: String, image: Option<ImageFile>) -> (r: AnimEntry)
        ensures
            r.key == key,
            r.image == image,
            r.frames is None,
            r.rate is None,
            r.repeat == -1,
    {
        AnimEntry { key, image, frames: None, rate: None, repeat: neg_one() }
    }
}

/// An animation ready for playback.
pub struct AnimItem {
    pub key: String,
    pub data_url: String,
    pub frames: u32,
    pub rate: u32,
    pub repeat: i32,
}

/// The sprite section of the configuration.
pub struct SpritesCfg {
    pub frame_width: Option<u32>,
    pub frame_height: Option<u32>,
    pub anims: Vec<AnimEntry>,
}

/// The resolved sprite section.
pub struct SpritesData {
    pub frame_width: u32,
    pub frame_height: u32,
    pub anims: Vec<AnimItem>,
}

/// The layer configuration, with each referenced image already looked up.
pub struct LayersCfg {
    pub width: Option<u32>,
    pub height: Option<u32>,
    pub character_depth: Option<i32>,
    pub layers: Vec<LayerEntry>,
    pub sprites: Option<SpritesCfg>,
}

/// The resolved layer configuration.
pub struct FullData {
    pub width: u32,
    pub height: u32,
    pub character_depth: i32,
    pub layers: Vec<LayerItem>,
    pub sprites: Option<SpritesData>,
}

/// What a resolved layer holds, as mathematical values.
pub struct LayerView {
    pub index: int,
    pub data_url: Seq<char>,
    pub depth: i32,
}

/// What a resolved animation holds, as mathematical values.
pub struct AnimView {
    pub key: Seq<char>,
    pub data_url: Seq<char>,
    pub frames: u32,
    pub rate: u32,
    pub repeat: i32,
}

impl View for LayerItem {
    type V = LayerView;

    open spec fn view(&self) -> LayerView {
        LayerView { index: self.index as int, data_url: self.data_url@, depth: self.depth }
    }
}

impl View for AnimItem {
    type V = AnimView;

    open spec fn view(&self) -> AnimView {
        AnimView {
            key: self.key@,
            data_url: self.data_url@,
            frames: self.frames,
            rate: self.rate,
            repeat: self.repeat,
        }
    }
}

/// The layers kept from `entries`, in order: those whose image exists.
pub open spec fn layers_spec(entries: Seq<LayerEntry>) -> Seq<LayerView>
    decreases entries.len(),
{
    if entries.len() == 0 {
        seq![]
    } else {
        let prev = layers_spec(entries.drop_last());
        match entries.last().image {
            Some(img) => prev.push(
                LayerView {
                    index: entries.len() - 1,
                    data_url: img.url_spec(),
                    depth: or_default(entries.last().depth, DEFAULT_LAYER_DEPTH),
                },
            ),
            None => prev,
        }
    }
}

/// The animations kept from `entries`, in order: those whose sheet exists.
pub open spec fn anims_spec(entries: Seq<AnimEntry>) -> Seq<AnimView>
    decreases entries.len(),
{
    if entries.len() == 0 {
        seq![]
    } else {
        let prev = anims_spec(entries.drop_last());
        let e = entries.last();
        match e.image {
            Some(img) => prev.push(
                AnimView {
                    key: e.key@,
                    data_url: img.url_spec(),
                    frames: or_default(e.frames, DEFAULT_FRAMES),
                    rate: or_default(e.rate, DEFAULT_RATE),
                    repeat: e.repeat,
                },
            ),
            None => prev,
        }
    }
}

/// Every present image among the layer entries can be encoded.
pub open spec fn layers_encodable(entries: Seq<LayerEntry>) -> bool {
    forall|i: int| 0 <= i < entries.len() ==> opt_encodable(#[trigger] entries[i].image)
}

/// Every present sheet among the animation entries can be encoded.
pub open spec fn anims_encodable(entries: Seq<AnimEntry>) -> bool {
    forall|i: int| 0 <= i < entries.len() ==> opt_encodable(#[trigger] entries[i].image)
}

/// Resolves the layer list: entries whose image is missing are skipped,
/// the others are embedded and given the default depth when they have none.
pub fn resolve_layers(entries: &Vec<LayerEntry>) -> (r: Vec<LayerItem>)
    requires
        layers_encodable(entries@),
    ensures
        r@.map_values(|l: LayerItem| l@) == layers_spec(entries@),
{
    let mut out: Vec<LayerItem> = Vec::new();
    let mut i: usize = 0;
    while i < entries.len()
        invariant
            i <= entries@.len(),
            layers_encodable(entries@),
            out@.map_values(|l: LayerItem| l@) == layers_spec(entries@.take(i as int)),
        decreases entries@.len() - i,
    {
        let e = &entries[i];
        proof {
            assert(entries@.take(i + 1).drop_last() == entries@.take(i as int));
            assert(opt_encodable(entries@[i as int].image));
        }
        match &e.image {
            Some(img) => {
                let depth = match e.depth {
                    Some(d) => d,
                    None => DEFAULT_LAYER_DEPTH,
                };
                let url = img.data_url();
                out.push(LayerItem { index: i, data_url: url, depth });
            },
            None => {},
        }
        i = i + 1;
    }
    proof {
        assert(entries@.take(i as int) == entries@);
    }
    out
}

/// Resolves the animation list: entries whose sheet is missing are
/// skipped, the others are embedded with default frame count and rate.
pub fn resolve_anims(entries: &Vec<AnimEntry>) -> (r: Vec<AnimItem>)
    requires
        anims_encodable(entries@),
    ensures
        r@.map_values(|a: AnimItem| a@) == anims_spec(entries@),
{
    let mut out: Vec<AnimItem> = Vec::new();
    let mut i: usize = 0;
    while i < entries.len()
        invariant
            i <= entries@.len(),
            anims_encodable(entries@),
            out@.map_values(|a: AnimItem| a@) == anims_spec(entries@.take(i as int)),
        decreases entries@.len() - i,
    {
        let e = &entries[i];
        proof {
            assert(entries@.take(i + 1).drop_last() == entries@.take(i as int));
            assert(opt_encodable(entries@[i as int].image));
        }
        match &e.image {
            Some(img) => {
                let frames = match e.frames {
                    Some(f) => f,
                    None => DEFAULT_FRAMES,
                };
                let rate = match e.rate {
                    Some(f) => f,
                    None => DEFAULT_RATE,
                };
                let url = img.data_url();
                out.push(AnimItem { key: e.key.clone(), data_url: url, frames, rate, repeat: e.repeat });
            },
            None => {},
        }
        i = i + 1;
    }
    proof {
        assert(entries@.take(i as int) == entries@);
    }
    out
}

/// Every image that the layer configuration refers to can be encoded.
pub open spec fn layers_cfg_encodable(cfg: LayersCfg) -> bool {
    &&& layers_encodable(cfg.layers@)
    &&& match cfg.sprites {
        Some(s) => anims_encodable(s.anims@),
        None => true,
    }
}

/// Resolves the sprite section: frame sizes default to square frames of
/// the default side, and only animations whose sheet exists are kept.
pub fn resolve_sprites(cfg: &SpritesCfg) -> (r: SpritesData)
    requires
        anims_encodable(cfg.anims@),
    ensures
        r.frame_width == or_default(cfg.frame_width, DEFAULT_FRAME_SIZE),
        r.frame_height == or_default(cfg.frame_height, DEFAULT_FRAME_SIZE),
        r.anims@.map_values(|a: AnimItem| a@) == anims_spec(cfg.anims@),
{
    let frame_width = match cfg.frame_width {
        Some(w) => w,
        None => DEFAULT_FRAME_SIZE,
    };
    let frame_height = match cfg.frame_height {
        Some(h) => h,
        None => DEFAULT_FRAME_SIZE,
    };
    SpritesData { frame_width, frame_height, anims: resolve_anims(&cfg.anims) }
}

/// Resolves the whole layer configuration: canvas size and character
/// depth take their defaults when missing, layers and animations whose
/// image is missing are skipped, and the sprite section is present exactly
/// when the configuration has one.
pub fn load_layers(cfg: &LayersCfg) -> (r: FullData)
    requires
        layers_cfg_encodable(*cfg),
    ensures
        r.width == or_default(cfg.width, DEFAULT_WIDTH),
        r.height == or_default(cfg.height, DEFAULT_HEIGHT),
        r.character_depth == or_default(cfg.character_depth, DEFAULT_CHARACTER_DEPTH),
        r.layers@.map_values(|l: LayerItem| l@) == layers_spec(cfg.layers@),
        cfg.sprites is None <==> r.sprites is None,
        cfg.sprites matches Some(s) ==> ({
            let d = r.sprites->Some_0;
            &&& d.frame_width == or_default(s.frame_width, DEFAULT_FRAME_SIZE)
            &&& d.frame_height == or_default(s.frame_height, DEFAULT_FRAME_SIZE)
            &&& d.anims@.map_values(|a: AnimItem| a@) == anims_spec(s.anims@)
        }),
{
    let width = match cfg.width {
        Some(w) => w,
        None => DEFAULT_WIDTH,
    };
    let height = match cfg.height {
        Some(h) => h,
        None => DEFAULT_HEIGHT,
    };
    let character_depth = match cfg.character_depth {
        Some(d) => d,
        None => DEFAULT_CHARACTER_DEPTH,
    };
    let layers = resolve_layers(&cfg.layers);
    let sprites = match &cfg.sprites {
        Some(s) => Some(resolve_sprites(s)),
        None => None,
    };
    FullData { width, height, character_depth, layers, sprites }
}

} // verus!
