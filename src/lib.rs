//! Configuration resolution for a desktop pet overlay: image data URLs,
//! PNG header inspection, and the defaults applied to layer, sprite and
//! map descriptions before they are handed to the front end.

mod data_url;
mod image;
mod layers;
mod map;
mod png;

pub use data_url::{
    base64_len, base64_of, data_url_from_base64, data_url_spec, encode_image, mime_of, mime_type,
    opt_view,
};
pub use image::{opt_encodable, opt_string_view, ImageFile};
pub use layers::{
    anims_encodable, anims_spec, layers_cfg_encodable, layers_encodable, layers_spec, load_layers,
    neg_one, or_default, resolve_anims, resolve_layers, resolve_sprites, AnimEntry, AnimItem,
    AnimView, FullData, LayerEntry, LayerItem, LayerView, LayersCfg, SpritesCfg, SpritesData,
    DEFAULT_CHARACTER_DEPTH, DEFAULT_FRAMES, DEFAULT_FRAME_SIZE, DEFAULT_HEIGHT,
    DEFAULT_LAYER_DEPTH, DEFAULT_RATE, DEFAULT_WIDTH,
};
pub use map::{
    default_cols, default_cols_spec, grid_or_empty, icons_encodable, icons_spec, load_map,
    map_error_message, resolve_icons, tileset_cols_spec, tileset_columns, IconEntry, IconItem,
    IconView, MapCfg, MapData, MapError, Poi, DEFAULT_COLS, DEFAULT_TILESET_WIDTH,
    DEFAULT_TILE_SIZE, DEFAULT_ZOOM,
};
pub use png::{be_u32, has_png_magic, png_width, png_width_spec};
