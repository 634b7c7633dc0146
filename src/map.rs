use vstd::prelude::*;
use crate::image::{opt_encodable, ImageFile};
use crate::layers::or_default;
use crate::png::{png_width, png_width_spec};

verus! {

/// Tile side, in pixels, when the map gives none.
pub const DEFAULT_TILE_SIZE: u32 = 16;
/// Column count of a map whose ground grid is empty and which gives none.
pub const DEFAULT_COLS: u32 = 12;
/// Zoom factor when the map gives none.
pub const DEFAULT_ZOOM: u32 = 2;
/// Tileset width, in pixels, assumed when the tileset is not a readable PNG.
pub const DEFAULT_TILESET_WIDTH: u32 = 160;

/// A named point of interest on the map grid.
pub struct Poi {
    pub name: String,
    pub col: u32,
    pub row: u32,
}

/// A state icon entry: the pet state it stands for and its image, if that
/// file exists and could be read.
pub struct IconEntry {
    pub state: String,
    pub image: Option<ImageFile>,
}

/// A state icon ready for display.
pub struct IconItem {
    pub state: String,
    pub data_url: String,
}

/// What a resolved icon holds, as mathematical values.
pub struct IconView {
    pub state: Seq<char>,
    pub data_url: Seq<char>,
}

impl View for IconItem {
    type V = IconView;

    open spec fn view(&self) -> IconView {
        IconView { state: self.state@, data_url: self.data_url@ }
    }
}

/// The map configuration, with the grids as given.
pub struct MapCfg {
    pub tile_size: Option<u32>,
    pub cols: Option<u32>,
    pub rows: Option<u32>,
    pub zoom: Option<u32>,
    pub tileset: String,
    pub ground: Vec<Vec<i32>>,
    pub border: Option<Vec<Vec<i32>>>,
    pub rug: Option<Vec<Vec<i32>>>,
    pub objects: Vec<Vec<i32>>,
    pub collision: Vec<Vec<u8>>,
    pub pois: Vec<Poi>,
    pub state_icons: Vec<IconEntry>,
}

/// The resolved map.
pub struct MapData {
    pub tile_size: u32,
    pub cols: u32,
    pub rows: u32,
    pub zoom: u32,
    pub tileset_url: String,
    pub tileset_cols: u32,
    pub ground: Vec<Vec<i32>>,
    pub border: Vec<Vec<i32>>,
    pub rug: Vec<Vec<i32>>,
    pub objects: Vec<Vec<i32>>,
    pub collision: Vec<Vec<u8>>,
    pub pois: Vec<Poi>,
    pub state_icons: Vec<IconItem>,
}

/// Why a map could not be resolved.
pub enum MapError {
    /// The tileset image named by the map does not exist.
    TilesetNotFound { tileset: String },
}

/// The text reported for a map error.
pub open spec fn map_error_message(e: MapError) -> Seq<char> {
    match e {
        MapError::TilesetNotFound { tileset } => "tileset not found: "@ + tileset@,
    }
}

impl MapError {
    /// The text reported for this error.
    pub fn message(&self) -> (r: String)
        ensures
            r@ == map_error_message(*self),
    {
        match self {
            MapError::TilesetNotFound { tileset } => {
                let mut m = String::from_str("tileset not found: ");
                m.append(tileset.as_str());
                m
            },
        }
    }
}

/// Column count of a map that gives none: the length of the first ground
/// row, or the default when the ground grid is empty.
pub open spec fn default_cols_spec(ground: Seq<Vec<i32>>) -> u32 {
    if ground.len() == 0 {
        DEFAULT_COLS
    } else {
        ground[0]@.len() as u32
    }
}

/// Column count of a map that gives none.
pub fn default_cols(ground: &Vec<Vec<i32>>) -> (r: u32)
    ensures
        r == default_cols_spec(ground@),
{
    if ground.len() == 0 {
        DEFAULT_COLS
    } else {
        ground[0].len() as u32
    }
}

/// Number of tile columns in a tileset image, from its PNG width.
pub open spec fn tileset_cols_spec(tileset: Seq<u8>, tile_size: u32) -> u32
    recommends
        tile_size > 0,
{
    (or_default(png_width_spec(tileset), DEFAULT_TILESET_WIDTH) / tile_size) as u32
}

/// Number of whole tiles that fit across the tileset image; a tileset that
/// is not a readable PNG is taken to be of the default width.
pub fn tileset_columns(tileset: &[u8], tile_size: u32) -> (r: u32)
    requires
        tile_size > 0,
    ensures
        r == tileset_cols_spec(tileset@, tile_size),
{
    let width = match png_width(tileset) {
        Some(w) => w,
        None => DEFAULT_TILESET_WIDTH,
    };
    width / tile_size
}

/// The icons kept from `entries`, in order: those whose image exists.
pub open spec fn icons_spec(entries: Seq<IconEntry>) -> Seq<IconView>
    decreases entries.len(),
{
    if entries.len() == 0 {
        seq![]
    } else {
        let prev = icons_spec(entries.drop_last());
        match entries.last().image {
            Some(img) => prev.push(IconView { state: entries.last().state@, data_url: img.url_spec() }),
            None => prev,
        }
    }
}

/// Every present icon image can be encoded.
pub open spec fn icons_encodable(entries: Seq<IconEntry>) -> bool {
    forall|i: int| 0 <= i < entries.len() ==> opt_encodable(#[trigger] entries[i].image)
}

/// Embeds the state icons whose image exists and skips the others.
pub fn resolve_icons(entries: &Vec<IconEntry>) -> (r: Vec<IconItem>)
    requires
        icons_encodable(entries@),
    ensures
        r@.map_values(|a: IconItem| a@) == icons_spec(entries@),
{
    let mut out: Vec<IconItem> = Vec::new();
    let mut i: usize = 0;
    while i < entries.len()
        invariant
            i <= entries@.len(),
            icons_encodable(entries@),
            out@.map_values(|a: IconItem| a@) == icons_spec(entries@.take(i as int)),
        decreases entries@.len() - i,
    {
        let e = &entries[i];
        proof {
            assert(entries@.take(i + 1).drop_last() == entries@.take(i as int));
            assert(opt_encodable(entries@[i as int].image));
        }
        match &e.image {
            Some(img) => {
                let url = img.data_url();
                out.push(IconItem { state: e.state.clone(), data_url: url });
            },
            None => {},
        }
        i = i + 1;
    }
    proof {
        assert(entries@.take(i as int) == entries@);
    }
    out
}

/// The rows of an optional grid; a missing grid has none.
pub open spec fn grid_or_empty(g: Option<Vec<Vec<i32>>>) -> Seq<Vec<i32>> {
    match g {
        Some(v) => v@,
        None => seq![],
    }
}

/// Resolves a map whose tileset image is `tileset` (`None` when the file
/// does not exist). Fails exactly when the tileset is missing; otherwise
/// every missing setting takes its default, missing border and rug grids
/// become empty, and only state icons whose image exists are kept.
pub fn load_map(cfg: MapCfg, tileset: Option<ImageFile>) -> (r: Result<MapData, MapError>)
    requires
        tileset is Some ==> cfg.tile_size != Some(0u32),
        opt_encodable(tileset),
        icons_encodable(cfg.state_icons@),
    ensures
        tileset is None <==> r is Err,
        r matches Err(e) ==> e == (MapError::TilesetNotFound { tileset: cfg.tileset }),
        r matches Ok(m) ==> ({
            let ts = tileset->Some_0;
            let size = or_default(cfg.tile_size, DEFAULT_TILE_SIZE);
            &&& m.tile_size == size
            &&& m.cols == or_default(cfg.cols, default_cols_spec(cfg.ground@))
            &&& m.rows == or_default(cfg.rows, cfg.ground@.len() as u32)
            &&& m.zoom == or_default(cfg.zoom, DEFAULT_ZOOM)
            &&& m.tileset_url@ == ts.url_spec()
            &&& m.tileset_cols == tileset_cols_spec(ts.bytes@, size)
            &&& m.ground == cfg.ground
            &&& m.border@ == grid_or_empty(cfg.border)
            &&& m.rug@ == grid_or_empty(cfg.rug)
            &&& m.objects == cfg.objects
            &&& m.collision == cfg.collision
            &&& m.pois == cfg.pois
            &&& m.state_icons@.map_values(|a: IconItem| a@) == icons_spec(cfg.state_icons@)
        }),
{
    let img = match tileset {
        Some(img) => img,
        None => {
            return Err(MapError::TilesetNotFound { tileset: cfg.tileset });
        },
    };
    let tile_size = match cfg.tile_size {
        Some(t) => t,
        None => DEFAULT_TILE_SIZE,
    };
    let cols = match cfg.cols {
        Some(c) => c,
        None => default_cols(&cfg.ground),
    };
    let rows = match cfg.rows {
        Some(n) => n,
        None => cfg.ground.len() as u32,
    };
    let zoom = match cfg.zoom {
        Some(z) => z,
        None => DEFAULT_ZOOM,
    };
    let tileset_url = img.data_url();
    let tileset_cols = tileset_columns(img.bytes.as_slice(), tile_size);
    let state_icons = resolve_icons(&cfg.state_icons);
    let border = match cfg.border {
        Some(b) => b,
        None => Vec::new(),
    };
    let rug = match cfg.rug {
        Some(g) => g,
        None => Vec::new(),
    };
    Ok(MapData {
        tile_size,
        cols,
        rows,
        zoom,
        tileset_url,
        tileset_cols,
        ground: cfg.ground,
        border,
        rug,
        objects: cfg.objects,
        collision: cfg.collision,
        pois: cfg.pois,
        state_icons,
    })
}

} // verus!
