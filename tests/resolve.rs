use desktop_pet::{
    default_cols, encode_image, data_url_from_base64, load_layers, load_map, mime_type, neg_one,
    png_width, resolve_anims, resolve_icons, resolve_layers, resolve_sprites, tileset_columns,
    AnimEntry, IconEntry, ImageFile, LayerEntry, LayersCfg, MapCfg, MapError, Poi, SpritesCfg,
};

fn png_header(width: u32) -> Vec<u8> {
    let mut v = vec![0x89u8, b'P', b'N', b'G', 0x0d, 0x0a, 0x1a, 0x0a];
    v.extend_from_slice(&[0, 0, 0, 13, b'I', b'H', b'D', b'R']);
    v.extend_from_slice(&width.to_be_bytes());
    v.extend_from_slice(&[0, 0, 0, 32]);
    v
}

fn png_file(bytes: Vec<u8>) -> ImageFile {
    ImageFile { ext: Some("png".to_string()), bytes }
}

#[test]
fn png_width_reads_ihdr() {
    assert_eq!(png_width(&png_header(256)), Some(256));
    assert_eq!(png_width(&png_header(0x01020304)), Some(0x01020304));
}

#[test]
fn png_width_rejects_short_data() {
    let h = png_header(64);
    assert_eq!(png_width(&h[..23]), None);
    assert_eq!(png_width(&[]), None);
}

#[test]
fn png_width_rejects_bad_magic() {
    let mut h = png_header(64);
    h[1] = b'Q';
    assert_eq!(png_width(&h), None);
}

#[test]
fn repeat_default_is_forever() {
    assert_eq!(neg_one(), -1);
    let e = AnimEntry::new("idle".to_string(), None);
    assert_eq!(e.repeat, -1);
    assert_eq!(e.frames, None);
}

#[test]
fn mime_types_by_extension() {
    assert_eq!(mime_type(Some("png")), "image/png");
    assert_eq!(mime_type(Some("jpg")), "image/jpeg");
    assert_eq!(mime_type(Some("jpeg")), "image/jpeg");
    assert_eq!(mime_type(Some("gif")), "image/gif");
    assert_eq!(mime_type(Some("webp")), "image/webp");
    assert_eq!(mime_type(Some("bmp")), "image/png");
    assert_eq!(mime_type(None), "image/png");
}

#[test]
fn data_url_wraps_encoded_text() {
    assert_eq!(data_url_from_base64(Some("gif"), "AAAA"), "data:image/gif;base64,AAAA");
}

#[test]
fn encode_image_uses_base64() {
    assert_eq!(encode_image(Some("png"), b"hello"), "data:image/png;base64,aGVsbG8=");
    assert_eq!(encode_image(Some("jpg"), b"ab"), "data:image/jpeg;base64,YWI=");
    assert_eq!(encode_image(None, b""), "data:image/png;base64,");
}

#[test]
fn layers_skip_missing_images() {
    let entries = vec![
        LayerEntry { image: Some(png_file(b"a".to_vec())), depth: None },
        LayerEntry { image: None, depth: Some(5) },
        LayerEntry { image: Some(png_file(b"b".to_vec())), depth: Some(3) },
    ];
    let r = resolve_layers(&entries);
    assert_eq!(r.len(), 2);
    assert_eq!(r[0].index, 0);
    assert_eq!(r[0].depth, -1);
    assert_eq!(r[0].data_url, "data:image/png;base64,YQ==");
    assert_eq!(r[1].index, 2);
    assert_eq!(r[1].depth, 3);
    assert_eq!(r[1].data_url, "data:image/png;base64,Yg==");
}

#[test]
fn anims_take_defaults() {
    let mut walk = AnimEntry::new("walk".to_string(), Some(png_file(b"w".to_vec())));
    walk.frames = Some(6);
    walk.repeat = 0;
    let entries = vec![
        AnimEntry::new("idle".to_string(), Some(png_file(b"i".to_vec()))),
        AnimEntry::new("gone".to_string(), None),
        walk,
    ];
    let r = resolve_anims(&entries);
    assert_eq!(r.len(), 2);
    assert_eq!(r[0].key, "idle");
    assert_eq!((r[0].frames, r[0].rate, r[0].repeat), (1, 4, -1));
    assert_eq!(r[1].key, "walk");
    assert_eq!((r[1].frames, r[1].rate, r[1].repeat), (6, 4, 0));
    assert_eq!(r[1].data_url, "data:image/png;base64,dw==");
}

#[test]
fn sprites_default_frame_size() {
    let cfg = SpritesCfg { frame_width: None, frame_height: Some(48), anims: vec![] };
    let s = resolve_sprites(&cfg);
    assert_eq!((s.frame_width, s.frame_height), (32, 48));
    assert!(s.anims.is_empty());
}

#[test]
fn empty_layer_config_takes_defaults() {
    let cfg = LayersCfg { width: None, height: None, character_depth: None, layers: vec![], sprites: None };
    let d = load_layers(&cfg);
    assert_eq!((d.width, d.height, d.character_depth), (200, 250, 0));
    assert!(d.layers.is_empty());
    assert!(d.sprites.is_none());
}

#[test]
fn layer_config_keeps_given_values() {
    let cfg = LayersCfg {
        width: Some(320),
        height: Some(240),
        character_depth: Some(2),
        layers: vec![LayerEntry { image: Some(png_file(vec![1, 2, 3])), depth: Some(-4) }],
        sprites: Some(SpritesCfg { frame_width: Some(16), frame_height: None, anims: vec![] }),
    };
    let d = load_layers(&cfg);
    assert_eq!((d.width, d.height, d.character_depth), (320, 240, 2));
    assert_eq!(d.layers.len(), 1);
    assert_eq!(d.layers[0].depth, -4);
    assert_eq!(d.layers[0].data_url, "data:image/png;base64,AQID");
    let s = d.sprites.unwrap();
    assert_eq!((s.frame_width, s.frame_height), (16, 32));
}

#[test]
fn default_cols_from_ground() {
    assert_eq!(default_cols(&vec![]), 12);
    assert_eq!(default_cols(&vec![vec![0; 7], vec![0; 3]]), 7);
}

#[test]
fn tileset_columns_from_width() {
    assert_eq!(tileset_columns(&png_header(256), 16), 16);
    assert_eq!(tileset_columns(&png_header(100), 16), 6);
    assert_eq!(tileset_columns(b"not a png", 16), 10);
    assert_eq!(tileset_columns(b"not a png", 32), 5);
}

#[test]
fn icons_skip_missing_images() {
    let entries = vec![
        IconEntry { state: "idle".to_string(), image: None },
        IconEntry { state: "busy".to_string(), image: Some(png_file(b"x".to_vec())) },
    ];
    let r = resolve_icons(&entries);
    assert_eq!(r.len(), 1);
    assert_eq!(r[0].state, "busy");
    assert_eq!(r[0].data_url, "data:image/png;base64,eA==");
}

fn map_cfg() -> MapCfg {
    MapCfg {
        tile_size: None,
        cols: None,
        rows: None,
        zoom: None,
        tileset: "tiles.png".to_string(),
        ground: vec![vec![1, 2, 3], vec![4, 5, 6]],
        border: None,
        rug: Some(vec![vec![9]]),
        objects: vec![vec![0, 0, 0]],
        collision: vec![vec![1, 0, 1]],
        pois: vec![Poi { name: "bed".to_string(), col: 2, row: 1 }],
        state_icons: vec![IconEntry { state: "idle".to_string(), image: None }],
    }
}

#[test]
fn map_without_tileset_fails() {
    match load_map(map_cfg(), None) {
        Err(e) => {
            assert_eq!(e.message(), "tileset not found: tiles.png");
            let MapError::TilesetNotFound { tileset } = e;
            assert_eq!(tileset, "tiles.png");
        }
        Ok(_) => panic!("expected an error"),
    }
}

#[test]
fn map_takes_defaults() {
    let m = match load_map(map_cfg(), Some(png_file(png_header(320)))) {
        Ok(m) => m,
        Err(e) => panic!("{}", e.message()),
    };
    assert_eq!((m.tile_size, m.cols, m.rows, m.zoom), (16, 3, 2, 2));
    assert_eq!(m.tileset_cols, 20);
    assert!(m.tileset_url.starts_with("data:image/png;base64,iVBORw"));
    assert_eq!(m.ground, vec![vec![1, 2, 3], vec![4, 5, 6]]);
    assert!(m.border.is_empty());
    assert_eq!(m.rug, vec![vec![9]]);
    assert_eq!(m.collision, vec![vec![1, 0, 1]]);
    assert_eq!(m.pois.len(), 1);
    assert_eq!((m.pois[0].col, m.pois[0].row), (2, 1));
    assert!(m.state_icons.is_empty());
}

#[test]
fn map_keeps_given_values() {
    let mut cfg = map_cfg();
    cfg.tile_size = Some(32);
    cfg.cols = Some(40);
    cfg.rows = Some(30);
    cfg.zoom = Some(3);
    let m = load_map(cfg, Some(png_file(b"junk".to_vec()))).ok().unwrap();
    assert_eq!((m.tile_size, m.cols, m.rows, m.zoom), (32, 40, 30, 3));
    assert_eq!(m.tileset_cols, 5);
    assert_eq!(m.tileset_url, "data:image/png;base64,anVuaw==");
}
