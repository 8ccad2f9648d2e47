use pixel_engine::asset::ase::zlib::{decompress, ZLibCode, ZLibError};
use pixel_engine::asset::ase::{
    parse, AnimationDirection, AseError, CelContent, CelLookup, ColorMode, LayerKind,
};
use pixel_engine::math::{Color, Rect, Vec2};

fn word(out: &mut Vec<u8>, v: u16) {
    out.extend_from_slice(&v.to_le_bytes());
}

fn dword(out: &mut Vec<u8>, v: u32) {
    out.extend_from_slice(&v.to_le_bytes());
}

fn string(out: &mut Vec<u8>, s: &str) {
    word(out, s.len() as u16);
    out.extend_from_slice(s.as_bytes());
}

fn header(frames: u16, width: u16, height: u16, depth: u16, flags: u32) -> Vec<u8> {
    let mut h = Vec::new();
    dword(&mut h, 0);
    word(&mut h, 0xA5E0);
    word(&mut h, frames);
    word(&mut h, width);
    word(&mut h, height);
    word(&mut h, depth);
    dword(&mut h, flags);
    h.resize(34, 0);
    h.push(2); // pixel width
    h.push(3); // pixel height
    word(&mut h, (-4i16) as u16); // grid x
    word(&mut h, 5); // grid y
    word(&mut h, 16); // grid width
    word(&mut h, 8); // grid height
    h.resize(128, 0);
    h
}

fn chunk(typ: u16, data: &[u8]) -> Vec<u8> {
    let mut c = Vec::new();
    dword(&mut c, 6 + data.len() as u32);
    word(&mut c, typ);
    c.extend_from_slice(data);
    c
}

fn frame(duration: u16, chunks: &[Vec<u8>]) -> Vec<u8> {
    let body: Vec<u8> = chunks.concat();
    let mut f = Vec::new();
    dword(&mut f, 16 + body.len() as u32);
    word(&mut f, 0xF1FA);
    word(&mut f, chunks.len() as u16);
    word(&mut f, duration);
    word(&mut f, 0);
    dword(&mut f, chunks.len() as u32);
    f.extend_from_slice(&body);
    f
}

fn file(depth: u16, flags: u32, frames: &[Vec<u8>]) -> Vec<u8> {
    let mut f = header(frames.len() as u16, 4, 2, depth, flags);
    for fr in frames {
        f.extend_from_slice(fr);
    }
    f
}

fn layer(flags: u16, typ: u16, opacity: u8, name: &str) -> Vec<u8> {
    let mut d = Vec::new();
    word(&mut d, flags);
    word(&mut d, typ);
    word(&mut d, 0); // child level
    word(&mut d, 0);
    word(&mut d, 0);
    word(&mut d, 0); // blend mode
    d.push(opacity);
    d.extend_from_slice(&[0, 0, 0]);
    string(&mut d, name);
    d
}

fn cel_header(layer: u16, x: i16, y: i16, opacity: u8, typ: u16, z: i16) -> Vec<u8> {
    let mut d = Vec::new();
    word(&mut d, layer);
    word(&mut d, x as u16);
    word(&mut d, y as u16);
    d.push(opacity);
    word(&mut d, typ);
    word(&mut d, z as u16);
    d.extend_from_slice(&[0; 5]);
    d
}

fn raw_cel(layer: u16, w: u16, h: u16, pixels: &[u8]) -> Vec<u8> {
    let mut d = cel_header(layer, 1, -2, 200, 0, 3);
    word(&mut d, w);
    word(&mut d, h);
    d.extend_from_slice(pixels);
    d
}

fn linked_cel(layer: u16, to: u16) -> Vec<u8> {
    let mut d = cel_header(layer, 0, 0, 255, 1, 0);
    word(&mut d, to);
    d
}

fn compressed_cel(layer: u16, w: u16, h: u16, data: &[u8]) -> Vec<u8> {
    let mut d = cel_header(layer, 0, 0, 255, 2, 0);
    word(&mut d, w);
    word(&mut d, h);
    d.extend_from_slice(data);
    d
}

// Compressed forms of small pixel buffers, as zlib writes them.
const A_TIMES_100: [u8; 12] = [120, 156, 75, 76, 164, 61, 0, 0, 122, 71, 37, 229];
const ONE_TO_EIGHT: [u8; 16] = [120, 156, 99, 100, 98, 102, 97, 101, 99, 231, 0, 0, 0, 128, 0, 37];

#[test]
fn zlib_decompresses_and_grows_its_buffer() {
    assert_eq!(decompress(&A_TIMES_100).unwrap(), vec![b'a'; 100]);
    assert_eq!(decompress(&ONE_TO_EIGHT).unwrap(), vec![1, 2, 3, 4, 5, 6, 7, 8]);
}

#[test]
fn zlib_rejects_bad_data() {
    let mut bad = ONE_TO_EIGHT;
    bad[15] ^= 0xff; // checksum
    assert_eq!(decompress(&bad), Err(ZLibError::Inflate(ZLibCode::DataError)));
    assert_eq!(decompress(&[1, 2, 3, 4]), Err(ZLibError::Inflate(ZLibCode::DataError)));
    assert!(decompress(&ONE_TO_EIGHT[..10]).is_err());
    assert!(decompress(&[]).is_err());
}

#[test]
fn parse_header_fields() {
    let a = parse(&file(32, 0, &[])).unwrap();
    assert_eq!(a.size(), Vec2 { x: 4, y: 2 });
    assert_eq!(a.pixel_size, Vec2 { x: 2, y: 3 });
    assert_eq!(a.grid_offset, Vec2 { x: -4, y: 5 });
    assert_eq!(a.grid_size, Vec2 { x: 16, y: 8 });
    assert_eq!(a.color_mode, ColorMode::Rgba);
    assert!(a.frames.is_empty() && a.layers.is_empty() && a.palette.is_empty());
    assert_eq!(parse(&file(8, 0, &[])).unwrap().color_mode, ColorMode::Indexed);
}

#[test]
fn parse_header_errors() {
    assert_eq!(parse(&[0; 100]).unwrap_err(), AseError::UnexpectedEof);
    let mut bad = file(32, 0, &[]);
    bad[4] = 0;
    assert_eq!(parse(&bad).unwrap_err(), AseError::InvalidMagic);
    assert_eq!(parse(&file(16, 0, &[])).unwrap_err(), AseError::UnknownColorDepth(16));
    // One frame is declared but none follows.
    let mut short = header(1, 4, 2, 32, 0);
    short.extend_from_slice(&[0; 8]);
    assert_eq!(parse(&short).unwrap_err(), AseError::UnexpectedEof);
}

#[test]
fn parse_frames() {
    let f = file(32, 0, &[frame(100, &[]), frame(250, &[chunk(0x2020, &[1, 2, 3])])]);
    let a = parse(&f).unwrap();
    assert_eq!(a.frames.len(), 2);
    assert_eq!(a.frames[0].duration_ms, 100);
    assert_eq!(a.frames[1].duration_ms, 250);
}

#[test]
fn parse_frame_errors() {
    let mut fr = frame(100, &[]);
    fr[4] = 0;
    assert_eq!(parse(&file(32, 0, &[fr])).unwrap_err(), AseError::InvalidFrameMagic);
    let mut tiny = Vec::new();
    dword(&mut tiny, 3);
    word(&mut tiny, 0x2004);
    let fr = frame(0, &[tiny]);
    assert_eq!(parse(&file(32, 0, &[fr])).unwrap_err(), AseError::ChunkTooSmall(3));
    let mut long = chunk(0x2020, &[1, 2, 3]);
    long[0] = 200;
    let fr = frame(0, &[long]);
    assert_eq!(parse(&file(32, 0, &[fr])).unwrap_err(), AseError::UnexpectedEof);
}

#[test]
fn parse_old_chunk_count() {
    // A zero new chunk count falls back on the old one.
    let mut fr = frame(7, &[chunk(0x2004, &layer(1, 0, 255, "bg"))]);
    fr[12..16].copy_from_slice(&[0, 0, 0, 0]);
    let a = parse(&file(32, 0, &[fr])).unwrap();
    assert_eq!(a.layers.len(), 1);
}

#[test]
fn parse_layers() {
    let fr = frame(0, &[
        chunk(0x2004, &layer(1, 0, 255, "background")),
        chunk(0x2004, &layer(0, 1, 128, "group")),
    ]);
    let a = parse(&file(32, 0, &[fr])).unwrap();
    assert_eq!(a.layers.len(), 2);
    assert_eq!(a.layers[0].name, "background");
    assert_eq!(a.layers[0].kind, LayerKind::Normal);
    assert!(a.layers[0].visible);
    assert_eq!(a.layers[0].opacity, 255);
    assert_eq!(a.layers[0].uuid, None);
    assert_eq!(a.layers[1].kind, LayerKind::Group);
    assert!(!a.layers[1].visible);
    assert_eq!(a.layers[1].opacity, 128);
    assert_eq!(a.layer("group").unwrap().opacity, 128);
    assert!(a.layer("missing").is_none());
}

#[test]
fn parse_layer_with_uuid_and_tileset() {
    let mut d = layer(1, 2, 255, "tiles");
    dword(&mut d, 9); // tileset index
    d.extend_from_slice(&0x0102_0304_0506_0708_090a_0b0c_0d0e_0f10u128.to_le_bytes());
    let fr = frame(0, &[chunk(0x2004, &d)]);
    let a = parse(&file(32, 4, &[fr])).unwrap();
    assert_eq!(a.layers[0].kind, LayerKind::Tilemap);
    assert_eq!(a.layers[0].uuid, Some(0x0102_0304_0506_0708_090a_0b0c_0d0e_0f10));
}

#[test]
fn parse_layer_errors() {
    let fr = frame(0, &[chunk(0x2004, &layer(0, 7, 0, "x"))]);
    assert_eq!(parse(&file(32, 0, &[fr])).unwrap_err(), AseError::UnknownLayerType(7));
    let mut d = layer(0, 0, 0, "");
    d.truncate(16);
    word(&mut d, 2);
    d.extend_from_slice(&[0xff, 0xfe]);
    let fr = frame(0, &[chunk(0x2004, &d)]);
    assert_eq!(parse(&file(32, 0, &[fr])).unwrap_err(), AseError::InvalidUtf8);
    let mut d = layer(0, 0, 0, "");
    d.truncate(15);
    let fr = frame(0, &[chunk(0x2004, &d)]);
    assert_eq!(parse(&file(32, 0, &[fr])).unwrap_err(), AseError::MissingStringLength);
    // The header says that layers have a UUID, but this one has none.
    let fr = frame(0, &[chunk(0x2004, &layer(0, 0, 0, "a"))]);
    assert_eq!(parse(&file(32, 4, &[fr])).unwrap_err(), AseError::UnexpectedEof);
}

#[test]
fn parse_raw_cels() {
    let pixels: Vec<u8> = (0..32).collect();
    let fr = frame(0, &[chunk(0x2005, &raw_cel(0, 4, 2, &pixels))]);
    let a = parse(&file(32, 0, &[fr])).unwrap();
    let cel = &a.frames[0].cels[0];
    assert_eq!(cel.frame_index, 0);
    assert_eq!(cel.layer_index, 0);
    assert_eq!(cel.pos, Vec2 { x: 1, y: -2 });
    assert_eq!(cel.opacity, 200);
    assert_eq!(cel.z_index, 3);
    match &cel.content {
        CelContent::Texture { texture } => {
            assert_eq!((texture.width, texture.height), (4, 2));
            assert_eq!(texture.pixels, pixels);
        },
        CelContent::Linked { .. } => panic!("expected pixels"),
    }
}

#[test]
fn parse_compressed_cels() {
    let fr = frame(0, &[chunk(0x2005, &compressed_cel(0, 2, 1, &ONE_TO_EIGHT))]);
    let a = parse(&file(32, 0, &[fr])).unwrap();
    let image = a.cel_texture(0, 0).unwrap();
    assert_eq!(image.pixels, vec![1, 2, 3, 4, 5, 6, 7, 8]);
    // Indexed sprites have one byte per pixel.
    let fr = frame(0, &[chunk(0x2005, &compressed_cel(0, 4, 2, &ONE_TO_EIGHT))]);
    assert!(parse(&file(8, 0, &[fr])).is_ok());
}

#[test]
fn parse_cel_errors() {
    let fr = frame(0, &[chunk(0x2005, &compressed_cel(0, 3, 1, &ONE_TO_EIGHT))]);
    assert_eq!(parse(&file(32, 0, &[fr])).unwrap_err(), AseError::CelSizeMismatch);
    let fr = frame(0, &[chunk(0x2005, &compressed_cel(0, 2, 1, &[1, 2, 3, 4]))]);
    assert_eq!(
        parse(&file(32, 0, &[fr])).unwrap_err(),
        AseError::Decompress(ZLibError::Inflate(ZLibCode::DataError))
    );
    let fr = frame(0, &[chunk(0x2005, &cel_header(0, 0, 0, 0, 3, 0))]);
    assert_eq!(parse(&file(32, 0, &[fr])).unwrap_err(), AseError::TilemapCel);
    let fr = frame(0, &[chunk(0x2005, &cel_header(0, 0, 0, 0, 9, 0))]);
    assert_eq!(parse(&file(32, 0, &[fr])).unwrap_err(), AseError::UnknownCelType(9));
    let fr = frame(0, &[chunk(0x2005, &cel_header(0, 0, 0, 0, 0, 0))]);
    assert_eq!(parse(&file(32, 0, &[fr])).unwrap_err(), AseError::UnexpectedEof);
}

#[test]
fn linked_cels_resolve_to_their_texture() {
    let pixels = [9u8; 8];
    let frames = [
        frame(0, &[chunk(0x2005, &raw_cel(0, 1, 2, &pixels))]),
        frame(0, &[chunk(0x2005, &linked_cel(0, 0))]),
        frame(0, &[chunk(0x2005, &linked_cel(0, 1))]),
        frame(0, &[]),
    ];
    let a = parse(&file(32, 0, &frames)).unwrap();
    assert!(matches!(a.frames[1].cels[0].content, CelContent::Linked { linked_frame_index: 0 }));
    assert_eq!(a.cel_lookup(0, 2), CelLookup::Found { frame: 0, cel: 0 });
    assert_eq!(a.cel_texture(0, 2).unwrap().pixels, pixels.to_vec());
    assert_eq!(a.cel_lookup(0, 3), CelLookup::Missing);
    assert!(a.cel_texture(0, 3).is_none());
    assert_eq!(a.cel_lookup(1, 0), CelLookup::Missing);
    assert_eq!(a.cel_lookup(0, 9), CelLookup::OutOfRange);
}

#[test]
fn linked_cels_in_a_cycle() {
    let frames = [
        frame(0, &[chunk(0x2005, &linked_cel(0, 1))]),
        frame(0, &[chunk(0x2005, &linked_cel(0, 0))]),
    ];
    let a = parse(&file(32, 0, &frames)).unwrap();
    assert_eq!(a.cel_lookup(0, 0), CelLookup::Cycle);
    let frames = [frame(0, &[chunk(0x2005, &linked_cel(0, 5))])];
    let a = parse(&file(32, 0, &frames)).unwrap();
    assert_eq!(a.cel_lookup(0, 0), CelLookup::OutOfRange);
}

fn tag(from: u16, to: u16, dir: u8, repeat: u16, rgb: [u8; 3], name: &str) -> Vec<u8> {
    let mut d = Vec::new();
    word(&mut d, from);
    word(&mut d, to);
    d.push(dir);
    word(&mut d, repeat);
    d.extend_from_slice(&[0; 6]);
    d.extend_from_slice(&rgb);
    d.push(0);
    string(&mut d, name);
    d
}

fn tags_chunk(tags: &[Vec<u8>]) -> Vec<u8> {
    let mut d = Vec::new();
    word(&mut d, tags.len() as u16);
    d.extend_from_slice(&[0; 8]);
    for t in tags {
        d.extend_from_slice(t);
    }
    chunk(0x2018, &d)
}

#[test]
fn parse_tags() {
    let fr = frame(0, &[tags_chunk(&[tag(2, 5, 1, 3, [10, 20, 30], "walk"), tag(0, 0, 2, 0, [1, 1, 1], "idle")])]);
    let a = parse(&file(32, 0, &[fr])).unwrap();
    assert_eq!(a.tags.len(), 2);
    assert_eq!(a.tags[0].name, "walk");
    assert_eq!(a.tags[0].color, Color::from_rgb(10, 20, 30));
    // The range covers the first to the last frame, both included.
    assert_eq!(a.tags[0].frames, 2..6);
    assert_eq!(a.tags[0].animation_direction, AnimationDirection::Reverse);
    assert_eq!(a.tags[0].repeat_count, 3);
    assert_eq!(a.tags[1].animation_direction, AnimationDirection::PingPong);
    assert_eq!(a.tags[1].frames, 0..1);
    let copy = a.tags[0].clone();
    assert_eq!(copy.frames, a.tags[0].frames);
    assert_eq!(copy.name, a.tags[0].name);
}

#[test]
fn parse_tag_errors() {
    let fr = frame(0, &[tags_chunk(&[tag(5, 2, 0, 0, [0, 0, 0], "back")])]);
    assert_eq!(parse(&file(32, 0, &[fr])).unwrap_err(), AseError::TagFramesReversed);
    let fr = frame(0, &[tags_chunk(&[tag(0, 1, 4, 0, [0, 0, 0], "odd")])]);
    assert_eq!(parse(&file(32, 0, &[fr])).unwrap_err(), AseError::UnknownAnimationDirection(4));
    let fr = frame(0, &[tags_chunk(&[tag(0, u16::MAX, 0, 0, [0, 0, 0], "all")])]);
    assert_eq!(parse(&file(32, 0, &[fr])).unwrap_err(), AseError::TagFrameOutOfRange);
}

#[test]
fn parse_tag_from_two_to_three() {
    let mut h = [0u8; 128];
    h[4] = 0xE0;
    h[5] = 0xA5;
    h[6] = 1;
    h[12] = 32;
    let mut f = [0u8; 16];
    f[4] = 0xFA;
    f[5] = 0xF1;
    f[6] = 1;
    let c = [35u8, 0, 0, 0, 0x18, 0x20, 1, 0, 0, 0, 0, 0, 0, 0, 0, 0, 2, 0, 3, 0, 0, 0, 0, 0, 0, 0, 0, 0, 0, 0, 0, 0, 0, 0, 0];
    let bytes: Vec<u8> = [&h[..], &f[..], &c[..]].concat();
    let a = parse(&bytes).unwrap();
    assert_eq!(a.tags.len(), 1);
    assert_eq!(a.tags[0].frames, 2u16..4u16);
    assert_eq!(a.tags[0].name, "");
    assert_eq!(a.tags[0].animation_direction, AnimationDirection::Forward);
    assert_eq!(a.tags[0].repeat_count, 0);
    assert_eq!(a.tags[0].color, Color::from_rgba(0, 0, 0, 255));
    assert_eq!(a.frames.len(), 1);
    assert!(a.frames[0].cels.is_empty());
    assert_eq!(a.color_mode, ColorMode::Rgba);
    assert_eq!(a.size(), Vec2 { x: 0, y: 0 });
}

fn rect_bytes(out: &mut Vec<u8>, x: i32, y: i32, w: u32, h: u32) {
    dword(out, x as u32);
    dword(out, y as u32);
    dword(out, w);
    dword(out, h);
}

#[test]
fn parse_slices() {
    let mut d = Vec::new();
    dword(&mut d, 2); // keys
    dword(&mut d, 3); // nine patch and pivot
    dword(&mut d, 0);
    string(&mut d, "button");
    for k in 0..2 {
        dword(&mut d, k);
        rect_bytes(&mut d, -1 - k as i32, 2, 10, 20);
        rect_bytes(&mut d, 1, 1, 8, 18);
        dword(&mut d, 5);
        dword(&mut d, (-6i32) as u32);
    }
    let fr = frame(0, &[chunk(0x2022, &d)]);
    let a = parse(&file(32, 0, &[fr])).unwrap();
    assert_eq!(a.slices.len(), 2);
    let s = a.slice_by_name("button").unwrap();
    assert_eq!(s.rect, Rect { pos: Vec2 { x: -1, y: 2 }, size: Vec2 { x: 10, y: 20 } });
    assert_eq!(s.nine_patch, Some(Rect { pos: Vec2 { x: 1, y: 1 }, size: Vec2 { x: 8, y: 18 } }));
    assert_eq!(s.pivot, Some(Vec2 { x: 5, y: -6 }));
    assert_eq!(a.slices[1].rect.pos.x, -2);
    assert!(a.slice_by_name("none").is_none());
}

#[test]
fn parse_plain_slices_and_truncated_keys() {
    let mut d = Vec::new();
    dword(&mut d, 1);
    dword(&mut d, 0);
    dword(&mut d, 0);
    string(&mut d, "s");
    dword(&mut d, 0);
    rect_bytes(&mut d, 0, 0, 1, 1);
    let fr = frame(0, &[chunk(0x2022, &d)]);
    let a = parse(&file(32, 0, &[fr])).unwrap();
    assert_eq!(a.slices[0].nine_patch, None);
    assert_eq!(a.slices[0].pivot, None);
    d.truncate(d.len() - 1);
    let fr = frame(0, &[chunk(0x2022, &d)]);
    assert_eq!(parse(&file(32, 0, &[fr])).unwrap_err(), AseError::UnexpectedEof);
}

#[test]
fn parse_palettes() {
    let mut d = Vec::new();
    dword(&mut d, 4); // size
    dword(&mut d, 1); // first
    dword(&mut d, 2); // last, included
    d.extend_from_slice(&[0; 8]);
    word(&mut d, 0);
    d.extend_from_slice(&[1, 2, 3, 4]);
    word(&mut d, 1);
    d.extend_from_slice(&[5, 6, 7, 8]);
    string(&mut d, "skin");
    let fr = frame(0, &[chunk(0x2019, &d)]);
    let a = parse(&file(8, 0, &[fr])).unwrap();
    assert_eq!(a.palette.len(), 4);
    assert_eq!(a.palette[0].color, Color::black());
    assert_eq!(a.palette[0].name, None);
    assert_eq!(a.palette[1].color, Color::from_rgba(1, 2, 3, 4));
    assert_eq!(a.palette[2].color, Color::from_rgba(5, 6, 7, 8));
    assert_eq!(a.palette[2].name.as_deref(), Some("skin"));
    assert_eq!(a.palette[3].color, Color::black());
}

#[test]
fn parse_palette_writes_the_last_index() {
    let mut d = Vec::new();
    dword(&mut d, 3);
    dword(&mut d, 2);
    dword(&mut d, 2);
    d.extend_from_slice(&[0; 8]);
    word(&mut d, 0);
    d.extend_from_slice(&[9, 8, 7, 6]);
    let fr = frame(0, &[chunk(0x2019, &d)]);
    let a = parse(&file(8, 0, &[fr])).unwrap();
    assert_eq!(a.palette.len(), 3);
    assert_eq!(a.palette[2].color, Color::from_rgba(9, 8, 7, 6));
    assert_eq!(a.palette[1].color, Color::black());
}

#[test]
fn parse_palette_out_of_bounds() {
    let mut d = Vec::new();
    dword(&mut d, 1);
    dword(&mut d, 0);
    dword(&mut d, 1);
    d.extend_from_slice(&[0; 8]);
    for _ in 0..2 {
        word(&mut d, 0);
        d.extend_from_slice(&[1, 2, 3, 4]);
    }
    let fr = frame(0, &[chunk(0x2019, &d)]);
    assert_eq!(parse(&file(8, 0, &[fr])).unwrap_err(), AseError::PaletteIndexOutOfBounds);
}

#[test]
fn parse_old_palettes() {
    let mut d = Vec::new();
    word(&mut d, 2); // packets
    d.extend_from_slice(&[1, 1, 10, 20, 30]);
    d.extend_from_slice(&[0, 1, 40, 50, 60]);
    let fr = frame(0, &[chunk(0x0004, &d)]);
    let a = parse(&file(8, 0, &[fr])).unwrap();
    assert_eq!(a.palette.len(), 2);
    assert_eq!(a.palette[0].color, Color::from_rgb(40, 50, 60));
    assert_eq!(a.palette[1].color, Color::from_rgb(10, 20, 30));
}

#[test]
fn parse_skipped_chunks() {
    let mut profile = Vec::new();
    word(&mut profile, 2); // ICC
    word(&mut profile, 0);
    profile.extend_from_slice(&[0; 12]);
    dword(&mut profile, 3);
    profile.extend_from_slice(&[1, 2, 3]);
    let mask = vec![0u8; 18];
    let fr = frame(0, &[chunk(0x2007, &profile), chunk(0x2016, &mask), chunk(0x7777, &[1])]);
    assert!(parse(&file(32, 0, &[fr])).is_ok());
    profile.truncate(profile.len() - 1);
    let fr = frame(0, &[chunk(0x2007, &profile)]);
    assert_eq!(parse(&file(32, 0, &[fr])).unwrap_err(), AseError::UnexpectedEof);
}
