//! Aseprite file parsing.
//!
//! This module is not complete. Many Aseprite features are not supported.
//!
//! Follows the Aseprite file specifications
//! (`docs/ase-file-specs.md` in the Aseprite repository). All values are
//! stored little-endian.

use vstd::prelude::*;
use vstd::utf8::{valid_utf8, decode_utf8};
use crate::asset::ase::zlib::{ZLibError, decompress, decompress_spec};
use crate::asset::ase::{
    Layer, LayerKind, LayerModel, Tag, TagModel, AnimationDirection, Slice, SliceModel,
    PaletteEntry, PaletteEntryModel, Cel, CelModel, CelContent, CelContentModel, CelImage,
    Frame, FrameModel, Aseprite, AsepriteModel, ColorMode,
};
use crate::math::{Color, Rect, Vec2};
use crate::math::color::rgba8;

verus! {

/// An error while parsing an Aseprite file.
///
/// The first group of variants are malformed-data errors. The second group
/// are inputs that the reader does not handle: a caller that wants to behave
/// like a failed assertion should treat them as fatal.
#[derive(Clone, Copy, PartialEq, Eq, Structural, Hash, Debug)]
pub enum AseError {
    /// The data ended before a value could be read.
    UnexpectedEof,
    /// The file header does not start with the Aseprite magic number.
    InvalidMagic,
    /// The color depth is neither 32 (RGBA) nor 8 (indexed).
    UnknownColorDepth(u16),
    /// A frame header does not hold the frame magic number.
    InvalidFrameMagic,
    /// A layer has an unknown type.
    UnknownLayerType(u16),
    /// A cel has an unknown type.
    UnknownCelType(u16),
    /// A tag has an unknown animation direction.
    UnknownAnimationDirection(u8),
    /// A string is not valid UTF-8.
    InvalidUtf8,
    /// A string's length field is missing.
    MissingStringLength,
    /// A chunk declares a size smaller than its own header.
    ChunkTooSmall(u32),
    /// A cel holds a tilemap, which is not supported.
    TilemapCel,
    /// A compressed cel could not be decompressed.
    Decompress(ZLibError),
    /// A decompressed cel does not hold `width * height` pixels.
    CelSizeMismatch,
    /// A tag ends before it starts.
    TagFramesReversed,
    /// A tag ends at the last frame number, so the frame after it has no
    /// number.
    TagFrameOutOfRange,
    /// A palette chunk writes past the palette's declared size.
    PaletteIndexOutOfBounds,
}

// Little-endian values

/// The unsigned 16-bit value stored at `p`.
pub open spec fn le_u16(d: Seq<u8>, p: int) -> u16 {
    (d[p] as int + d[p + 1] as int * 0x100) as u16
}

/// The unsigned 32-bit value stored at `p`.
pub open spec fn le_u32(d: Seq<u8>, p: int) -> u32 {
    (le_u16(d, p) as int + le_u16(d, p + 2) as int * 0x1_0000) as u32
}

/// The unsigned 64-bit value stored at `p`.
pub open spec fn le_u64(d: Seq<u8>, p: int) -> u64 {
    (le_u32(d, p) as int + le_u32(d, p + 4) as int * 0x1_0000_0000) as u64
}

/// The unsigned 128-bit value stored at `p`.
pub open spec fn le_u128(d: Seq<u8>, p: int) -> u128 {
    (le_u64(d, p) as int + le_u64(d, p + 8) as int * 0x1_0000_0000_0000_0000) as u128
}

/// The signed 16-bit value stored at `p`.
pub open spec fn le_i16(d: Seq<u8>, p: int) -> i16 {
    le_u16(d, p) as i16
}

/// The signed 32-bit value stored at `p`.
pub open spec fn le_i32(d: Seq<u8>, p: int) -> i32 {
    le_u32(d, p) as i32
}

/// The string stored at `p`: a 16-bit byte length followed by UTF-8 bytes.
/// On success, also the position after it.
pub open spec fn spec_string(d: Seq<u8>, p: int) -> Result<(Seq<char>, int), AseError> {
    if p + 2 > d.len() {
        Err(AseError::MissingStringLength)
    } else {
        let n = le_u16(d, p) as int;
        if p + 2 + n > d.len() {
            Err(AseError::UnexpectedEof)
        } else {
            let bytes = d.subrange(p + 2, p + 2 + n);
            if valid_utf8(bytes) {
                Ok((decode_utf8(bytes), p + 2 + n))
            } else {
                Err(AseError::InvalidUtf8)
            }
        }
    }
}

/// Decodes UTF-8 bytes into a string with `String::from_utf8`.
///
/// Trusted: the standard library accepts exactly the valid UTF-8 byte
/// sequences, and the string then holds the characters that they encode.
#[verifier::external_body]
fn utf8_string(bytes: Vec<u8>) -> (r: Option<String>)
    ensures
        r is Some <==> valid_utf8(bytes@),
        r matches Some(s) ==> s@ == decode_utf8(bytes@),
{
    String::from_utf8(bytes).ok()
}

/// A position in a byte buffer that reads values and moves forwards.
///
/// Like a cursor over the buffer, the position may move past the end, after
/// which every read fails.
pub(crate) struct Reader<'a> {
    pub(crate) data: &'a [u8],
    pub(crate) pos: u64,
}

impl<'a> Reader<'a> {
    pub(crate) fn new(data: &'a [u8]) -> (r: Self)
        ensures
            r.data@ == data@,
            r.pos == 0,
    {
        Reader { data, pos: 0 }
    }

    /// Moves past `n` bytes, returning the position of the first of them, if
    /// the buffer holds them.
    fn take(&mut self, n: u64) -> (r: Result<usize, AseError>)
        ensures
            final(self).data@ == old(self).data@,
            match r {
                Ok(p) => {
                    &&& old(self).pos + n <= old(self).data@.len()
                    &&& p == old(self).pos
                    &&& final(self).pos == old(self).pos + n
                },
                Err(e) => {
                    &&& old(self).pos + n > old(self).data@.len()
                    &&& e == AseError::UnexpectedEof
                    &&& final(self).pos == old(self).pos
                },
            },
    {
        let len = self.data.len() as u64;
        if self.pos <= len && n <= len - self.pos {
            let p = self.pos as usize;
            self.pos = self.pos + n;
            Ok(p)
        } else {
            Err(AseError::UnexpectedEof)
        }
    }

    /// Moves `n` bytes forwards, even past the end.
    pub(crate) fn skip(&mut self, n: u64)
        requires
            old(self).pos + n <= u64::MAX,
        ensures
            final(self).data@ == old(self).data@,
            final(self).pos == old(self).pos + n,
    {
        self.pos = self.pos + n;
    }

    pub(crate) fn read_byte(&mut self) -> (r: Result<u8, AseError>)
        ensures
            final(self).data@ == old(self).data@,
            match r {
                Ok(v) => {
                    &&& old(self).pos + 1 <= old(self).data@.len()
                    &&& v == old(self).data@[old(self).pos as int]
                    &&& final(self).pos == old(self).pos + 1
                },
                Err(e) => old(self).pos + 1 > old(self).data@.len() && e == AseError::UnexpectedEof,
            },
    {
        let p = self.take(1)?;
        Ok(self.data[p])
    }

    pub(crate) fn read_word(&mut self) -> (r: Result<u16, AseError>)
        ensures
            final(self).data@ == old(self).data@,
            match r {
                Ok(v) => {
                    &&& old(self).pos + 2 <= old(self).data@.len()
                    &&& v == le_u16(old(self).data@, old(self).pos as int)
                    &&& final(self).pos == old(self).pos + 2
                },
                Err(e) => old(self).pos + 2 > old(self).data@.len() && e == AseError::UnexpectedEof,
            },
    {
        let p = self.take(2)?;
        Ok(self.data[p] as u16 + (self.data[p + 1] as u16) * 0x100)
    }

    pub(crate) fn read_dword(&mut self) -> (r: Result<u32, AseError>)
        ensures
            final(self).data@ == old(self).data@,
            match r {
                Ok(v) => {
                    &&& old(self).pos + 4 <= old(self).data@.len()
                    &&& v == le_u32(old(self).data@, old(self).pos as int)
                    &&& final(self).pos == old(self).pos + 4
                },
                Err(e) => old(self).pos + 4 > old(self).data@.len() && e == AseError::UnexpectedEof,
            },
    {
        let p = self.take(4)?;
        let lo = self.data[p] as u32 + (self.data[p + 1] as u32) * 0x100;
        let hi = self.data[p + 2] as u32 + (self.data[p + 3] as u32) * 0x100;
        Ok(lo + hi * 0x1_0000)
    }

    pub(crate) fn read_uuid(&mut self) -> (r: Result<u128, AseError>)
        ensures
            final(self).data@ == old(self).data@,
            match r {
                Ok(v) => {
                    &&& old(self).pos + 16 <= old(self).data@.len()
                    &&& v == le_u128(old(self).data@, old(self).pos as int)
                    &&& final(self).pos == old(self).pos + 16
                },
                Err(e) => old(self).pos + 16 > old(self).data@.len() && e == AseError::UnexpectedEof,
            },
    {
        let p = self.take(16)?;
        let d = self.data;
        let len = d.len();
        let mut words: [u128; 8] = [0; 8];
        let mut i: usize = 0;
        while i < 8
            invariant
                0 <= i <= 8,
                p + 16 <= d@.len(),
                len == d@.len(),
                forall|j: int| 0 <= j < i ==> words[j] as int == le_u16(d@, p + 2 * j) as int,
            decreases 8 - i,
        {
            words[i] = d[p + 2 * i] as u128 + (d[p + 2 * i + 1] as u128) * 0x100;
            i = i + 1;
        }
        let lo = words[0] + words[1] * 0x1_0000 + words[2] * 0x1_0000_0000 + words[3] * 0x1_0000_0000_0000;
        let hi = words[4] + words[5] * 0x1_0000 + words[6] * 0x1_0000_0000 + words[7] * 0x1_0000_0000_0000;
        Ok(lo + hi * 0x1_0000_0000_0000_0000)
    }

    pub(crate) fn read_short(&mut self) -> (r: Result<i16, AseError>)
        ensures
            final(self).data@ == old(self).data@,
            match r {
                Ok(v) => {
                    &&& old(self).pos + 2 <= old(self).data@.len()
                    &&& v == le_i16(old(self).data@, old(self).pos as int)
                    &&& final(self).pos == old(self).pos + 2
                },
                Err(e) => old(self).pos + 2 > old(self).data@.len() && e == AseError::UnexpectedEof,
            },
    {
        let v = self.read_word()?;
        Ok(v as i16)
    }

    pub(crate) fn read_long(&mut self) -> (r: Result<i32, AseError>)
        ensures
            final(self).data@ == old(self).data@,
            match r {
                Ok(v) => {
                    &&& old(self).pos + 4 <= old(self).data@.len()
                    &&& v == le_i32(old(self).data@, old(self).pos as int)
                    &&& final(self).pos == old(self).pos + 4
                },
                Err(e) => old(self).pos + 4 > old(self).data@.len() && e == AseError::UnexpectedEof,
            },
    {
        let v = self.read_dword()?;
        Ok(v as i32)
    }

    /// Reads the `n` bytes at the position.
    pub(crate) fn read_bytes(&mut self, n: u64) -> (r: Result<Vec<u8>, AseError>)
        ensures
            final(self).data@ == old(self).data@,
            match r {
                Ok(v) => {
                    &&& old(self).pos + n <= old(self).data@.len()
                    &&& v@ == old(self).data@.subrange(old(self).pos as int, old(self).pos + n)
                    &&& final(self).pos == old(self).pos + n
                },
                Err(e) => old(self).pos + n > old(self).data@.len() && e == AseError::UnexpectedEof,
            },
    {
        match self.take(n) {
            Ok(p) => {
                let len = self.data.len();
                let end = self.pos as usize;
                proof {
                    assert(end <= len);
                }
                Ok(copy_range(self.data, p, end))
            },
            Err(e) => Err(e),
        }
    }

    /// Reads every byte from the position to the end.
    pub(crate) fn read_to_end(&mut self) -> (r: Vec<u8>)
        ensures
            final(self).data@ == old(self).data@,
            old(self).pos <= old(self).data@.len() ==> r@ == old(self).data@.subrange(
                old(self).pos as int,
                old(self).data@.len() as int,
            ),
            old(self).pos > old(self).data@.len() ==> r@ == Seq::<u8>::empty(),
    {
        let len = self.data.len();
        if self.pos < len as u64 {
            let p = self.pos as usize;
            self.pos = len as u64;
            copy_range(self.data, p, len)
        } else {
            Vec::new()
        }
    }

    /// Reads a string value.
    pub(crate) fn read_string(&mut self) -> (r: Result<String, AseError>)
        ensures
            final(self).data@ == old(self).data@,
            match r {
                Ok(s) => spec_string(old(self).data@, old(self).pos as int) == Ok::<(Seq<char>, int), AseError>((s@, final(self).pos as int)),
                Err(e) => spec_string(old(self).data@, old(self).pos as int) == Err::<(Seq<char>, int), AseError>(e),
            },
    {
        let len = match self.read_word() {
            Ok(len) => len,
            Err(_) => return Err(AseError::MissingStringLength),
        };
        let bytes = self.read_bytes(len as u64)?;
        match utf8_string(bytes) {
            Some(s) => Ok(s),
            None => Err(AseError::InvalidUtf8),
        }
    }
}

/// Copies `data[start..end]` into a new vector.
pub(crate) fn copy_range(data: &[u8], start: usize, end: usize) -> (r: Vec<u8>)
    requires
        start <= end <= data@.len(),
    ensures
        r@ == data@.subrange(start as int, end as int),
{
    let mut v: Vec<u8> = Vec::new();
    let mut i = start;
    while i < end
        invariant
            start <= i <= end <= data@.len(),
            v@ == data@.subrange(start as int, i as int),
        decreases end - i,
    {
        v.push(data[i]);
        i = i + 1;
    }
    v
}

// Chunks

/// Header flag: layers hold a UUID.
pub const HEADER_FLAG_LAYERS_HAVE_UUID: u32 = 4;
/// Layer flag: the layer is visible.
pub const LAYER_FLAG_VISIBLE: u16 = 1;

/// The kind of layer that a layer type stands for.
pub open spec fn layer_kind(typ: u16) -> Option<LayerKind> {
    if typ == 0 {
        Some(LayerKind::Normal)
    } else if typ == 1 {
        Some(LayerKind::Group)
    } else if typ == 2 {
        Some(LayerKind::Tilemap)
    } else {
        None
    }
}

/// A layer chunk: flags (word), type (word), child level (word), two unused
/// words, blend mode (word), opacity (byte), three unused bytes, name
/// (string), the tileset index (dword) for tilemap layers, and the UUID when
/// the header says that layers have one.
pub open spec fn spec_layer(d: Seq<u8>, header_flags: u32) -> Result<LayerModel, AseError> {
    if d.len() < 13 {
        Err(AseError::UnexpectedEof)
    } else {
        let flags = le_u16(d, 0);
        let typ = le_u16(d, 2);
        let opacity = d[12];
        match spec_string(d, 16) {
            Err(e) => Err(e),
            Ok((name, p)) => {
                let q = if typ == 2 { p + 4 } else { p };
                let has_uuid = header_flags & HEADER_FLAG_LAYERS_HAVE_UUID != 0;
                let end = if has_uuid { q + 16 } else { q };
                if end > d.len() {
                    Err(AseError::UnexpectedEof)
                } else {
                    match layer_kind(typ) {
                        None => Err(AseError::UnknownLayerType(typ)),
                        Some(kind) => Ok(LayerModel {
                            name,
                            kind,
                            visible: flags & LAYER_FLAG_VISIBLE != 0,
                            opacity,
                            uuid: if has_uuid { Some(le_u128(d, q)) } else { None },
                        }),
                    }
                }
            },
        }
    }
}

/// A parsed layer is visible exactly when bit 0 (value 1) of the chunk's
/// flags word is set, that is when the word's low byte is odd; the other
/// flag bits (editable, locked, ...) do not change it.
pub proof fn lemma_layer_visible_bit(d: Seq<u8>, header_flags: u32)
    ensures
        spec_layer(d, header_flags) is Ok ==> {
            &&& spec_layer(d, header_flags)->Ok_0.visible == (le_u16(d, 0) & 1u16 != 0)
            &&& spec_layer(d, header_flags)->Ok_0.visible == (d[0] % 2 == 1)
        },
{
    if spec_layer(d, header_flags) is Ok {
        let flags = le_u16(d, 0);
        let lo = d[0];
        let hi = d[1];
        assert(flags == lo as int + hi as int * 0x100);
        assert((flags & 1u16 != 0) == (flags % 2 == 1)) by (bit_vector);
    }
}

/// Parses a layer chunk.
fn parse_layer(data: &[u8], header_flags: u32) -> (r: Result<Layer, AseError>)
    requires
        data@.len() <= u32::MAX,
    ensures
        match r {
            Ok(l) => spec_layer(data@, header_flags) == Ok::<LayerModel, AseError>(l.deep_view()),
            Err(e) => spec_layer(data@, header_flags) == Err::<LayerModel, AseError>(e),
        },
{
    let mut r = Reader::new(data);
    let flags = r.read_word()?;
    let typ = r.read_word()?;
    let _child_level = r.read_word()?;
    r.skip(4);
    let _blend_mode = r.read_word()?;
    let opacity = r.read_byte()?;
    r.skip(3);
    let name = r.read_string()?;
    if typ == 2 {
        let _tileset_index = r.read_dword()?;
    }
    let uuid = if header_flags & HEADER_FLAG_LAYERS_HAVE_UUID == 0 {
        None
    } else {
        Some(r.read_uuid()?)
    };
    let kind = match typ {
        0 => LayerKind::Normal,
        1 => LayerKind::Group,
        2 => LayerKind::Tilemap,
        _ => return Err(AseError::UnknownLayerType(typ)),
    };
    Ok(Layer { name, kind, visible: flags & LAYER_FLAG_VISIBLE != 0, opacity, uuid })
}

/// `acc` followed by the items of `rest`, or the error of `rest`.
pub open spec fn prepend<T>(acc: Seq<T>, rest: Result<Seq<T>, AseError>) -> Result<Seq<T>, AseError> {
    match rest {
        Ok(items) => Ok(acc + items),
        Err(e) => Err(e),
    }
}

proof fn lemma_prepend_step<T>(acc: Seq<T>, x: T, rest: Result<Seq<T>, AseError>)
    ensures
        prepend(acc, prepend(seq![x], rest)) == prepend(acc.push(x), rest),
{
    match rest {
        Ok(items) => {
            assert(acc + (seq![x] + items) =~= acc.push(x) + items);
        },
        Err(e) => {},
    }
}

proof fn lemma_push_deep_view<T: DeepView>(v: Vec<T>, prev: Vec<T>, x: T)
    requires
        v@ == prev@.push(x),
    ensures
        v.deep_view() == prev.deep_view().push(x.deep_view()),
{
    assert(v.deep_view() =~= prev.deep_view().push(x.deep_view()));
}

// Cel chunks

/// Cel type: raw pixels.
pub const CEL_TYPE_RAW_IMAGE_DATA: u16 = 0;
/// Cel type: a link to the cel of another frame.
pub const CEL_TYPE_LINKED_CEL: u16 = 1;
/// Cel type: zlib-compressed pixels.
pub const CEL_TYPE_COMPRESSED_IMAGE: u16 = 2;
/// Cel type: a compressed tilemap.
pub const CEL_TYPE_COMPRESSED_TILEMAP: u16 = 3;

/// The content of a cel chunk whose header (16 bytes) has been read.
pub open spec fn spec_cel_content(d: Seq<u8>, typ: u16, color_depth: u16) -> Result<CelContentModel, AseError> {
    if typ == CEL_TYPE_RAW_IMAGE_DATA {
        if d.len() < 20 {
            Err(AseError::UnexpectedEof)
        } else {
            Ok(CelContentModel::Texture {
                width: le_u16(d, 16),
                height: le_u16(d, 18),
                pixels: d.subrange(20, d.len() as int),
            })
        }
    } else if typ == CEL_TYPE_LINKED_CEL {
        if d.len() < 18 {
            Err(AseError::UnexpectedEof)
        } else {
            Ok(CelContentModel::Linked { linked_frame_index: le_u16(d, 16) as usize })
        }
    } else if typ == CEL_TYPE_COMPRESSED_IMAGE {
        if d.len() < 20 {
            Err(AseError::UnexpectedEof)
        } else {
            let width = le_u16(d, 16);
            let height = le_u16(d, 18);
            match decompress_spec(d.subrange(20, d.len() as int)) {
                Err(z) => Err(AseError::Decompress(z)),
                Ok(pixels) => {
                    if pixels.len() != width as int * height as int * color_depth as int / 8 {
                        Err(AseError::CelSizeMismatch)
                    } else {
                        Ok(CelContentModel::Texture { width, height, pixels })
                    }
                },
            }
        }
    } else if typ == CEL_TYPE_COMPRESSED_TILEMAP {
        Err(AseError::TilemapCel)
    } else {
        Err(AseError::UnknownCelType(typ))
    }
}

/// A cel chunk: layer index (word), x and y position (shorts), opacity
/// (byte), cel type (word), z-index (short), five unused bytes, then the
/// content, which depends on the type.
pub open spec fn spec_cel(d: Seq<u8>, frame_index: usize, color_depth: u16) -> Result<CelModel, AseError> {
    if d.len() < 11 {
        Err(AseError::UnexpectedEof)
    } else {
        match spec_cel_content(d, le_u16(d, 7), color_depth) {
            Err(e) => Err(e),
            Ok(content) => Ok(CelModel {
                frame_index,
                layer_index: le_u16(d, 0) as usize,
                pos: Vec2 { x: le_i16(d, 2), y: le_i16(d, 4) },
                opacity: d[6],
                z_index: le_i16(d, 9),
                content,
            }),
        }
    }
}

/// Parses a cel chunk.
fn parse_cel(data: &[u8], frame_index: usize, color_depth: u16) -> (r: Result<Cel, AseError>)
    requires
        data@.len() <= u32::MAX,
    ensures
        match r {
            Ok(c) => spec_cel(data@, frame_index, color_depth) == Ok::<CelModel, AseError>(c.deep_view()),
            Err(e) => spec_cel(data@, frame_index, color_depth) == Err::<CelModel, AseError>(e),
        },
{
    let mut r = Reader::new(data);
    let layer_index = r.read_word()?;
    let x = r.read_short()?;
    let y = r.read_short()?;
    let opacity = r.read_byte()?;
    let typ = r.read_word()?;
    let z_index = r.read_short()?;
    r.skip(5);
    let content = match typ {
        0 => {
            let width = r.read_word()?;
            let height = r.read_word()?;
            let pixels = r.read_to_end();
            CelContent::Texture { texture: CelImage { width, height, pixels } }
        },
        1 => {
            let linked = r.read_word()?;
            CelContent::Linked { linked_frame_index: linked as usize }
        },
        2 => {
            let width = r.read_word()?;
            let height = r.read_word()?;
            let compressed = r.read_to_end();
            let pixels = match decompress(compressed.as_slice()) {
                Ok(p) => p,
                Err(z) => return Err(AseError::Decompress(z)),
            };
            assert(width as int * height as int <= 0xffff * 0xffff) by (nonlinear_arith)
                requires
                    width <= 0xffff,
                    height <= 0xffff,
            ;
            let area = width as u64 * height as u64;
            assert(area as int * color_depth as int <= 0xffff_ffff * 0xffff) by (nonlinear_arith)
                requires
                    area <= 0xffff_ffff,
                    color_depth <= 0xffff,
            ;
            let expected = area * color_depth as u64 / 8;
            if pixels.len() as u64 != expected {
                return Err(AseError::CelSizeMismatch);
            }
            CelContent::Texture { texture: CelImage { width, height, pixels } }
        },
        3 => return Err(AseError::TilemapCel),
        _ => return Err(AseError::UnknownCelType(typ)),
    };
    Ok(Cel {
        frame_index,
        layer_index: layer_index as usize,
        pos: Vec2 { x, y },
        opacity,
        z_index,
        content,
    })
}

// Tag chunks

/// The animation direction that a tag's direction byte stands for.
pub open spec fn animation_direction(b: u8) -> Option<AnimationDirection> {
    if b == 0 {
        Some(AnimationDirection::Forward)
    } else if b == 1 {
        Some(AnimationDirection::Reverse)
    } else if b == 2 {
        Some(AnimationDirection::PingPong)
    } else if b == 3 {
        Some(AnimationDirection::PingPongReverse)
    } else {
        None
    }
}

/// `n` tags from `p`. Each is: first frame (word), last frame (word),
/// direction (byte), repeat count (word), six unused bytes, red, green and
/// blue (bytes), an unused byte, and the name (string). A tag covers the
/// frames from its first frame to its last frame, both included.
pub open spec fn spec_tag_list(d: Seq<u8>, p: int, n: nat) -> Result<Seq<TagModel>, AseError>
    decreases n,
{
    if n == 0 {
        Ok(seq![])
    } else if p + 16 > d.len() {
        Err(AseError::UnexpectedEof)
    } else {
        let from = le_u16(d, p);
        let to = le_u16(d, p + 2);
        let dir = d[p + 4];
        match spec_string(d, p + 17) {
            Err(e) => Err(e),
            Ok((name, q)) => {
                if to < from {
                    Err(AseError::TagFramesReversed)
                } else if to == u16::MAX {
                    Err(AseError::TagFrameOutOfRange)
                } else {
                    match animation_direction(dir) {
                        None => Err(AseError::UnknownAnimationDirection(dir)),
                        Some(animation_direction) => prepend(
                            seq![TagModel {
                                name,
                                color: rgba8(d[p + 13], d[p + 14], d[p + 15], 255),
                                frames_start: from,
                                frames_end: (to + 1) as u16,
                                animation_direction,
                                repeat_count: le_u16(d, p + 5),
                            }],
                            spec_tag_list(d, q, (n - 1) as nat),
                        ),
                    }
                }
            },
        }
    }
}

/// A tags chunk: the tag count (word), eight unused bytes, then the tags.
pub open spec fn spec_tags(d: Seq<u8>) -> Result<Seq<TagModel>, AseError> {
    if d.len() < 2 {
        Err(AseError::UnexpectedEof)
    } else {
        spec_tag_list(d, 10, le_u16(d, 0) as nat)
    }
}

/// Parses a tags chunk.
fn parse_tags(data: &[u8]) -> (r: Result<Vec<Tag>, AseError>)
    requires
        data@.len() <= u32::MAX,
    ensures
        match r {
            Ok(v) => spec_tags(data@) == Ok::<Seq<TagModel>, AseError>(v.deep_view()),
            Err(e) => spec_tags(data@) == Err::<Seq<TagModel>, AseError>(e),
        },
{
    let mut r = Reader::new(data);
    let count = r.read_word()?;
    r.skip(8);
    let mut tags: Vec<Tag> = Vec::new();
    let mut k: u16 = 0;
    proof {
        assert(tags.deep_view() =~= Seq::<TagModel>::empty());
        assert(Seq::<TagModel>::empty() + seq![] =~= Seq::<TagModel>::empty());
    }
    while k < count
        invariant
            r.data@ == data@,
            data@.len() <= u32::MAX,
            k <= count,
            r.pos <= data@.len() + 8,
            spec_tags(data@) == prepend(tags.deep_view(), spec_tag_list(data@, r.pos as int, (count - k) as nat)),
        decreases count - k,
    {
        let ghost p = r.pos as int;
        let ghost n = (count - k) as nat;
        let from = r.read_word()?;
        let to = r.read_word()?;
        let dir = r.read_byte()?;
        let repeat_count = r.read_word()?;
        r.skip(6);
        let red = r.read_byte()?;
        let green = r.read_byte()?;
        let blue = r.read_byte()?;
        r.skip(1);
        let name = r.read_string()?;
        if to < from {
            return Err(AseError::TagFramesReversed);
        }
        if to == u16::MAX {
            return Err(AseError::TagFrameOutOfRange);
        }
        let animation_direction = match dir {
            0 => AnimationDirection::Forward,
            1 => AnimationDirection::Reverse,
            2 => AnimationDirection::PingPong,
            3 => AnimationDirection::PingPongReverse,
            _ => return Err(AseError::UnknownAnimationDirection(dir)),
        };
        let tag = Tag {
            name,
            color: Color { r: red, g: green, b: blue, a: 255 },
            frames: std::ops::Range { start: from, end: to + 1 },
            animation_direction,
            repeat_count,
        };
        let ghost prev = tags;
        tags.push(tag);
        k = k + 1;
        proof {
            lemma_push_deep_view(tags, prev, tag);
            lemma_prepend_step(prev.deep_view(), tag.deep_view(), spec_tag_list(data@, r.pos as int, (count - k) as nat));
        }
    }
    proof {
        assert(tags.deep_view() + Seq::<TagModel>::empty() =~= tags.deep_view());
    }
    Ok(tags)
}

// Slice chunks

/// Slice flag: slices have a center patch.
pub const SLICE_FLAG_NINE_PATCH: u32 = 1;
/// Slice flag: slices have a pivot point.
pub const SLICE_FLAG_PIVOT: u32 = 2;

/// The length of a slice key with the given slice flags.
pub open spec fn slice_key_len(flags: u32) -> int {
    20 + (if flags & SLICE_FLAG_NINE_PATCH != 0 { 16int } else { 0 }) + (if flags & SLICE_FLAG_PIVOT != 0 {
        8int
    } else {
        0
    })
}

/// The rectangle stored at `p`: x and y (longs), width and height (dwords).
pub open spec fn spec_rect(d: Seq<u8>, p: int) -> Rect<i32, u32> {
    Rect { pos: Vec2 { x: le_i32(d, p), y: le_i32(d, p + 4) }, size: Vec2 { x: le_u32(d, p + 8), y: le_u32(d, p + 12) } }
}

/// `n` slice keys from `p`, each giving a slice named `name`. Each key is:
/// frame number (dword), the slice's rectangle, then the center patch
/// rectangle and the pivot point (two longs) when the flags say so.
pub open spec fn spec_slice_keys(d: Seq<u8>, p: int, n: nat, name: Seq<char>, flags: u32) -> Result<Seq<SliceModel>, AseError>
    decreases n,
{
    if n == 0 {
        Ok(seq![])
    } else if p + slice_key_len(flags) > d.len() {
        Err(AseError::UnexpectedEof)
    } else {
        let has_nine = flags & SLICE_FLAG_NINE_PATCH != 0;
        let pivot_at = if has_nine { p + 36 } else { p + 20 };
        let slice = SliceModel {
            name,
            rect: spec_rect(d, p + 4),
            nine_patch: if has_nine { Some(spec_rect(d, p + 20)) } else { None },
            pivot: if flags & SLICE_FLAG_PIVOT != 0 {
                Some(Vec2 { x: le_i32(d, pivot_at), y: le_i32(d, pivot_at + 4) })
            } else {
                None
            },
        };
        prepend(seq![slice], spec_slice_keys(d, p + slice_key_len(flags), (n - 1) as nat, name, flags))
    }
}

/// A slice chunk: the key count (dword), flags (dword), an unused dword,
/// the name (string), then the keys; each key gives a slice.
pub open spec fn spec_slices(d: Seq<u8>) -> Result<Seq<SliceModel>, AseError> {
    if d.len() < 8 {
        Err(AseError::UnexpectedEof)
    } else {
        match spec_string(d, 12) {
            Err(e) => Err(e),
            Ok((name, p)) => spec_slice_keys(d, p, le_u32(d, 0) as nat, name, le_u32(d, 4)),
        }
    }
}

/// Reads a rectangle.
fn read_rect(r: &mut Reader) -> (res: Result<Rect<i32, u32>, AseError>)
    ensures
        final(r).data@ == old(r).data@,
        match res {
            Ok(v) => {
                &&& old(r).pos + 16 <= old(r).data@.len()
                &&& v == spec_rect(old(r).data@, old(r).pos as int)
                &&& final(r).pos == old(r).pos + 16
            },
            Err(e) => old(r).pos + 16 > old(r).data@.len() && e == AseError::UnexpectedEof,
        },
{
    let x = r.read_long()?;
    let y = r.read_long()?;
    let w = r.read_dword()?;
    let h = r.read_dword()?;
    Ok(Rect { pos: Vec2 { x, y }, size: Vec2 { x: w, y: h } })
}

/// Parses a slice chunk.
fn parse_slices(data: &[u8]) -> (res: Result<Vec<Slice>, AseError>)
    requires
        data@.len() <= u32::MAX,
    ensures
        match res {
            Ok(v) => spec_slices(data@) == Ok::<Seq<SliceModel>, AseError>(v.deep_view()),
            Err(e) => spec_slices(data@) == Err::<Seq<SliceModel>, AseError>(e),
        },
{
    let mut r = Reader::new(data);
    let key_count = r.read_dword()?;
    let flags = r.read_dword()?;
    r.skip(4);
    let name = r.read_string()?;
    let mut slices: Vec<Slice> = Vec::new();
    let mut k: u32 = 0;
    proof {
        assert(slices.deep_view() =~= Seq::<SliceModel>::empty());
        assert(Seq::<SliceModel>::empty() + seq![] =~= Seq::<SliceModel>::empty());
    }
    while k < key_count
        invariant
            r.data@ == data@,
            data@.len() <= u32::MAX,
            k <= key_count,
            r.pos <= data@.len(),
            spec_slices(data@) == prepend(
                slices.deep_view(),
                spec_slice_keys(data@, r.pos as int, (key_count - k) as nat, name@, flags),
            ),
        decreases key_count - k,
    {
        let _frame_number = r.read_dword()?;
        let rect = read_rect(&mut r)?;
        let nine_patch = if flags & SLICE_FLAG_NINE_PATCH == 0 {
            None
        } else {
            Some(read_rect(&mut r)?)
        };
        let pivot = if flags & SLICE_FLAG_PIVOT == 0 {
            None
        } else {
            let x = r.read_long()?;
            let y = r.read_long()?;
            Some(Vec2 { x, y })
        };
        let slice = Slice { name: name.clone(), rect, nine_patch, pivot };
        let ghost prev = slices;
        slices.push(slice);
        k = k + 1;
        proof {
            lemma_push_deep_view(slices, prev, slice);
            lemma_prepend_step(
                prev.deep_view(),
                slice.deep_view(),
                spec_slice_keys(data@, r.pos as int, (key_count - k) as nat, name@, flags),
            );
        }
    }
    proof {
        assert(slices.deep_view() + Seq::<SliceModel>::empty() =~= slices.deep_view());
    }
    Ok(slices)
}

// Palette chunks

/// The entry that fills new palette slots.
pub open spec fn black_entry() -> PaletteEntryModel {
    PaletteEntryModel { name: None, color: rgba8(0, 0, 0, 255) }
}

/// The palette resized to `n` entries: kept entries stay, new ones are black.
pub open spec fn resized(pal: Seq<PaletteEntryModel>, n: int) -> Seq<PaletteEntryModel> {
    Seq::new(n as nat, |i: int| if i < pal.len() { pal[i] } else { black_entry() })
}

fn black_palette_entry() -> (e: PaletteEntry)
    ensures
        e.deep_view() == black_entry(),
{
    PaletteEntry { name: None, color: Color::black() }
}

/// Resizes the palette to `n` entries, filling new ones with black.
fn resize_palette(palette: &mut Vec<PaletteEntry>, n: usize)
    ensures
        final(palette)@.len() == n,
        final(palette).deep_view() == resized(old(palette).deep_view(), n as int),
{
    let ghost pal = palette.deep_view();
    if n <= palette.len() {
        palette.truncate(n);
        assert(palette.deep_view() =~= resized(pal, n as int));
    } else {
        while palette.len() < n
            invariant
                pal.len() <= palette@.len() <= n,
                forall|i: int| 0 <= i < palette@.len() ==> #[trigger] palette@[i].deep_view() == resized(pal, n as int)[i],
            decreases n - palette@.len(),
        {
            palette.push(black_palette_entry());
        }
        assert(palette.deep_view() =~= resized(pal, n as int));
    }
}

/// Sets a palette entry.
fn set_palette_entry(palette: &mut Vec<PaletteEntry>, i: usize, e: PaletteEntry)
    requires
        i < old(palette)@.len(),
    ensures
        final(palette)@.len() == old(palette)@.len(),
        final(palette).deep_view() == old(palette).deep_view().update(i as int, e.deep_view()),
{
    let ghost pal = palette.deep_view();
    palette.set(i, e);
    assert(palette.deep_view() =~= pal.update(i as int, e.deep_view()));
}

/// Palette flag: the entry has a name.
pub const PALETTE_FLAG_HAS_NAME: u16 = 1;

/// The palette entries from `p` for the indices from `i` up to `end`
/// (excluded), written into `pal`. Each entry is: flags (word), red, green,
/// blue and alpha (bytes), and the name (string) when the flags say so.
pub open spec fn spec_palette_entries(d: Seq<u8>, p: int, i: int, end: int, pal: Seq<PaletteEntryModel>) -> Result<Seq<PaletteEntryModel>, AseError>
    decreases end - i,
{
    if i >= end {
        Ok(pal)
    } else if p + 6 > d.len() {
        Err(AseError::UnexpectedEof)
    } else {
        let color = rgba8(d[p + 2], d[p + 3], d[p + 4], d[p + 5]);
        let named = if le_u16(d, p) & PALETTE_FLAG_HAS_NAME == 0 {
            Ok((None::<Seq<char>>, p + 6))
        } else {
            match spec_string(d, p + 6) {
                Ok((name, q)) => Ok((Some(name), q)),
                Err(e) => Err(e),
            }
        };
        match named {
            Err(e) => Err(e),
            Ok((name, q)) => {
                if i >= pal.len() {
                    Err(AseError::PaletteIndexOutOfBounds)
                } else {
                    spec_palette_entries(d, q, i + 1, end, pal.update(i, PaletteEntryModel { name, color }))
                }
            },
        }
    }
}

/// A palette chunk: the new palette size (dword), the first and last index
/// to change (dwords), eight unused bytes, then the entries. The palette is
/// resized first; the entries from the first index to the last one, both
/// included, are then replaced.
pub open spec fn spec_palette(d: Seq<u8>, pal: Seq<PaletteEntryModel>) -> Result<Seq<PaletteEntryModel>, AseError> {
    if d.len() < 12 {
        Err(AseError::UnexpectedEof)
    } else {
        spec_palette_entries(d, 20, le_u32(d, 4) as int, le_u32(d, 8) + 1, resized(pal, le_u32(d, 0) as int))
    }
}

/// Parses a palette chunk into the palette.
fn parse_palette(data: &[u8], palette: &mut Vec<PaletteEntry>) -> (res: Result<(), AseError>)
    requires
        data@.len() <= u32::MAX,
    ensures
        match res {
            Ok(_) => spec_palette(data@, old(palette).deep_view()) == Ok::<Seq<PaletteEntryModel>, AseError>(final(palette).deep_view()),
            Err(e) => spec_palette(data@, old(palette).deep_view()) == Err::<Seq<PaletteEntryModel>, AseError>(e),
        },
{
    let ghost pal0 = palette.deep_view();
    let mut r = Reader::new(data);
    let entry_count = r.read_dword()?;
    let first = r.read_dword()?;
    let last = r.read_dword()?;
    r.skip(8);
    resize_palette(palette, entry_count as usize);
    let end: u64 = last as u64 + 1;
    let mut i: u64 = first as u64;
    if i >= end {
        return Ok(());
    }
    while i < end
        invariant
            r.data@ == data@,
            data@.len() <= u32::MAX,
            end == last + 1,
            first <= i <= end,
            r.pos <= data@.len() + 8,
            pal0 == old(palette).deep_view(),
            spec_palette(data@, pal0) == spec_palette_entries(data@, r.pos as int, i as int, end as int, palette.deep_view()),
        decreases end - i,
    {
        let flags = r.read_word()?;
        let red = r.read_byte()?;
        let green = r.read_byte()?;
        let blue = r.read_byte()?;
        let alpha = r.read_byte()?;
        let name = if flags & PALETTE_FLAG_HAS_NAME == 0 {
            None
        } else {
            Some(r.read_string()?)
        };
        if i as usize >= palette.len() {
            return Err(AseError::PaletteIndexOutOfBounds);
        }
        let entry = PaletteEntry { name, color: Color { r: red, g: green, b: blue, a: alpha } };
        set_palette_entry(palette, i as usize, entry);
        i = i + 1;
    }
    Ok(())
}

/// The palette after an old-style packet whose colors start at `q`: the
/// palette grows to hold `count` entries from `skip`, which are replaced by
/// the packet's opaque colors.
pub open spec fn old_packet(d: Seq<u8>, q: int, skip: int, count: int, pal: Seq<PaletteEntryModel>) -> Seq<PaletteEntryModel> {
    let len = if skip + count > pal.len() { skip + count } else { pal.len() as int };
    Seq::new(
        len as nat,
        |i: int|
            if skip <= i < skip + count {
                let c = q + 3 * (i - skip);
                PaletteEntryModel { name: None, color: rgba8(d[c], d[c + 1], d[c + 2], 255) }
            } else if i < pal.len() {
                pal[i]
            } else {
                black_entry()
            },
    )
}

/// The number of colors that an old-style packet's count byte stands for.
pub open spec fn old_packet_count(b: u8) -> int {
    if b == 0 { 256 } else { b as int }
}

/// `n` old-style palette packets from `p`. Each is: the number of entries to
/// skip (byte), the number of colors (byte, 0 meaning 256), then the colors
/// as red, green and blue bytes.
pub open spec fn spec_old_packets(d: Seq<u8>, p: int, n: nat, pal: Seq<PaletteEntryModel>) -> Result<Seq<PaletteEntryModel>, AseError>
    decreases n,
{
    if n == 0 {
        Ok(pal)
    } else if p + 2 > d.len() {
        Err(AseError::UnexpectedEof)
    } else {
        let count = old_packet_count(d[p + 1]);
        if p + 2 + 3 * count > d.len() {
            Err(AseError::UnexpectedEof)
        } else {
            spec_old_packets(d, p + 2 + 3 * count, (n - 1) as nat, old_packet(d, p + 2, d[p] as int, count, pal))
        }
    }
}

/// An old palette chunk: the packet count (word), then the packets.
pub open spec fn spec_old_palette(d: Seq<u8>, pal: Seq<PaletteEntryModel>) -> Result<Seq<PaletteEntryModel>, AseError> {
    if d.len() < 2 {
        Err(AseError::UnexpectedEof)
    } else {
        spec_old_packets(d, 2, le_u16(d, 0) as nat, pal)
    }
}

/// Parses an old palette chunk into the palette.
fn parse_old_palette(data: &[u8], palette: &mut Vec<PaletteEntry>) -> (res: Result<(), AseError>)
    requires
        data@.len() <= u32::MAX,
    ensures
        match res {
            Ok(_) => spec_old_palette(data@, old(palette).deep_view()) == Ok::<Seq<PaletteEntryModel>, AseError>(final(palette).deep_view()),
            Err(e) => spec_old_palette(data@, old(palette).deep_view()) == Err::<Seq<PaletteEntryModel>, AseError>(e),
        },
{
    let ghost pal0 = palette.deep_view();
    let mut r = Reader::new(data);
    let packet_count = r.read_word()?;
    let mut k: u16 = 0;
    while k < packet_count
        invariant
            r.data@ == data@,
            data@.len() <= u32::MAX,
            k <= packet_count,
            r.pos <= data@.len(),
            pal0 == old(palette).deep_view(),
            spec_old_palette(data@, pal0) == spec_old_packets(data@, r.pos as int, (packet_count - k) as nat, palette.deep_view()),
        decreases packet_count - k,
    {
        let ghost p = r.pos as int;
        let ghost pal = palette.deep_view();
        let skip = r.read_byte()? as usize;
        let count_byte = r.read_byte()?;
        let count: usize = if count_byte == 0 { 256 } else { count_byte as usize };
        let new_len = if skip + count > palette.len() { skip + count } else { palette.len() };
        resize_palette(palette, new_len);
        let mut j: usize = 0;
        while j < count
            invariant
                r.data@ == data@,
                data@.len() <= u32::MAX,
                j <= count,
                k < packet_count,
                r.pos <= data@.len(),
                pal0 == old(palette).deep_view(),
                p + 2 <= data@.len(),
                spec_old_palette(data@, pal0) == spec_old_packets(data@, p, (packet_count - k) as nat, pal),
                count == old_packet_count(data@[p + 1]),
                skip == data@[p] as int,
                r.pos == p + 2 + 3 * j,
                palette@.len() == new_len,
                new_len == (if skip + count > pal.len() { skip + count } else { pal.len() as int }),
                forall|i: int| 0 <= i < new_len ==> #[trigger] palette.deep_view()[i] == (
                    if skip <= i < skip + j { old_packet(data@, p + 2, skip as int, count as int, pal)[i] }
                    else if i < pal.len() { pal[i] }
                    else { black_entry() }),
            decreases count - j,
        {
            let red = r.read_byte()?;
            let green = r.read_byte()?;
            let blue = r.read_byte()?;
            let entry = PaletteEntry { name: None, color: Color { r: red, g: green, b: blue, a: 255 } };
            set_palette_entry(palette, skip + j, entry);
            j = j + 1;
        }
        proof {
            assert(palette.deep_view() =~= old_packet(data@, p + 2, skip as int, count as int, pal));
        }
        k = k + 1;
    }
    Ok(())
}

/// An old palette chunk of one packet with the skip `s` and the count byte
/// `d[3]` writes `n` colors, where a count byte of 0 stands for 256 colors:
/// the palette grows to hold at least `s + n` entries, entry `s + i` is the
/// `i`-th red, green and blue triple made opaque, the entries before `s` and
/// after `s + n` are kept, and new ones past the old end are black.
pub proof fn lemma_old_palette_one_packet(d: Seq<u8>, pal: Seq<PaletteEntryModel>, s: int, n: int)
    requires
        d.len() >= 4,
        le_u16(d, 0) == 1,
        s == d[2],
        n == (if d[3] == 0 { 256 } else { d[3] as int }),
        d.len() >= 4 + 3 * n,
    ensures
        (spec_old_palette(d, pal) is Ok),
        spec_old_palette(d, pal)->Ok_0.len() == (if s + n > pal.len() { s + n } else { pal.len() as int }),
        forall|i: int|
            0 <= i < n ==> #[trigger] spec_old_palette(d, pal)->Ok_0[s + i] == (PaletteEntryModel {
                name: None,
                color: rgba8(d[4 + 3 * i], d[5 + 3 * i], d[6 + 3 * i], 255),
            }),
        forall|i: int|
            0 <= i < spec_old_palette(d, pal)->Ok_0.len() && !(s <= i < s + n) ==> #[trigger] spec_old_palette(
                d,
                pal,
            )->Ok_0[i] == (if i < pal.len() { pal[i] } else { black_entry() }),
{
    reveal_with_fuel(spec_old_packets, 2);
    assert(old_packet_count(d[3]) == n);
    let res = old_packet(d, 4, s, n, pal);
    assert(spec_old_palette(d, pal) == Ok::<Seq<PaletteEntryModel>, AseError>(res));
    assert forall|i: int| 0 <= i < n implies #[trigger] res[s + i] == PaletteEntryModel {
        name: None,
        color: rgba8(d[4 + 3 * i], d[5 + 3 * i], d[6 + 3 * i], 255),
    } by {
        let c = 4 + 3 * ((s + i) - s);
        assert(c == 4 + 3 * i);
    }
}

// Other chunks

/// Color profile type: an embedded ICC profile.
pub const COLOR_PROFILE_TYPE_ICC: u16 = 2;

/// A color profile chunk: type (word), flags (word), fixed gamma (four
/// bytes), eight unused bytes, then for ICC profiles the profile's length
/// (dword) and data. Nothing of it is kept.
pub open spec fn spec_color_profile(d: Seq<u8>) -> Result<(), AseError> {
    if d.len() < 4 {
        Err(AseError::UnexpectedEof)
    } else if le_u16(d, 0) != COLOR_PROFILE_TYPE_ICC {
        Ok(())
    } else if d.len() < 20 || 20 + le_u32(d, 16) > d.len() {
        Err(AseError::UnexpectedEof)
    } else {
        Ok(())
    }
}

/// Reads past a color profile chunk.
fn parse_color_profile(data: &[u8]) -> (res: Result<(), AseError>)
    requires
        data@.len() <= u32::MAX,
    ensures
        res == spec_color_profile(data@),
{
    let mut r = Reader::new(data);
    let profile_type = r.read_word()?;
    let _flags = r.read_word()?;
    r.skip(4);
    r.skip(8);
    if profile_type == COLOR_PROFILE_TYPE_ICC {
        let len = r.read_dword()?;
        let _icc = r.read_bytes(len as u64)?;
    }
    Ok(())
}

/// A mask chunk (deprecated): x and y (shorts), width and height (words),
/// eight unused bytes, the name, and the mask bitmap. Nothing of it is kept;
/// only the fields up to the name's length are read.
pub open spec fn spec_mask(d: Seq<u8>) -> Result<(), AseError> {
    if d.len() < 18 {
        Err(AseError::UnexpectedEof)
    } else {
        Ok(())
    }
}

/// Reads past a mask chunk.
fn parse_mask(data: &[u8]) -> (res: Result<(), AseError>)
    requires
        data@.len() <= u32::MAX,
    ensures
        res == spec_mask(data@),
{
    let mut r = Reader::new(data);
    r.skip(4);
    let _width = r.read_word()?;
    let _height = r.read_word()?;
    r.skip(8);
    let _name_len = r.read_word()?;
    Ok(())
}

// Files

/// Chunk type: old palette.
pub const CHUNK_TYPE_PALETTE_OLD_1: u16 = 0x0004;
/// Chunk type: layer.
pub const CHUNK_TYPE_LAYER: u16 = 0x2004;
/// Chunk type: cel.
pub const CHUNK_TYPE_CEL: u16 = 0x2005;
/// Chunk type: color profile.
pub const CHUNK_TYPE_COLOR_PROFILE: u16 = 0x2007;
/// Chunk type: mask.
pub const CHUNK_TYPE_MASK: u16 = 0x2016;
/// Chunk type: tags.
pub const CHUNK_TYPE_TAGS: u16 = 0x2018;
/// Chunk type: palette.
pub const CHUNK_TYPE_PALETTE: u16 = 0x2019;
/// Chunk type: user data.
pub const CHUNK_TYPE_USER_DATA: u16 = 0x2020;
/// Chunk type: slice.
pub const CHUNK_TYPE_SLICE: u16 = 0x2022;

/// The file's magic number.
pub const FILE_MAGIC: u16 = 0xA5E0;
/// A frame's magic number.
pub const FRAME_MAGIC: u16 = 0xF1FA;

/// What has been read of a file so far.
#[verifier::ext_equal]
pub struct StateModel {
    pub palette: Seq<PaletteEntryModel>,
    pub layers: Seq<LayerModel>,
    pub tags: Seq<TagModel>,
    pub slices: Seq<SliceModel>,
    /// The cels of the current frame.
    pub cels: Seq<CelModel>,
}

/// The state before any chunk.
pub open spec fn empty_state() -> StateModel {
    StateModel { palette: seq![], layers: seq![], tags: seq![], slices: seq![], cels: seq![] }
}

/// The state after a chunk of the given type with the data `d`, read while
/// reading the frame `frame_index`. Chunk types that are not listed are
/// skipped.
#[verifier::opaque]
pub open spec fn spec_chunk(
    st: StateModel,
    typ: u16,
    d: Seq<u8>,
    frame_index: usize,
    header_flags: u32,
    color_depth: u16,
) -> Result<StateModel, AseError> {
    if typ == CHUNK_TYPE_PALETTE_OLD_1 {
        match spec_old_palette(d, st.palette) {
            Ok(palette) => Ok(StateModel { palette, ..st }),
            Err(e) => Err(e),
        }
    } else if typ == CHUNK_TYPE_LAYER {
        match spec_layer(d, header_flags) {
            Ok(layer) => Ok(StateModel { layers: st.layers.push(layer), ..st }),
            Err(e) => Err(e),
        }
    } else if typ == CHUNK_TYPE_CEL {
        match spec_cel(d, frame_index, color_depth) {
            Ok(cel) => Ok(StateModel { cels: st.cels.push(cel), ..st }),
            Err(e) => Err(e),
        }
    } else if typ == CHUNK_TYPE_COLOR_PROFILE {
        match spec_color_profile(d) {
            Ok(_) => Ok(st),
            Err(e) => Err(e),
        }
    } else if typ == CHUNK_TYPE_MASK {
        match spec_mask(d) {
            Ok(_) => Ok(st),
            Err(e) => Err(e),
        }
    } else if typ == CHUNK_TYPE_TAGS {
        match spec_tags(d) {
            Ok(tags) => Ok(StateModel { tags: st.tags + tags, ..st }),
            Err(e) => Err(e),
        }
    } else if typ == CHUNK_TYPE_PALETTE {
        match spec_palette(d, st.palette) {
            Ok(palette) => Ok(StateModel { palette, ..st }),
            Err(e) => Err(e),
        }
    } else if typ == CHUNK_TYPE_SLICE {
        match spec_slices(d) {
            Ok(slices) => Ok(StateModel { slices: st.slices + slices, ..st }),
            Err(e) => Err(e),
        }
    } else {
        Ok(st)
    }
}

/// `n` chunks from `p` in the file, and the position after them. Each chunk
/// is: its size including this header (dword), its type (word), then its
/// data.
pub open spec fn spec_chunks(
    file: Seq<u8>,
    p: int,
    n: nat,
    st: StateModel,
    frame_index: usize,
    header_flags: u32,
    color_depth: u16,
) -> Result<(StateModel, int), AseError>
    decreases n,
{
    if n == 0 {
        Ok((st, p))
    } else if p + 6 > file.len() {
        Err(AseError::UnexpectedEof)
    } else {
        let size = le_u32(file, p);
        if size < 6 {
            Err(AseError::ChunkTooSmall(size))
        } else if p + size > file.len() {
            Err(AseError::UnexpectedEof)
        } else {
            match spec_chunk(st, le_u16(file, p + 4), file.subrange(p + 6, p + size), frame_index, header_flags, color_depth) {
                Err(e) => Err(e),
                Ok(next) => spec_chunks(file, p + size, (n - 1) as nat, next, frame_index, header_flags, color_depth),
            }
        }
    }
}

/// The number of chunks that a frame header at `p` declares: the new count
/// (dword at 12) unless it is zero, then the old count (word at 6).
pub open spec fn frame_chunk_count(file: Seq<u8>, p: int) -> u32 {
    if le_u32(file, p + 12) == 0 {
        le_u16(file, p + 6) as u32
    } else {
        le_u32(file, p + 12)
    }
}

/// The frame whose 16-byte header is at `p` in the file, read as the `i`-th
/// frame, with the state after it (whose cels are reset) and the position
/// after it. The header is: byte count (dword), magic number (word), old
/// chunk count (word), duration in milliseconds (word), two unused bytes,
/// new chunk count (dword); the chunks follow.
pub open spec fn spec_frame(
    file: Seq<u8>,
    p: int,
    i: usize,
    st: StateModel,
    header_flags: u32,
    color_depth: u16,
) -> Result<(StateModel, FrameModel, int), AseError> {
    if p + 16 > file.len() {
        Err(AseError::UnexpectedEof)
    } else if le_u16(file, p + 4) != FRAME_MAGIC {
        Err(AseError::InvalidFrameMagic)
    } else {
        match spec_chunks(file, p + 16, frame_chunk_count(file, p) as nat, StateModel { cels: seq![], ..st }, i, header_flags, color_depth) {
            Err(e) => Err(e),
            Ok((next, q)) => Ok((
                StateModel { cels: seq![], ..next },
                FrameModel { duration_ms: le_u16(file, p + 8), cels: next.cels },
                q,
            )),
        }
    }
}

/// The frames from the `i`-th to the `count`-th (excluded), from `p` in the
/// file, after the frames `frames`.
pub open spec fn spec_frames(
    file: Seq<u8>,
    p: int,
    i: nat,
    count: nat,
    st: StateModel,
    frames: Seq<FrameModel>,
    header_flags: u32,
    color_depth: u16,
) -> Result<(StateModel, Seq<FrameModel>), AseError>
    decreases count - i,
{
    if i >= count {
        Ok((st, frames))
    } else {
        match spec_frame(file, p, i as usize, st, header_flags, color_depth) {
            Err(e) => Err(e),
            Ok((next, frame, q)) => spec_frames(file, q, i + 1, count, next, frames.push(frame), header_flags, color_depth),
        }
    }
}

/// The color mode of a color depth.
pub open spec fn color_mode_of(depth: u16) -> Option<ColorMode> {
    if depth == 32 {
        Some(ColorMode::Rgba)
    } else if depth == 8 {
        Some(ColorMode::Indexed)
    } else {
        None
    }
}

/// An Aseprite file: a 128-byte header, then the frames. The header is:
/// file size (dword), magic number (word), frame count (word), width and
/// height (words), color depth (word), flags (dword), ten unused bytes, the
/// transparent color index (byte), three unused bytes, the color count
/// (word), pixel width and height (bytes), grid x and y (shorts), grid width
/// and height (words), and unused bytes.
pub open spec fn spec_parse(file: Seq<u8>) -> Result<AsepriteModel, AseError> {
    if file.len() < 128 {
        Err(AseError::UnexpectedEof)
    } else if le_u16(file, 4) != FILE_MAGIC {
        Err(AseError::InvalidMagic)
    } else {
        let depth = le_u16(file, 12);
        let flags = le_u32(file, 14);
        match color_mode_of(depth) {
            None => Err(AseError::UnknownColorDepth(depth)),
            Some(color_mode) => match spec_frames(file, 128, 0, le_u16(file, 6) as nat, empty_state(), seq![], flags, depth) {
                Err(e) => Err(e),
                Ok((st, frames)) => Ok(AsepriteModel {
                    size: Vec2 { x: le_u16(file, 8), y: le_u16(file, 10) },
                    pixel_size: Vec2 { x: file[34], y: file[35] },
                    grid_offset: Vec2 { x: le_i16(file, 36), y: le_i16(file, 38) },
                    grid_size: Vec2 { x: le_u16(file, 40), y: le_u16(file, 42) },
                    color_mode,
                    palette: st.palette,
                    frames,
                    layers: st.layers,
                    tags: st.tags,
                    slices: st.slices,
                }),
            },
        }
    }
}

/// What is read of a file while reading it.
struct State {
    palette: Vec<PaletteEntry>,
    layers: Vec<Layer>,
    tags: Vec<Tag>,
    slices: Vec<Slice>,
    cels: Vec<Cel>,
}

impl State {
    spec fn model(&self) -> StateModel {
        StateModel {
            palette: self.palette.deep_view(),
            layers: self.layers.deep_view(),
            tags: self.tags.deep_view(),
            slices: self.slices.deep_view(),
            cels: self.cels.deep_view(),
        }
    }
}

proof fn lemma_append_deep_view<T: DeepView>(v: Vec<T>, a: Vec<T>, b: Vec<T>)
    requires
        v@ == a@ + b@,
    ensures
        v.deep_view() == a.deep_view() + b.deep_view(),
{
    assert(v.deep_view() =~= a.deep_view() + b.deep_view());
}

/// Reads a chunk into the state.
fn apply_chunk(
    state: &mut State,
    typ: u16,
    data: &[u8],
    frame_index: usize,
    header_flags: u32,
    color_depth: u16,
) -> (res: Result<(), AseError>)
    requires
        data@.len() <= u32::MAX,
    ensures
        match res {
            Ok(_) => spec_chunk(old(state).model(), typ, data@, frame_index, header_flags, color_depth)
                == Ok::<StateModel, AseError>(final(state).model()),
            Err(e) => spec_chunk(old(state).model(), typ, data@, frame_index, header_flags, color_depth)
                == Err::<StateModel, AseError>(e),
        },
{
    reveal(spec_chunk);
    match typ {
        CHUNK_TYPE_PALETTE_OLD_1 => parse_old_palette(data, &mut state.palette),
        CHUNK_TYPE_LAYER => {
            let layer = parse_layer(data, header_flags)?;
            let ghost prev = state.layers;
            state.layers.push(layer);
            proof { lemma_push_deep_view(state.layers, prev, layer); }
            Ok(())
        },
        CHUNK_TYPE_CEL => {
            let cel = parse_cel(data, frame_index, color_depth)?;
            let ghost prev = state.cels;
            state.cels.push(cel);
            proof { lemma_push_deep_view(state.cels, prev, cel); }
            Ok(())
        },
        CHUNK_TYPE_COLOR_PROFILE => parse_color_profile(data),
        CHUNK_TYPE_MASK => parse_mask(data),
        CHUNK_TYPE_TAGS => {
            let mut tags = parse_tags(data)?;
            let ghost prev = state.tags;
            let ghost added = tags;
            state.tags.append(&mut tags);
            proof { lemma_append_deep_view(state.tags, prev, added); }
            Ok(())
        },
        CHUNK_TYPE_PALETTE => parse_palette(data, &mut state.palette),
        CHUNK_TYPE_USER_DATA => Ok(()),
        CHUNK_TYPE_SLICE => {
            let mut slices = parse_slices(data)?;
            let ghost prev = state.slices;
            let ghost added = slices;
            state.slices.append(&mut slices);
            proof { lemma_append_deep_view(state.slices, prev, added); }
            Ok(())
        },
        _ => Ok(()),
    }
}

/// Reads `n` chunks into the state.
fn read_chunks(
    file: &mut Reader,
    n: u32,
    state: &mut State,
    frame_index: usize,
    header_flags: u32,
    color_depth: u16,
) -> (res: Result<(), AseError>)
    requires
        old(file).pos <= old(file).data@.len(),
    ensures
        final(file).data@ == old(file).data@,
        match res {
            Ok(_) => {
                &&& spec_chunks(old(file).data@, old(file).pos as int, n as nat, old(state).model(), frame_index, header_flags, color_depth)
                    == Ok::<(StateModel, int), AseError>((final(state).model(), final(file).pos as int))
                &&& final(file).pos <= final(file).data@.len()
            },
            Err(e) => spec_chunks(old(file).data@, old(file).pos as int, n as nat, old(state).model(), frame_index, header_flags, color_depth)
                == Err::<(StateModel, int), AseError>(e),
        },
{
    let ghost total = spec_chunks(file.data@, file.pos as int, n as nat, state.model(), frame_index, header_flags, color_depth);
    let mut c: u32 = 0;
    while c < n
        invariant
            file.data@ == old(file).data@,
            file.pos <= file.data@.len(),
            c <= n,
            total == spec_chunks(old(file).data@, old(file).pos as int, n as nat, old(state).model(), frame_index, header_flags, color_depth),
            total == spec_chunks(file.data@, file.pos as int, (n - c) as nat, state.model(), frame_index, header_flags, color_depth),
        decreases n - c,
    {
        let chunk_size = file.read_dword()?;
        let chunk_type = file.read_word()?;
        if chunk_size < 6 {
            return Err(AseError::ChunkTooSmall(chunk_size));
        }
        let chunk_data = file.read_bytes((chunk_size - 6) as u64)?;
        apply_chunk(state, chunk_type, chunk_data.as_slice(), frame_index, header_flags, color_depth)?;
        c = c + 1;
    }
    Ok(())
}

/// The fields of a file header.
struct Header {
    frame_count: u16,
    width: u16,
    height: u16,
    color_depth: u16,
    flags: u32,
    pixel_width: u8,
    pixel_height: u8,
    grid_x: i16,
    grid_y: i16,
    grid_width: u16,
    grid_height: u16,
}

/// Reads the 128-byte file header.
fn read_header(file: &mut Reader) -> (res: Result<Header, AseError>)
    requires
        old(file).pos == 0,
    ensures
        final(file).data@ == old(file).data@,
        match res {
            Ok(h) => {
                let d = old(file).data@;
                &&& d.len() >= 128
                &&& le_u16(d, 4) == FILE_MAGIC
                &&& final(file).pos == 128
                &&& h.frame_count == le_u16(d, 6)
                &&& h.width == le_u16(d, 8)
                &&& h.height == le_u16(d, 10)
                &&& h.color_depth == le_u16(d, 12)
                &&& h.flags == le_u32(d, 14)
                &&& h.pixel_width == d[34]
                &&& h.pixel_height == d[35]
                &&& h.grid_x == le_i16(d, 36)
                &&& h.grid_y == le_i16(d, 38)
                &&& h.grid_width == le_u16(d, 40)
                &&& h.grid_height == le_u16(d, 42)
            },
            Err(e) => {
                let d = old(file).data@;
                &&& (d.len() < 128 ==> e == AseError::UnexpectedEof)
                &&& (d.len() >= 128 ==> le_u16(d, 4) != FILE_MAGIC && e == AseError::InvalidMagic)
            },
        },
{
    let header_bytes = file.read_bytes(128)?;
    let mut header = Reader::new(header_bytes.as_slice());
    let _file_size = header.read_dword()?;
    let magic = header.read_word()?;
    if magic != FILE_MAGIC {
        return Err(AseError::InvalidMagic);
    }
    let frame_count = header.read_word()?;
    let width = header.read_word()?;
    let height = header.read_word()?;
    let color_depth = header.read_word()?;
    let flags = header.read_dword()?;
    header.skip(10);
    let _transparent_color_index = header.read_byte()?;
    header.skip(3);
    let _color_count = header.read_word()?;
    let pixel_width = header.read_byte()?;
    let pixel_height = header.read_byte()?;
    let grid_x = header.read_short()?;
    let grid_y = header.read_short()?;
    let grid_width = header.read_word()?;
    let grid_height = header.read_word()?;
    Ok(Header {
        frame_count,
        width,
        height,
        color_depth,
        flags,
        pixel_width,
        pixel_height,
        grid_x,
        grid_y,
        grid_width,
        grid_height,
    })
}

/// Reads the `i`-th frame.
fn read_frame(
    file: &mut Reader,
    i: u16,
    state: &mut State,
    header_flags: u32,
    color_depth: u16,
) -> (res: Result<Frame, AseError>)
    requires
        old(file).pos <= old(file).data@.len(),
        old(state).cels@.len() == 0,
    ensures
        final(file).data@ == old(file).data@,
        match res {
            Ok(frame) => {
                &&& spec_frame(old(file).data@, old(file).pos as int, i as usize, old(state).model(), header_flags, color_depth)
                    == Ok::<(StateModel, FrameModel, int), AseError>((final(state).model(), frame.deep_view(), final(file).pos as int))
                &&& final(state).cels@.len() == 0
                &&& final(file).pos <= final(file).data@.len()
            },
            Err(e) => spec_frame(old(file).data@, old(file).pos as int, i as usize, old(state).model(), header_flags, color_depth)
                == Err::<(StateModel, FrameModel, int), AseError>(e),
        },
{
    let ghost st0 = state.model();
    let frame_header_bytes = file.read_bytes(16)?;
    let mut frame_header = Reader::new(frame_header_bytes.as_slice());
    let _frame_byte_count = frame_header.read_dword()?;
    let frame_magic = frame_header.read_word()?;
    if frame_magic != FRAME_MAGIC {
        return Err(AseError::InvalidFrameMagic);
    }
    let chunk_count_old = frame_header.read_word()?;
    let duration_ms = frame_header.read_word()?;
    frame_header.skip(2);
    let chunk_count_new = frame_header.read_dword()?;
    let chunk_count = if chunk_count_new == 0 { chunk_count_old as u32 } else { chunk_count_new };
    proof {
        assert(state.model() =~= StateModel { cels: seq![], ..st0 });
    }
    read_chunks(file, chunk_count, state, i as usize, header_flags, color_depth)?;
    let mut cels: Vec<Cel> = Vec::new();
    std::mem::swap(&mut cels, &mut state.cels);
    let frame = Frame { duration_ms, cels };
    proof {
        assert(state.cels.deep_view() =~= Seq::<CelModel>::empty());
    }
    Ok(frame)
}

/// Parses an Aseprite file from its bytes.
pub fn parse(bytes: &[u8]) -> (res: Result<Aseprite, AseError>)
    ensures
        match res {
            Ok(a) => spec_parse(bytes@) == Ok::<AsepriteModel, AseError>(a.deep_view()),
            Err(e) => spec_parse(bytes@) == Err::<AsepriteModel, AseError>(e),
        },
{
    let mut file = Reader::new(bytes);
    let header = read_header(&mut file)?;
    let color_mode = match header.color_depth {
        32 => ColorMode::Rgba,
        8 => ColorMode::Indexed,
        _ => return Err(AseError::UnknownColorDepth(header.color_depth)),
    };
    let ghost total = spec_frames(bytes@, 128, 0, header.frame_count as nat, empty_state(), seq![], header.flags, header.color_depth);
    let mut state = State { palette: Vec::new(), layers: Vec::new(), tags: Vec::new(), slices: Vec::new(), cels: Vec::new() };
    let mut frames: Vec<Frame> = Vec::new();
    let mut i: u16 = 0;
    proof {
        assert(state.model() =~= empty_state());
        assert(frames.deep_view() =~= Seq::<FrameModel>::empty());
    }
    while i < header.frame_count
        invariant
            file.data@ == bytes@,
            file.pos <= bytes@.len(),
            i <= header.frame_count,
            state.cels@.len() == 0,
            bytes@.len() >= 128,
            le_u16(bytes@, 4) == FILE_MAGIC,
            header.frame_count == le_u16(bytes@, 6),
            header.color_depth == le_u16(bytes@, 12),
            header.flags == le_u32(bytes@, 14),
            color_mode_of(header.color_depth) == Some(color_mode),
            total == spec_frames(bytes@, 128, 0, header.frame_count as nat, empty_state(), seq![], header.flags, header.color_depth),
            total == spec_frames(bytes@, file.pos as int, i as nat, header.frame_count as nat, state.model(), frames.deep_view(), header.flags, header.color_depth),
        decreases header.frame_count - i,
    {
        let ghost p = file.pos as int;
        let ghost st = state.model();
        let frame = read_frame(&mut file, i, &mut state, header.flags, header.color_depth)?;
        let ghost prev = frames;
        frames.push(frame);
        proof {
            lemma_push_deep_view(frames, prev, frame);
        }
        i = i + 1;
    }
    Ok(Aseprite::from_parts(
        Vec2 { x: header.width, y: header.height },
        Vec2 { x: header.pixel_width, y: header.pixel_height },
        Vec2 { x: header.grid_x, y: header.grid_y },
        Vec2 { x: header.grid_width, y: header.grid_height },
        color_mode,
        state.palette,
        frames,
        state.layers,
        state.tags,
        state.slices,
    ))
}

} // verus!
