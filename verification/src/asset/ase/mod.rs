//! Aseprite files.
//!
//! [`parse`] reads an Aseprite file from its bytes into an [`Aseprite`]
//! document. Cel images are kept as raw pixel data ([`CelImage`]); turning
//! them into textures is up to the renderer.

use vstd::prelude::*;
use crate::math::{Color, Rect, Vec2};
use crate::util::strings::str_eq;

pub mod read;
pub mod zlib;

pub use read::{parse, AseError};

verus! {

/// The color mode of an Aseprite file. See the [Color mode] documentation.
///
/// [Color mode]: https://www.aseprite.org/docs/color-mode
#[derive(Clone, Copy, PartialEq, Eq, Structural, Hash, Debug)]
pub enum ColorMode {
    /// Each pixel is an RGBA color.
    Rgba,
    /// Each pixel is a grayscale value.
    Grayscale,
    /// Each pixel is an index into a palette.
    Indexed,
}

/// The kind of a layer.
#[derive(Clone, Copy, PartialEq, Eq, Structural, Hash, Debug)]
pub enum LayerKind {
    Normal,
    Group,
    Tilemap,
}

/// The direction in which a tag plays its frames.
#[derive(Clone, Copy, PartialEq, Eq, Structural, Hash, Debug)]
pub enum AnimationDirection {
    /// The animation plays forwards.
    Forward,
    /// The animation plays backwards.
    Reverse,
    /// The animation alternates between playing forwards and backwards.
    PingPong,
    /// The animation alternates between playing backwards and forwards.
    PingPongReverse,
}

/// A layer in an Aseprite file. See the [Layers] documentation.
///
/// [Layers]: https://www.aseprite.org/docs/layers/
#[derive(Clone, Debug)]
pub struct Layer {
    pub name: String,
    pub kind: LayerKind,
    pub visible: bool,
    pub opacity: u8,
    pub uuid: Option<u128>,
}

/// A tag in an Aseprite file. See the [Tags] documentation.
///
/// [Tags]: https://www.aseprite.org/docs/tags/
#[derive(Debug)]
pub struct Tag {
    /// The name of the tag, as displayed in the editor.
    pub name: String,
    /// The color of the tag, as displayed in the editor.
    pub color: Color<u8>,
    /// The range of frames covered by the tag.
    pub frames: std::ops::Range<u16>,
    /// The animation direction of the tag.
    pub animation_direction: AnimationDirection,
    /// The number of times the tag loops its animation.
    pub repeat_count: u16,
}

/// A slice in an Aseprite file. See the [Slices] documentation.
///
/// [Slices]: https://www.aseprite.org/docs/slices/
#[derive(Clone, Debug)]
pub struct Slice {
    /// The name of the slice.
    pub name: String,
    /// The rectangle taken up by the slice.
    pub rect: Rect<i32, u32>,
    /// The center patch of the slice, if any. Relative to the slice origin.
    pub nine_patch: Option<Rect<i32, u32>>,
    /// The coordinates of the pivot point, if any. Relative to the slice origin.
    pub pivot: Option<Vec2<i32>>,
}

/// A palette entry in an Aseprite file.
#[derive(Clone, Debug)]
pub struct PaletteEntry {
    /// The name of the entry, if any.
    pub name: Option<String>,
    /// The color of the entry.
    pub color: Color<u8>,
}

/// The pixels of a cel, as stored in the file (decompressed).
#[derive(Clone, Debug)]
pub struct CelImage {
    pub width: u16,
    pub height: u16,
    pub pixels: Vec<u8>,
}

/// What a cel shows.
#[derive(Debug)]
pub enum CelContent {
    /// The cel shows the cel of the same layer in another frame.
    Linked { linked_frame_index: usize },
    /// The cel shows its own image.
    Texture { texture: CelImage },
}

/// A cel: the content of one layer in one frame.
#[derive(Debug)]
pub struct Cel {
    pub frame_index: usize,
    pub layer_index: usize,
    pub pos: Vec2<i16>,
    pub opacity: u8,
    pub z_index: i16,
    pub content: CelContent,
}

/// A frame of an Aseprite sprite.
#[derive(Debug)]
pub struct Frame {
    /// How long the frame shows, in milliseconds.
    pub duration_ms: u16,
    pub cels: Vec<Cel>,
}

/// An external file referenced by an Aseprite file.
pub struct ExternalFile {}

/// The kind of an external file.
#[derive(Clone, Copy, PartialEq, Eq, Structural, Hash, Debug)]
pub enum ExternalFileType {
    Palette,
    Tileset,
}

/// An Aseprite sprite.
#[derive(Debug)]
pub struct Aseprite {
    /// The dimensions of the sprite, in pixels.
    pub size: Vec2<u16>,
    pub pixel_size: Vec2<u8>,
    pub grid_offset: Vec2<i16>,
    pub grid_size: Vec2<u16>,
    pub color_mode: ColorMode,
    pub palette: Vec<PaletteEntry>,
    pub frames: Vec<Frame>,
    pub layers: Vec<Layer>,
    pub tags: Vec<Tag>,
    pub slices: Vec<Slice>,
}

impl Clone for Tag {
    fn clone(&self) -> (r: Self)
        ensures
            r.deep_view() == self.deep_view(),
    {
        Tag {
            name: self.name.clone(),
            color: self.color,
            frames: std::ops::Range { start: self.frames.start, end: self.frames.end },
            animation_direction: self.animation_direction,
            repeat_count: self.repeat_count,
        }
    }
}

// Models

/// The model of a [`Layer`].
pub struct LayerModel {
    pub name: Seq<char>,
    pub kind: LayerKind,
    pub visible: bool,
    pub opacity: u8,
    pub uuid: Option<u128>,
}

/// The model of a [`Tag`].
pub struct TagModel {
    pub name: Seq<char>,
    pub color: Color<u8>,
    pub frames_start: u16,
    pub frames_end: u16,
    pub animation_direction: AnimationDirection,
    pub repeat_count: u16,
}

/// The model of a [`Slice`].
pub struct SliceModel {
    pub name: Seq<char>,
    pub rect: Rect<i32, u32>,
    pub nine_patch: Option<Rect<i32, u32>>,
    pub pivot: Option<Vec2<i32>>,
}

/// The model of a [`PaletteEntry`].
pub struct PaletteEntryModel {
    pub name: Option<Seq<char>>,
    pub color: Color<u8>,
}

/// The model of a [`CelContent`].
pub enum CelContentModel {
    Linked { linked_frame_index: usize },
    Texture { width: u16, height: u16, pixels: Seq<u8> },
}

/// The model of a [`Cel`].
pub struct CelModel {
    pub frame_index: usize,
    pub layer_index: usize,
    pub pos: Vec2<i16>,
    pub opacity: u8,
    pub z_index: i16,
    pub content: CelContentModel,
}

/// The model of a [`Frame`].
pub struct FrameModel {
    pub duration_ms: u16,
    pub cels: Seq<CelModel>,
}

/// The model of an [`Aseprite`].
pub struct AsepriteModel {
    pub size: Vec2<u16>,
    pub pixel_size: Vec2<u8>,
    pub grid_offset: Vec2<i16>,
    pub grid_size: Vec2<u16>,
    pub color_mode: ColorMode,
    pub palette: Seq<PaletteEntryModel>,
    pub frames: Seq<FrameModel>,
    pub layers: Seq<LayerModel>,
    pub tags: Seq<TagModel>,
    pub slices: Seq<SliceModel>,
}

impl DeepView for Layer {
    type V = LayerModel;

    open spec fn deep_view(&self) -> LayerModel {
        LayerModel {
            name: self.name@,
            kind: self.kind,
            visible: self.visible,
            opacity: self.opacity,
            uuid: self.uuid,
        }
    }
}

impl DeepView for Tag {
    type V = TagModel;

    open spec fn deep_view(&self) -> TagModel {
        TagModel {
            name: self.name@,
            color: self.color,
            frames_start: self.frames.start,
            frames_end: self.frames.end,
            animation_direction: self.animation_direction,
            repeat_count: self.repeat_count,
        }
    }
}

impl DeepView for Slice {
    type V = SliceModel;

    open spec fn deep_view(&self) -> SliceModel {
        SliceModel { name: self.name@, rect: self.rect, nine_patch: self.nine_patch, pivot: self.pivot }
    }
}

impl DeepView for PaletteEntry {
    type V = PaletteEntryModel;

    open spec fn deep_view(&self) -> PaletteEntryModel {
        PaletteEntryModel {
            name: match self.name {
                Some(n) => Some(n@),
                None => None,
            },
            color: self.color,
        }
    }
}

impl DeepView for CelContent {
    type V = CelContentModel;

    open spec fn deep_view(&self) -> CelContentModel {
        match self {
            CelContent::Linked { linked_frame_index } => CelContentModel::Linked {
                linked_frame_index: *linked_frame_index,
            },
            CelContent::Texture { texture } => CelContentModel::Texture {
                width: texture.width,
                height: texture.height,
                pixels: texture.pixels@,
            },
        }
    }
}

impl DeepView for Cel {
    type V = CelModel;

    open spec fn deep_view(&self) -> CelModel {
        CelModel {
            frame_index: self.frame_index,
            layer_index: self.layer_index,
            pos: self.pos,
            opacity: self.opacity,
            z_index: self.z_index,
            content: self.content.deep_view(),
        }
    }
}

impl DeepView for Frame {
    type V = FrameModel;

    open spec fn deep_view(&self) -> FrameModel {
        FrameModel { duration_ms: self.duration_ms, cels: self.cels.deep_view() }
    }
}

impl DeepView for Aseprite {
    type V = AsepriteModel;

    open spec fn deep_view(&self) -> AsepriteModel {
        AsepriteModel {
            size: self.size,
            pixel_size: self.pixel_size,
            grid_offset: self.grid_offset,
            grid_size: self.grid_size,
            color_mode: self.color_mode,
            palette: self.palette.deep_view(),
            frames: self.frames.deep_view(),
            layers: self.layers.deep_view(),
            tags: self.tags.deep_view(),
            slices: self.slices.deep_view(),
        }
    }
}

/// The index of the first name from the `k`-th one on that equals `name`.
pub open spec fn first_name_from(names: Seq<Seq<char>>, name: Seq<char>, k: int) -> Option<int>
    decreases names.len() - k,
{
    if k < 0 || k >= names.len() {
        None
    } else if names[k] == name {
        Some(k)
    } else {
        first_name_from(names, name, k + 1)
    }
}

/// The index of the first cel from the `k`-th one on that belongs to `layer`.
pub open spec fn first_layer_cel_from(cels: Seq<CelModel>, layer: usize, k: int) -> Option<int>
    decreases cels.len() - k,
{
    if k < 0 || k >= cels.len() {
        None
    } else if cels[k].layer_index == layer {
        Some(k)
    } else {
        first_layer_cel_from(cels, layer, k + 1)
    }
}

/// Where the image of a layer in a frame is found.
#[derive(Clone, Copy, PartialEq, Eq, Structural, Hash, Debug)]
pub enum CelLookup {
    /// In the cel at index `cel` of the frame at index `frame`.
    Found { frame: usize, cel: usize },
    /// The layer has no cel in the frame that the links lead to.
    Missing,
    /// The links lead to a frame that does not exist.
    OutOfRange,
    /// The links go round without reaching an image.
    Cycle,
}

/// Follows the cel links of `layer` from `frame` at most `fuel` times:
/// [`CelLookup::Cycle`] stands for running out of steps.
pub open spec fn cel_chain(frames: Seq<FrameModel>, layer: usize, frame: usize, fuel: nat) -> CelLookup
    decreases fuel,
{
    if fuel == 0 {
        CelLookup::Cycle
    } else if frame >= frames.len() {
        CelLookup::OutOfRange
    } else {
        match first_layer_cel_from(frames[frame as int].cels, layer, 0) {
            None => CelLookup::Missing,
            Some(k) => match frames[frame as int].cels[k].content {
                CelContentModel::Texture { .. } => CelLookup::Found { frame, cel: k as usize },
                CelContentModel::Linked { linked_frame_index } => cel_chain(frames, layer, linked_frame_index, (fuel - 1) as nat),
            },
        }
    }
}

/// Following links with more steps gives the same answer once it ends.
pub proof fn lemma_cel_chain_fuel(frames: Seq<FrameModel>, layer: usize, frame: usize, a: nat, b: nat)
    requires
        cel_chain(frames, layer, frame, a) is Found || cel_chain(frames, layer, frame, a) is Missing,
        cel_chain(frames, layer, frame, b) is Found || cel_chain(frames, layer, frame, b) is Missing,
    ensures
        cel_chain(frames, layer, frame, a) == cel_chain(frames, layer, frame, b),
    decreases a,
{
    if a > 0 && b > 0 && frame < frames.len() {
        match first_layer_cel_from(frames[frame as int].cels, layer, 0) {
            None => {},
            Some(k) => match frames[frame as int].cels[k].content {
                CelContentModel::Texture { .. } => {},
                CelContentModel::Linked { linked_frame_index } => {
                    lemma_cel_chain_fuel(frames, layer, linked_frame_index, (a - 1) as nat, (b - 1) as nat);
                },
            },
        }
    }
}

/// The image of a linked cel is the image of the cel that it links to: when
/// the first cel of `layer` in `frame` links to the frame `to`, and the chain
/// from `to` ends, the chain from `frame` ends in the same place. This is the
/// recursion of [`Aseprite::cel_texture`] through linked cels.
pub proof fn lemma_cel_chain_follows_link(frames: Seq<FrameModel>, layer: usize, frame: usize, to: usize, fuel: nat)
    requires
        frame < frames.len(),
        first_layer_cel_from(frames[frame as int].cels, layer, 0) matches Some(k)
            && frames[frame as int].cels[k].content == (CelContentModel::Linked { linked_frame_index: to }),
        cel_chain(frames, layer, to, fuel) is Found || cel_chain(frames, layer, to, fuel) is Missing,
    ensures
        cel_chain(frames, layer, frame, fuel + 1) == cel_chain(frames, layer, to, fuel),
        cel_chain_ends(frames, layer, frame),
{
    assert(cel_chain(frames, layer, frame, fuel + 1) == cel_chain(frames, layer, to, fuel));
}

/// True when following the cel links of `layer` from `frame` ends, in a
/// frame that exists.
pub open spec fn cel_chain_ends(frames: Seq<FrameModel>, layer: usize, frame: usize) -> bool {
    exists|fuel: nat| cel_chain(frames, layer, frame, fuel) is Found || cel_chain(frames, layer, frame, fuel) is Missing
}

impl Aseprite {
    /// Assembles a sprite from its parts.
    pub(crate) fn from_parts(
        size: Vec2<u16>,
        pixel_size: Vec2<u8>,
        grid_offset: Vec2<i16>,
        grid_size: Vec2<u16>,
        color_mode: ColorMode,
        palette: Vec<PaletteEntry>,
        frames: Vec<Frame>,
        layers: Vec<Layer>,
        tags: Vec<Tag>,
        slices: Vec<Slice>,
    ) -> (r: Self)
        ensures
            r.deep_view() == (AsepriteModel {
                size,
                pixel_size,
                grid_offset,
                grid_size,
                color_mode,
                palette: palette.deep_view(),
                frames: frames.deep_view(),
                layers: layers.deep_view(),
                tags: tags.deep_view(),
                slices: slices.deep_view(),
            }),
    {
        Aseprite { size, pixel_size, grid_offset, grid_size, color_mode, palette, frames, layers, tags, slices }
    }

    /// Returns the dimensions of the sprite.
    pub fn size(&self) -> (r: Vec2<u16>)
        ensures
            r == self.deep_view().size,
    {
        self.size
    }

    /// The index of the first cel of a frame that belongs to a layer.
    fn find_layer_cel(&self, frame: usize, layer: usize) -> (r: Option<usize>)
        requires
            frame < self.deep_view().frames.len(),
        ensures
            match r {
                Some(k) => first_layer_cel_from(self.deep_view().frames[frame as int].cels, layer, 0) == Some(k as int),
                None => first_layer_cel_from(self.deep_view().frames[frame as int].cels, layer, 0) is None,
            },
            r matches Some(k) ==> k < self.frames@[frame as int].cels@.len(),
    {
        let cels = &self.frames[frame].cels;
        let ghost model = self.deep_view().frames[frame as int].cels;
        assert(self.deep_view().frames[frame as int] == self.frames@[frame as int].deep_view());
        assert(model == cels.deep_view());
        let mut k: usize = 0;
        while k < cels.len()
            invariant
                k <= cels@.len(),
                frame < self.frames@.len(),
                cels@ == self.frames@[frame as int].cels@,
                model == self.deep_view().frames[frame as int].cels,
                model == cels.deep_view(),
                first_layer_cel_from(model, layer, 0) == first_layer_cel_from(model, layer, k as int),
            decreases cels@.len() - k,
        {
            assert(model[k as int] == cels@[k as int].deep_view());
            if cels[k].layer_index == layer {
                return Some(k);
            }
            k = k + 1;
        }
        None
    }

    /// Follows the cel links of a layer from a frame, taking at most one step
    /// more than there are frames.
    pub fn cel_lookup(&self, layer: usize, frame: usize) -> (r: CelLookup)
        ensures
            r == cel_chain(self.deep_view().frames, layer, frame, (self.deep_view().frames.len() + 1) as nat),
    {
        let ghost frames = self.deep_view().frames;
        let ghost total = cel_chain(frames, layer, frame, (self.frames@.len() + 1) as nat);
        let len = self.frames.len();
        let mut cur = frame;
        let mut remaining: usize = len;
        loop
            invariant
                frames == self.deep_view().frames,
                frames.len() == len,
                remaining <= len,
                total == cel_chain(frames, layer, frame, (len + 1) as nat),
                total == cel_chain(frames, layer, cur, (remaining + 1) as nat),
            decreases remaining,
        {
            if cur >= len {
                return CelLookup::OutOfRange;
            }
            match self.find_layer_cel(cur, layer) {
                None => {
                    return CelLookup::Missing;
                },
                Some(k) => {
                    assert(frames[cur as int] == self.frames@[cur as int].deep_view());
                    assert(frames[cur as int].cels[k as int] == self.frames@[cur as int].cels@[k as int].deep_view());
                    match &self.frames[cur].cels[k].content {
                        CelContent::Texture { .. } => {
                            assert(first_layer_cel_from(frames[cur as int].cels, layer, 0) == Some(k as int));
                            assert(frames[cur as int].cels[k as int].content is Texture);
                            assert(cel_chain(frames, layer, cur, (remaining + 1) as nat) == CelLookup::Found { frame: cur, cel: k });
                            return CelLookup::Found { frame: cur, cel: k };
                        },
                        CelContent::Linked { linked_frame_index } => {
                            if remaining == 0 {
                                assert(cel_chain(frames, layer, *linked_frame_index, 0) == CelLookup::Cycle);
                                return CelLookup::Cycle;
                            }
                            remaining = remaining - 1;
                            cur = *linked_frame_index;
                        },
                    }
                },
            }
        }
    }

    /// Returns the image shown by a layer in a frame, following linked cels,
    /// or `None` if the layer has no cel there.
    pub fn cel_texture(&self, layer: usize, frame: usize) -> (r: Option<&CelImage>)
        requires
            cel_chain_ends(self.deep_view().frames, layer, frame),
        ensures
            forall|fuel: nat|
                #![trigger cel_chain(self.deep_view().frames, layer, frame, fuel)]
                cel_chain(self.deep_view().frames, layer, frame, fuel) is Missing ==> r is None,
            forall|fuel: nat|
                #![trigger cel_chain(self.deep_view().frames, layer, frame, fuel)]
                cel_chain(self.deep_view().frames, layer, frame, fuel) matches CelLookup::Found { frame: f, cel: c } ==> r matches Some(
                    img,
                ) && self.deep_view().frames[f as int].cels[c as int].content == (CelContentModel::Texture {
                    width: img.width,
                    height: img.height,
                    pixels: img.pixels@,
                }),
    {
        let ghost frames = self.deep_view().frames;
        let ghost fuel0 = choose|fuel: nat| cel_chain(frames, layer, frame, fuel) is Found || cel_chain(frames, layer, frame, fuel) is Missing;
        let ghost result = cel_chain(frames, layer, frame, fuel0);
        proof {
            assert forall|fuel: nat| #[trigger] cel_chain(frames, layer, frame, fuel) is Found || cel_chain(frames, layer, frame, fuel) is Missing implies cel_chain(frames, layer, frame, fuel) == result by {
                lemma_cel_chain_fuel(frames, layer, frame, fuel, fuel0);
            }
        }
        let len = self.frames.len();
        let mut cur = frame;
        let ghost mut left = fuel0;
        loop
            invariant
                frames == self.deep_view().frames,
                frames.len() == len,
                result == cel_chain(frames, layer, cur, left),
                result is Found || result is Missing,
                forall|fuel: nat| #[trigger] cel_chain(frames, layer, frame, fuel) is Found || cel_chain(frames, layer, frame, fuel) is Missing ==> cel_chain(frames, layer, frame, fuel) == result,
            decreases left,
        {
            assert(left > 0 && cur < frames.len());
            match self.find_layer_cel(cur, layer) {
                None => {
                    return None;
                },
                Some(k) => {
                    assert(frames[cur as int] == self.frames@[cur as int].deep_view());
                    assert(frames[cur as int].cels[k as int] == self.frames@[cur as int].cels@[k as int].deep_view());
                    match &self.frames[cur].cels[k].content {
                        CelContent::Texture { texture } => {
                            return Some(texture);
                        },
                        CelContent::Linked { linked_frame_index } => {
                            cur = *linked_frame_index;
                            proof {
                                left = (left - 1) as nat;
                            }
                        },
                    }
                },
            }
        }
    }

    /// Returns the first slice with a given name, if any.
    pub fn slice_by_name(&self, name: &str) -> (r: Option<&Slice>)
        ensures
            ({
                let names = self.deep_view().slices.map_values(|s: SliceModel| s.name);
                match first_name_from(names, name@, 0) {
                    Some(k) => r matches Some(s) && s.deep_view() == self.deep_view().slices[k],
                    None => r is None,
                }
            }),
    {
        let ghost names = self.deep_view().slices.map_values(|s: SliceModel| s.name);
        let mut k: usize = 0;
        while k < self.slices.len()
            invariant
                k <= self.slices@.len(),
                names == self.slices.deep_view().map_values(|s: SliceModel| s.name),
                first_name_from(names, name@, 0) == first_name_from(names, name@, k as int),
            decreases self.slices@.len() - k,
        {
            if str_eq(self.slices[k].name.as_str(), name) {
                return Some(&self.slices[k]);
            }
            k = k + 1;
        }
        None
    }

    /// Returns the first layer with a given name, if any.
    pub fn layer(&self, name: &str) -> (r: Option<&Layer>)
        ensures
            ({
                let names = self.deep_view().layers.map_values(|l: LayerModel| l.name);
                match first_name_from(names, name@, 0) {
                    Some(k) => r matches Some(l) && l.deep_view() == self.deep_view().layers[k],
                    None => r is None,
                }
            }),
    {
        let ghost names = self.deep_view().layers.map_values(|l: LayerModel| l.name);
        let mut k: usize = 0;
        while k < self.layers.len()
            invariant
                k <= self.layers@.len(),
                names == self.layers.deep_view().map_values(|l: LayerModel| l.name),
                first_name_from(names, name@, 0) == first_name_from(names, name@, k as int),
            decreases self.layers@.len() - k,
        {
            if str_eq(self.layers[k].name.as_str(), name) {
                return Some(&self.layers[k]);
            }
            k = k + 1;
        }
        None
    }
}

} // verus!
