//! The scene data model: quads, layers, and scenes.
//!
//! A scene is rebuilt by the caller every frame: an ordered sequence of
//! layers, each an ordered sequence of quads with an optional background
//! and an optional clip rectangle. All float-valued quantities are held
//! as raw bit patterns (see the `scalar` module).

use vstd::prelude::*;
use crate::scalar::{ONE_BITS, POS_ZERO_BITS, zero_bits};

verus! {

/// An RGBA color; each channel is the bit pattern of a 32-bit float.
#[derive(Clone, Copy, Debug, PartialEq, Eq, Structural)]
pub struct Color {
    pub r: u32,
    pub g: u32,
    pub b: u32,
    pub a: u32,
}

/// Opaque white: every channel 1.0. The default background color when a
/// layer asks for blur without naming a color.
pub fn white() -> (c: Color)
    ensures
        c == (Color { r: ONE_BITS, g: ONE_BITS, b: ONE_BITS, a: ONE_BITS }),
{
    Color { r: ONE_BITS, g: ONE_BITS, b: ONE_BITS, a: ONE_BITS }
}

/// A rectangle: origin and size, each coordinate the bit pattern of a
/// 32-bit float. Clip rectangles are given in device pixels; the caller
/// converts those integer pixel values exactly.
#[derive(Clone, Copy, Debug, PartialEq, Eq, Structural)]
pub struct Rect {
    pub x: u32,
    pub y: u32,
    pub width: u32,
    pub height: u32,
}

/// A positioned, sized, colored rectangle with an optional blur radius.
/// Pure data; converted on demand to a GPU instance record.
#[derive(Clone, Copy, Debug, PartialEq, Eq, Structural)]
pub struct Quad {
    pub x: u32,
    pub y: u32,
    pub width: u32,
    pub height: u32,
    pub color: Color,
    pub blur_radius: u32,
}

impl Quad {
    /// A quad at the given origin with the given size and color, and no blur.
    pub fn new(x: u32, y: u32, width: u32, height: u32, color: Color) -> (q: Quad)
        ensures
            q == (Quad { x, y, width, height, color, blur_radius: POS_ZERO_BITS }),
    {
        Quad { x, y, width, height, color, blur_radius: POS_ZERO_BITS }
    }

    /// The same quad with its blur radius replaced.
    pub fn with_background_blur(self, blur_radius: u32) -> (q: Quad)
        ensures
            q == (Quad { blur_radius, ..self }),
    {
        Quad { blur_radius, ..self }
    }
}

/// One compositing unit: an optional background (color and/or blur), an
/// optional clip rectangle, and an ordered sequence of quads.
pub struct Layer {
    pub background_color: Option<Color>,
    pub background_blur_radius: u32,
    pub clip: Option<Rect>,
    pub quads: Vec<Quad>,
}

impl Layer {
    /// Whether a background instance is synthesized beneath this layer's
    /// quads: a background color is set, or the blur radius is nonzero.
    pub open spec fn has_background(self) -> bool {
        self.background_color is Some || !zero_bits(self.background_blur_radius)
    }

    /// An empty layer: no background, no clip, no quads.
    pub fn new() -> (l: Layer)
        ensures
            l.background_color is None,
            l.background_blur_radius == POS_ZERO_BITS,
            l.clip is None,
            l.quads@ =~= Seq::<Quad>::empty(),
            !l.has_background(),
    {
        Layer {
            background_color: None,
            background_blur_radius: POS_ZERO_BITS,
            clip: None,
            quads: Vec::new(),
        }
    }
}

/// An ordered sequence of layers, rendered back to front, rebuilt fresh
/// each frame.
pub struct Scene {
    pub layers: Vec<Layer>,
}

impl Scene {
    /// A scene with no layers.
    pub fn new() -> (s: Scene)
        ensures
            s.layers@ =~= Seq::<Layer>::empty(),
    {
        Scene { layers: Vec::new() }
    }
}

} // verus!
