//! The splash screen's icon masks: how the pixels of a logo image become
//! white shapes whose opacity follows the image.
//!
//! Images are decoded with the `image` crate.

use vstd::prelude::*;

verus! {

/// One pixel of a mask.
#[derive(Clone, Copy, Debug, PartialEq, Eq, Structural)]
pub enum MaskPixel {
    /// Fully transparent.
    Transparent,
    /// White with this (unmultiplied) opacity.
    White(u8),
}

/// One pixel of a decoded image, in RGBA order.
#[derive(Clone, Copy, Debug, PartialEq, Eq, Structural)]
pub struct Rgba {
    pub r: u8,
    pub g: u8,
    pub b: u8,
    pub a: u8,
}

/// The brightness of a pixel: the integer mean of its three colour channels.
pub open spec fn luma(p: Rgba) -> int {
    (p.r + p.g + p.b) / 3
}

/// Some pixel of `pixels` is not fully opaque.
pub open spec fn has_transparency(pixels: Seq<Rgba>) -> bool {
    exists|i: int| 0 <= i < pixels.len() && pixels[i].a < 255
}

/// The mask pixel for `p`. In an image with transparency, nearly invisible
/// (`a < 8`) or dark (`luma < 20`) pixels vanish and the rest keep their
/// opacity; in an opaque image, dark (`luma < 28`) pixels vanish and the
/// rest get an opacity scaled by their brightness.
pub open spec fn mask_of(p: Rgba, transparent_image: bool) -> MaskPixel {
    if transparent_image {
        if p.a < 8 || luma(p) < 20 {
            MaskPixel::Transparent
        } else {
            MaskPixel::White(p.a)
        }
    } else if luma(p) < 28 {
        MaskPixel::Transparent
    } else {
        MaskPixel::White(((luma(p) * p.a) / 255) as u8)
    }
}

/// Does the image have a pixel that is not fully opaque?
pub fn image_has_transparency(pixels: &Vec<Rgba>) -> (r: bool)
    ensures
        r == has_transparency(pixels@),
{
    let mut i: usize = 0;
    while i < pixels.len()
        invariant
            i <= pixels.len(),
            forall|j: int| 0 <= j < i ==> #[trigger] pixels@[j].a == 255,
        decreases pixels.len() - i,
    {
        if pixels[i].a < 255 {
            return true;
        }
        i = i + 1;
    }
    false
}

/// The mask pixel for `p` (see `mask_of`).
pub fn mask_pixel(p: Rgba, transparent_image: bool) -> (r: MaskPixel)
    ensures
        r == mask_of(p, transparent_image),
{
    let luma: u16 = ((p.r as u16) + (p.g as u16) + (p.b as u16)) / 3;
    if transparent_image {
        if p.a < 8 || luma < 20 {
            MaskPixel::Transparent
        } else {
            MaskPixel::White(p.a)
        }
    } else if luma < 28 {
        MaskPixel::Transparent
    } else {
        assert(luma * p.a <= 255 * 255) by (nonlinear_arith)
            requires
                luma <= 255,
                p.a <= 255,
        ;
        let scaled: u32 = ((luma as u32) * (p.a as u32)) / 255;
        assert(scaled <= 255) by (nonlinear_arith)
            requires
                scaled == (luma * p.a) / 255,
                luma * p.a <= 255 * 255,
        ;
        MaskPixel::White(scaled as u8)
    }
}

/// The mask of an image, pixel by pixel in the same order.
pub fn mask_image(pixels: &Vec<Rgba>) -> (r: Vec<MaskPixel>)
    ensures
        r@.len() == pixels@.len(),
        forall|i: int|
            0 <= i < r@.len() ==> #[trigger] r@[i] == mask_of(pixels@[i], has_transparency(pixels@)),
{
    let t = image_has_transparency(pixels);
    let mut r: Vec<MaskPixel> = Vec::new();
    let mut i: usize = 0;
    while i < pixels.len()
        invariant
            i <= pixels.len(),
            t == has_transparency(pixels@),
            r@.len() == i,
            forall|j: int| 0 <= j < i ==> #[trigger] r@[j] == mask_of(pixels@[j], t),
        decreases pixels.len() - i,
    {
        r.push(mask_pixel(pixels[i], t));
        i = i + 1;
    }
    r
}

/// The width, height and RGBA pixels (row by row) of the image that the
/// encoded bytes `bytes` hold, as `image` decodes them; `None` when they are
/// not an image it can decode.
pub uninterp spec fn decoded_rgba(bytes: Seq<u8>) -> Option<(u32, u32, Seq<Rgba>)>;

/// Decodes an encoded image (`image::load_from_memory`, the format guessed
/// from the bytes) into 8-bit RGBA pixels: the result is what `decoded_rgba`
/// names, with one pixel per column and row.
#[verifier::external_body]
fn decode_rgba(bytes: &[u8]) -> (r: Option<(u32, u32, Vec<Rgba>)>)
    ensures
        match r {
            Some((w, h, p)) => decoded_rgba(bytes@) == Some((w, h, p@)) && p@.len() == w * h,
            None => decoded_rgba(bytes@) is None,
        },
{
    let img = image::load_from_memory(bytes).ok()?.to_rgba8();
    let (w, h) = img.dimensions();
    let pixels = img.pixels().map(|p| Rgba { r: p.0[0], g: p.0[1], b: p.0[2], a: p.0[3] }).collect();
    Some((w, h, pixels))
}

/// A mask ready to become a texture: its size and its pixels, row by row.
pub struct IconMask {
    pub width: u32,
    pub height: u32,
    pub pixels: Vec<MaskPixel>,
}

/// The mask of the image encoded in `bytes`: each decoded pixel masked as
/// `mask_of` says, in the same order; `None` when the bytes do not decode.
pub fn icon_mask(bytes: &[u8]) -> (r: Option<IconMask>)
    ensures
        match decoded_rgba(bytes@) {
            Some((w, h, p)) => r matches Some(m) && m.width == w && m.height == h
                && m.pixels@.len() == p.len() && forall|i: int|
                0 <= i < p.len() ==> #[trigger] m.pixels@[i] == mask_of(p[i], has_transparency(p)),
            None => r is None,
        },
{
    match decode_rgba(bytes) {
        Some((w, h, p)) => {
            let pixels = mask_image(&p);
            Some(IconMask { width: w, height: h, pixels })
        },
        None => None,
    }
}

} // verus!
