//! Compositing of converted colour channels into RGBA pixels.
//!
//! Each channel sample is first converted to an 8-bit value; the conversion
//! reports [`PixelConversion::NotANumber`] exactly when the sample holds no
//! data. A failed conversion leaves its channel black, and a pixel is
//! transparent only when none of its three channels holds data.

use vstd::prelude::*;

verus! {

/// Alpha of a pixel with at least one channel holding data.
pub const OPAQUE: u8 = 255;

/// Alpha of a pixel whose channels all lack data.
pub const TRANSPARENT: u8 = 0;

/// Why a channel sample could not be converted to an 8-bit value.
#[derive(Debug, Clone, Copy, PartialEq, Eq, Structural)]
pub enum PixelConversion {
    /// The normalised sample fell outside `[0, 1]`.
    GammaOutOfRange,
    /// The scaled sample could not be turned into an integer.
    FloatToIntegerError,
    /// The sample is not a number: the raster holds no data there.
    NotANumber,
}

/// One output pixel, 8 bits per channel.
#[derive(Debug, Clone, Copy, PartialEq, Eq, Structural)]
pub struct Rgba8 {
    pub r: u8,
    pub g: u8,
    pub b: u8,
    pub a: u8,
}

/// The outcome of converting one channel sample.
pub type Channel = Result<u8, PixelConversion>;

/// The value a channel contributes: the converted value, or black on failure.
pub open spec fn channel_value(c: Channel) -> u8 {
    match c {
        Ok(v) => v,
        Err(_) => 0,
    }
}

/// Whether a channel sample held no data.
pub open spec fn lacks_data(c: Channel) -> bool {
    c == Err::<u8, PixelConversion>(PixelConversion::NotANumber)
}

/// The alpha of a pixel: transparent exactly when no channel holds data.
pub open spec fn alpha_of(r: Channel, g: Channel, b: Channel) -> u8 {
    if lacks_data(r) && lacks_data(g) && lacks_data(b) {
        TRANSPARENT
    } else {
        OPAQUE
    }
}

/// The pixel made of three converted channels.
pub open spec fn composed(r: Channel, g: Channel, b: Channel) -> Rgba8 {
    Rgba8 { r: channel_value(r), g: channel_value(g), b: channel_value(b), a: alpha_of(r, g, b) }
}

/// The value of one channel; a failed conversion gives black.
pub fn channel_or_black(c: &Channel) -> (v: u8)
    ensures
        v == channel_value(*c),
{
    match c {
        Ok(v) => *v,
        Err(_) => 0,
    }
}

/// Whether a converted channel held no data.
pub fn is_no_data(c: &Channel) -> (r: bool)
    ensures
        r == lacks_data(*c),
{
    match c {
        Err(PixelConversion::NotANumber) => true,
        _ => false,
    }
}

/// The pixel of three converted channels: each colour is its value or black,
/// and the pixel is transparent exactly when no channel holds data.
pub fn compose_pixel(r: &Channel, g: &Channel, b: &Channel) -> (p: Rgba8)
    ensures
        p == composed(*r, *g, *b),
        p.a == TRANSPARENT <==> (lacks_data(*r) && lacks_data(*g) && lacks_data(*b)),
        p.a == OPAQUE <==> !(lacks_data(*r) && lacks_data(*g) && lacks_data(*b)),
{
    let alpha = if is_no_data(r) && is_no_data(g) && is_no_data(b) {
        TRANSPARENT
    } else {
        OPAQUE
    };
    Rgba8 { r: channel_or_black(r), g: channel_or_black(g), b: channel_or_black(b), a: alpha }
}

/// Composites three equally long channel sequences, given in red, green,
/// blue order, into one pixel per position, in the same order.
pub fn merge_channels(red: &Vec<Channel>, green: &Vec<Channel>, blue: &Vec<Channel>) -> (out: Vec<
    Rgba8,
>)
    requires
        green.len() == red.len(),
        blue.len() == red.len(),
    ensures
        out.len() == red.len(),
        forall|i: int| 0 <= i < out.len() ==> #[trigger] out[i] == composed(red[i], green[i], blue[i]),
        forall|i: int|
            0 <= i < out.len() ==> (#[trigger] out[i].a == TRANSPARENT <==> (lacks_data(red[i])
                && lacks_data(green[i]) && lacks_data(blue[i]))),
        forall|i: int|
            0 <= i < out.len() ==> (#[trigger] out[i].a == OPAQUE <==> !(lacks_data(red[i])
                && lacks_data(green[i]) && lacks_data(blue[i]))),
{
    let mut out: Vec<Rgba8> = Vec::with_capacity(red.len());
    let mut i: usize = 0;
    while i < red.len()
        invariant
            green.len() == red.len(),
            blue.len() == red.len(),
            i <= red.len(),
            out.len() == i,
            forall|j: int| 0 <= j < i ==> #[trigger] out[j] == composed(red[j], green[j], blue[j]),
        decreases red.len() - i,
    {
        let p = compose_pixel(&red[i], &green[i], &blue[i]);
        out.push(p);
        i = i + 1;
    }
    out
}

} // verus!
