use vstd::prelude::*;

use crate::light::Color;

verus! {

/// Largest saturation of the HSL model, in percent.
pub const SATURATION_MAX: u8 = 100;

/// Smallest palette that is ever asked for.
pub const MIN_PALETTE: u8 = 2;

/// Largest frame, in bytes, handed to the quantizer: it sums the samples of
/// a frame into 32-bit totals, each sample adding at most 252 and one pixel in
/// three being sampled, so larger frames can overflow them.
pub const MAX_FRAME_BYTES: usize = 75_000_000;

/// Step between sampled pixels handed to the quantizer (every pixel).
pub const SAMPLE_STEP: u8 = 1;

/// The error type of `color_thief::get_palette`, carried as an opaque value:
/// only whether a call failed is used.
#[verifier::external_type_specification]
#[verifier::external_body]
pub struct ExQuantizeError(color_thief::Error);

/// The palette the quantizer makes of `pixels` (RGB triples) when asked for
/// at most `max_colors` colours.
pub uninterp spec fn quantized_palette(pixels: Seq<u8>, max_colors: u8) -> Seq<Color>;

/// Saturation of a colour in the HSL model, in whole percent.
pub uninterp spec fn hsl_saturation(c: Color) -> u8;

/// The colour with its HSL saturation replaced by `s` percent, hue and
/// lightness kept.
pub uninterp spec fn with_hsl_saturation(c: Color, s: u8) -> Color;

/// Relies on `color_thief::get_palette` over RGB pixels with every pixel
/// sampled: a deterministic median-cut quantizer that keeps at least one and
/// at most `max_colors` colours. It only cuts boxes that hold samples, and
/// such a cut always succeeds, so it does not report an error here.
#[verifier::external_body]
fn quantize(pixels: &Vec<u8>, max_colors: u8) -> (r: Result<Vec<Color>, color_thief::Error>)
    requires
        max_colors >= MIN_PALETTE,
        pixels@.len() <= MAX_FRAME_BYTES,
    ensures
        r is Ok,
        r is Ok ==> r->Ok_0@ == quantized_palette(pixels@, max_colors),
        r is Ok ==> 1 <= r->Ok_0@.len() <= max_colors,
{
    color_thief::get_palette(pixels.as_slice(), color_thief::ColorFormat::Rgb, SAMPLE_STEP, max_colors)
        .map(|v| v.into_iter().map(|c| (c.r, c.g, c.b)).collect())
}

/// Relies on colorsys's RGB to HSL conversion and `Hsl::saturation`, rounded
/// to whole percent; the model's saturation lies within 0 to 100.
#[verifier::external_body]
fn saturation_of(c: Color) -> (s: u8)
    ensures
        s == hsl_saturation(c),
        s <= SATURATION_MAX,
{
    colorsys::Hsl::from(colorsys::Rgb::from(c)).saturation().round() as u8
}

/// Relies on colorsys's RGB to HSL conversion, `Hsl::set_saturation`, and
/// the HSL to RGB conversion, channels truncated to bytes.
#[verifier::external_body]
fn resaturate(c: Color, s: u8) -> (r: Color)
    ensures
        r == with_hsl_saturation(c, s),
{
    let mut hsl = colorsys::Hsl::from(colorsys::Rgb::from(c));
    hsl.set_saturation(s.into());
    let rgb = colorsys::Rgb::from(hsl);
    (rgb.red() as u8, rgb.green() as u8, rgb.blue() as u8)
}

/// Why no palette came out of a frame.
#[derive(Clone, Copy, Debug, PartialEq, Eq, Structural)]
pub enum ExtractError {
    /// The frame holds no complete RGB sample.
    EmptyFrame,
}

/// How saturation is shaped: scaled by `gain_percent / 100`, shifted by
/// `offset` percentage points, then clamped to the model's range.
#[derive(Clone, Copy, Debug, PartialEq, Eq, Structural)]
pub struct SaturationBoost {
    pub gain_percent: u16,
    pub offset: i16,
}

/// `v` clamped to the saturation range `0..=SATURATION_MAX`.
pub open spec fn clamp_saturation(v: int) -> u8 {
    if v < 0 {
        0u8
    } else if v > SATURATION_MAX {
        SATURATION_MAX
    } else {
        v as u8
    }
}

/// The saturation `s` after `boost`.
pub open spec fn boosted_saturation(s: u8, boost: SaturationBoost) -> u8 {
    clamp_saturation(s * boost.gain_percent / 100 + boost.offset)
}

/// The colour `c` with its saturation shaped by `boost`.
pub open spec fn boosted_color(c: Color, boost: SaturationBoost) -> Color {
    with_hsl_saturation(c, boosted_saturation(hsl_saturation(c), boost))
}

/// Each colour of `colors` shaped by `boost`, in order.
pub open spec fn boosted_colors(colors: Seq<Color>, boost: SaturationBoost) -> Seq<Color> {
    colors.map_values(|c: Color| boosted_color(c, boost))
}

/// The palette size asked for with `fixture_count` fixtures: one colour per
/// fixture, at least two, at most what a byte counts.
pub open spec fn palette_size_for(fixture_count: nat) -> u8 {
    if fixture_count < MIN_PALETTE {
        MIN_PALETTE
    } else if fixture_count > 255 {
        255u8
    } else {
        fixture_count as u8
    }
}

/// The frame holds at least one complete RGB sample.
pub open spec fn has_sample(pixels: Seq<u8>) -> bool {
    pixels.len() >= 3
}

impl SaturationBoost {
    /// A boost with the given gain (in percent) and offset (in percentage points).
    pub fn new(gain_percent: u16, offset: i16) -> (b: SaturationBoost)
        ensures
            b.gain_percent == gain_percent,
            b.offset == offset,
    {
        SaturationBoost { gain_percent, offset }
    }
}

/// Shapes the saturation `s` (in percent) by `boost`.
pub fn boost_saturation(s: u8, boost: SaturationBoost) -> (r: u8)
    ensures
        r == boosted_saturation(s, boost),
        r <= SATURATION_MAX,
{
    assert(0 <= s * boost.gain_percent <= 255 * 65535) by (nonlinear_arith)
        requires
            s <= 255,
            boost.gain_percent <= 65535,
    ;
    let product: i64 = (s as i64) * (boost.gain_percent as i64);
    let scaled: i64 = product / 100 + (boost.offset as i64);
    if scaled < 0 {
        0
    } else if scaled > SATURATION_MAX as i64 {
        SATURATION_MAX
    } else {
        scaled as u8
    }
}

/// Shapes the saturation of one colour by `boost`.
pub fn boost_color(c: Color, boost: SaturationBoost) -> (r: Color)
    ensures
        r == boosted_color(c, boost),
        boost.gain_percent == 100 && boost.offset == 0 ==> r == with_hsl_saturation(c, hsl_saturation(c)),
{
    let s = saturation_of(c);
    proof {
        lemma_boost_identity_and_bound(s, boost);
    }
    resaturate(c, boost_saturation(s, boost))
}

/// Shapes the saturation of every colour of a palette by `boost`, keeping
/// the order.
pub fn boost_palette(colors: &Vec<Color>, boost: SaturationBoost) -> (r: Vec<Color>)
    ensures
        r@ == boosted_colors(colors@, boost),
        boost.gain_percent == 100 && boost.offset == 0 ==> forall|i: int|
            0 <= i < colors@.len() ==> #[trigger] r@[i] == with_hsl_saturation(colors@[i], hsl_saturation(colors@[i])),
{
    let mut out: Vec<Color> = Vec::new();
    let mut i: usize = 0;
    while i < colors.len()
        invariant
            i <= colors@.len(),
            out@ =~= boosted_colors(colors@.subrange(0, i as int), boost),
            boost.gain_percent == 100 && boost.offset == 0 ==> forall|j: int|
                0 <= j < i ==> #[trigger] out@[j] == with_hsl_saturation(colors@[j], hsl_saturation(colors@[j])),
        decreases colors@.len() - i,
    {
        out.push(boost_color(colors[i], boost));
        i = i + 1;
        assert(out@ =~= boosted_colors(colors@.subrange(0, i as int), boost));
    }
    assert(colors@.subrange(0, i as int) =~= colors@);
    out
}

/// The palette size asked for with `fixture_count` fixtures.
pub fn palette_size(fixture_count: usize) -> (n: u8)
    ensures
        n == palette_size_for(fixture_count as nat),
        n >= MIN_PALETTE,
{
    if fixture_count < MIN_PALETTE as usize {
        MIN_PALETTE
    } else if fixture_count > 255 {
        255
    } else {
        fixture_count as u8
    }
}

/// Reduces a frame of RGB samples to its dominant colours, one per fixture
/// and at least two, each with its saturation shaped by `boost`.
pub fn extract_palette(pixels: &Vec<u8>, fixture_count: usize, boost: SaturationBoost) -> (r: Result<Vec<Color>, ExtractError>)
    requires
        pixels@.len() <= MAX_FRAME_BYTES,
    ensures
        !has_sample(pixels@) ==> r == Err::<Vec<Color>, ExtractError>(ExtractError::EmptyFrame),
        has_sample(pixels@) ==> r is Ok && r->Ok_0@ == boosted_colors(
            quantized_palette(pixels@, palette_size_for(fixture_count as nat)),
            boost,
        ),
        r is Ok ==> 1 <= r->Ok_0@.len() <= palette_size_for(fixture_count as nat),
        r is Ok && boost.gain_percent == 100 && boost.offset == 0 ==> forall|i: int|
            0 <= i < r->Ok_0@.len() ==> #[trigger] r->Ok_0@[i] == ({
                let c = quantized_palette(pixels@, palette_size_for(fixture_count as nat))[i];
                with_hsl_saturation(c, hsl_saturation(c))
            }),
{
    if pixels.len() < 3 {
        return Err(ExtractError::EmptyFrame);
    }
    let n = palette_size(fixture_count);
    match quantize(pixels, n) {
        Ok(colors) => Ok(boost_palette(&colors, boost)),
        Err(_) => vstd::pervasive::unreached(),
    }
}

/// Sum of all bytes of `s`.
pub open spec fn byte_sum(s: Seq<u8>) -> int
    decreases s.len(),
{
    if s.len() == 0 {
        0
    } else {
        byte_sum(s.drop_last()) + s.last()
    }
}

/// The mean sample value of `pixels` is below `threshold`; a frame without
/// samples counts as blank.
pub open spec fn is_blank(pixels: Seq<u8>, threshold: u8) -> bool {
    pixels.len() == 0 || byte_sum(pixels) < threshold * pixels.len()
}

proof fn lemma_byte_sum_bound(s: Seq<u8>)
    ensures
        0 <= byte_sum(s) <= 255 * s.len(),
    decreases s.len(),
{
    if s.len() > 0 {
        lemma_byte_sum_bound(s.drop_last());
    }
}

/// Whether the frame is blank: its mean sample value lies below `threshold`,
/// which the control loop reads as "no signal".
pub fn frame_is_blank(pixels: &Vec<u8>, threshold: u8) -> (r: bool)
    ensures
        r == is_blank(pixels@, threshold),
{
    let mut sum: u128 = 0;
    let mut i: usize = 0;
    while i < pixels.len()
        invariant
            i <= pixels@.len(),
            sum == byte_sum(pixels@.subrange(0, i as int)),
        decreases pixels@.len() - i,
    {
        proof {
            assert(pixels@.subrange(0, (i + 1) as int).drop_last() =~= pixels@.subrange(0, i as int));
            lemma_byte_sum_bound(pixels@.subrange(0, i as int));
        }
        sum = sum + pixels[i] as u128;
        i = i + 1;
    }
    assert(pixels@.subrange(0, i as int) =~= pixels@);
    assert(threshold * pixels@.len() <= 255 * 0x1_0000_0000_0000_0000) by (nonlinear_arith)
        requires
            threshold <= 255,
            pixels@.len() <= usize::MAX,
            usize::MAX < 0x1_0000_0000_0000_0000,
    ;
    pixels.len() == 0 || sum < (threshold as u128) * (pixels.len() as u128)
}

/// Shaping with unit gain and no offset leaves every valid saturation as it
/// is, and shaped saturation never exceeds the model's maximum.
pub proof fn lemma_boost_identity_and_bound(s: u8, boost: SaturationBoost)
    ensures
        boosted_saturation(s, boost) <= SATURATION_MAX,
        boost.gain_percent == 100 && boost.offset == 0 && s <= SATURATION_MAX
            ==> boosted_saturation(s, boost) == s,
{
    if boost.gain_percent == 100 {
        assert(s * 100 / 100 == s) by (nonlinear_arith);
    }
}

} // verus!
