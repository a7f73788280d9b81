//! The gain-curve family: the four compression characters, the dispatch from
//! a character to its curve, and the decisions each curve makes before any
//! arithmetic: which part of the curve a level falls in, how the character
//! reshapes the plain curve, and which coloration it adds.
use vstd::prelude::*;

verus! {

/// The sound of the gain curve.
#[derive(Clone, Copy, PartialEq, Eq, Structural, Debug)]
pub enum CompressionCharacter {
    /// Transparent digital compression.
    Clean,
    /// Optical-style: gentler reduction at high ratios.
    Smooth,
    /// VCA-style: a steeper compression curve.
    Punchy,
    /// Wide knee, damped curve and added harmonics.
    Vintage,
}

/// What the processor does to levels on the far side of the threshold.
#[derive(Clone, Copy, PartialEq, Eq, Structural, Debug)]
pub enum ProcessorMode {
    /// Downward compression above the threshold.
    Compress,
    /// Downward expansion below the threshold.
    Expand,
    /// Expansion below the threshold with twice the ratio.
    Gate,
}

/// The plain, transparent curve.
#[derive(Clone, Copy, PartialEq, Eq, Structural, Debug)]
pub struct CleanCompressor;

/// The plain curve, softened for high ratios; adds a second harmonic.
#[derive(Clone, Copy, PartialEq, Eq, Structural, Debug)]
pub struct SmoothCompressor;

/// The plain curve made steeper in compression.
#[derive(Clone, Copy, PartialEq, Eq, Structural, Debug)]
pub struct PunchyCompressor;

/// The plain curve with a wider knee, damped; adds second and third
/// harmonics.
#[derive(Clone, Copy, PartialEq, Eq, Structural, Debug)]
pub struct VintageCompressor;

impl CleanCompressor {
    pub fn new() -> Self {
        CleanCompressor
    }
}

impl SmoothCompressor {
    pub fn new() -> Self {
        SmoothCompressor
    }
}

impl PunchyCompressor {
    pub fn new() -> Self {
        PunchyCompressor
    }
}

impl VintageCompressor {
    pub fn new() -> Self {
        VintageCompressor
    }
}

/// One curve per character: a closed set, chosen once and reused.
#[derive(Clone, Copy, PartialEq, Eq, Structural, Debug)]
pub enum GainCurve {
    Clean(CleanCompressor),
    Smooth(SmoothCompressor),
    Punchy(PunchyCompressor),
    Vintage(VintageCompressor),
}

/// Where a level stands, as the three comparisons the curves make.
#[derive(Clone, Copy, PartialEq, Eq, Structural, Debug)]
pub struct LevelPosition {
    /// `level <= threshold`
    pub at_or_below: bool,
    /// `level >= threshold`
    pub at_or_above: bool,
    /// `knee_width > 0 && level < threshold + knee_width`, with the knee
    /// width the curve uses
    pub inside_knee: bool,
}

/// The part of the plain curve that gives the gain for a level.
#[derive(Clone, Copy, PartialEq, Eq, Structural, Debug)]
pub enum GainRegion {
    /// Gain exactly 1.
    Unity,
    /// The compression curve blended in by the square of the position in the
    /// knee.
    Knee,
    /// The full compression curve, `(t / l) * (l / t)^(1 / ratio)`.
    Compressed,
    /// The expansion curve, `(t / l) * (l / t)^ratio`.
    Expanded,
    /// The expansion curve with the ratio doubled.
    Gated,
}

/// How a character reshapes the gain `g` of the plain curve.
#[derive(Clone, Copy, PartialEq, Eq, Structural, Debug)]
pub enum GainShaping {
    /// `g` as it is.
    Unchanged,
    /// `1 + (g - 1) * (1 - s)`, with `s = clamp((ratio - 1) / 20, 0, 0.5)`.
    Softened,
    /// `1 + (g - 1) * 1.1`.
    Steepened,
    /// `1 + (g - 1) * 0.9`.
    Damped,
}

/// What a character adds to `x * g` once the gain `g` is known.
#[derive(Clone, Copy, PartialEq, Eq, Structural, Debug)]
pub enum Coloration {
    /// Nothing: the output is `x * g`.
    Linear,
    /// `0.02 * x * |x| * (1 - g)`.
    EvenHarmonic,
    /// `(0.05 * x * |x| + 0.02 * x^3) * (1 - g)^2`.
    EvenAndOddHarmonics,
}

/// The curve of each character.
pub open spec fn curve_character(c: GainCurve) -> CompressionCharacter {
    match c {
        GainCurve::Clean(_) => CompressionCharacter::Clean,
        GainCurve::Smooth(_) => CompressionCharacter::Smooth,
        GainCurve::Punchy(_) => CompressionCharacter::Punchy,
        GainCurve::Vintage(_) => CompressionCharacter::Vintage,
    }
}

/// The curve for a character; every character has exactly one.
pub fn get_calculator(character: &CompressionCharacter) -> (r: GainCurve)
    ensures
        curve_character(r) == *character,
{
    match character {
        CompressionCharacter::Clean => GainCurve::Clean(CleanCompressor::new()),
        CompressionCharacter::Smooth => GainCurve::Smooth(SmoothCompressor::new()),
        CompressionCharacter::Punchy => GainCurve::Punchy(PunchyCompressor::new()),
        CompressionCharacter::Vintage => GainCurve::Vintage(VintageCompressor::new()),
    }
}

/// The part of the plain curve that applies to a level in the given mode.
/// Compression leaves levels at or below the threshold alone; expansion and
/// gating leave levels at or above it alone.
pub fn gain_region(mode: ProcessorMode, pos: LevelPosition) -> (r: GainRegion)
    ensures
        mode is Compress && pos.at_or_below ==> r is Unity,
        mode is Compress && !pos.at_or_below && pos.inside_knee ==> r is Knee,
        mode is Compress && !pos.at_or_below && !pos.inside_knee ==> r is Compressed,
        !(mode is Compress) && pos.at_or_above ==> r is Unity,
        mode is Expand && !pos.at_or_above ==> r is Expanded,
        mode is Gate && !pos.at_or_above ==> r is Gated,
{
    match mode {
        ProcessorMode::Compress => {
            if pos.at_or_below {
                GainRegion::Unity
            } else if pos.inside_knee {
                GainRegion::Knee
            } else {
                GainRegion::Compressed
            }
        },
        ProcessorMode::Expand => {
            if pos.at_or_above {
                GainRegion::Unity
            } else {
                GainRegion::Expanded
            }
        },
        ProcessorMode::Gate => {
            if pos.at_or_above {
                GainRegion::Unity
            } else {
                GainRegion::Gated
            }
        },
    }
}

impl GainCurve {
    /// The character this curve belongs to.
    pub fn character(&self) -> (r: CompressionCharacter)
        ensures
            r == curve_character(*self),
    {
        match self {
            GainCurve::Clean(_) => CompressionCharacter::Clean,
            GainCurve::Smooth(_) => CompressionCharacter::Smooth,
            GainCurve::Punchy(_) => CompressionCharacter::Punchy,
            GainCurve::Vintage(_) => CompressionCharacter::Vintage,
        }
    }

    /// Whether the curve works with the knee width widened by half
    /// (only the vintage curve does).
    pub fn widens_knee(&self) -> (r: bool)
        ensures
            r == (curve_character(*self) is Vintage),
    {
        match self {
            GainCurve::Vintage(_) => true,
            _ => false,
        }
    }

    /// How this curve reshapes the plain curve's gain in the given mode.
    /// The punchy curve steepens compression only.
    pub fn shaping(&self, mode: ProcessorMode) -> (r: GainShaping)
        ensures
            curve_character(*self) is Clean ==> r is Unchanged,
            curve_character(*self) is Smooth ==> r is Softened,
            curve_character(*self) is Punchy && mode is Compress ==> r is Steepened,
            curve_character(*self) is Punchy && !(mode is Compress) ==> r is Unchanged,
            curve_character(*self) is Vintage ==> r is Damped,
    {
        match self {
            GainCurve::Clean(_) => GainShaping::Unchanged,
            GainCurve::Smooth(_) => GainShaping::Softened,
            GainCurve::Punchy(_) => {
                match mode {
                    ProcessorMode::Compress => GainShaping::Steepened,
                    _ => GainShaping::Unchanged,
                }
            },
            GainCurve::Vintage(_) => GainShaping::Damped,
        }
    }

    /// The coloration this curve adds to the gained sample.
    pub fn coloration(&self) -> (r: Coloration)
        ensures
            curve_character(*self) is Clean ==> r is Linear,
            curve_character(*self) is Smooth ==> r is EvenHarmonic,
            curve_character(*self) is Punchy ==> r is Linear,
            curve_character(*self) is Vintage ==> r is EvenAndOddHarmonics,
    {
        match self {
            GainCurve::Smooth(_) => Coloration::EvenHarmonic,
            GainCurve::Vintage(_) => Coloration::EvenAndOddHarmonics,
            _ => Coloration::Linear,
        }
    }
}

} // verus!
