//! Compression parameter records, one per image format, with their defaults.

use vstd::prelude::*;

use crate::error::ConfigError;
use crate::level::{get_png_level, is_png_level, png_level};

verus! {

/// A scale factor, held as the bit pattern of an IEEE 754 double precision
/// number: one sign bit, eleven exponent bits, fifty-two fraction bits.
#[derive(Clone, Copy, Debug, PartialEq, Eq, Structural)]
pub struct ScaleFactor {
    pub bits: u64,
}

/// The bit pattern of the sign bit alone.
pub const SIGN_BIT: u64 = 0x8000_0000_0000_0000;

/// The bit pattern of positive infinity: every larger magnitude is not a number.
pub const INFINITY_BITS: u64 = 0x7FF0_0000_0000_0000;

/// The bit pattern of the number one.
pub const ONE_BITS: u64 = 0x3FF0_0000_0000_0000;

impl ScaleFactor {
    /// Whether the sign bit is set.
    pub open spec fn sign(self) -> bool {
        self.bits >= SIGN_BIT
    }

    /// The pattern without its sign bit.
    pub open spec fn magnitude(self) -> int {
        if self.sign() {
            self.bits - SIGN_BIT
        } else {
            self.bits as int
        }
    }

    /// Whether the pattern stands for no number at all.
    pub open spec fn is_nan(self) -> bool {
        self.magnitude() > INFINITY_BITS
    }

    /// Whether the number is greater than zero. Positive infinity is.
    pub open spec fn is_positive(self) -> bool {
        !self.sign() && 0 < self.magnitude() <= INFINITY_BITS
    }

    /// Whether the number is zero or less. Both zeros are, and negative
    /// infinity is; a pattern that stands for no number is not.
    pub open spec fn is_at_most_zero(self) -> bool {
        self.magnitude() == 0 || (self.sign() && self.magnitude() <= INFINITY_BITS)
    }

    /// The factor with the given bit pattern.
    pub fn from_bits(bits: u64) -> (factor: ScaleFactor)
        ensures
            factor.bits == bits,
    {
        ScaleFactor { bits }
    }

    /// The bit pattern of the factor.
    pub fn to_bits(&self) -> (bits: u64)
        ensures
            bits == self.bits,
    {
        self.bits
    }

    /// The factor one, which leaves an image at its size.
    pub fn one() -> (factor: ScaleFactor)
        ensures
            factor.bits == ONE_BITS,
            factor.is_positive(),
    {
        ScaleFactor { bits: ONE_BITS }
    }

    /// Decides whether the number is zero or less.
    pub fn at_most_zero(&self) -> (rejected: bool)
        ensures
            rejected == self.is_at_most_zero(),
    {
        if self.bits >= SIGN_BIT {
            self.bits - SIGN_BIT <= INFINITY_BITS
        } else {
            self.bits == 0
        }
    }
}

/// Every factor is exactly one of: greater than zero, at most zero, or no
/// number.
pub proof fn lemma_scale_trichotomy(factor: ScaleFactor)
    ensures
        factor.is_positive() || factor.is_at_most_zero() || factor.is_nan(),
        !(factor.is_positive() && factor.is_at_most_zero()),
        !(factor.is_positive() && factor.is_nan()),
        !(factor.is_at_most_zero() && factor.is_nan()),
{
}

/// The parameters of the lossy format.
#[derive(Clone, Copy, Debug)]
pub struct CsJpegPars {
    pub quality: libc::c_int,
    pub exif_copy: bool,
    pub dct_method: i32,
    pub scale_factor: ScaleFactor,
}

/// The parameters of the lossless format.
#[derive(Clone, Copy, Debug)]
pub struct CsPngPars {
    pub level: u32,
    pub exif_copy: bool,
    pub iterations: i32,
    pub iterations_large: i32,
    pub block_split_strategy: i32,
    pub lossy_8: bool,
    pub transparent: bool,
    pub auto_filter_strategy: bool,
    pub scale_factor: ScaleFactor,
}

/// The parameters of a job: one record per image format.
#[derive(Clone, Copy, Debug)]
pub struct CsImagePars {
    pub jpeg: CsJpegPars,
    pub png: CsPngPars,
}

impl CsJpegPars {
    /// Whether the setting that no caller of `build_parameters` chooses has
    /// its fixed value: the transform method 2048.
    pub open spec fn has_fixed_settings(self) -> bool {
        self.dct_method == 2048
    }
}

impl CsPngPars {
    /// Whether the settings that no caller of `build_parameters` chooses have
    /// their fixed values: 2 iterations, 1 iteration for large images, block
    /// split strategy 2, lossy 8-bit conversion and transparency handling on,
    /// automatic filter choice off.
    pub open spec fn has_fixed_settings(self) -> bool {
        &&& self.iterations == 2
        &&& self.iterations_large == 1
        &&& self.block_split_strategy == 2
        &&& self.lossy_8
        &&& self.transparent
        &&& !self.auto_filter_strategy
    }
}

impl CsImagePars {
    /// The invariant of a parameter record: the quality lies between 0 and
    /// 100, the level is one that the table can select, both scale factors
    /// are greater than zero, and the fixed settings have their values.
    pub open spec fn wf(self) -> bool {
        &&& 0 <= self.jpeg.quality <= 100
        &&& is_png_level(self.png.level as int)
        &&& self.jpeg.scale_factor.is_positive()
        &&& self.png.scale_factor.is_positive()
        &&& self.jpeg.has_fixed_settings()
        &&& self.png.has_fixed_settings()
    }

    /// What `build_parameters` fills in from its arguments.
    pub open spec fn is_built_from(
        self,
        quality: int,
        preserve_metadata: bool,
        scale: ScaleFactor,
    ) -> bool {
        &&& self.jpeg.quality == quality
        &&& self.jpeg.exif_copy == preserve_metadata
        &&& self.jpeg.scale_factor == scale
        &&& self.png.level == png_level(quality)
        &&& self.png.exif_copy == preserve_metadata
        &&& self.png.scale_factor == scale
        &&& self.jpeg.has_fixed_settings()
        &&& self.png.has_fixed_settings()
    }
}

impl Default for CsJpegPars {
    /// Quality 0, no metadata kept, no scaling.
    fn default() -> (pars: CsJpegPars)
        ensures
            pars.quality == 0,
            !pars.exif_copy,
            pars.scale_factor.bits == ONE_BITS,
            pars.has_fixed_settings(),
    {
        CsJpegPars { quality: 0, exif_copy: false, dct_method: 2048, scale_factor: ScaleFactor::one() }
    }
}

impl Default for CsPngPars {
    /// Level 0, no metadata kept, no scaling.
    fn default() -> (pars: CsPngPars)
        ensures
            pars.level == 0,
            !pars.exif_copy,
            pars.scale_factor.bits == ONE_BITS,
            pars.has_fixed_settings(),
    {
        CsPngPars {
            level: 0,
            exif_copy: false,
            iterations: 2,
            iterations_large: 1,
            block_split_strategy: 2,
            lossy_8: true,
            transparent: true,
            auto_filter_strategy: false,
            scale_factor: ScaleFactor::one(),
        }
    }
}

impl Default for CsImagePars {
    /// The defaults of both formats.
    fn default() -> (pars: CsImagePars)
        ensures
            pars.is_built_from(0, false, (ScaleFactor { bits: ONE_BITS })),
            pars.wf(),
    {
        CsImagePars { jpeg: CsJpegPars::default(), png: CsPngPars::default() }
    }
}

/// Builds the parameter record that every job of a batch shares.
///
/// The one input that is refused is a scale factor of zero or less. The
/// quality is taken as it is: the lossy format gets the quality itself, the
/// lossless format the level that the table gives for it.
pub fn build_parameters(quality: i32, preserve_metadata: bool, scale: ScaleFactor) -> (result:
    Result<CsImagePars, ConfigError>)
    ensures
        scale.is_at_most_zero() <==> result is Err,
        result is Err ==> result->Err_0 == ConfigError::InvalidScale,
        result is Ok ==> result->Ok_0.is_built_from(quality as int, preserve_metadata, scale),
        0 <= quality <= 100 && scale.is_positive() ==> result is Ok && result->Ok_0.wf(),
{
    if scale.at_most_zero() {
        return Err(ConfigError::InvalidScale);
    }
    let mut pars = CsImagePars::default();
    pars.jpeg.quality = quality;
    pars.jpeg.exif_copy = preserve_metadata;
    pars.jpeg.scale_factor = scale;
    pars.png.level = get_png_level(quality);
    pars.png.exif_copy = preserve_metadata;
    pars.png.scale_factor = scale;
    Ok(pars)
}

} // verus!
