use vstd::prelude::*;
use vstd::string::StringExecFns;

use crate::error::ConvertError;
use crate::mapping::{
    compression_of, compression_to_tiff, photometric_of_label, photometric_to_tiff, Photometric,
};
use crate::text::{trim_whitespace, trimmed};

verus! {

/// The attributes of one pyramid level, as read from its document.
#[derive(Debug, Clone)]
pub struct LevelAttributes {
    /// Total pixel-matrix columns.
    pub image_width: u32,
    /// Total pixel-matrix rows.
    pub image_height: u32,
    /// Columns of one tile.
    pub tile_width: u16,
    /// Rows of one tile.
    pub tile_height: u16,
    /// Photometric-interpretation label.
    pub photometric: String,
    pub samples_per_pixel: u16,
    pub bits_stored: u16,
    /// Components of the pixel-spacing attribute (millimeters per pixel, row first).
    pub pixel_spacing: Vec<String>,
    /// Lossy-compression-method label.
    pub compression: String,
    /// Color profile of the first optical path that carries one.
    pub icc_profile: Option<Vec<u8>>,
}

/// Everything that the output directory of one level is written from.
#[derive(Debug, Clone)]
pub struct LevelPlan {
    pub image_width: u32,
    pub image_height: u32,
    pub tile_width: u16,
    pub tile_height: u16,
    pub photometric: Photometric,
    pub subsampling: Option<[u16; 2]>,
    pub samples_per_pixel: u16,
    /// The bits-stored value, once per sample.
    pub bits_per_sample: Vec<u16>,
    pub compression: u16,
    /// Row pixel spacing in millimeters, trimmed.
    pub pixel_spacing_row: String,
    /// Column pixel spacing in millimeters, trimmed.
    pub pixel_spacing_column: String,
    pub icc_profile: Option<Vec<u8>>,
}

/// `count` copies of `value`.
pub fn replicate(value: u16, count: u16) -> (r: Vec<u16>)
    ensures
        r@ == Seq::new(count as nat, |_i: int| value),
{
    let mut r: Vec<u16> = Vec::new();
    let mut k: u16 = 0;
    while k < count
        invariant
            k <= count,
            r@ == Seq::new(k as nat, |_i: int| value),
        decreases count - k,
    {
        r.push(value);
        k = k + 1;
        assert(r@ =~= Seq::new(k as nat, |_i: int| value));
    }
    r
}

/// The error that planning a level ends in, if any, checked in this order:
/// photometric label, pixel-spacing cardinality, compression.
pub open spec fn plan_fails(a: LevelAttributes) -> bool {
    ||| photometric_of_label(a.photometric@) is None
    ||| a.pixel_spacing@.len() != 2
    ||| compression_of(
        trimmed(a.compression@),
        photometric_of_label(a.photometric@)->Some_0.0,
    ) is None
}

/// Derives the output directory's values from a level's attributes.
pub fn plan_level(a: LevelAttributes) -> (r: Result<LevelPlan, ConvertError>)
    ensures
        photometric_of_label(a.photometric@) is None ==> r == Err::<LevelPlan, _>(
            ConvertError::UnsupportedFormat(a.photometric),
        ),
        photometric_of_label(a.photometric@) is Some && a.pixel_spacing@.len() != 2 ==> r is Err
            && r->Err_0.is_malformed_attribute(),
        photometric_of_label(a.photometric@) is Some && a.pixel_spacing@.len() == 2 && compression_of(
            trimmed(a.compression@),
            photometric_of_label(a.photometric@)->Some_0.0,
        ) is None ==> r is Err && r->Err_0.is_unsupported_format(),
        !plan_fails(a) ==> r is Ok && ({
            let p = r->Ok_0;
            let (photometric, subsampling) = photometric_of_label(a.photometric@)->Some_0;
            &&& p.image_width == a.image_width
            &&& p.image_height == a.image_height
            &&& p.tile_width == a.tile_width
            &&& p.tile_height == a.tile_height
            &&& p.photometric == photometric
            &&& p.subsampling == subsampling
            &&& p.samples_per_pixel == a.samples_per_pixel
            &&& p.bits_per_sample@ == Seq::new(a.samples_per_pixel as nat, |_i: int| a.bits_stored)
            &&& p.compression == compression_of(trimmed(a.compression@), photometric)->Some_0
            &&& p.pixel_spacing_row@ == trimmed(a.pixel_spacing@[0]@)
            &&& p.pixel_spacing_column@ == trimmed(a.pixel_spacing@[1]@)
            &&& p.icc_profile == a.icc_profile
        }),
{
    let (photometric, subsampling) = match photometric_to_tiff(&a.photometric) {
        Ok(m) => m,
        Err(e) => return Err(e),
    };
    if a.pixel_spacing.len() != 2 {
        return Err(ConvertError::MalformedAttribute(String::from_str("PixelSpacing")));
    }
    let pixel_spacing_row = trim_whitespace(&a.pixel_spacing[0]);
    let pixel_spacing_column = trim_whitespace(&a.pixel_spacing[1]);
    let bits_per_sample = replicate(a.bits_stored, a.samples_per_pixel);
    let compression = match compression_to_tiff(&trim_whitespace(&a.compression), photometric) {
        Ok(c) => c,
        Err(e) => return Err(e),
    };
    Ok(LevelPlan {
        image_width: a.image_width,
        image_height: a.image_height,
        tile_width: a.tile_width,
        tile_height: a.tile_height,
        photometric,
        subsampling,
        samples_per_pixel: a.samples_per_pixel,
        bits_per_sample,
        compression,
        pixel_spacing_row,
        pixel_spacing_column,
        icc_profile: a.icc_profile,
    })
}

/// Picks the optical-path item whose color profile is used: the first one
/// that carries a profile, or none. `has_profile[i]` tells whether item `i`
/// carries one; an empty optical-path sequence is an error.
pub fn color_profile_item(has_profile: &Vec<bool>) -> (r: Result<Option<usize>, ConvertError>)
    ensures
        has_profile@.len() == 0 <==> r is Err,
        r is Err ==> r->Err_0 is MissingAttribute,
        r is Ok && r->Ok_0 is None ==> forall|i: int| 0 <= i < has_profile@.len() ==> !#[trigger] has_profile@[i],
        r is Ok && r->Ok_0 is Some ==> ({
            let k = r->Ok_0->Some_0 as int;
            &&& 0 <= k < has_profile@.len()
            &&& has_profile@[k]
            &&& forall|i: int| 0 <= i < k ==> !#[trigger] has_profile@[i]
        }),
        has_profile@.len() > 0 && (exists|i: int| 0 <= i < has_profile@.len() && #[trigger] has_profile@[i])
            ==> r is Ok && r->Ok_0 is Some,
{
    if has_profile.len() == 0 {
        return Err(ConvertError::MissingAttribute(String::from_str("OpticalPathSequence")));
    }
    let mut k: usize = 0;
    while k < has_profile.len()
        invariant
            k <= has_profile@.len(),
            forall|i: int| 0 <= i < k ==> !#[trigger] has_profile@[i],
        decreases has_profile@.len() - k,
    {
        if has_profile[k] {
            return Ok(Some(k));
        }
        k = k + 1;
    }
    Ok(None)
}

} // verus!
