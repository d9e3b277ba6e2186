use vstd::prelude::*;
use vstd::string::StringExecFns;

use crate::error::ConvertError;

verus! {

/// Photometric interpretation in the vocabulary of the output container.
#[derive(Debug, Clone, Copy, PartialEq, Eq, Structural)]
pub enum Photometric {
    WhiteIsZero,
    BlackIsZero,
    Rgb,
    YCbCr,
}

/// The container's numeric code of a photometric interpretation.
pub open spec fn photometric_code_spec(p: Photometric) -> u16 {
    match p {
        Photometric::WhiteIsZero => 0,
        Photometric::BlackIsZero => 1,
        Photometric::Rgb => 2,
        Photometric::YCbCr => 6,
    }
}

impl Photometric {
    pub fn code(&self) -> (r: u16)
        ensures
            r == photometric_code_spec(*self),
    {
        match self {
            Photometric::WhiteIsZero => 0,
            Photometric::BlackIsZero => 1,
            Photometric::Rgb => 2,
            Photometric::YCbCr => 6,
        }
    }
}

/// Compression code of "modern" JPEG (one complete JPEG stream per tile).
pub const COMPRESSION_MODERN_JPEG: u16 = 7;

/// Vendor compression code of JPEG 2000 tiles holding RGB samples.
pub const COMPRESSION_JP2K_RGB: u16 = 33005;

/// Vendor compression code of JPEG 2000 tiles holding YCbCr samples.
pub const COMPRESSION_JP2K_YCBCR: u16 = 33003;

/// The photometric interpretation and chroma subsampling for a source label,
/// or `None` where the label is not supported.
pub open spec fn photometric_of_label(label: Seq<char>) -> Option<(Photometric, Option<[u16; 2]>)> {
    if label == "MONOCHROME1"@ {
        Some((Photometric::BlackIsZero, None))
    } else if label == "MONOCHROME2"@ {
        Some((Photometric::WhiteIsZero, None))
    } else if label == "RGB"@ {
        Some((Photometric::Rgb, None))
    } else if label == "YBR_FULL"@ {
        Some((Photometric::YCbCr, Some([1u16, 1u16])))
    } else if label == "YBR_FULL_422"@ {
        Some((Photometric::YCbCr, Some([2u16, 1u16])))
    } else if label == "YBR_ICT"@ {
        Some((Photometric::YCbCr, None))
    } else {
        None
    }
}

/// The output compression code for a lossy-compression label and photometric
/// interpretation, or `None` where the pair is not supported.
pub open spec fn compression_of(label: Seq<char>, p: Photometric) -> Option<u16> {
    if label == "ISO_10918_1"@ {
        Some(COMPRESSION_MODERN_JPEG)
    } else if label == "ISO_15444_1"@ && p == Photometric::Rgb {
        Some(COMPRESSION_JP2K_RGB)
    } else if label == "ISO_15444_1"@ && p == Photometric::YCbCr {
        Some(COMPRESSION_JP2K_YCBCR)
    } else {
        None
    }
}

/// Whether a dimension-organization label names the sparse tiling layout.
pub open spec fn is_sparse_label(label: Seq<char>) -> bool {
    label == "TILED_SPARSE"@
}

/// Maps a source photometric label to the output photometric interpretation
/// and its optional chroma subsampling pair.
pub fn photometric_to_tiff(label: &String) -> (r: Result<(Photometric, Option<[u16; 2]>), ConvertError>)
    ensures
        photometric_of_label(label@) is Some ==> r == Ok::<_, ConvertError>(
            photometric_of_label(label@)->Some_0,
        ),
        photometric_of_label(label@) is None ==> r == Err::<(Photometric, Option<[u16; 2]>), _>(
            ConvertError::UnsupportedFormat(*label),
        ),
{
    if *label == String::from_str("MONOCHROME1") {
        Ok((Photometric::BlackIsZero, None))
    } else if *label == String::from_str("MONOCHROME2") {
        Ok((Photometric::WhiteIsZero, None))
    } else if *label == String::from_str("RGB") {
        Ok((Photometric::Rgb, None))
    } else if *label == String::from_str("YBR_FULL") {
        Ok((Photometric::YCbCr, Some([1u16, 1u16])))
    } else if *label == String::from_str("YBR_FULL_422") {
        Ok((Photometric::YCbCr, Some([2u16, 1u16])))
    } else if *label == String::from_str("YBR_ICT") {
        Ok((Photometric::YCbCr, None))
    } else {
        Err(ConvertError::UnsupportedFormat(label.clone()))
    }
}

/// Maps a (trimmed) lossy-compression label and the output photometric
/// interpretation to the output compression code.
pub fn compression_to_tiff(label: &String, photometric: Photometric) -> (r: Result<u16, ConvertError>)
    ensures
        compression_of(label@, photometric) is Some ==> r == Ok::<u16, ConvertError>(
            compression_of(label@, photometric)->Some_0,
        ),
        compression_of(label@, photometric) is None ==> r == Err::<u16, _>(
            ConvertError::UnsupportedFormat(*label),
        ),
{
    if *label == String::from_str("ISO_10918_1") {
        Ok(COMPRESSION_MODERN_JPEG)
    } else if *label == String::from_str("ISO_15444_1") {
        match photometric {
            Photometric::Rgb => Ok(COMPRESSION_JP2K_RGB),
            Photometric::YCbCr => Ok(COMPRESSION_JP2K_YCBCR),
            _ => Err(ConvertError::UnsupportedFormat(label.clone())),
        }
    } else {
        Err(ConvertError::UnsupportedFormat(label.clone()))
    }
}

/// Rejects the sparse tiling layout; any other label, or none, is accepted.
pub fn check_dimension_organization(label: &Option<String>) -> (r: Result<(), ConvertError>)
    ensures
        r is Err <==> (label is Some && is_sparse_label(label->Some_0@)),
        r is Err ==> r->Err_0 == ConvertError::UnsupportedFormat(label->Some_0),
{
    match label {
        Some(l) => {
            if *l == String::from_str("TILED_SPARSE") {
                Err(ConvertError::UnsupportedFormat(l.clone()))
            } else {
                Ok(())
            }
        },
        None => Ok(()),
    }
}

} // verus!
