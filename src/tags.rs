use vstd::prelude::*;

use crate::directory::image_description;
use crate::level::LevelPlan;
use crate::mapping::photometric_code_spec;

verus! {

pub const TAG_IMAGE_WIDTH: u16 = 256;
pub const TAG_IMAGE_LENGTH: u16 = 257;
pub const TAG_BITS_PER_SAMPLE: u16 = 258;
pub const TAG_COMPRESSION: u16 = 259;
pub const TAG_PHOTOMETRIC_INTERPRETATION: u16 = 262;
pub const TAG_IMAGE_DESCRIPTION: u16 = 270;
pub const TAG_SAMPLES_PER_PIXEL: u16 = 277;
pub const TAG_RESOLUTION_UNIT: u16 = 296;
pub const TAG_TILE_WIDTH: u16 = 322;
pub const TAG_TILE_LENGTH: u16 = 323;
pub const TAG_YCBCR_SUBSAMPLING: u16 = 530;
pub const TAG_ICC_PROFILE: u16 = 34675;

/// Resolution unit code for centimeters.
pub const RESOLUTION_UNIT_CENTIMETER: u16 = 3;

/// The value of one directory entry.
#[derive(Debug, Clone)]
pub enum TagValue {
    Ascii(String),
    Short(u16),
    Long(u32),
    Shorts(Vec<u16>),
    Bytes(Vec<u8>),
}

/// A tag value with its contents as mathematical values.
pub enum TagData {
    Ascii(Seq<char>),
    Short(u16),
    Long(u32),
    Shorts(Seq<u16>),
    Bytes(Seq<u8>),
}

impl View for TagValue {
    type V = TagData;

    open spec fn view(&self) -> TagData {
        match self {
            TagValue::Ascii(s) => TagData::Ascii(s@),
            TagValue::Short(v) => TagData::Short(*v),
            TagValue::Long(v) => TagData::Long(*v),
            TagValue::Shorts(v) => TagData::Shorts(v@),
            TagValue::Bytes(v) => TagData::Bytes(v@),
        }
    }
}

/// One entry of an image directory: a tag number and its value.
#[derive(Debug, Clone)]
pub struct TagEntry {
    pub tag: u16,
    pub value: TagValue,
}

pub open spec fn entry_view(e: TagEntry) -> (u16, TagData) {
    (e.tag, e.value@)
}

pub open spec fn entries_view(es: Seq<TagEntry>) -> Seq<(u16, TagData)> {
    es.map_values(|e: TagEntry| entry_view(e))
}

/// The descriptive entries of a level: the description that carries its
/// micrometers per pixel.
pub open spec fn descriptive_entries(microns_per_pixel: Seq<char>) -> Seq<(u16, TagData)> {
    seq![(TAG_IMAGE_DESCRIPTION, TagData::Ascii("Aperio\n|MPP="@ + microns_per_pixel))]
}

/// The geometry and color entries of a level, but for the two resolution values.
pub open spec fn geometry_and_color_entries(p: LevelPlan) -> Seq<(u16, TagData)> {
    let fixed = seq![
        (TAG_IMAGE_WIDTH, TagData::Long(p.image_width)),
        (TAG_IMAGE_LENGTH, TagData::Long(p.image_height)),
        (TAG_TILE_WIDTH, TagData::Short(p.tile_width)),
        (TAG_TILE_LENGTH, TagData::Short(p.tile_height)),
        (TAG_RESOLUTION_UNIT, TagData::Short(RESOLUTION_UNIT_CENTIMETER)),
        (TAG_PHOTOMETRIC_INTERPRETATION, TagData::Short(photometric_code_spec(p.photometric))),
    ];
    let subsampling = match p.subsampling {
        Some(s) => seq![(TAG_YCBCR_SUBSAMPLING, TagData::Shorts(s@))],
        None => Seq::empty(),
    };
    let samples = seq![
        (TAG_SAMPLES_PER_PIXEL, TagData::Short(p.samples_per_pixel)),
        (TAG_BITS_PER_SAMPLE, TagData::Shorts(p.bits_per_sample@)),
        (TAG_COMPRESSION, TagData::Short(p.compression)),
    ];
    let profile = match p.icc_profile {
        Some(b) => seq![(TAG_ICC_PROFILE, TagData::Bytes(b@))],
        None => Seq::empty(),
    };
    fixed + subsampling + samples + profile
}

/// The entries written at the descriptive stage of a level's directory.
pub fn descriptive_tags(microns_per_pixel: &String) -> (r: Vec<TagEntry>)
    ensures
        entries_view(r@) == descriptive_entries(microns_per_pixel@),
{
    let r = vec![TagEntry { tag: TAG_IMAGE_DESCRIPTION, value: TagValue::Ascii(image_description(microns_per_pixel)) }];
    assert(entries_view(r@) =~= descriptive_entries(microns_per_pixel@));
    r
}

/// The entries written at the geometry and color stage of a level's directory,
/// but for the two resolution values.
pub fn geometry_and_color_tags(p: &LevelPlan) -> (r: Vec<TagEntry>)
    ensures
        entries_view(r@) == geometry_and_color_entries(*p),
{
    let mut r: Vec<TagEntry> = vec![
        TagEntry { tag: TAG_IMAGE_WIDTH, value: TagValue::Long(p.image_width) },
        TagEntry { tag: TAG_IMAGE_LENGTH, value: TagValue::Long(p.image_height) },
        TagEntry { tag: TAG_TILE_WIDTH, value: TagValue::Short(p.tile_width) },
        TagEntry { tag: TAG_TILE_LENGTH, value: TagValue::Short(p.tile_height) },
        TagEntry { tag: TAG_RESOLUTION_UNIT, value: TagValue::Short(RESOLUTION_UNIT_CENTIMETER) },
        TagEntry { tag: TAG_PHOTOMETRIC_INTERPRETATION, value: TagValue::Short(p.photometric.code()) },
    ];
    if let Some(s) = p.subsampling {
        let v: Vec<u16> = vec![s[0], s[1]];
        assert(v@ =~= s@);
        r.push(TagEntry { tag: TAG_YCBCR_SUBSAMPLING, value: TagValue::Shorts(v) });
    }
    r.push(TagEntry { tag: TAG_SAMPLES_PER_PIXEL, value: TagValue::Short(p.samples_per_pixel) });
    r.push(TagEntry { tag: TAG_BITS_PER_SAMPLE, value: TagValue::Shorts(p.bits_per_sample.clone()) });
    r.push(TagEntry { tag: TAG_COMPRESSION, value: TagValue::Short(p.compression) });
    match &p.icc_profile {
        Some(b) => {
            r.push(TagEntry { tag: TAG_ICC_PROFILE, value: TagValue::Bytes(b.clone()) });
        },
        None => {},
    }
    assert(entries_view(r@) =~= geometry_and_color_entries(*p));
    r
}

} // verus!
