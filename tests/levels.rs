use std::io::Cursor;

use dicom2tiff::directory::{image_description, DirectoryBuilder, DirectoryStage};
use dicom2tiff::error::ConvertError;
use dicom2tiff::level::{color_profile_item, plan_level, replicate, LevelAttributes};
use dicom2tiff::mapping::Photometric;
use dicom2tiff::selector::{select_levels, Candidate};

fn attributes(columns: u32, photometric: &str, compression: &str) -> LevelAttributes {
    LevelAttributes {
        image_width: columns,
        image_height: columns / 2,
        tile_width: 256,
        tile_height: 128,
        photometric: photometric.to_string(),
        samples_per_pixel: 3,
        bits_stored: 8,
        pixel_spacing: vec![" 0.00025".to_string(), "0.0005 ".to_string()],
        compression: compression.to_string(),
        icc_profile: None,
    }
}

#[test]
fn plan_keeps_geometry() {
    let mut a = attributes(1000, "YBR_FULL_422", "ISO_10918_1 ");
    a.icc_profile = Some(vec![1, 2, 3]);
    let p = plan_level(a).unwrap();
    assert_eq!((p.image_width, p.image_height, p.tile_width, p.tile_height), (1000, 500, 256, 128));
    assert_eq!(p.photometric, Photometric::YCbCr);
    assert_eq!(p.subsampling, Some([2, 1]));
    assert_eq!(p.samples_per_pixel, 3);
    assert_eq!(p.bits_per_sample, vec![8, 8, 8]);
    assert_eq!(p.compression, 7);
    assert_eq!(p.pixel_spacing_row, "0.00025");
    assert_eq!(p.pixel_spacing_column, "0.0005");
    assert_eq!(p.icc_profile, Some(vec![1, 2, 3]));
}

#[test]
fn plan_jpeg2000_rgb() {
    let p = plan_level(attributes(64, "RGB", "ISO_15444_1")).unwrap();
    assert_eq!(p.photometric, Photometric::Rgb);
    assert_eq!(p.subsampling, None);
    assert_eq!(p.compression, 33005);
}

#[test]
fn plan_rejects_unknown_photometric() {
    match plan_level(attributes(64, "PALETTE COLOR", "ISO_10918_1")) {
        Err(ConvertError::UnsupportedFormat(v)) => assert_eq!(v, "PALETTE COLOR"),
        other => panic!("unexpected {:?}", other),
    }
}

#[test]
fn plan_rejects_wrong_pixel_spacing_count() {
    let mut a = attributes(64, "RGB", "ISO_10918_1");
    a.pixel_spacing = vec!["0.00025".to_string()];
    assert!(matches!(plan_level(a), Err(ConvertError::MalformedAttribute(_))));
    let mut a = attributes(64, "RGB", "ISO_10918_1");
    a.pixel_spacing = vec!["1".to_string(), "2".to_string(), "3".to_string()];
    assert!(matches!(plan_level(a), Err(ConvertError::MalformedAttribute(_))));
}

#[test]
fn plan_rejects_unsupported_compression() {
    assert!(matches!(
        plan_level(attributes(64, "MONOCHROME2", "ISO_15444_1")),
        Err(ConvertError::UnsupportedFormat(_))
    ));
}

#[test]
fn replicate_bits() {
    assert_eq!(replicate(12, 1), vec![12]);
    assert_eq!(replicate(8, 4), vec![8, 8, 8, 8]);
    assert!(replicate(8, 0).is_empty());
}

#[test]
fn description_embeds_microns_per_pixel() {
    assert_eq!(image_description(&"0.25".to_string()), "Aperio\n|MPP=0.25");
}

#[test]
fn builder_stages_in_order() {
    let mut b = DirectoryBuilder::new();
    assert_eq!(b.current_stage(), DirectoryStage::Open);
    assert!(!b.record_tile(1, 1));
    assert!(b.take_offset_tables().is_none());
    assert!(b.advance());
    assert_eq!(b.current_stage(), DirectoryStage::DescriptiveTags);
    assert!(b.advance());
    assert_eq!(b.current_stage(), DirectoryStage::GeometryAndColorTags);
    assert!(b.advance());
    assert_eq!(b.current_stage(), DirectoryStage::TileData);
    assert!(!b.advance());
    assert_eq!(b.current_stage(), DirectoryStage::TileData);
    assert!(b.record_tile(16, 3));
    assert!(b.record_tile(19, 5));
    let (offsets, counts) = b.take_offset_tables().unwrap();
    assert_eq!(offsets, vec![16, 19]);
    assert_eq!(counts, vec![3, 5]);
    assert_eq!(b.current_stage(), DirectoryStage::OffsetTables);
    assert!(!b.record_tile(22, 1));
    assert!(b.advance());
    assert_eq!(b.current_stage(), DirectoryStage::Closed);
    assert!(!b.advance());
    assert_eq!(b.current_stage(), DirectoryStage::Closed);
}

#[test]
fn recorded_tiles_read_back_from_container() {
    let tiles: Vec<Vec<u8>> = vec![vec![0xff, 0xd8, 1, 2, 3], vec![9; 17], vec![], vec![4, 5]];
    let mut out = Cursor::new(Vec::new());
    let mut offsets = Vec::new();
    let mut counts = Vec::new();
    {
        let mut enc = tiff::encoder::TiffEncoder::new_big(&mut out).unwrap();
        let mut dir = enc.image_directory().unwrap();
        let mut b = DirectoryBuilder::new();
        b.advance();
        b.advance();
        b.advance();
        for t in &tiles {
            let offset = dir.write_data(&t[..]).unwrap();
            assert!(b.record_tile(offset, t.len() as u64));
        }
        let (o, c) = b.take_offset_tables().unwrap();
        dir.write_tag(tiff::tags::Tag::TileOffsets, &o[..]).unwrap();
        dir.write_tag(tiff::tags::Tag::TileByteCounts, &c[..]).unwrap();
        dir.finish().unwrap();
        offsets = o;
        counts = c;
    }
    let bytes = out.into_inner();
    assert_eq!(offsets.len(), tiles.len());
    for (i, t) in tiles.iter().enumerate() {
        let start = offsets[i] as usize;
        let end = start + counts[i] as usize;
        assert_eq!(&bytes[start..end], &t[..]);
    }
}

#[test]
fn scenario_two_levels_largest_first() {
    let cs = vec![
        Candidate { image_type: vec!["ORIGINAL".into(), "PRIMARY".into(), "VOLUME".into(), "NONE".into()], columns: Some(1000) },
        Candidate { image_type: vec!["ORIGINAL".into(), "PRIMARY".into(), "VOLUME".into(), "NONE".into()], columns: Some(2000) },
    ];
    let levels = vec![attributes(1000, "MONOCHROME2", "ISO_10918_1"), attributes(2000, "MONOCHROME2", "ISO_10918_1")];
    let order = select_levels(&cs).unwrap();
    assert_eq!(order, vec![1, 0]);
    let first = plan_level(levels[order[0]].clone()).unwrap();
    assert_eq!(first.image_width, 2000);
    assert_eq!(first.photometric.code(), 0);
    assert_eq!(first.compression, 7);
    let second = plan_level(levels[order[1]].clone()).unwrap();
    assert_eq!(second.image_width, 1000);
}

#[test]
fn single_level_plan_matches_input() {
    let cs = vec![Candidate::from_header(
        &vec!["DERIVED".into(), "PRIMARY".into(), "VOLUME".into(), "RESAMPLED".into()],
        Some(777),
    )];
    assert_eq!(select_levels(&cs).unwrap(), vec![0]);
    let p = plan_level(attributes(777, "RGB", "ISO_10918_1")).unwrap();
    assert_eq!((p.image_width, p.image_height, p.tile_width, p.tile_height), (777, 388, 256, 128));
}

#[test]
fn color_profile_from_first_item_that_has_one() {
    assert_eq!(color_profile_item(&vec![false, true, true]).unwrap(), Some(1));
    assert_eq!(color_profile_item(&vec![true]).unwrap(), Some(0));
    assert_eq!(color_profile_item(&vec![false, false]).unwrap(), None);
    assert!(matches!(color_profile_item(&vec![]), Err(ConvertError::MissingAttribute(_))));
}
