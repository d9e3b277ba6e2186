use dicom2tiff::error::ConvertError;
use dicom2tiff::selector::{pyramid_image_type, pyramid_sources, select_levels, Candidate};
use dicom2tiff::shared_read_seek::{SharedReadSeek, SourceArena};

fn strings(v: &[&str]) -> Vec<String> {
    v.iter().map(|s| s.to_string()).collect()
}

fn candidate(image_type: &[&str], columns: Option<u32>) -> Candidate {
    Candidate { image_type: strings(image_type), columns }
}

fn volume(columns: u32) -> Candidate {
    candidate(&["ORIGINAL", "PRIMARY", "VOLUME", "NONE"], Some(columns))
}

#[test]
fn accepts_the_three_pyramid_tuples() {
    assert!(pyramid_image_type(&strings(&["ORIGINAL", "PRIMARY", "VOLUME", "NONE"])));
    assert!(pyramid_image_type(&strings(&["DERIVED", "PRIMARY", "VOLUME", "NONE"])));
    assert!(pyramid_image_type(&strings(&["DERIVED", "PRIMARY", "VOLUME", "RESAMPLED"])));
}

#[test]
fn rejects_other_image_types() {
    assert!(!pyramid_image_type(&strings(&["ORIGINAL", "PRIMARY", "LABEL", "NONE"])));
    assert!(!pyramid_image_type(&strings(&["ORIGINAL", "PRIMARY", "VOLUME"])));
    assert!(!pyramid_image_type(&strings(&["ORIGINAL", "PRIMARY", "VOLUME", "NONE", "X"])));
    assert!(!pyramid_image_type(&strings(&["DERIVED", "PRIMARY", "VOLUME", "NONE "])));
    assert!(!pyramid_image_type(&strings(&[])));
}

#[test]
fn from_header_trims_components() {
    let c = Candidate::from_header(&strings(&[" ORIGINAL", "PRIMARY ", " VOLUME ", "NONE"]), Some(7));
    assert_eq!(c.image_type, strings(&["ORIGINAL", "PRIMARY", "VOLUME", "NONE"]));
    assert_eq!(c.columns, Some(7));
    assert_eq!(select_levels(&vec![c]).unwrap(), vec![0]);
}

#[test]
fn single_document_gives_single_level() {
    assert_eq!(select_levels(&vec![volume(512)]).unwrap(), vec![0]);
}

#[test]
fn levels_sorted_by_descending_columns() {
    let cs = vec![volume(250), volume(4000), volume(1000), volume(500), volume(2000)];
    assert_eq!(select_levels(&cs).unwrap(), vec![1, 4, 2, 3, 0]);
    let cs = vec![volume(4000), volume(2000), volume(1000), volume(500), volume(250)];
    assert_eq!(select_levels(&cs).unwrap(), vec![0, 1, 2, 3, 4]);
}

#[test]
fn equal_columns_keep_input_order() {
    let cs = vec![volume(100), volume(300), volume(300), volume(200), volume(300)];
    assert_eq!(select_levels(&cs).unwrap(), vec![1, 2, 4, 3, 0]);
}

#[test]
fn missing_columns_sort_last() {
    let cs = vec![
        candidate(&["DERIVED", "PRIMARY", "VOLUME", "RESAMPLED"], None),
        volume(10),
        candidate(&["DERIVED", "PRIMARY", "VOLUME", "NONE"], Some(0)),
    ];
    assert_eq!(select_levels(&cs).unwrap(), vec![1, 0, 2]);
}

#[test]
fn rejected_documents_are_excluded() {
    let cs = vec![
        volume(1000),
        candidate(&["ORIGINAL", "PRIMARY", "LABEL", "NONE"], Some(5000)),
        candidate(&["DERIVED", "PRIMARY", "OVERVIEW", "NONE"], Some(3000)),
        candidate(&["DERIVED", "PRIMARY", "VOLUME", "RESAMPLED"], Some(500)),
    ];
    assert_eq!(select_levels(&cs).unwrap(), vec![0, 3]);
}

#[test]
fn no_accepted_document_is_an_error() {
    let cs = vec![candidate(&["ORIGINAL", "PRIMARY", "LABEL", "NONE"], Some(10))];
    assert!(matches!(select_levels(&cs), Err(ConvertError::InputClassification)));
    assert!(matches!(select_levels(&vec![]), Err(ConvertError::InputClassification)));
}

#[test]
fn pyramid_sources_follow_level_order() {
    let mut arena: SourceArena<Vec<u8>> = SourceArena::new();
    let a = SharedReadSeek::from_read_seek(&mut arena, vec![1u8]);
    let b = SharedReadSeek::from_read_seek(&mut arena, vec![2u8]);
    let c = SharedReadSeek::from_read_seek(&mut arena, vec![3u8]);
    let cs = vec![volume(1000), candidate(&["X"], Some(9999)), volume(2000)];
    let levels = pyramid_sources(&vec![a, b, c], &cs).unwrap();
    assert_eq!(levels, vec![c, a]);
    assert_eq!(arena.stream_mut(levels[0]), &vec![3u8]);
    assert!(matches!(
        pyramid_sources(&vec![b], &vec![candidate(&["X"], None)]),
        Err(ConvertError::InputClassification)
    ));
}

#[test]
fn handles_share_one_stream() {
    let mut arena: SourceArena<std::io::Cursor<Vec<u8>>> = SourceArena::new();
    let h = SharedReadSeek::from_read_seek(&mut arena, std::io::Cursor::new(vec![5u8, 6, 7]));
    assert_eq!(h.slot(), 0);
    assert_eq!(arena.len(), 1);
    let copy = h;
    arena.stream_mut(h).set_position(2);
    assert_eq!(arena.stream_mut(copy).position(), 2);
    arena.stream_mut(copy).set_position(0);
    assert_eq!(arena.stream_mut(h).position(), 0);
}

#[test]
fn scenario_two_levels_submitted_small_first() {
    let cs = vec![volume(1000), volume(2000)];
    assert_eq!(select_levels(&cs).unwrap(), vec![1, 0]);
}
