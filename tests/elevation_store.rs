use geotiff_extractor::elevation_store::{
    elevation_row_id, elevation_transform_or_ground, ingestion_chunks, transform_coefficients,
    LookupError, MAX_BIND_PARAMETERS,
};

fn rows(chunks: &[(usize, usize)]) -> usize {
    chunks.iter().map(|(s, e)| e - s).sum()
}

#[test]
fn load_above_ceiling_takes_rounded_up_statements() {
    let n = 2 * MAX_BIND_PARAMETERS + 7;
    let chunks = ingestion_chunks(n, MAX_BIND_PARAMETERS);
    assert_eq!(chunks.len(), 3);
    assert_eq!(chunks[0], (0, 65535));
    assert_eq!(chunks[1], (65535, 131070));
    assert_eq!(chunks[2], (131070, 131077));
    assert_eq!(rows(&chunks), n);
}

#[test]
fn load_of_exact_multiple_has_no_empty_statement() {
    let n = 3 * MAX_BIND_PARAMETERS;
    let chunks = ingestion_chunks(n, MAX_BIND_PARAMETERS);
    assert_eq!(chunks.len(), 3);
    assert!(chunks.iter().all(|(s, e)| e - s == MAX_BIND_PARAMETERS));
    assert_eq!(rows(&chunks), n);
}

#[test]
fn load_below_ceiling_is_one_statement() {
    let chunks = ingestion_chunks(640_000 % 65535, MAX_BIND_PARAMETERS);
    assert_eq!(chunks, vec![(0, 50185)]);
}

#[test]
fn empty_load_issues_no_statement() {
    assert!(ingestion_chunks(0, MAX_BIND_PARAMETERS).is_empty());
}

#[test]
fn chunks_are_consecutive_and_bounded() {
    let chunks = ingestion_chunks(10, 3);
    assert_eq!(chunks, vec![(0, 3), (3, 6), (6, 9), (9, 10)]);
}

#[test]
fn largest_load_does_not_overflow() {
    let chunks = ingestion_chunks(usize::MAX, usize::MAX / 2 + 1);
    assert_eq!(chunks, vec![(0, usize::MAX / 2 + 1), (usize::MAX / 2 + 1, usize::MAX)]);
}

#[test]
fn row_of_pixel_is_row_major_and_one_based() {
    assert_eq!(elevation_row_id(549, 1074, 800), Some(1074 * 800 + 549 + 1));
    assert_eq!(elevation_row_id(0, 0, 800), Some(1));
    assert_eq!(elevation_row_id(799, 0, 800), Some(800));
    assert_eq!(elevation_row_id(0, 1, 800), Some(801));
}

#[test]
fn row_beyond_i32_is_none() {
    assert_eq!(elevation_row_id(0, i32::MAX, 2), None);
    assert_eq!(elevation_row_id(i32::MAX, 0, 1), None);
    assert_eq!(elevation_row_id(i32::MAX - 1, 0, 1), Some(i32::MAX));
}

#[test]
fn stored_elevation_transform_is_used() {
    let t: Result<[i64; 6], LookupError<String>> = Ok([1, 2, 3, 4, 5, 6]);
    assert_eq!(elevation_transform_or_ground(t), Ok(Some([1, 2, 3, 4, 5, 6])));
}

#[test]
fn missing_elevation_transform_means_ground_level() {
    let t: Result<[i64; 6], LookupError<String>> = Err(LookupError::NotFound);
    assert_eq!(elevation_transform_or_ground(t), Ok(None));
}

#[test]
fn store_failure_is_passed_on() {
    let t: Result<[i64; 6], LookupError<String>> =
        Err(LookupError::Backend(String::from("connection lost")));
    assert_eq!(
        elevation_transform_or_ground(t),
        Err(String::from("connection lost"))
    );
}

#[test]
fn complete_transform_row_gives_its_coefficients() {
    let row = vec![Some(1.0), Some(2.0), Some(3.0), Some(4.0), Some(5.0), Some(6.0)];
    assert_eq!(
        transform_coefficients(&row),
        Some(vec![1.0, 2.0, 3.0, 4.0, 5.0, 6.0])
    );
}

#[test]
fn transform_row_with_null_is_rejected() {
    let row = vec![Some(1.0), Some(2.0), None, Some(4.0), Some(5.0), Some(6.0)];
    assert_eq!(transform_coefficients(&row), None);
}

#[test]
fn transform_row_of_wrong_length_is_rejected() {
    let short = vec![Some(1.0); 5];
    let long = vec![Some(1.0); 7];
    assert_eq!(transform_coefficients::<f64>(&short), None);
    assert_eq!(transform_coefficients::<f64>(&long), None);
    assert_eq!(transform_coefficients::<f64>(&Vec::new()), None);
}
