use llvm_cov_json::{
    decode_branch, decode_file, decode_region, decode_segment, CoverageReport, DecodeError,
    RegionKind,
};

fn val(s: &str) -> serde_json::Value {
    serde_json::from_str(s).unwrap()
}

#[test]
fn kind_tags_decode_to_their_variants() {
    assert_eq!(RegionKind::try_from(0), Ok(RegionKind::Code));
    assert_eq!(RegionKind::try_from(1), Ok(RegionKind::Expansion));
    assert_eq!(RegionKind::try_from(2), Ok(RegionKind::Skipped));
    assert_eq!(RegionKind::try_from(3), Ok(RegionKind::Gap));
    assert_eq!(RegionKind::try_from(4), Ok(RegionKind::Branch));
}

#[test]
fn kind_tag_past_the_range_is_rejected() {
    assert_eq!(RegionKind::try_from(5), Err(DecodeError::UnknownRegionKind(5)));
    assert_eq!(RegionKind::try_from(255), Err(DecodeError::UnknownRegionKind(255)));
    // The same failure reaches a whole region decode with the tag preserved.
    assert_eq!(
        decode_region(&val("[1, 2, 3, 4, 5, 0, 0, 5]")),
        Err(DecodeError::UnknownRegionKind(5))
    );
}

#[test]
fn region_decodes_positionally() {
    let region = decode_region(&val("[1, 2, 3, 4, 5, 6, 7, 3]")).unwrap();
    assert_eq!(region.line_start, 1);
    assert_eq!(region.column_start, 2);
    assert_eq!(region.line_end, 3);
    assert_eq!(region.column_end, 4);
    assert_eq!(region.execution_count, 5);
    assert_eq!(region.file_id, 6);
    assert_eq!(region.expanded_file_id, 7);
    assert_eq!(region.kind, RegionKind::Gap);
}

#[test]
fn branch_decodes_positionally() {
    let branch = decode_branch(&val("[4, 9, 4, 14, 5, 2, 1, 0, 4]")).unwrap();
    assert_eq!(branch.line_start, 4);
    assert_eq!(branch.column_start, 9);
    assert_eq!(branch.line_end, 4);
    assert_eq!(branch.column_end, 14);
    assert_eq!(branch.execution_count, 5);
    assert_eq!(branch.false_execution_count, 2);
    assert_eq!(branch.file_id, 1);
    assert_eq!(branch.expanded_file_id, 0);
    assert_eq!(branch.region_kind, RegionKind::Branch);
}

#[test]
fn region_arity_is_exact() {
    // One element short and one element long both fail; nothing is
    // truncated or padded.
    assert_eq!(decode_region(&val("[1, 2, 3, 4, 5, 6, 7]")), Err(DecodeError::ShapeMismatch));
    assert_eq!(
        decode_region(&val("[1, 2, 3, 4, 5, 6, 7, 0, 0]")),
        Err(DecodeError::ShapeMismatch)
    );
    assert_eq!(decode_region(&val("[]")), Err(DecodeError::ShapeMismatch));
    assert_eq!(decode_region(&val("{}")), Err(DecodeError::ShapeMismatch));
}

#[test]
fn branch_arity_is_exact() {
    assert_eq!(decode_branch(&val("[1, 2, 3, 4, 5, 6, 7, 0]")), Err(DecodeError::ShapeMismatch));
    assert_eq!(
        decode_branch(&val("[1, 2, 3, 4, 5, 6, 7, 0, 0, 0]")),
        Err(DecodeError::ShapeMismatch)
    );
}

#[test]
fn positional_elements_must_be_unsigned_integers() {
    assert_eq!(
        decode_region(&val("[1.5, 2, 3, 4, 5, 6, 7, 0]")),
        Err(DecodeError::ShapeMismatch)
    );
    assert_eq!(decode_region(&val("[-1, 2, 3, 4, 5, 6, 7, 0]")), Err(DecodeError::ShapeMismatch));
    assert_eq!(
        decode_region(&val("[\"1\", 2, 3, 4, 5, 6, 7, 0]")),
        Err(DecodeError::ShapeMismatch)
    );
    // The largest representable count decodes; one past it does not fit in
    // 64 bits and is rejected.
    let region = decode_region(&val("[18446744073709551615, 2, 3, 4, 5, 6, 7, 0]")).unwrap();
    assert_eq!(region.line_start, u64::MAX);
    assert_eq!(
        decode_region(&val("[18446744073709551616, 2, 3, 4, 5, 6, 7, 0]")),
        Err(DecodeError::ShapeMismatch)
    );
}

#[test]
fn segment_decodes_its_six_fields() {
    let seg = decode_segment(&val(
        r#"{"line": 12, "col": 3, "count": 7, "has_count": true, "is_region_entry": false, "is_gap_region": true}"#,
    ))
    .unwrap();
    assert_eq!(seg.line, 12);
    assert_eq!(seg.col, 3);
    assert_eq!(seg.count, 7);
    assert!(seg.has_count);
    assert!(!seg.is_region_entry);
    assert!(seg.is_gap_region);
}

#[test]
fn segment_fields_are_mandatory_and_typed() {
    assert_eq!(
        decode_segment(&val(
            r#"{"line": 12, "col": 3, "count": 7, "has_count": true, "is_region_entry": false}"#,
        )),
        Err(DecodeError::MissingField)
    );
    assert_eq!(
        decode_segment(&val(
            r#"{"line": "12", "col": 3, "count": 7, "has_count": true, "is_region_entry": false, "is_gap_region": true}"#,
        )),
        Err(DecodeError::TypeMismatch)
    );
    assert_eq!(decode_segment(&val("[1, 2, 3]")), Err(DecodeError::TypeMismatch));
}

fn zeroed_totals() -> &'static str {
    r#"{
        "branches": {"count": 0, "covered": 0, "notcovered": 0, "percent": 0.0},
        "functions": {"count": 0, "covered": 0, "percent": 0.0},
        "instantiations": {"count": 0, "covered": 0, "percent": 0.0},
        "lines": {"count": 0, "covered": 0, "percent": 0.0},
        "regions": {"count": 0, "covered": 0, "notcovered": 0, "percent": 0.0}
    }"#
}

#[test]
fn empty_export_decodes() {
    let text = format!(
        r#"{{"version": "2.0.1", "type": "llvm.coverage.json.export", "data": [{{"totals": {}, "files": [], "functions": []}}]}}"#,
        zeroed_totals(),
    );
    let report = CoverageReport::from_str(&text).unwrap();
    assert_eq!(report.version, "2.0.1");
    assert_eq!(report.export_type, "llvm.coverage.json.export");
    assert_eq!(report.data.len(), 1);
    assert!(report.data[0].files.is_empty());
    assert!(report.data[0].functions.is_empty());
    assert_eq!(report.data[0].summary.branches.count, 0);
}

#[test]
fn expansions_null_and_absent_both_mean_no_data() {
    let with_null = format!(
        r#"{{"filename": "/src/a.c", "summary": {}, "branches": [], "segments": [], "expansions": null}}"#,
        zeroed_totals(),
    );
    let absent = format!(
        r#"{{"filename": "/src/a.c", "summary": {}, "branches": [], "segments": []}}"#,
        zeroed_totals(),
    );
    let empty = format!(
        r#"{{"filename": "/src/a.c", "summary": {}, "branches": [], "segments": [], "expansions": []}}"#,
        zeroed_totals(),
    );
    let decoded_null = decode_file(&val(&with_null)).unwrap();
    let decoded_absent = decode_file(&val(&absent)).unwrap();
    let decoded_empty = decode_file(&val(&empty)).unwrap();
    assert!(decoded_null.expansions.is_none());
    assert!(decoded_absent.expansions.is_none());
    assert_eq!(decoded_null, decoded_absent);
    // An exported-but-empty list is kept apart from absence.
    assert_eq!(decoded_empty.expansions.as_ref().unwrap().len(), 0);
}

#[test]
fn malformed_text_fails_with_the_syntax_position() {
    let r = CoverageReport::from_str("{\"version\": ");
    assert!(matches!(r, Err(DecodeError::Syntax { .. })));
    let r = CoverageReport::from_str("");
    assert!(matches!(r, Err(DecodeError::Syntax { line: 1, .. })));
}

#[test]
fn top_level_errors_are_structured() {
    // A well-formed document that is not an object.
    assert_eq!(CoverageReport::from_str("[]"), Err(DecodeError::TypeMismatch));
    // A top-level object missing the required tags.
    assert_eq!(CoverageReport::from_str("{}"), Err(DecodeError::MissingField));
    // A tag of the wrong type.
    assert_eq!(
        CoverageReport::from_str(r#"{"version": 7, "type": "llvm.coverage.json.export", "data": []}"#),
        Err(DecodeError::TypeMismatch)
    );
    // A data field that is not an array.
    assert_eq!(
        CoverageReport::from_str(r#"{"version": "2.0.1", "type": "llvm.coverage.json.export", "data": {}}"#),
        Err(DecodeError::TypeMismatch)
    );
}

#[test]
fn nested_errors_propagate_unchanged() {
    let text = format!(
        r#"{{"version": "2.0.1", "type": "llvm.coverage.json.export", "data": [{{"totals": {}, "files": [{{"filename": "/src/a.c", "summary": {}, "branches": [[1, 2, 3, 4, 5, 0, 0, 9]], "segments": []}}], "functions": []}}]}}"#,
        zeroed_totals(),
        zeroed_totals(),
    );
    // The branch array has region arity, not branch arity.
    assert_eq!(CoverageReport::from_str(&text), Err(DecodeError::ShapeMismatch));

    let text = format!(
        r#"{{"version": "2.0.1", "type": "llvm.coverage.json.export", "data": [{{"totals": {}, "files": [], "functions": [{{"filenames": [], "branches": [], "count": 1, "name": "f", "regions": [[1, 2, 3, 4, 5, 0, 0, 7]]}}]}}]}}"#,
        zeroed_totals(),
    );
    // The region's kind tag is outside the known range.
    assert_eq!(CoverageReport::from_str(&text), Err(DecodeError::UnknownRegionKind(7)));
}
