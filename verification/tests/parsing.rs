use llvm_cov_json::CoverageReport;

/// A small but complete export in the v2.0.1 schema, shaped like the output
/// of the coverage tool with expansion data enabled.
fn full_export_json() -> String {
    let file_a = r#"{
        "filename": "/src/a.c",
        "summary": {
            "branches": {"count": 2, "covered": 2, "notcovered": 0, "percent": 100.0},
            "functions": {"count": 1, "covered": 1, "percent": 100.0},
            "instantiations": {"count": 1, "covered": 1, "percent": 100.0},
            "lines": {"count": 5, "covered": 5, "percent": 100.0},
            "regions": {"count": 3, "covered": 3, "notcovered": 0, "percent": 100.0}
        },
        "branches": [[4, 9, 4, 14, 5, 2, 0, 0, 4]],
        "segments": [
            {"line": 1, "col": 1, "count": 5, "has_count": true, "is_region_entry": true, "is_gap_region": false}
        ],
        "expansions": [
            {
                "filenames": ["/src/a.c", "/src/a.h"],
                "branches": [],
                "source_region": [2, 1, 2, 8, 5, 0, 1, 1],
                "target_regions": [[1, 1, 3, 2, 5, 1, 0, 0]]
            }
        ]
    }"#;
    let file_b = r#"{
        "filename": "/src/b.c",
        "summary": {
            "branches": {"count": 2, "covered": 1, "notcovered": 1, "percent": 50.0},
            "functions": {"count": 1, "covered": 1, "percent": 100.0},
            "instantiations": {"count": 1, "covered": 1, "percent": 100.0},
            "lines": {"count": 5, "covered": 4, "percent": 80.0},
            "regions": {"count": 3, "covered": 2, "notcovered": 1, "percent": 66.7}
        },
        "branches": [[7, 3, 7, 9, 1, 0, 0, 0, 4]],
        "segments": [
            {"line": 1, "col": 1, "count": 1, "has_count": true, "is_region_entry": true, "is_gap_region": false}
        ],
        "expansions": []
    }"#;
    format!(
        r#"{{
        "version": "2.0.1",
        "type": "llvm.coverage.json.export",
        "data": [
            {{
                "totals": {{
                    "branches": {{"count": 4, "covered": 3, "notcovered": 1, "percent": 75.0}},
                    "functions": {{"count": 2, "covered": 2, "percent": 100.0}},
                    "instantiations": {{"count": 2, "covered": 2, "percent": 100.0}},
                    "lines": {{"count": 10, "covered": 9, "percent": 90.0}},
                    "regions": {{"count": 6, "covered": 5, "notcovered": 1, "percent": 83.3}}
                }},
                "files": [{}, {}],
                "functions": [{}, {}]
            }}
        ]
    }}"#,
        file_a,
        file_b,
        r#"{"filenames": ["/src/a.c"], "branches": [[4, 9, 4, 14, 5, 2, 0, 0, 4]], "count": 5, "name": "foo", "regions": [[1, 1, 9, 2, 5, 0, 0, 0]]}"#,
        r#"{"filenames": ["/src/b.c"], "branches": [[7, 3, 7, 9, 1, 0, 0, 0, 4]], "count": 1, "name": "bar", "regions": [[1, 1, 9, 2, 1, 0, 0, 0]]}"#,
    )
}

/// The same export with the expansion data disabled: every file lacks the
/// expansions key, and all other data is unchanged.
fn wo_expansions_export_json() -> String {
    let file_a = r#"{
        "filename": "/src/a.c",
        "summary": {
            "branches": {"count": 2, "covered": 2, "notcovered": 0, "percent": 100.0},
            "functions": {"count": 1, "covered": 1, "percent": 100.0},
            "instantiations": {"count": 1, "covered": 1, "percent": 100.0},
            "lines": {"count": 5, "covered": 5, "percent": 100.0},
            "regions": {"count": 3, "covered": 3, "notcovered": 0, "percent": 100.0}
        },
        "branches": [[4, 9, 4, 14, 5, 2, 0, 0, 4]],
        "segments": [
            {"line": 1, "col": 1, "count": 5, "has_count": true, "is_region_entry": true, "is_gap_region": false}
        ]
    }"#;
    let file_b = r#"{
        "filename": "/src/b.c",
        "summary": {
            "branches": {"count": 2, "covered": 1, "notcovered": 1, "percent": 50.0},
            "functions": {"count": 1, "covered": 1, "percent": 100.0},
            "instantiations": {"count": 1, "covered": 1, "percent": 100.0},
            "lines": {"count": 5, "covered": 4, "percent": 80.0},
            "regions": {"count": 3, "covered": 2, "notcovered": 1, "percent": 66.7}
        },
        "branches": [[7, 3, 7, 9, 1, 0, 0, 0, 4]],
        "segments": [
            {"line": 1, "col": 1, "count": 1, "has_count": true, "is_region_entry": true, "is_gap_region": false}
        ]
    }"#;
    format!(
        r#"{{
        "version": "2.0.1",
        "type": "llvm.coverage.json.export",
        "data": [
            {{
                "totals": {{
                    "branches": {{"count": 4, "covered": 3, "notcovered": 1, "percent": 75.0}},
                    "functions": {{"count": 2, "covered": 2, "percent": 100.0}},
                    "instantiations": {{"count": 2, "covered": 2, "percent": 100.0}},
                    "lines": {{"count": 10, "covered": 9, "percent": 90.0}},
                    "regions": {{"count": 6, "covered": 5, "notcovered": 1, "percent": 83.3}}
                }},
                "files": [{}, {}],
                "functions": [{}, {}]
            }}
        ]
    }}"#,
        file_a,
        file_b,
        r#"{"filenames": ["/src/a.c"], "branches": [[4, 9, 4, 14, 5, 2, 0, 0, 4]], "count": 5, "name": "foo", "regions": [[1, 1, 9, 2, 5, 0, 0, 0]]}"#,
        r#"{"filenames": ["/src/b.c"], "branches": [[7, 3, 7, 9, 1, 0, 0, 0, 4]], "count": 1, "name": "bar", "regions": [[1, 1, 9, 2, 1, 0, 0, 0]]}"#,
    )
}

fn calculate_num_branches_via_files_summary(report: &CoverageReport) -> u64 {
    let mut branches = 0;
    for file in report.data[0].files.iter() {
        branches += file.summary.branches.count;
    }
    branches
}

#[test]
fn parse_1() {
    let json_data = full_export_json();
    let report: CoverageReport = CoverageReport::from_str(&json_data).unwrap();
    assert_eq!(report.version, "2.0.1");
    assert_eq!(report.export_type, "llvm.coverage.json.export");
}

#[test]
fn parse_1_branch_counts_via_files_summary() {
    let json_data = full_export_json();
    let report: CoverageReport = CoverageReport::from_str(&json_data).unwrap();

    let summary_branch_count = report.data[0].summary.branches.count;
    let calculated_branch_cont = calculate_num_branches_via_files_summary(&report);
    assert_eq!(summary_branch_count, calculated_branch_cont);
}

#[test]
fn compare_full_report_vs_wo_expansions() {
    let json_data = full_export_json();
    let full_report: CoverageReport = CoverageReport::from_str(&json_data).unwrap();

    let json_data = wo_expansions_export_json();
    let report_wo_expansions: CoverageReport = CoverageReport::from_str(&json_data).unwrap();
    report_wo_expansions.data[0].files.iter().for_each(|e| assert!(e.expansions.is_none()));

    // compare branches based on summary
    assert_eq!(
        full_report.data[0].summary.branches,
        report_wo_expansions.data[0].summary.branches
    );

    // compare branches based on files array
    let branches_full: usize = full_report.data[0].files.iter().map(|f| f.branches.len()).sum();
    let branches_wo_exp: usize =
        report_wo_expansions.data[0].files.iter().map(|f| f.branches.len()).sum();
    assert_eq!(branches_full, branches_wo_exp);

    // compare branches based on functions array
    let branches_full: usize =
        full_report.data[0].functions.iter().map(|f| f.branches.len()).sum();
    let branches_wo_exp: usize =
        report_wo_expansions.data[0].functions.iter().map(|f| f.branches.len()).sum();
    assert_eq!(branches_full, branches_wo_exp);
}

#[test]
fn parse_1_file_branch_count_vs_function_branch_count() {
    let json_data = wo_expansions_export_json();
    let report: CoverageReport = CoverageReport::from_str(&json_data).unwrap();

    for file in report.data[0].files.iter() {
        println!("---------------------------------");
        let summary_cnt = file.summary.branches.count;
        let raw_cnt = file.branches.len() * 2;
        assert_eq!(summary_cnt as usize, raw_cnt);
    }
}

#[test]
fn decode_twice_yields_equal_trees() {
    let json_data = full_export_json();
    let first: CoverageReport = CoverageReport::from_str(&json_data).unwrap();
    let second: CoverageReport = CoverageReport::from_str(&json_data).unwrap();
    assert_eq!(first, second);
}

#[test]
fn percent_is_carried_verbatim() {
    let json_data = full_export_json();
    let report: CoverageReport = CoverageReport::from_str(&json_data).unwrap();
    let totals = &report.data[0].summary;
    assert_eq!(totals.branches.percent_bits, (75.0f64).to_bits());
    assert_eq!(totals.functions.percent_bits, (100.0f64).to_bits());
    assert_eq!(totals.lines.percent_bits, (90.0f64).to_bits());
    assert_eq!(totals.regions.percent_bits, (83.3f64).to_bits());
}

#[test]
fn decoded_tree_carries_the_document() {
    let json_data = full_export_json();
    let report: CoverageReport = CoverageReport::from_str(&json_data).unwrap();
    let export = &report.data[0];
    assert_eq!(report.data.len(), 1);
    assert_eq!(export.files.len(), 2);
    assert_eq!(export.functions.len(), 2);

    let file_a = &export.files[0];
    assert_eq!(file_a.filename, "/src/a.c");
    assert_eq!(file_a.branches.len(), 1);
    assert_eq!(file_a.branches[0].line_start, 4);
    assert_eq!(file_a.branches[0].execution_count, 5);
    assert_eq!(file_a.branches[0].false_execution_count, 2);
    assert_eq!(file_a.segments.len(), 1);
    assert_eq!(file_a.segments[0].count, 5);
    assert!(file_a.segments[0].has_count);
    assert!(!file_a.segments[0].is_gap_region);

    let exps = file_a.expansions.as_ref().unwrap();
    assert_eq!(exps.len(), 1);
    assert_eq!(exps[0].filenames, vec!["/src/a.c".to_string(), "/src/a.h".to_string()]);
    assert_eq!(exps[0].source_region.line_start, 2);
    assert_eq!(exps[0].source_region.expanded_file_id, 1);
    assert_eq!(exps[0].target_regions.len(), 1);

    let file_b = &export.files[1];
    assert_eq!(file_b.filename, "/src/b.c");
    assert_eq!(file_b.expansions.as_ref().unwrap().len(), 0);

    let foo = &export.functions[0];
    assert_eq!(foo.name, "foo");
    assert_eq!(foo.count, 5);
    assert_eq!(foo.filenames, vec!["/src/a.c".to_string()]);
    assert_eq!(foo.regions.len(), 1);
    assert_eq!(foo.regions[0].line_end, 9);
}
