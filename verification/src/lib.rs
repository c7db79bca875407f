//! Typed decoding of the LLVM source-based coverage JSON export format,
//! schema version 2.0.1: one entry point turns raw JSON text into a
//! validated tree of coverage records, or a structured decode error.

mod branch;
mod errors;
mod expansion;
mod file;
mod function;
mod input;
mod json;
mod region;
mod report;
mod summary;

pub use branch::decode_branch;
pub use branch::lemma_branch_arity;
pub use branch::spec_decode_branch;
pub use branch::spec_decode_branches;
pub use branch::Branch;
pub use errors::DecodeError;
pub use expansion::decode_expansion;
pub use expansion::spec_decode_expansion;
pub use expansion::spec_decode_expansions;
pub use expansion::Expansion;
pub use expansion::ExpansionV;
pub use file::decode_file;
pub use file::decode_segment;
pub use file::lemma_expansions_absent_or_null;
pub use file::spec_decode_file;
pub use file::spec_decode_segment;
pub use file::spec_decode_segments;
pub use file::spec_expansions_field;
pub use file::FileMetrics;
pub use file::FileMetricsV;
pub use file::Segment;
pub use function::decode_function;
pub use function::spec_decode_function;
pub use function::FunctionMetrics;
pub use function::FunctionMetricsV;
pub use input::jview;
pub use input::jviews;
pub use input::parsed_json;
pub use json::spec_decode_strings;
pub use json::Json;
pub use region::decode_region;
pub use region::lemma_kind_tag_range;
pub use region::lemma_region_arity;
pub use region::spec_decode_region;
pub use region::spec_decode_regions;
pub use region::spec_kind;
pub use region::Region;
pub use region::RegionKind;
pub use report::conforms_to_schema;
pub use report::decode_export;
pub use report::decode_report;
pub use report::lemma_decode_pure;
pub use report::lemma_schema_tags;
pub use report::spec_decode_export;
pub use report::spec_decode_exports;
pub use report::spec_decode_files;
pub use report::spec_decode_functions;
pub use report::spec_decode_report;
pub use report::spec_decode_text;
pub use report::CoverageReport;
pub use report::CoverageReportV;
pub use report::ExportObject;
pub use report::ExportObjectV;
pub use summary::decode_summary;
pub use summary::spec_decode_summary;
pub use summary::BranchSummary;
pub use summary::FunctionSummary;
pub use summary::InstantiationSummary;
pub use summary::LineSummary;
pub use summary::RegionSummary;
pub use summary::Summary;
