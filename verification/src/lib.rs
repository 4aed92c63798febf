//! Inspection of compiled Soroban contracts.
//!
//! A binary is decoded into its sections ([`reader`]), which are plain values
//! ([`model`]). From the sections come the exported functions ([`functions`]),
//! the typed parameters that the contract spec gives them ([`contract_spec`]),
//! the structural summary ([`structure`]) with its rendering as text
//! ([`summary`]), and all of that together ([`info`]). What relates these to
//! each other is stated in [`laws`].

pub mod contract_spec;
pub mod error;
pub mod functions;
pub mod info;
pub mod laws;
pub mod model;
pub mod reader;
pub mod structure;
pub mod summary;
pub mod text;

pub use contract_spec::{
    contract_spec_of_sections, decode_entries, parse_contract_spec, spec_functions_from,
    spec_type_name, SpecEntry, SpecFunctions, SpecType,
};
pub use error::{AppError, AppResult};
pub use functions::{
    checked_enumerate_functions, enumerate_functions, enumerate_sections, format_function,
    has_only_function_types, FunctionInfo, ParamInfo,
};
pub use info::{
    analyze_sections, analyze_wasm, apply_contract_spec, validate_wasm, validity_of, WasmInfo,
};
pub use model::{
    ExportEntry, ExportKind, ImportEntry, ImportKind, MemoryLimits, Section, TableSummary,
    TypeEntry,
};
pub use reader::read_sections;
pub use structure::{
    parse_structure, structure_of_sections, ImportedHostFunction, WasmStructureSummary,
    HOST_IMPORT_MODULE, SOROBAN_MAX_MEMORY_PAGES, WASM_PAGE_SIZE_BYTES,
};
pub use summary::format_structure_summary;
