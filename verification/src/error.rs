//! Errors.

use vstd::prelude::*;

verus! {

/// Why a binary could not be inspected.
#[derive(Debug, Clone, PartialEq, Eq)]
pub enum AppError {
    /// The binary is not a valid WebAssembly module.
    WasmValidation(String),
    /// The binary, or a part of it, could not be parsed.
    WasmParse(String),
}

/// Result of an operation of this library.
pub type AppResult<T> = Result<T, AppError>;

/// An [`AppError`] in contracts.
pub enum AppErrorView {
    WasmValidation(Seq<char>),
    WasmParse(Seq<char>),
}

impl DeepView for AppError {
    type V = AppErrorView;

    open spec fn deep_view(&self) -> AppErrorView {
        match self {
            AppError::WasmValidation(message) => AppErrorView::WasmValidation(message@),
            AppError::WasmParse(message) => AppErrorView::WasmParse(message@),
        }
    }
}

/// An [`AppResult`] in contracts.
pub open spec fn result_view<T: DeepView>(r: AppResult<T>) -> Result<T::V, AppErrorView> {
    match r {
        Ok(value) => Ok(value.deep_view()),
        Err(error) => Err(error.deep_view()),
    }
}

} // verus!
