use crate::span::{SourceFile, Span};
use std::sync::Arc;
use vstd::prelude::*;

verus! {

/// Level of a diagnostics item.
#[derive(Debug, Clone, Copy, PartialEq, Eq, PartialOrd, Ord, Hash, Structural)]
pub enum ItemLevel {
    Hint,
    Warning,
    Error,
}

/// Where a diagnostic points: exactly one range of one file.
#[derive(Debug, Clone)]
pub struct ItemOrigin {
    pub file: Arc<SourceFile>,
    pub span: Span,
}

/// A single child of a diagnostics item: a related secondary finding,
/// with no further children of its own.
#[derive(Debug, Clone)]
pub struct SubItem {
    pub level: ItemLevel,
    pub message: String,
    pub origin: Option<ItemOrigin>,
}

/// A single diagnostics item. It can hold multiple sub-items.
#[derive(Debug, Clone)]
pub struct Item {
    /// Code of the diagnostic, 0 for helper diagnostics. Warning and
    /// error diagnostics should carry a non-zero code.
    pub code: u32,
    pub level: ItemLevel,
    pub message: String,
    pub origin: Option<ItemOrigin>,
    pub sub_items: Vec<SubItem>,
}

} // verus!
