mod line_col;
mod source_file;
mod source_map;
mod span;

pub use line_col::LineCol;
pub use source_file::SourceFile;
pub use source_map::SourceMap;
pub use span::Span;
