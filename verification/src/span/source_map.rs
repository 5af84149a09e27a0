use super::SourceFile;
use crate::shared::arc_clone;
use crate::text::blen;
use std::sync::Arc;
use vstd::prelude::*;

verus! {

/// The ordered collection of all files of one compilation session.
///
/// Every added file is assigned the byte-offset range right after the
/// previous one, so spans of different files never collide.
pub struct SourceMap {
    pub span_high: u32,
    pub files: Vec<Arc<SourceFile>>,
}

impl SourceMap {
    pub open spec fn wf(&self) -> bool {
        forall|i: int| 0 <= i < self.files@.len() ==> (#[trigger] self.files@[i]).wf()
    }

    pub fn new() -> (r: Self)
        ensures
            r.span_high == 0,
            r.files@.len() == 0,
            r.wf(),
    {
        Self { span_high: 0, files: Vec::new() }
    }

    /// Registers a new file whose span begins where the previous file's
    /// span ended.
    pub fn add_file(&mut self, content: &str, name: &str, path: Option<String>) -> (f: Arc<
        SourceFile,
    >)
        requires
            old(self).wf(),
            old(self).span_high as int + blen(content@) <= u32::MAX,
        ensures
            final(self).wf(),
            f.wf(),
            f.span.low == old(self).span_high,
            f.span.high as int == old(self).span_high as int + blen(content@),
            f.text() == content@,
            f.name@ == name@,
            f.path == path,
            final(self).span_high == f.span.high,
            final(self).files@ == old(self).files@.push(f),
    {
        let file = Arc::new(SourceFile::new(self.span_high, content, name, path));
        self.span_high = file.span().high();
        let handle = arc_clone(&file);
        self.files.push(file);
        handle
    }
}

} // verus!
