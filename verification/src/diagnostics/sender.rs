use super::{Item, ItemLevel, ItemOrigin, SubItem};
use crate::shared::arc_clone;
use crate::span::{SourceFile, Span};
use std::sync::Arc;
use tokio::sync::mpsc::UnboundedSender;
use vstd::prelude::*;

verus! {

/// tokio's sending half of an unbounded channel, declared so it can
/// stand in fields and signatures.
#[verifier::external_type_specification]
#[verifier::external_body]
#[verifier::reject_recursive_types(T)]
pub struct ExUnboundedSender<T>(UnboundedSender<T>);

/// Relies on tokio's `Clone` for `UnboundedSender`: the clone is
/// another handle to the same channel.
pub assume_specification<T>[ <UnboundedSender<T> as Clone>::clone ](
    s: &UnboundedSender<T>,
) -> UnboundedSender<T>;

/// Relies on tokio's `UnboundedSender::send`: it enqueues the item
/// without blocking; when the receiver is gone the item is dropped
/// silently, since diagnostics are best-effort telemetry.
#[verifier::external_body]
fn send_item(sender: &UnboundedSender<Item>, item: Item) {
    let _ = sender.send(item);
}

/// The diagnostics sink of one file: every emission pushes one `Item`
/// onto the channel, stamped with this file as its origin. Senders
/// never block and never fail observably.
#[derive(Clone)]
pub struct ItemSender {
    pub file: Arc<SourceFile>,
    pub sender: UnboundedSender<Item>,
}

impl ItemSender {
    pub fn new(file: Arc<SourceFile>, sender: UnboundedSender<Item>) -> (r: Self)
        ensures
            r.file == file,
    {
        Self { file, sender }
    }

    pub fn file(&self) -> (r: Arc<SourceFile>)
        ensures
            r == self.file,
    {
        arc_clone(&self.file)
    }

    /// Builds the item one emission sends: the level, code and message
    /// as given, the origin pointing at `span` of this sender's file.
    pub fn make_item(
        &self,
        code: u32,
        level: ItemLevel,
        span: Span,
        message: String,
        sub_items: Vec<SubItem>,
    ) -> (item: Item)
        ensures
            item.code == code,
            item.level == level,
            item.message == message,
            item.origin matches Some(o) && o.file == self.file && o.span == span,
            item.sub_items == sub_items,
    {
        Item {
            code,
            level,
            message,
            origin: Some(ItemOrigin { file: arc_clone(&self.file), span }),
            sub_items,
        }
    }

    /// Builds the item a file-less emission sends.
    pub fn make_simple_item(
        &self,
        code: u32,
        level: ItemLevel,
        message: String,
    ) -> (item: Item)
        ensures
            item.code == code,
            item.level == level,
            item.message == message,
            item.origin is None,
            item.sub_items@.len() == 0,
    {
        Item { code, level, message, origin: None, sub_items: Vec::new() }
    }

    pub fn hint(&self, span: Span, message: String) {
        let item = self.make_item(0, ItemLevel::Hint, span, message, Vec::new());
        send_item(&self.sender, item);
    }

    pub fn hint_sub(&self, span: Span, message: String, sub_items: Vec<SubItem>) {
        let item = self.make_item(0, ItemLevel::Hint, span, message, sub_items);
        send_item(&self.sender, item);
    }

    pub fn hint_simple(&self, message: String) {
        let item = self.make_simple_item(0, ItemLevel::Hint, message);
        send_item(&self.sender, item);
    }

    pub fn warning(&self, code: u32, span: Span, message: String) {
        let item = self.make_item(code, ItemLevel::Warning, span, message, Vec::new());
        send_item(&self.sender, item);
    }

    pub fn warning_sub(&self, code: u32, span: Span, message: String, sub_items: Vec<SubItem>) {
        let item = self.make_item(code, ItemLevel::Warning, span, message, sub_items);
        send_item(&self.sender, item);
    }

    pub fn warning_simple(&self, code: u32, message: String) {
        let item = self.make_simple_item(code, ItemLevel::Warning, message);
        send_item(&self.sender, item);
    }

    pub fn error(&self, code: u32, span: Span, message: String) {
        let item = self.make_item(code, ItemLevel::Error, span, message, Vec::new());
        send_item(&self.sender, item);
    }

    pub fn error_sub(&self, code: u32, span: Span, message: String, sub_items: Vec<SubItem>) {
        let item = self.make_item(code, ItemLevel::Error, span, message, sub_items);
        send_item(&self.sender, item);
    }

    pub fn error_simple(&self, code: u32, message: String) {
        let item = self.make_simple_item(code, ItemLevel::Error, message);
        send_item(&self.sender, item);
    }

    pub fn sub_hint(&self, span: Span, message: String) -> (r: SubItem)
        ensures
            r.level == ItemLevel::Hint,
            r.message == message,
            r.origin matches Some(o) && o.file == self.file && o.span == span,
    {
        SubItem {
            level: ItemLevel::Hint,
            message,
            origin: Some(ItemOrigin { file: arc_clone(&self.file), span }),
        }
    }

    pub fn sub_hint_simple(&self, message: String) -> (r: SubItem)
        ensures
            r.level == ItemLevel::Hint,
            r.message == message,
            r.origin is None,
    {
        SubItem { level: ItemLevel::Hint, message, origin: None }
    }

    pub fn sub_warning(&self, span: Span, message: String) -> (r: SubItem)
        ensures
            r.level == ItemLevel::Warning,
            r.message == message,
            r.origin matches Some(o) && o.file == self.file && o.span == span,
    {
        SubItem {
            level: ItemLevel::Warning,
            message,
            origin: Some(ItemOrigin { file: arc_clone(&self.file), span }),
        }
    }

    pub fn sub_warning_simple(&self, message: String) -> (r: SubItem)
        ensures
            r.level == ItemLevel::Warning,
            r.message == message,
            r.origin is None,
    {
        SubItem { level: ItemLevel::Warning, message, origin: None }
    }

    pub fn sub_error(&self, span: Span, message: String) -> (r: SubItem)
        ensures
            r.level == ItemLevel::Error,
            r.message == message,
            r.origin matches Some(o) && o.file == self.file && o.span == span,
    {
        SubItem {
            level: ItemLevel::Error,
            message,
            origin: Some(ItemOrigin { file: arc_clone(&self.file), span }),
        }
    }

    pub fn sub_error_simple(&self, message: String) -> (r: SubItem)
        ensures
            r.level == ItemLevel::Error,
            r.message == message,
            r.origin is None,
    {
        SubItem { level: ItemLevel::Error, message, origin: None }
    }
}

} // verus!
