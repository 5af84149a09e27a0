pub mod codes;
mod item;
mod sender;
mod stringify;

pub use item::{Item, ItemLevel, ItemOrigin, SubItem};
pub use sender::ItemSender;
pub use stringify::{origin_ok, render_header, render_origin, stringify_item, stringify_origin};
