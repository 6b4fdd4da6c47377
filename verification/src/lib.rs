use vstd::prelude::*;

pub mod text;
pub mod app_state;
pub mod buffer_change;
pub mod mouse;
pub mod cursor;
pub mod input_stream;
pub mod completion;
pub mod event_loop;
pub mod table;
pub mod i18n;
pub mod zh_tables;
pub mod zh_placeholders;

verus! {
}
