pub mod crc;
pub mod event;
pub mod json;
pub mod meta;
pub mod reader;
pub mod storage;
pub mod text;
pub mod writer;

pub use crc::{calculate, format_hex};
pub use event::Event;
pub use meta::{FirstRecord, TraceDir, TraceMeta};
pub use reader::{decode_events, split_and_verify, ReadError, TraceReader};
pub use storage::StorageLayout;
pub use writer::frame_line;
