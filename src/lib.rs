//! Decoding of MySQL binary replication log events: the fixed event header,
//! and the bodies of query, transaction-commit, log-rotation, table-metadata
//! and global-transaction-id events.
pub mod column;
pub mod cursor;
pub mod dispatch;
pub mod events;
pub mod header;
pub mod laws;
pub mod table_map;

pub use column::{ColumnInfo, ColumnTypeDict};
pub use cursor::{ByteCursor, DecodeError, Tell};
pub use dispatch::{EventBody, read_body, read_next_event};
pub use events::{GtidEvent, InitValue, QueryEvent, RotateLog, XidEvent};
pub use header::{BinlogEvent, Config, EventHeader, InitHeader};
pub use table_map::TableMap;
