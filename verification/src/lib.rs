//! A sink for structured log events.
//!
//! An event carries a severity, the place it was emitted from, and a list of
//! named fields. The sink decides by severity and by module path whether the
//! event is kept, splits its fields into a message and a set of attributes,
//! stamps the record with the time, and hands it to a storage backend.
//!
//! * [`filter`] holds the rule that decides, [`layer`] the sink that applies
//!   it, [`subscriber`] and [`builder`] what wraps and configures the sink.
//! * [`visitor`] splits the fields of an event, [`attributes`] keeps the
//!   attributes and encodes them as JSON.
//! * [`entry`] holds the record and the row that a table stores for it,
//!   [`schema`] the statements for that table, [`connect`] what a backend
//!   has to offer.
//!
//! Events come in as plain values, and rows go out as plain values: reading
//! events off an emission framework and talking to a database are left to
//! the caller.

pub mod attributes;
pub mod builder;
pub mod clock;
pub mod connect;
pub mod entry;
pub mod event;
pub mod filter;
pub mod layer;
pub mod level;
pub mod prefix;
pub mod schema;
pub mod subscriber;
pub mod visitor;

pub use attributes::Attributes;
pub use builder::SubscriberBuilder;
pub use connect::Connect;
pub use entry::{LogEntry, Row, StorageError};
pub use event::{effective_metadata, Event, Metadata};
pub use layer::Layer;
pub use level::{Level, LevelFilter};
pub use schema::{SQL_INSERT, SQL_SCHEMA, SQL_SELECT};
pub use subscriber::Subscriber;
pub use visitor::Visitor;
