//! Renders a stream of markdown events into TWiki markup.
//!
//! The heart of the crate is a transducer: a small state machine that maps
//! each [`DocEvent`] to the text it emits and to the flags the next event
//! sees. [`transducer`] holds its model, [`text`] the character-level rules
//! the model rests on, and [`laws`] what follows from them for every run of
//! events. [`Twiki`] is the executable transducer: [`Twiki::step`] takes one
//! event, [`Twiki::render`] a run of events, and [`Twiki::convert`] a
//! markdown document, which [`markdown`] tokenizes with `pulldown_cmark`.
//! What is rendered goes to a [`Sink`], one event at a time.
//!
//! Every executable function carries a contract over the views of the events
//! and over plain character sequences, and Verus checks each body against it.

pub mod config;
pub mod error;
pub mod event;
pub mod laws;
pub mod markdown;
pub mod outside;
pub mod sink;
pub mod text;
pub mod transducer;
pub mod twiki;

pub use crate::config::WordcountConfig;
pub use crate::error::{Construct, Error, WriteFailure};
pub use crate::event::{DocEvent, DocEventView, DocTag, DocTagView, LinkKind};
pub use crate::markdown::{parse_markdown, Extensions};
pub use crate::sink::{ByteSink, ByteWriter, Sink, StringIO};
pub use crate::transducer::TransducerState;
pub use crate::twiki::{markdown_to_twiki, markdown_to_twiki_string, Twiki};
