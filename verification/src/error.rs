//! What can go wrong while a document is rendered.

use crate::event::LinkKind;
use vstd::prelude::*;

verus! {

/// A construct of the event stream that TWiki markup cannot represent.
#[derive(Clone, Copy, Debug, PartialEq, Eq, Structural)]
pub enum Construct {
    Table,
    TableHead,
    TableRow,
    TableCell,
    FootnoteDefinition,
    FootnoteReference,
    Image,
    /// A link of any kind but inline and e-mail.
    Link(LinkKind),
}

/// The sink turned a write down.
#[derive(Clone, Copy, Debug, PartialEq, Eq, Structural)]
pub struct WriteFailure;

/// Why rendering a document stopped early. Either is final for the document:
/// nothing is retried and nothing is substituted.
#[derive(Clone, Copy, Debug, PartialEq, Eq, Structural)]
pub enum Error {
    /// The event stream holds a construct without a TWiki form.
    Unsupported(Construct),
    /// The sink rejected a write.
    WriteFailure,
}

} // verus!
