//! The events a transducer consumes, and their mathematical views.

use vstd::prelude::*;

verus! {

/// How a link was written in the source document.
#[derive(Clone, Copy, Debug, PartialEq, Eq, Structural)]
pub enum LinkKind {
    /// `[label](target)`
    Inline,
    /// `[label][reference]`
    Reference,
    /// A reference link whose definition is missing.
    ReferenceUnknown,
    /// `[label][]`
    Collapsed,
    /// A collapsed link whose definition is missing.
    CollapsedUnknown,
    /// `[label]`
    Shortcut,
    /// A shortcut link whose definition is missing.
    ShortcutUnknown,
    /// `<https://example.org>`
    Autolink,
    /// `<someone@example.org>`
    Email,
}

/// The construct that a pair of start and end events brackets.
#[derive(Clone, Debug, PartialEq, Eq)]
pub enum DocTag {
    Paragraph,
    /// The level, 1 to 6, and the anchor id if the heading has one.
    Heading(u8, Option<String>),
    BlockQuote,
    CodeBlock,
    /// Whether the list is ordered.
    List(bool),
    ListItem,
    Strong,
    Emphasis,
    Strikethrough,
    /// The kind, the target url and the title.
    Link(LinkKind, String, String),
    Table,
    TableHead,
    TableRow,
    TableCell,
    FootnoteDefinition,
    Image,
}

/// One unit of the linear description of a parsed document.
#[derive(Clone, Debug, PartialEq, Eq)]
pub enum DocEvent {
    BlockStart(DocTag),
    BlockEnd(DocTag),
    Text(String),
    InlineCode(String),
    RawHtml(String),
    SoftBreak,
    HardBreak,
    ThematicBreak,
    /// The label of the footnote referred to.
    FootnoteRef(String),
    /// Whether the task is ticked.
    TaskMarker(bool),
}

/// A [`DocTag`] with every string as the sequence of its characters.
pub enum DocTagView {
    Paragraph,
    Heading(u8, Option<Seq<char>>),
    BlockQuote,
    CodeBlock,
    List(bool),
    ListItem,
    Strong,
    Emphasis,
    Strikethrough,
    Link(LinkKind, Seq<char>, Seq<char>),
    Table,
    TableHead,
    TableRow,
    TableCell,
    FootnoteDefinition,
    Image,
}

/// An [`DocEvent`] with every string as the sequence of its characters.
pub enum DocEventView {
    BlockStart(DocTagView),
    BlockEnd(DocTagView),
    Text(Seq<char>),
    InlineCode(Seq<char>),
    RawHtml(Seq<char>),
    SoftBreak,
    HardBreak,
    ThematicBreak,
    FootnoteRef(Seq<char>),
    TaskMarker(bool),
}

impl View for DocTag {
    type V = DocTagView;

    open spec fn view(&self) -> DocTagView {
        match *self {
            DocTag::Paragraph => DocTagView::Paragraph,
            DocTag::Heading(level, id) => DocTagView::Heading(
                level,
                match id {
                    Some(s) => Some(s@),
                    None => None,
                },
            ),
            DocTag::BlockQuote => DocTagView::BlockQuote,
            DocTag::CodeBlock => DocTagView::CodeBlock,
            DocTag::List(ordered) => DocTagView::List(ordered),
            DocTag::ListItem => DocTagView::ListItem,
            DocTag::Strong => DocTagView::Strong,
            DocTag::Emphasis => DocTagView::Emphasis,
            DocTag::Strikethrough => DocTagView::Strikethrough,
            DocTag::Link(kind, url, title) => DocTagView::Link(kind, url@, title@),
            DocTag::Table => DocTagView::Table,
            DocTag::TableHead => DocTagView::TableHead,
            DocTag::TableRow => DocTagView::TableRow,
            DocTag::TableCell => DocTagView::TableCell,
            DocTag::FootnoteDefinition => DocTagView::FootnoteDefinition,
            DocTag::Image => DocTagView::Image,
        }
    }
}

impl View for DocEvent {
    type V = DocEventView;

    open spec fn view(&self) -> DocEventView {
        match *self {
            DocEvent::BlockStart(tag) => DocEventView::BlockStart(tag@),
            DocEvent::BlockEnd(tag) => DocEventView::BlockEnd(tag@),
            DocEvent::Text(s) => DocEventView::Text(s@),
            DocEvent::InlineCode(s) => DocEventView::InlineCode(s@),
            DocEvent::RawHtml(s) => DocEventView::RawHtml(s@),
            DocEvent::SoftBreak => DocEventView::SoftBreak,
            DocEvent::HardBreak => DocEventView::HardBreak,
            DocEvent::ThematicBreak => DocEventView::ThematicBreak,
            DocEvent::FootnoteRef(label) => DocEventView::FootnoteRef(label@),
            DocEvent::TaskMarker(ticked) => DocEventView::TaskMarker(ticked),
        }
    }
}

/// The views of a run of events, in order.
pub open spec fn views(events: Seq<DocEvent>) -> Seq<DocEventView> {
    Seq::new(events.len(), |i: int| events[i]@)
}

impl DocTagView {
    /// A heading's level lies between 1 and 6; every other tag is well formed.
    pub open spec fn wf(self) -> bool {
        self matches DocTagView::Heading(level, _) ==> 1 <= level <= 6
    }
}

impl DocEventView {
    /// The tag of a start or end event is well formed.
    pub open spec fn wf(self) -> bool {
        match self {
            DocEventView::BlockStart(tag) => tag.wf(),
            DocEventView::BlockEnd(tag) => tag.wf(),
            _ => true,
        }
    }
}

} // verus!
