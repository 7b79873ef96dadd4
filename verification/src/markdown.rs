//! The markdown tokenizer at the edge of the crate: the `pulldown_cmark`
//! types that cross it, the call that tokenizes a document, and the verified
//! conversion of its events into the crate's own.

use crate::event::{views, DocEvent, DocEventView, DocTag, DocTagView, LinkKind};
use vstd::prelude::*;
use vstd::string::StringExecFns;

verus! {

/// The characters that a `pulldown_cmark::CowStr` holds.
pub uninterp spec fn cow_str_text(s: pulldown_cmark::CowStr<'_>) -> Seq<char>;

/// The events, as views, that `pulldown_cmark` tokenizes a document into
/// with the given extensions switched on.
pub uninterp spec fn markdown_events(content: Seq<char>, extensions: Extensions) -> Seq<DocEventView>;

/// The extensions to CommonMark that the tokenizer can be asked for.
#[derive(Clone, Copy, Debug, PartialEq, Eq, Structural)]
pub struct Extensions {
    /// `~~struck~~` spans.
    pub strikethrough: bool,
    /// Pipe tables.
    pub tables: bool,
    /// Footnote references and definitions.
    pub footnotes: bool,
    /// `[ ]` and `[x]` markers at the head of list items.
    pub task_lists: bool,
}

impl Extensions {
    /// Every extension switched on, as [`crate::Twiki::convert`] asks for
    /// them.
    pub open spec fn every() -> Extensions {
        Extensions { strikethrough: true, tables: true, footnotes: true, task_lists: true }
    }

    /// Every extension switched on.
    pub fn all() -> (extensions: Extensions)
        ensures
            extensions == Extensions::every(),
    {
        Extensions { strikethrough: true, tables: true, footnotes: true, task_lists: true }
    }
}

/// The number of a heading level, 1 to 6.
pub open spec fn heading_number(level: pulldown_cmark::HeadingLevel) -> u8 {
    match level {
        pulldown_cmark::HeadingLevel::H1 => 1,
        pulldown_cmark::HeadingLevel::H2 => 2,
        pulldown_cmark::HeadingLevel::H3 => 3,
        pulldown_cmark::HeadingLevel::H4 => 4,
        pulldown_cmark::HeadingLevel::H5 => 5,
        pulldown_cmark::HeadingLevel::H6 => 6,
    }
}

/// The crate's kind for a link type of the tokenizer.
pub open spec fn link_kind_model(kind: pulldown_cmark::LinkType) -> LinkKind {
    match kind {
        pulldown_cmark::LinkType::Inline => LinkKind::Inline,
        pulldown_cmark::LinkType::Reference => LinkKind::Reference,
        pulldown_cmark::LinkType::ReferenceUnknown => LinkKind::ReferenceUnknown,
        pulldown_cmark::LinkType::Collapsed => LinkKind::Collapsed,
        pulldown_cmark::LinkType::CollapsedUnknown => LinkKind::CollapsedUnknown,
        pulldown_cmark::LinkType::Shortcut => LinkKind::Shortcut,
        pulldown_cmark::LinkType::ShortcutUnknown => LinkKind::ShortcutUnknown,
        pulldown_cmark::LinkType::Autolink => LinkKind::Autolink,
        pulldown_cmark::LinkType::Email => LinkKind::Email,
    }
}

/// The view of the crate's tag for a tag of the tokenizer. Of a heading it
/// keeps the level and the id, of a list whether it is numbered, of a link
/// the type, the destination and the title; everything else the tokenizer
/// attaches is dropped.
pub open spec fn tag_model(tag: pulldown_cmark::Tag<'_>) -> DocTagView {
    match tag {
        pulldown_cmark::Tag::Paragraph => DocTagView::Paragraph,
        pulldown_cmark::Tag::Heading(level, id, _) => DocTagView::Heading(
            heading_number(level),
            match id {
                Some(id) => Some(id@),
                None => None,
            },
        ),
        pulldown_cmark::Tag::BlockQuote => DocTagView::BlockQuote,
        pulldown_cmark::Tag::CodeBlock(_) => DocTagView::CodeBlock,
        pulldown_cmark::Tag::List(first) => DocTagView::List(first is Some),
        pulldown_cmark::Tag::Item => DocTagView::ListItem,
        pulldown_cmark::Tag::FootnoteDefinition(_) => DocTagView::FootnoteDefinition,
        pulldown_cmark::Tag::Table(_) => DocTagView::Table,
        pulldown_cmark::Tag::TableHead => DocTagView::TableHead,
        pulldown_cmark::Tag::TableRow => DocTagView::TableRow,
        pulldown_cmark::Tag::TableCell => DocTagView::TableCell,
        pulldown_cmark::Tag::Emphasis => DocTagView::Emphasis,
        pulldown_cmark::Tag::Strong => DocTagView::Strong,
        pulldown_cmark::Tag::Strikethrough => DocTagView::Strikethrough,
        pulldown_cmark::Tag::Link(kind, url, title) => DocTagView::Link(
            link_kind_model(kind),
            cow_str_text(url),
            cow_str_text(title),
        ),
        pulldown_cmark::Tag::Image(_, _, _) => DocTagView::Image,
    }
}

/// The view of the crate's event for an event of the tokenizer.
pub open spec fn event_model(event: pulldown_cmark::Event<'_>) -> DocEventView {
    match event {
        pulldown_cmark::Event::Start(tag) => DocEventView::BlockStart(tag_model(tag)),
        pulldown_cmark::Event::End(tag) => DocEventView::BlockEnd(tag_model(tag)),
        pulldown_cmark::Event::Text(text) => DocEventView::Text(cow_str_text(text)),
        pulldown_cmark::Event::Code(code) => DocEventView::InlineCode(cow_str_text(code)),
        pulldown_cmark::Event::Html(html) => DocEventView::RawHtml(cow_str_text(html)),
        pulldown_cmark::Event::FootnoteReference(label) => DocEventView::FootnoteRef(
            cow_str_text(label),
        ),
        pulldown_cmark::Event::SoftBreak => DocEventView::SoftBreak,
        pulldown_cmark::Event::HardBreak => DocEventView::HardBreak,
        pulldown_cmark::Event::Rule => DocEventView::ThematicBreak,
        pulldown_cmark::Event::TaskListMarker(ticked) => DocEventView::TaskMarker(ticked),
    }
}

/// The views of the crate's events for a run of events of the tokenizer.
pub open spec fn event_models(events: Seq<pulldown_cmark::Event<'_>>) -> Seq<DocEventView> {
    Seq::new(events.len(), |i: int| event_model(events[i]))
}

/// Runs `pulldown_cmark::Parser::new_ext` on `content` with the options that
/// `extensions` switches on, and collects the events that it yields. The
/// tokenizer reads nothing but its two arguments, so the contract names the
/// outcome after them: the models of the events are
/// `markdown_events(content, extensions)`.
#[verifier::external_body]
fn tokenize<'a>(content: &'a str, extensions: Extensions) -> (raw: Vec<pulldown_cmark::Event<'a>>)
    ensures
        event_models(raw@) == markdown_events(content@, extensions),
{
    let mut options = pulldown_cmark::Options::empty();
    options.set(pulldown_cmark::Options::ENABLE_STRIKETHROUGH, extensions.strikethrough);
    options.set(pulldown_cmark::Options::ENABLE_TABLES, extensions.tables);
    options.set(pulldown_cmark::Options::ENABLE_FOOTNOTES, extensions.footnotes);
    options.set(pulldown_cmark::Options::ENABLE_TASKLISTS, extensions.task_lists);
    pulldown_cmark::Parser::new_ext(content, options).collect()
}

/// Copies a `pulldown_cmark::CowStr` into a `String` through its `Display`
/// impl, which writes the string slice it dereferences to: the copy holds
/// the characters of `s`.
#[verifier::external_body]
fn cow_str_to_string(s: &pulldown_cmark::CowStr<'_>) -> (text: String)
    ensures
        text@ == cow_str_text(*s),
{
    s.to_string()
}

/// The number of a heading level.
fn heading_level(level: &pulldown_cmark::HeadingLevel) -> (n: u8)
    ensures
        n == heading_number(*level),
        1 <= n <= 6,
{
    match level {
        pulldown_cmark::HeadingLevel::H1 => 1,
        pulldown_cmark::HeadingLevel::H2 => 2,
        pulldown_cmark::HeadingLevel::H3 => 3,
        pulldown_cmark::HeadingLevel::H4 => 4,
        pulldown_cmark::HeadingLevel::H5 => 5,
        pulldown_cmark::HeadingLevel::H6 => 6,
    }
}

/// The crate's kind for a link type of the tokenizer.
fn link_kind(kind: &pulldown_cmark::LinkType) -> (r: LinkKind)
    ensures
        r == link_kind_model(*kind),
{
    match kind {
        pulldown_cmark::LinkType::Inline => LinkKind::Inline,
        pulldown_cmark::LinkType::Reference => LinkKind::Reference,
        pulldown_cmark::LinkType::ReferenceUnknown => LinkKind::ReferenceUnknown,
        pulldown_cmark::LinkType::Collapsed => LinkKind::Collapsed,
        pulldown_cmark::LinkType::CollapsedUnknown => LinkKind::CollapsedUnknown,
        pulldown_cmark::LinkType::Shortcut => LinkKind::Shortcut,
        pulldown_cmark::LinkType::ShortcutUnknown => LinkKind::ShortcutUnknown,
        pulldown_cmark::LinkType::Autolink => LinkKind::Autolink,
        pulldown_cmark::LinkType::Email => LinkKind::Email,
    }
}

/// The crate's tag for a tag of the tokenizer.
fn tag_of(tag: &pulldown_cmark::Tag<'_>) -> (r: DocTag)
    ensures
        r@ == tag_model(*tag),
        r@.wf(),
{
    match tag {
        pulldown_cmark::Tag::Paragraph => DocTag::Paragraph,
        pulldown_cmark::Tag::Heading(level, id, _) => DocTag::Heading(
            heading_level(level),
            match id {
                Some(id) => Some(String::from_str(id)),
                None => None,
            },
        ),
        pulldown_cmark::Tag::BlockQuote => DocTag::BlockQuote,
        pulldown_cmark::Tag::CodeBlock(_) => DocTag::CodeBlock,
        pulldown_cmark::Tag::List(first) => DocTag::List(first.is_some()),
        pulldown_cmark::Tag::Item => DocTag::ListItem,
        pulldown_cmark::Tag::FootnoteDefinition(_) => DocTag::FootnoteDefinition,
        pulldown_cmark::Tag::Table(_) => DocTag::Table,
        pulldown_cmark::Tag::TableHead => DocTag::TableHead,
        pulldown_cmark::Tag::TableRow => DocTag::TableRow,
        pulldown_cmark::Tag::TableCell => DocTag::TableCell,
        pulldown_cmark::Tag::Emphasis => DocTag::Emphasis,
        pulldown_cmark::Tag::Strong => DocTag::Strong,
        pulldown_cmark::Tag::Strikethrough => DocTag::Strikethrough,
        pulldown_cmark::Tag::Link(kind, url, title) => DocTag::Link(
            link_kind(kind),
            cow_str_to_string(url),
            cow_str_to_string(title),
        ),
        pulldown_cmark::Tag::Image(_, _, _) => DocTag::Image,
    }
}

/// The crate's event for an event of the tokenizer.
fn event_of(event: &pulldown_cmark::Event<'_>) -> (r: DocEvent)
    ensures
        r@ == event_model(*event),
        r@.wf(),
{
    match event {
        pulldown_cmark::Event::Start(tag) => DocEvent::BlockStart(tag_of(tag)),
        pulldown_cmark::Event::End(tag) => DocEvent::BlockEnd(tag_of(tag)),
        pulldown_cmark::Event::Text(text) => DocEvent::Text(cow_str_to_string(text)),
        pulldown_cmark::Event::Code(code) => DocEvent::InlineCode(cow_str_to_string(code)),
        pulldown_cmark::Event::Html(html) => DocEvent::RawHtml(cow_str_to_string(html)),
        pulldown_cmark::Event::FootnoteReference(label) => DocEvent::FootnoteRef(
            cow_str_to_string(label),
        ),
        pulldown_cmark::Event::SoftBreak => DocEvent::SoftBreak,
        pulldown_cmark::Event::HardBreak => DocEvent::HardBreak,
        pulldown_cmark::Event::Rule => DocEvent::ThematicBreak,
        pulldown_cmark::Event::TaskListMarker(ticked) => DocEvent::TaskMarker(*ticked),
    }
}

/// Tokenizes a markdown document into the events that a pass consumes.
pub fn parse_markdown(content: &str, extensions: Extensions) -> (events: Vec<DocEvent>)
    ensures
        views(events@) == markdown_events(content@, extensions),
        forall|i: int| 0 <= i < events.len() ==> (#[trigger] events[i])@.wf(),
{
    let raw = tokenize(content, extensions);
    let mut events: Vec<DocEvent> = Vec::new();
    let mut i: usize = 0;
    while i < raw.len()
        invariant
            i <= raw.len(),
            events.len() == i,
            forall|j: int| 0 <= j < i ==> (#[trigger] events[j])@ == event_model(raw[j]),
            forall|j: int| 0 <= j < i ==> (#[trigger] events[j])@.wf(),
        decreases raw.len() - i,
    {
        events.push(event_of(&raw[i]));
        i += 1;
    }
    assert(views(events@) =~= event_models(raw@));
    events
}

} // verus!
