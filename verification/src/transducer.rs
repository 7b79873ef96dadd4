//! The model of the transducer: which events have a TWiki form, what each
//! event emits under the flags in force, how it changes the flags, and what
//! a whole run of events renders to.

use crate::error::{Construct, Error};
use crate::event::{DocEvent, DocEventView, DocTag, DocTagView, LinkKind};
use crate::text::{anchor_target, code_text, list_item_text, repeat};
use vstd::prelude::*;

verus! {

/// The flags that one pass over a document carries from event to event.
#[derive(Clone, Copy, Debug, PartialEq, Eq, Structural)]
pub struct TransducerState {
    /// Set between the start of a code block and its end.
    pub inside_code_block: bool,
    /// Set between the start of a list and its end. Depth is not counted: a
    /// list item's text carries its own nesting markers.
    pub inside_list: bool,
    /// Set between the start of an emphasis and its end. It decides the
    /// marker that a strong span is written with.
    pub emphasis_active: bool,
}

impl TransducerState {
    /// The state before the first event of a document: no flag is set.
    pub open spec fn fresh() -> TransducerState {
        TransducerState { inside_code_block: false, inside_list: false, emphasis_active: false }
    }

    /// The state a pass starts in.
    pub fn new() -> (state: TransducerState)
        ensures
            state == TransducerState::fresh(),
    {
        TransducerState { inside_code_block: false, inside_list: false, emphasis_active: false }
    }

    /// Whether `event` is an end that finds its flag already clear, which
    /// shows that the event source did not pair its starts and ends.
    pub fn stray_end(&self, event: &DocEvent) -> (stray: bool)
        ensures
            stray == stray_end(*self, event@),
    {
        match event {
            DocEvent::BlockEnd(DocTag::CodeBlock) => !self.inside_code_block,
            DocEvent::BlockEnd(DocTag::List(_)) => !self.inside_list,
            DocEvent::BlockEnd(DocTag::Emphasis) => !self.emphasis_active,
            _ => false,
        }
    }
}

/// Whether a link of this kind has a TWiki form; the others are rejected.
pub open spec fn link_supported(kind: LinkKind) -> bool {
    kind == LinkKind::Inline || kind == LinkKind::Email
}

/// The construct for which a tag is rejected, if it is.
pub open spec fn rejected_tag(tag: DocTagView) -> Option<Construct> {
    match tag {
        DocTagView::Paragraph => None,
        DocTagView::Heading(_, _) => None,
        DocTagView::BlockQuote => None,
        DocTagView::CodeBlock => None,
        DocTagView::List(_) => None,
        DocTagView::ListItem => None,
        DocTagView::Strong => None,
        DocTagView::Emphasis => None,
        DocTagView::Strikethrough => None,
        DocTagView::Link(kind, _, _) => if link_supported(kind) {
            None
        } else {
            Some(Construct::Link(kind))
        },
        DocTagView::Table => Some(Construct::Table),
        DocTagView::TableHead => Some(Construct::TableHead),
        DocTagView::TableRow => Some(Construct::TableRow),
        DocTagView::TableCell => Some(Construct::TableCell),
        DocTagView::FootnoteDefinition => Some(Construct::FootnoteDefinition),
        DocTagView::Image => Some(Construct::Image),
    }
}

/// The construct for which an event is rejected, if it is.
pub open spec fn rejected(event: DocEventView) -> Option<Construct> {
    match event {
        DocEventView::BlockStart(tag) => rejected_tag(tag),
        DocEventView::BlockEnd(tag) => rejected_tag(tag),
        DocEventView::Text(_) => None,
        DocEventView::InlineCode(_) => None,
        DocEventView::RawHtml(_) => None,
        DocEventView::SoftBreak => None,
        DocEventView::HardBreak => None,
        DocEventView::ThematicBreak => None,
        DocEventView::FootnoteRef(_) => Some(Construct::FootnoteReference),
        DocEventView::TaskMarker(_) => None,
    }
}

impl LinkKind {
    /// Whether a link of this kind has a TWiki form.
    pub fn supported(&self) -> (b: bool)
        ensures
            b == link_supported(*self),
    {
        match self {
            LinkKind::Inline => true,
            LinkKind::Reference => false,
            LinkKind::ReferenceUnknown => false,
            LinkKind::Collapsed => false,
            LinkKind::CollapsedUnknown => false,
            LinkKind::Shortcut => false,
            LinkKind::ShortcutUnknown => false,
            LinkKind::Autolink => false,
            LinkKind::Email => true,
        }
    }
}

impl DocTag {
    /// The construct for which the tag is rejected, if it is.
    pub fn rejection(&self) -> (r: Option<Construct>)
        ensures
            r == rejected_tag(self@),
    {
        match self {
            DocTag::Paragraph => None,
            DocTag::Heading(_, _) => None,
            DocTag::BlockQuote => None,
            DocTag::CodeBlock => None,
            DocTag::List(_) => None,
            DocTag::ListItem => None,
            DocTag::Strong => None,
            DocTag::Emphasis => None,
            DocTag::Strikethrough => None,
            DocTag::Link(kind, _, _) => if kind.supported() {
                None
            } else {
                Some(Construct::Link(*kind))
            },
            DocTag::Table => Some(Construct::Table),
            DocTag::TableHead => Some(Construct::TableHead),
            DocTag::TableRow => Some(Construct::TableRow),
            DocTag::TableCell => Some(Construct::TableCell),
            DocTag::FootnoteDefinition => Some(Construct::FootnoteDefinition),
            DocTag::Image => Some(Construct::Image),
        }
    }
}

impl DocEvent {
    /// The construct for which the event is rejected, if it is.
    pub fn rejection(&self) -> (r: Option<Construct>)
        ensures
            r == rejected(self@),
    {
        match self {
            DocEvent::BlockStart(tag) => tag.rejection(),
            DocEvent::BlockEnd(tag) => tag.rejection(),
            DocEvent::Text(_) => None,
            DocEvent::InlineCode(_) => None,
            DocEvent::RawHtml(_) => None,
            DocEvent::SoftBreak => None,
            DocEvent::HardBreak => None,
            DocEvent::ThematicBreak => None,
            DocEvent::FootnoteRef(_) => Some(Construct::FootnoteReference),
            DocEvent::TaskMarker(_) => None,
        }
    }
}

/// The marker on either side of a strong span: `_` inside an emphasis, where
/// the two markers together stand for bold italic, and `*` elsewhere.
pub open spec fn strong_marker(state: TransducerState) -> Seq<char> {
    if state.emphasis_active {
        "_"@
    } else {
        "*"@
    }
}

/// The anchor id of a heading, empty when it has none.
pub open spec fn anchor_id(id: Option<Seq<char>>) -> Seq<char> {
    match id {
        Some(id) => id,
        None => Seq::empty(),
    }
}

/// What the start of `tag` emits. Rejected tags emit nothing.
pub open spec fn opening(state: TransducerState, tag: DocTagView) -> Seq<char> {
    match tag {
        DocTagView::Paragraph => Seq::empty(),
        DocTagView::Heading(level, id) => "---"@ + repeat("+"@, level as nat) + " "@ + anchor_id(id),
        DocTagView::BlockQuote => "<verbatim>\n"@,
        DocTagView::CodeBlock => "<verbatim>\n"@,
        DocTagView::List(_) => Seq::empty(),
        DocTagView::ListItem => Seq::empty(),
        DocTagView::Strong => strong_marker(state),
        DocTagView::Emphasis => "_"@,
        DocTagView::Strikethrough => "<strike>"@,
        DocTagView::Link(kind, url, _) => match kind {
            LinkKind::Inline => "[["@ + anchor_target(url) + "]["@,
            LinkKind::Email => "<a href=\"mailto:"@ + url + "\">"@,
            LinkKind::Reference => Seq::empty(),
            LinkKind::ReferenceUnknown => Seq::empty(),
            LinkKind::Collapsed => Seq::empty(),
            LinkKind::CollapsedUnknown => Seq::empty(),
            LinkKind::Shortcut => Seq::empty(),
            LinkKind::ShortcutUnknown => Seq::empty(),
            LinkKind::Autolink => Seq::empty(),
        },
        DocTagView::Table => Seq::empty(),
        DocTagView::TableHead => Seq::empty(),
        DocTagView::TableRow => Seq::empty(),
        DocTagView::TableCell => Seq::empty(),
        DocTagView::FootnoteDefinition => Seq::empty(),
        DocTagView::Image => Seq::empty(),
    }
}

/// What the end of `tag` emits. Rejected tags emit nothing.
pub open spec fn closing(state: TransducerState, tag: DocTagView) -> Seq<char> {
    match tag {
        DocTagView::Paragraph => "\n"@,
        DocTagView::Heading(_, _) => "\n"@,
        DocTagView::BlockQuote => "</verbatim>\n"@,
        DocTagView::CodeBlock => "</verbatim>\n"@,
        DocTagView::List(_) => Seq::empty(),
        DocTagView::ListItem => "\n"@,
        DocTagView::Strong => strong_marker(state),
        DocTagView::Emphasis => "_"@,
        DocTagView::Strikethrough => "</strike>"@,
        DocTagView::Link(kind, _, _) => match kind {
            LinkKind::Inline => "]]"@,
            LinkKind::Email => "</a>"@,
            LinkKind::Reference => Seq::empty(),
            LinkKind::ReferenceUnknown => Seq::empty(),
            LinkKind::Collapsed => Seq::empty(),
            LinkKind::CollapsedUnknown => Seq::empty(),
            LinkKind::Shortcut => Seq::empty(),
            LinkKind::ShortcutUnknown => Seq::empty(),
            LinkKind::Autolink => Seq::empty(),
        },
        DocTagView::Table => Seq::empty(),
        DocTagView::TableHead => Seq::empty(),
        DocTagView::TableRow => Seq::empty(),
        DocTagView::TableCell => Seq::empty(),
        DocTagView::FootnoteDefinition => Seq::empty(),
        DocTagView::Image => Seq::empty(),
    }
}

/// What a text run emits: inside a code block the code-block rule decides,
/// else inside a list the list rule, else the run is written as it is.
pub open spec fn text_run(state: TransducerState, text: Seq<char>) -> Seq<char> {
    if state.inside_code_block {
        code_text(text)
    } else if state.inside_list {
        list_item_text(text)
    } else {
        text
    }
}

/// What `event` emits when it arrives in `state`. Rejected events emit
/// nothing.
pub open spec fn emission(state: TransducerState, event: DocEventView) -> Seq<char> {
    match event {
        DocEventView::BlockStart(tag) => opening(state, tag),
        DocEventView::BlockEnd(tag) => closing(state, tag),
        DocEventView::Text(text) => text_run(state, text),
        DocEventView::InlineCode(code) => "="@ + code + "="@,
        DocEventView::RawHtml(html) => html,
        DocEventView::SoftBreak => "\n"@,
        DocEventView::HardBreak => "\n"@,
        DocEventView::ThematicBreak => "\n---\n"@,
        DocEventView::FootnoteRef(_) => Seq::empty(),
        DocEventView::TaskMarker(_) => "\n"@,
    }
}

/// The state after the start of `tag`.
pub open spec fn after_start(state: TransducerState, tag: DocTagView) -> TransducerState {
    match tag {
        DocTagView::CodeBlock => TransducerState { inside_code_block: true, ..state },
        DocTagView::List(_) => TransducerState { inside_list: true, ..state },
        DocTagView::Emphasis => TransducerState { emphasis_active: true, ..state },
        _ => state,
    }
}

/// The state after the end of `tag`.
pub open spec fn after_end(state: TransducerState, tag: DocTagView) -> TransducerState {
    match tag {
        DocTagView::CodeBlock => TransducerState { inside_code_block: false, ..state },
        DocTagView::List(_) => TransducerState { inside_list: false, ..state },
        DocTagView::Emphasis => TransducerState { emphasis_active: false, ..state },
        _ => state,
    }
}

/// The state in which the event after `event` arrives. Only the start and
/// the end of a code block, a list and an emphasis change it.
pub open spec fn next_state(state: TransducerState, event: DocEventView) -> TransducerState {
    match event {
        DocEventView::BlockStart(tag) => after_start(state, tag),
        DocEventView::BlockEnd(tag) => after_end(state, tag),
        _ => state,
    }
}

/// Whether `event` ends a code block, a list or an emphasis while the flag
/// that the matching start sets is clear in `state`. Starts and ends that
/// pair up never lead to it; an event source that lets one construct end
/// twice, or nests a construct in another of its kind, does.
pub open spec fn stray_end(state: TransducerState, event: DocEventView) -> bool {
    match event {
        DocEventView::BlockEnd(DocTagView::CodeBlock) => !state.inside_code_block,
        DocEventView::BlockEnd(DocTagView::List(_)) => !state.inside_list,
        DocEventView::BlockEnd(DocTagView::Emphasis) => !state.emphasis_active,
        _ => false,
    }
}

/// The state after all of `events`, taken in order from a fresh state.
pub open spec fn state_after(events: Seq<DocEventView>) -> TransducerState
    decreases events.len(),
{
    if events.len() == 0 {
        TransducerState::fresh()
    } else {
        next_state(state_after(events.drop_last()), events.last())
    }
}

/// The text that `events` emit one after the other, from a fresh state.
pub open spec fn text_after(events: Seq<DocEventView>) -> Seq<char>
    decreases events.len(),
{
    if events.len() == 0 {
        Seq::empty()
    } else {
        text_after(events.drop_last()) + emission(state_after(events.drop_last()), events.last())
    }
}

/// Number of events at the front of `events` before the first rejected one.
pub open spec fn supported_prefix(events: Seq<DocEventView>) -> nat
    decreases events.len(),
{
    if events.len() > 0 && rejected(events[0]) is None {
        1 + supported_prefix(events.drop_first())
    } else {
        0
    }
}

/// The text that a pass over `events` writes: the emissions of the events
/// before the first rejected one, or of all of them.
pub open spec fn rendered(events: Seq<DocEventView>) -> Seq<char> {
    text_after(events.take(supported_prefix(events) as int))
}

/// How a pass over `events` ends when every write is taken: with the first
/// rejected event, or well.
pub open spec fn verdict(events: Seq<DocEventView>) -> Result<(), Error> {
    let k = supported_prefix(events) as int;
    if k < events.len() {
        Err(Error::Unsupported(rejected(events[k])->0))
    } else {
        Ok(())
    }
}

/// The number of writes that the sink refused in a pass that ended with `r`:
/// the first refusal ends the pass.
pub open spec fn write_failures(r: Result<(), Error>) -> nat {
    if r == Err::<(), Error>(Error::WriteFailure) {
        1
    } else {
        0
    }
}

/// Whether a pass over `events` can stop at event `k` because the sink
/// refuses a write: the event lies before the first rejected one and emits
/// something.
pub open spec fn refused_at(events: Seq<DocEventView>, k: int) -> bool {
    &&& 0 <= k < supported_prefix(events)
    &&& emission(state_after(events.take(k)), events[k]).len() > 0
}

/// What one pass over `events` does to a sink that held `before` and holds
/// `after` when the pass ends with `r`.
///
/// Unless a write was refused, `r` is the [`verdict`] on the events and the
/// sink has grown by what they render to. A write can be refused only by a
/// sink that is not infallible; the sink has then grown by the emissions of
/// the events before the one whose write it refused.
pub open spec fn pass(
    events: Seq<DocEventView>,
    r: Result<(), Error>,
    before: Seq<char>,
    after: Seq<char>,
    infallible: bool,
) -> bool {
    match r {
        Err(Error::WriteFailure) => {
            &&& !infallible
            &&& exists|k: int| #[trigger]
                refused_at(events, k) && after == before + text_after(events.take(k))
        },
        _ => {
            &&& r == verdict(events)
            &&& after == before + rendered(events)
        },
    }
}

/// `k` events without a rejected one, followed by a rejected event or by
/// nothing, are the supported prefix.
pub proof fn lemma_supported_prefix(events: Seq<DocEventView>, k: int)
    requires
        0 <= k <= events.len(),
        forall|i: int| 0 <= i < k ==> rejected(#[trigger] events[i]) is None,
        k < events.len() ==> rejected(events[k]) is Some,
    ensures
        supported_prefix(events) == k,
    decreases k,
{
    if k > 0 {
        let rest = events.drop_first();
        assert forall|i: int| 0 <= i < k - 1 implies rejected(#[trigger] rest[i]) is None by {
            assert(rest[i] == events[i + 1]);
        }
        lemma_supported_prefix(rest, k - 1);
    }
}

/// The supported prefix holds no rejected event and is followed by one or
/// by nothing.
pub proof fn lemma_supported_prefix_bounds(events: Seq<DocEventView>)
    ensures
        supported_prefix(events) <= events.len(),
        forall|i: int| 0 <= i < supported_prefix(events) ==> rejected(#[trigger] events[i]) is None,
        supported_prefix(events) < events.len() ==> rejected(
            events[supported_prefix(events) as int],
        ) is Some,
    decreases events.len(),
{
    if events.len() > 0 && rejected(events[0]) is None {
        let rest = events.drop_first();
        lemma_supported_prefix_bounds(rest);
        assert forall|i: int| 0 <= i < supported_prefix(events) implies rejected(
            #[trigger] events[i],
        ) is None by {
            if i > 0 {
                assert(events[i] == rest[i - 1]);
            }
        }
        if supported_prefix(events) < events.len() {
            assert(events[supported_prefix(events) as int] == rest[supported_prefix(rest) as int]);
        }
    }
}

/// An event that is not rejected and follows none that is lies within the
/// supported prefix.
pub proof fn lemma_within_supported_prefix(events: Seq<DocEventView>, k: int)
    requires
        0 <= k < events.len(),
        forall|i: int| 0 <= i <= k ==> rejected(#[trigger] events[i]) is None,
    ensures
        k < supported_prefix(events),
    decreases k,
{
    let rest = events.drop_first();
    assert(rejected(events[0]) is None);
    if k > 0 {
        assert forall|i: int| 0 <= i <= k - 1 implies rejected(#[trigger] rest[i]) is None by {
            assert(rest[i] == events[i + 1]);
        }
        lemma_within_supported_prefix(rest, k - 1);
    }
}

/// An event added to a run moves the state on from where the run left it
/// and adds what it emits there.
pub proof fn lemma_run_push(events: Seq<DocEventView>, event: DocEventView)
    ensures
        state_after(events.push(event)) == next_state(state_after(events), event),
        text_after(events.push(event)) == text_after(events) + emission(
            state_after(events),
            event,
        ),
{
    assert(events.push(event).drop_last() =~= events);
}

/// One more event extends the state and the text of a run by that event's
/// transition and emission.
pub proof fn lemma_run_extends(events: Seq<DocEventView>, k: int)
    requires
        0 <= k < events.len(),
    ensures
        state_after(events.take(k + 1)) == next_state(state_after(events.take(k)), events[k]),
        text_after(events.take(k + 1)) == text_after(events.take(k)) + emission(
            state_after(events.take(k)),
            events[k],
        ),
{
    assert(events.take(k + 1).drop_last() =~= events.take(k));
    assert(events.take(k + 1).last() == events[k]);
}

} // verus!
