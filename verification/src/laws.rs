//! Laws of the transducer: what holds of every state, every event and every
//! run of events, proved from the model.

use crate::error::Error;
use crate::event::{DocEventView, DocTagView, LinkKind};
use crate::markdown::{markdown_events, Extensions};
use crate::text::{
    anchor_target, fence, leading_run, lemma_leading_run, lemma_leading_run_bounds,
    lemma_repeat_one, repeat, trim_end, trim_start, white_space, CharClass,
};
use crate::transducer::{
    after_end, after_start, emission, lemma_run_push, lemma_supported_prefix,
    lemma_supported_prefix_bounds, pass, rejected, rendered, stray_end, supported_prefix,
    text_after, verdict, TransducerState,
};
use vstd::prelude::*;

verus! {

/// A heading of level 1 to 6 without an anchor id that holds one text run.
pub open spec fn heading_run(level: u8, title: Seq<char>) -> Seq<DocEventView> {
    seq![
        DocEventView::BlockStart(DocTagView::Heading(level, None)),
        DocEventView::Text(title),
        DocEventView::BlockEnd(DocTagView::Heading(level, None)),
    ]
}

/// A code block that holds one text run.
pub open spec fn code_block_run(content: Seq<char>) -> Seq<DocEventView> {
    seq![
        DocEventView::BlockStart(DocTagView::CodeBlock),
        DocEventView::Text(content),
        DocEventView::BlockEnd(DocTagView::CodeBlock),
    ]
}

/// A paragraph that holds `inner`.
pub open spec fn paragraph(inner: Seq<DocEventView>) -> Seq<DocEventView> {
    seq![DocEventView::BlockStart(DocTagView::Paragraph)] + inner + seq![
        DocEventView::BlockEnd(DocTagView::Paragraph),
    ]
}

/// A text run inside the start and the end of `tag`.
pub open spec fn span(tag: DocTagView, inner: Seq<DocEventView>) -> Seq<DocEventView> {
    seq![DocEventView::BlockStart(tag)] + inner + seq![DocEventView::BlockEnd(tag)]
}

/// A run without a rejected event ends well and renders to the emissions of
/// all its events.
pub proof fn lemma_supported_run(events: Seq<DocEventView>)
    requires
        forall|i: int| 0 <= i < events.len() ==> rejected(#[trigger] events[i]) is None,
    ensures
        verdict(events) is Ok,
        rendered(events) == text_after(events),
{
    lemma_supported_prefix(events, events.len() as int);
    assert(events.take(events.len() as int) =~= events);
}

/// A heading of any level from 1 to 6 renders to `---`, one `+` for each
/// level, a space, its text and a newline.
pub proof fn lemma_heading_line(level: u8, title: Seq<char>)
    requires
        1 <= level <= 6,
    ensures
        verdict(heading_run(level, title)) is Ok,
        rendered(heading_run(level, title)) == "---"@ + repeat("+"@, level as nat) + " "@ + title
            + "\n"@,
{
    let run = heading_run(level, title);
    let none = Seq::<DocEventView>::empty();
    lemma_supported_run(run);
    lemma_run_push(none, run[0]);
    lemma_run_push(none.push(run[0]), run[1]);
    lemma_run_push(none.push(run[0]).push(run[1]), run[2]);
    assert(none.push(run[0]).push(run[1]).push(run[2]) =~= run);
    assert(rendered(run) =~= "---"@ + repeat("+"@, level as nat) + " "@ + title + "\n"@);
}

/// Inline code in a paragraph renders to the code between two `=`, and the
/// newline that ends the paragraph.
pub proof fn lemma_inline_code(code: Seq<char>)
    ensures
        verdict(paragraph(seq![DocEventView::InlineCode(code)])) is Ok,
        rendered(paragraph(seq![DocEventView::InlineCode(code)])) == "="@ + code + "="@ + "\n"@,
{
    let run = paragraph(seq![DocEventView::InlineCode(code)]);
    let none = Seq::<DocEventView>::empty();
    lemma_supported_run(run);
    lemma_run_push(none, run[0]);
    lemma_run_push(none.push(run[0]), run[1]);
    lemma_run_push(none.push(run[0]).push(run[1]), run[2]);
    assert(none.push(run[0]).push(run[1]).push(run[2]) =~= run);
    assert(rendered(run) =~= "="@ + code + "="@ + "\n"@);
}

/// In a paragraph, bold text renders between two `*` and italic text between
/// two `_`.
pub proof fn lemma_bold_and_italic(text: Seq<char>)
    ensures
        verdict(paragraph(span(DocTagView::Strong, seq![DocEventView::Text(text)]))) is Ok,
        rendered(paragraph(span(DocTagView::Strong, seq![DocEventView::Text(text)]))) == "*"@
            + text + "*"@ + "\n"@,
        verdict(paragraph(span(DocTagView::Emphasis, seq![DocEventView::Text(text)]))) is Ok,
        rendered(paragraph(span(DocTagView::Emphasis, seq![DocEventView::Text(text)]))) == "_"@
            + text + "_"@ + "\n"@,
{
    let none = Seq::<DocEventView>::empty();
    let bold = paragraph(span(DocTagView::Strong, seq![DocEventView::Text(text)]));
    lemma_supported_run(bold);
    lemma_run_push(none, bold[0]);
    lemma_run_push(none.push(bold[0]), bold[1]);
    lemma_run_push(none.push(bold[0]).push(bold[1]), bold[2]);
    lemma_run_push(none.push(bold[0]).push(bold[1]).push(bold[2]), bold[3]);
    lemma_run_push(none.push(bold[0]).push(bold[1]).push(bold[2]).push(bold[3]), bold[4]);
    assert(none.push(bold[0]).push(bold[1]).push(bold[2]).push(bold[3]).push(bold[4]) =~= bold);
    assert(rendered(bold) =~= "*"@ + text + "*"@ + "\n"@);
    let italic = paragraph(span(DocTagView::Emphasis, seq![DocEventView::Text(text)]));
    lemma_supported_run(italic);
    lemma_run_push(none, italic[0]);
    lemma_run_push(none.push(italic[0]), italic[1]);
    lemma_run_push(none.push(italic[0]).push(italic[1]), italic[2]);
    lemma_run_push(none.push(italic[0]).push(italic[1]).push(italic[2]), italic[3]);
    lemma_run_push(
        none.push(italic[0]).push(italic[1]).push(italic[2]).push(italic[3]),
        italic[4],
    );
    assert(none.push(italic[0]).push(italic[1]).push(italic[2]).push(italic[3]).push(italic[4])
        =~= italic);
    assert(rendered(italic) =~= "_"@ + text + "_"@ + "\n"@);
}

/// A strong span inside an emphasis is written with `_` as well, so that
/// text that is both bold and italic renders between two `__`.
pub proof fn lemma_bold_italic(text: Seq<char>)
    ensures
        verdict(
            paragraph(
                span(DocTagView::Emphasis, span(DocTagView::Strong, seq![DocEventView::Text(text)])),
            ),
        ) is Ok,
        rendered(
            paragraph(
                span(DocTagView::Emphasis, span(DocTagView::Strong, seq![DocEventView::Text(text)])),
            ),
        ) == "_"@ + "_"@ + text + "_"@ + "_"@ + "\n"@,
{
    let none = Seq::<DocEventView>::empty();
    let run = paragraph(
        span(DocTagView::Emphasis, span(DocTagView::Strong, seq![DocEventView::Text(text)])),
    );
    lemma_supported_run(run);
    let r1 = none.push(run[0]);
    let r2 = r1.push(run[1]);
    let r3 = r2.push(run[2]);
    let r4 = r3.push(run[3]);
    let r5 = r4.push(run[4]);
    let r6 = r5.push(run[5]);
    lemma_run_push(none, run[0]);
    lemma_run_push(r1, run[1]);
    lemma_run_push(r2, run[2]);
    lemma_run_push(r3, run[3]);
    lemma_run_push(r4, run[4]);
    lemma_run_push(r5, run[5]);
    lemma_run_push(r6, run[6]);
    assert(r6.push(run[6]) =~= run);
    assert(rendered(run) =~= "_"@ + "_"@ + text + "_"@ + "_"@ + "\n"@);
}

/// An inline link in a paragraph renders to `[[`, the anchor target of its
/// url, `][`, its label and `]]`; the title plays no part.
pub proof fn lemma_inline_link(url: Seq<char>, title: Seq<char>, label: Seq<char>)
    ensures
        verdict(
            paragraph(
                span(DocTagView::Link(LinkKind::Inline, url, title), seq![DocEventView::Text(label)]),
            ),
        ) is Ok,
        rendered(
            paragraph(
                span(DocTagView::Link(LinkKind::Inline, url, title), seq![DocEventView::Text(label)]),
            ),
        ) == "[["@ + anchor_target(url) + "]["@ + label + "]]"@ + "\n"@,
{
    let none = Seq::<DocEventView>::empty();
    let run = paragraph(
        span(DocTagView::Link(LinkKind::Inline, url, title), seq![DocEventView::Text(label)]),
    );
    lemma_supported_run(run);
    let r1 = none.push(run[0]);
    let r2 = r1.push(run[1]);
    let r3 = r2.push(run[2]);
    let r4 = r3.push(run[3]);
    lemma_run_push(none, run[0]);
    lemma_run_push(r1, run[1]);
    lemma_run_push(r2, run[2]);
    lemma_run_push(r3, run[3]);
    lemma_run_push(r4, run[4]);
    assert(r4.push(run[4]) =~= run);
    assert(rendered(run) =~= "[["@ + anchor_target(url) + "]["@ + label + "]]"@ + "\n"@);
}

/// An absolute url is its own anchor target; of any other url only the
/// fragment is kept, so that a url without a `#` has an empty target.
pub proof fn lemma_anchor_target(url: Seq<char>)
    ensures
        "https://"@.is_prefix_of(url) || "http://"@.is_prefix_of(url) ==> anchor_target(url)
            == url,
        anchor_target(url).is_suffix_of(url),
        !("https://"@.is_prefix_of(url) || "http://"@.is_prefix_of(url)) ==> {
            &&& anchor_target(url).len() > 0 ==> anchor_target(url)[0] == '#'
            &&& forall|i: int|
                0 <= i < url.len() - anchor_target(url).len() ==> #[trigger] url[i] != '#'
        },
{
    lemma_leading_run_bounds(url, CharClass::NonHash);
    let k = leading_run(url, CharClass::NonHash) as int;
    assert(url.skip(k) =~= url.subrange(url.len() - url.skip(k).len(), url.len() as int));
    assert(url =~= url.subrange(0, url.len() as int));
}

/// A list item whose text opens with `stars` bullet characters, one at
/// least, is written with one tab for each of them beyond the first, before
/// the bullet and the text that follows them.
pub proof fn lemma_bullet_depth(state: TransducerState, stars: nat, rest: Seq<char>)
    requires
        !state.inside_code_block,
        state.inside_list,
        stars >= 1,
        rest.len() > 0 ==> rest[0] != '*',
    ensures
        emission(state, DocEventView::Text(repeat("*"@, stars) + rest)) == repeat(
            "\t"@,
            (stars - 1) as nat,
        ) + "* "@ + trim_start(rest),
{
    reveal_strlit("*");
    let text = repeat("*"@, stars) + rest;
    lemma_repeat_one("*"@, stars);
    assert forall|i: int| 0 <= i < stars implies CharClass::Star.holds(#[trigger] text[i]) by {
        assert(text[i] == repeat("*"@, stars)[i]);
    }
    if stars < text.len() {
        assert(text[stars as int] == rest[0]);
    }
    lemma_leading_run(text, CharClass::Star, stars as int);
    assert(text.skip(stars as int) =~= rest);
}

/// The content of a code block is written as it stands between the two
/// `verbatim` markers, when it neither opens nor closes with a fence marker
/// and does not end in whitespace.
pub proof fn lemma_code_block_verbatim(content: Seq<char>)
    requires
        !fence().is_prefix_of(trim_start(content)),
        !fence().is_suffix_of(content),
        content.len() > 0 ==> !white_space(content.last()),
    ensures
        verdict(code_block_run(content)) is Ok,
        rendered(code_block_run(content)) == "<verbatim>\n"@ + content + "</verbatim>\n"@,
{
    let run = code_block_run(content);
    let none = Seq::<DocEventView>::empty();
    lemma_supported_run(run);
    lemma_run_push(none, run[0]);
    lemma_run_push(none.push(run[0]), run[1]);
    lemma_run_push(none.push(run[0]).push(run[1]), run[2]);
    assert(none.push(run[0]).push(run[1]).push(run[2]) =~= run);
    assert(trim_end(content) =~= content);
    assert(rendered(run) =~= "<verbatim>\n"@ + content + "</verbatim>\n"@);
}

/// No fence marker line of a code block reaches the output: a text run that
/// opens with the marker emits nothing, and one that closes with it emits
/// what stands before the marker.
pub proof fn lemma_fence_dropped(state: TransducerState, text: Seq<char>)
    requires
        state.inside_code_block,
    ensures
        fence().is_prefix_of(trim_start(text)) ==> emission(state, DocEventView::Text(text))
            == Seq::<char>::empty(),
        !fence().is_prefix_of(trim_start(text)) && fence().is_suffix_of(trim_end(text))
            ==> emission(state, DocEventView::Text(text)) + fence() == trim_end(text),
{
    if !fence().is_prefix_of(trim_start(text)) && fence().is_suffix_of(trim_end(text)) {
        let kept = trim_end(text);
        assert(kept.take(kept.len() - fence().len()) + fence() =~= kept);
    }
}

/// The start of a code block, a list or an emphasis sets a flag that the
/// matching end clears: the end right after the start is never stray, where
/// the start changed the state the end restores it, and after the end the
/// flag is clear whatever came before, so that a second end is stray.
pub proof fn lemma_flags_paired(state: TransducerState, tag: DocTagView)
    ensures
        !stray_end(after_start(state, tag), DocEventView::BlockEnd(tag)),
        after_start(state, tag) != state ==> after_end(after_start(state, tag), tag) == state,
        after_end(after_start(state, tag), tag) == after_end(state, tag),
        after_end(state, tag) != state ==> stray_end(
            after_end(state, tag),
            DocEventView::BlockEnd(tag),
        ),
{
}

/// A rejected event ends the pass with its construct, whatever follows it,
/// and nothing is written for it: the text is that of the events before.
pub proof fn lemma_rejected_event_ends_pass(
    events: Seq<DocEventView>,
    event: DocEventView,
    rest: Seq<DocEventView>,
)
    requires
        verdict(events) is Ok,
        rejected(event) is Some,
    ensures
        verdict(events.push(event) + rest) == Err::<(), Error>(
            Error::Unsupported(rejected(event)->0),
        ),
        rendered(events.push(event) + rest) == rendered(events),
{
    let all = events.push(event) + rest;
    let k = events.len() as int;
    lemma_supported_prefix_bounds(events);
    assert forall|i: int| 0 <= i < k implies rejected(#[trigger] all[i]) is None by {
        assert(all[i] == events[i]);
    }
    assert(all[k] == event);
    lemma_supported_prefix(all, k);
    assert(all.take(k) =~= events);
    assert(events.take(k) =~= events);
}

/// Two passes over the same events that start from sinks holding the same
/// text, and in which no write is refused, end alike and leave the same text
/// behind.
pub proof fn lemma_pass_repeatable(
    events: Seq<DocEventView>,
    before: Seq<char>,
    first: Result<(), Error>,
    first_after: Seq<char>,
    first_infallible: bool,
    second: Result<(), Error>,
    second_after: Seq<char>,
    second_infallible: bool,
)
    requires
        pass(events, first, before, first_after, first_infallible),
        pass(events, second, before, second_after, second_infallible),
        first != Err::<(), Error>(Error::WriteFailure),
        second != Err::<(), Error>(Error::WriteFailure),
    ensures
        first == second,
        first_after == second_after,
{
}

/// Converting the same document with the same extensions twice gives the
/// same result and the same text, as long as no write is refused.
pub proof fn lemma_convert_repeatable(
    content: Seq<char>,
    extensions: Extensions,
    before: Seq<char>,
    first: Result<(), Error>,
    first_after: Seq<char>,
    first_infallible: bool,
    second: Result<(), Error>,
    second_after: Seq<char>,
    second_infallible: bool,
)
    requires
        pass(markdown_events(content, extensions), first, before, first_after, first_infallible),
        pass(markdown_events(content, extensions), second, before, second_after, second_infallible),
        first != Err::<(), Error>(Error::WriteFailure),
        second != Err::<(), Error>(Error::WriteFailure),
    ensures
        first == second,
        first_after == second_after,
{
}

/// A sink that takes every write never makes a pass end with a write
/// failure, so the pass ends with the verdict on its events.
pub proof fn lemma_infallible_pass(
    events: Seq<DocEventView>,
    r: Result<(), Error>,
    before: Seq<char>,
    after: Seq<char>,
)
    requires
        pass(events, r, before, after, true),
    ensures
        r == verdict(events),
        after == before + rendered(events),
        r is Ok <==> supported_prefix(events) == events.len(),
{
    lemma_supported_prefix_bounds(events);
}

} // verus!
