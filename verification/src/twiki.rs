//! The transducer itself: one pass over the events of a document, writing
//! TWiki markup to a sink.

use crate::error::{Construct, Error};
use crate::event::{views, DocEvent, DocEventView, DocTag, LinkKind};
use crate::markdown::{markdown_events, parse_markdown, Extensions};
use crate::sink::{Sink, StringIO};
use crate::text::{anchor_target, append_repeated, code_block_text, list_item, resolve_anchor};
use crate::transducer::{
    closing, emission, lemma_run_extends, lemma_supported_prefix, lemma_within_supported_prefix,
    next_state, opening, pass, refused_at, rejected, rejected_tag, rendered, state_after,
    text_after, verdict, write_failures, TransducerState,
};
use vstd::prelude::*;
use vstd::string::StringExecFns;

verus! {

/// A renderer of markdown events into TWiki markup.
#[derive(Debug)]
pub struct Twiki {
    /// Where the rendered book will be served from. It is kept for link
    /// rewriting and does not change what is rendered.
    pub base_url: Option<String>,
}

impl Default for Twiki {
    fn default() -> (twiki: Twiki)
        ensures
            twiki.base_url is None,
    {
        Twiki { base_url: None }
    }
}

impl Twiki {
    /// The target written into a wiki link for the url of an inline link.
    pub fn anchor_target(&self, url: &str) -> (target: String)
        ensures
            target@ == anchor_target(url@),
    {
        resolve_anchor(url)
    }

    /// Renders the start of `tag`: the markup it opens with, and the flag it
    /// sets. A tag without a TWiki form is rejected and changes nothing.
    pub fn open(&self, state: &mut TransducerState, tag: &DocTag) -> (r: Result<String, Error>)
        ensures
            match r {
                Ok(text) => {
                    &&& rejected_tag(tag@) is None
                    &&& text@ == opening(*old(state), tag@)
                    &&& *final(state) == next_state(*old(state), DocEventView::BlockStart(tag@))
                },
                Err(e) => {
                    &&& rejected_tag(tag@) matches Some(construct)
                    &&& e == Error::Unsupported(construct)
                    &&& *final(state) == *old(state)
                },
            },
    {
        match tag {
            DocTag::Paragraph => Ok(String::new()),
            DocTag::Heading(level, id) => {
                let mut text = String::from_str("---");
                append_repeated(&mut text, "+", *level as usize);
                text.append(" ");
                match id {
                    Some(id) => {
                        text.append(id.as_str());
                    },
                    None => {
                        assert(text@ + Seq::<char>::empty() == text@);
                    },
                }
                Ok(text)
            },
            DocTag::BlockQuote => Ok(String::from_str("<verbatim>\n")),
            DocTag::CodeBlock => {
                state.inside_code_block = true;
                Ok(String::from_str("<verbatim>\n"))
            },
            DocTag::List(_) => {
                state.inside_list = true;
                Ok(String::new())
            },
            DocTag::ListItem => Ok(String::new()),
            DocTag::Strong => {
                if state.emphasis_active {
                    Ok(String::from_str("_"))
                } else {
                    Ok(String::from_str("*"))
                }
            },
            DocTag::Emphasis => {
                state.emphasis_active = true;
                Ok(String::from_str("_"))
            },
            DocTag::Strikethrough => Ok(String::from_str("<strike>")),
            DocTag::Link(kind, url, _) => match kind {
                LinkKind::Inline => {
                    let mut text = String::from_str("[[");
                    let target = self.anchor_target(url.as_str());
                    text.append(target.as_str());
                    text.append("][");
                    Ok(text)
                },
                LinkKind::Email => {
                    let mut text = String::from_str("<a href=\"mailto:");
                    text.append(url.as_str());
                    text.append("\">");
                    Ok(text)
                },
                LinkKind::Reference => Err(Error::Unsupported(Construct::Link(LinkKind::Reference))),
                LinkKind::ReferenceUnknown => Err(
                    Error::Unsupported(Construct::Link(LinkKind::ReferenceUnknown)),
                ),
                LinkKind::Collapsed => Err(Error::Unsupported(Construct::Link(LinkKind::Collapsed))),
                LinkKind::CollapsedUnknown => Err(
                    Error::Unsupported(Construct::Link(LinkKind::CollapsedUnknown)),
                ),
                LinkKind::Shortcut => Err(Error::Unsupported(Construct::Link(LinkKind::Shortcut))),
                LinkKind::ShortcutUnknown => Err(
                    Error::Unsupported(Construct::Link(LinkKind::ShortcutUnknown)),
                ),
                LinkKind::Autolink => Err(Error::Unsupported(Construct::Link(LinkKind::Autolink))),
            },
            DocTag::Table => Err(Error::Unsupported(Construct::Table)),
            DocTag::TableHead => Err(Error::Unsupported(Construct::TableHead)),
            DocTag::TableRow => Err(Error::Unsupported(Construct::TableRow)),
            DocTag::TableCell => Err(Error::Unsupported(Construct::TableCell)),
            DocTag::FootnoteDefinition => Err(Error::Unsupported(Construct::FootnoteDefinition)),
            DocTag::Image => Err(Error::Unsupported(Construct::Image)),
        }
    }

    /// Renders the end of `tag`: the markup it closes with, and the flag it
    /// clears. A tag without a TWiki form is rejected and changes nothing.
    pub fn close(&self, state: &mut TransducerState, tag: &DocTag) -> (r: Result<String, Error>)
        ensures
            match r {
                Ok(text) => {
                    &&& rejected_tag(tag@) is None
                    &&& text@ == closing(*old(state), tag@)
                    &&& *final(state) == next_state(*old(state), DocEventView::BlockEnd(tag@))
                },
                Err(e) => {
                    &&& rejected_tag(tag@) matches Some(construct)
                    &&& e == Error::Unsupported(construct)
                    &&& *final(state) == *old(state)
                },
            },
    {
        match tag {
            DocTag::Paragraph => Ok(String::from_str("\n")),
            DocTag::Heading(_, _) => Ok(String::from_str("\n")),
            DocTag::BlockQuote => Ok(String::from_str("</verbatim>\n")),
            DocTag::CodeBlock => {
                state.inside_code_block = false;
                Ok(String::from_str("</verbatim>\n"))
            },
            DocTag::List(_) => {
                state.inside_list = false;
                Ok(String::new())
            },
            DocTag::ListItem => Ok(String::from_str("\n")),
            DocTag::Strong => {
                if state.emphasis_active {
                    Ok(String::from_str("_"))
                } else {
                    Ok(String::from_str("*"))
                }
            },
            DocTag::Emphasis => {
                state.emphasis_active = false;
                Ok(String::from_str("_"))
            },
            DocTag::Strikethrough => Ok(String::from_str("</strike>")),
            DocTag::Link(kind, _, _) => match kind {
                LinkKind::Inline => Ok(String::from_str("]]")),
                LinkKind::Email => Ok(String::from_str("</a>")),
                LinkKind::Reference => Err(Error::Unsupported(Construct::Link(LinkKind::Reference))),
                LinkKind::ReferenceUnknown => Err(
                    Error::Unsupported(Construct::Link(LinkKind::ReferenceUnknown)),
                ),
                LinkKind::Collapsed => Err(Error::Unsupported(Construct::Link(LinkKind::Collapsed))),
                LinkKind::CollapsedUnknown => Err(
                    Error::Unsupported(Construct::Link(LinkKind::CollapsedUnknown)),
                ),
                LinkKind::Shortcut => Err(Error::Unsupported(Construct::Link(LinkKind::Shortcut))),
                LinkKind::ShortcutUnknown => Err(
                    Error::Unsupported(Construct::Link(LinkKind::ShortcutUnknown)),
                ),
                LinkKind::Autolink => Err(Error::Unsupported(Construct::Link(LinkKind::Autolink))),
            },
            DocTag::Table => Err(Error::Unsupported(Construct::Table)),
            DocTag::TableHead => Err(Error::Unsupported(Construct::TableHead)),
            DocTag::TableRow => Err(Error::Unsupported(Construct::TableRow)),
            DocTag::TableCell => Err(Error::Unsupported(Construct::TableCell)),
            DocTag::FootnoteDefinition => Err(Error::Unsupported(Construct::FootnoteDefinition)),
            DocTag::Image => Err(Error::Unsupported(Construct::Image)),
        }
    }

    /// Takes one event: returns the markup it emits under the flags in
    /// `state` and moves `state` on. An event without a TWiki form is
    /// rejected: nothing is emitted for it and `state` stays as it was.
    pub fn step(&self, state: &mut TransducerState, event: &DocEvent) -> (r: Result<String, Error>)
        ensures
            match r {
                Ok(text) => {
                    &&& rejected(event@) is None
                    &&& text@ == emission(*old(state), event@)
                    &&& *final(state) == next_state(*old(state), event@)
                },
                Err(e) => {
                    &&& rejected(event@) matches Some(construct)
                    &&& e == Error::Unsupported(construct)
                    &&& *final(state) == *old(state)
                },
            },
    {
        match event {
            DocEvent::BlockStart(tag) => self.open(state, tag),
            DocEvent::BlockEnd(tag) => self.close(state, tag),
            DocEvent::Text(text) => {
                if state.inside_code_block {
                    Ok(code_block_text(text.as_str()))
                } else if state.inside_list {
                    Ok(list_item(text.as_str()))
                } else {
                    Ok(text.clone())
                }
            },
            DocEvent::InlineCode(code) => {
                let mut text = String::from_str("=");
                text.append(code.as_str());
                text.append("=");
                Ok(text)
            },
            DocEvent::RawHtml(html) => Ok(html.clone()),
            DocEvent::SoftBreak => Ok(String::from_str("\n")),
            DocEvent::HardBreak => Ok(String::from_str("\n")),
            DocEvent::ThematicBreak => Ok(String::from_str("\n---\n")),
            DocEvent::FootnoteRef(_) => Err(Error::Unsupported(Construct::FootnoteReference)),
            DocEvent::TaskMarker(_) => Ok(String::from_str("\n")),
        }
    }

    /// Runs one pass over `events` from a fresh state and writes what each
    /// event emits to `output`, in order and one event at a time.
    ///
    /// The pass stops at the first rejected event, having written the
    /// emissions of the events before it and nothing for the event itself,
    /// or at the first write that `output` refuses, and it ends with a write
    /// failure just when `output` refused a write. With a sink that takes
    /// every write, the result and the text written are those that
    /// [`verdict`] and [`rendered`] give for the events. An event that
    /// emits nothing causes no write.
    pub fn render<S: Sink>(&self, events: &Vec<DocEvent>, output: &mut S) -> (r: Result<(), Error>)
        ensures
            final(output).infallible() == old(output).infallible(),
            final(output).refused() == old(output).refused() + write_failures(r),
            pass(
                views(events@),
                r,
                old(output).accepted(),
                final(output).accepted(),
                old(output).infallible(),
            ),
    {
        let ghost all = views(events@);
        let mut state = TransducerState::new();
        let mut i: usize = 0;
        assert(all.take(0) =~= Seq::<DocEventView>::empty());
        assert(old(output).accepted() + Seq::<char>::empty() =~= old(output).accepted());
        while i < events.len()
            invariant
                i <= events.len(),
                all == views(events@),
                output.infallible() == old(output).infallible(),
                output.refused() == old(output).refused(),
                state == state_after(all.take(i as int)),
                output.accepted() == old(output).accepted() + text_after(all.take(i as int)),
                forall|j: int| 0 <= j < i ==> rejected(#[trigger] all[j]) is None,
            decreases events.len() - i,
        {
            proof {
                lemma_run_extends(all, i as int);
            }
            let ghost before = output.accepted();
            match self.step(&mut state, &events[i]) {
                Ok(text) => {
                    if !text.as_str().is_empty() {
                        match output.write_str(text.as_str()) {
                            Ok(()) => {},
                            Err(_) => {
                                proof {
                                    lemma_within_supported_prefix(all, i as int);
                                    assert(refused_at(all, i as int));
                                }
                                return Err(Error::WriteFailure);
                            },
                        }
                    } else {
                        assert(text@ =~= Seq::<char>::empty());
                        assert(before + text@ =~= before);
                    }
                    assert(output.accepted() =~= old(output).accepted() + text_after(
                        all.take(i + 1),
                    ));
                },
                Err(e) => {
                    proof {
                        lemma_supported_prefix(all, i as int);
                    }
                    return Err(e);
                },
            }
            i += 1;
        }
        proof {
            lemma_supported_prefix(all, i as int);
            assert(all.take(i as int) =~= all);
        }
        Ok(())
    }

    /// Tells how a pass over `events` ends with a sink that takes every
    /// write, and writes nothing.
    pub fn check(&self, events: &Vec<DocEvent>) -> (r: Result<(), Error>)
        ensures
            r == verdict(views(events@)),
    {
        let ghost all = views(events@);
        let mut i: usize = 0;
        while i < events.len()
            invariant
                i <= events.len(),
                all == views(events@),
                forall|j: int| 0 <= j < i ==> rejected(#[trigger] all[j]) is None,
            decreases events.len() - i,
        {
            match events[i].rejection() {
                Some(construct) => {
                    proof {
                        lemma_supported_prefix(all, i as int);
                    }
                    return Err(Error::Unsupported(construct));
                },
                None => {},
            }
            i += 1;
        }
        proof {
            lemma_supported_prefix(all, i as int);
        }
        Ok(())
    }

    /// Tokenizes `content` with every extension switched on and runs one
    /// pass over its events, writing to `output` as [`Twiki::render`] does.
    pub fn convert<S: Sink>(&self, content: &str, output: &mut S) -> (r: Result<(), Error>)
        ensures
            final(output).infallible() == old(output).infallible(),
            final(output).refused() == old(output).refused() + write_failures(r),
            pass(
                markdown_events(content@, Extensions::every()),
                r,
                old(output).accepted(),
                final(output).accepted(),
                old(output).infallible(),
            ),
    {
        let events = parse_markdown(content, Extensions::all());
        self.render(&events, output)
    }
}

/// Renders a markdown document without a rejected construct to a string of
/// TWiki markup.
pub fn markdown_to_twiki_string(markdown: String) -> (twiki: String)
    requires
        verdict(markdown_events(markdown@, Extensions::every())) is Ok,
    ensures
        twiki@ == rendered(markdown_events(markdown@, Extensions::every())),
{
    let mut output = StringIO::new();
    let _ = Twiki::default().convert(markdown.as_str(), &mut output);
    output.to_string()
}

/// Renders a markdown document to a string of TWiki markup, or tells which
/// construct of the document has no TWiki form.
pub fn markdown_to_twiki(markdown: String) -> (r: Result<String, Error>)
    ensures
        match r {
            Ok(twiki) => {
                &&& verdict(markdown_events(markdown@, Extensions::every())) is Ok
                &&& twiki@ == rendered(markdown_events(markdown@, Extensions::every()))
            },
            Err(e) => verdict(markdown_events(markdown@, Extensions::every())) == Err::<(), Error>(e),
        },
{
    let events = parse_markdown(markdown.as_str(), Extensions::all());
    match Twiki::default().check(&events) {
        Ok(()) => Ok(markdown_to_twiki_string(markdown)),
        Err(e) => Err(e),
    }
}

} // verus!
