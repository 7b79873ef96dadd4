use mdbook_twiki::text::{chars_of, code_block_text, count_leading, count_trailing, list_item};
use mdbook_twiki::text::{matches_at, resolve_anchor, CharClass};
use mdbook_twiki::{
    Construct, DocEvent, DocTag, Error, LinkKind, Sink, StringIO, TransducerState, Twiki,
    WordcountConfig,
};

fn text(s: &str) -> DocEvent {
    DocEvent::Text(s.to_string())
}

fn link(kind: LinkKind, url: &str) -> DocTag {
    DocTag::Link(kind, url.to_string(), String::new())
}

fn render(events: Vec<DocEvent>) -> (Result<(), Error>, String) {
    let mut sink = StringIO::new();
    let r = Twiki::default().render(&events, &mut sink);
    (r, sink.to_string())
}

fn fresh() -> TransducerState {
    TransducerState::new()
}

#[test]
fn fresh_state_has_no_flag_set() {
    let state = TransducerState::new();
    assert!(!state.inside_code_block);
    assert!(!state.inside_list);
    assert!(!state.emphasis_active);
}

#[test]
fn an_end_without_its_start_is_stray() {
    let twiki = Twiki::default();
    let mut state = fresh();
    for tag in [DocTag::CodeBlock, DocTag::List(false), DocTag::List(true), DocTag::Emphasis] {
        let start = DocEvent::BlockStart(tag.clone());
        let end = DocEvent::BlockEnd(tag);
        assert!(state.stray_end(&end));
        assert!(!state.stray_end(&start));
        assert!(twiki.step(&mut state, &start).is_ok());
        assert!(!state.stray_end(&end));
        assert!(twiki.step(&mut state, &end).is_ok());
        assert!(state.stray_end(&end));
        assert_eq!(state, fresh());
    }
    assert!(!state.stray_end(&DocEvent::BlockEnd(DocTag::Paragraph)));
    assert!(!state.stray_end(&DocEvent::BlockEnd(DocTag::Strong)));
    assert!(!state.stray_end(&text("t")));
}

#[test]
fn heading_start_writes_level_and_anchor_id() {
    let twiki = Twiki::default();
    for level in 1..=6u8 {
        let mut state = fresh();
        let tag = DocTag::Heading(level, None);
        let expected = format!("---{} ", "+".repeat(level as usize));
        assert_eq!(twiki.step(&mut state, &DocEvent::BlockStart(tag.clone())), Ok(expected));
        assert_eq!(twiki.step(&mut state, &DocEvent::BlockEnd(tag)), Ok("\n".to_string()));
        assert_eq!(state, fresh());
    }
    let mut state = fresh();
    let tag = DocTag::Heading(3, Some("intro".to_string()));
    assert_eq!(
        twiki.step(&mut state, &DocEvent::BlockStart(tag)),
        Ok("---+++ intro".to_string())
    );
}

#[test]
fn verbatim_markers_and_code_block_flag() {
    let twiki = Twiki::default();
    let mut state = fresh();
    assert_eq!(
        twiki.step(&mut state, &DocEvent::BlockStart(DocTag::BlockQuote)),
        Ok("<verbatim>\n".to_string())
    );
    assert_eq!(state, fresh());
    assert_eq!(
        twiki.step(&mut state, &DocEvent::BlockEnd(DocTag::BlockQuote)),
        Ok("</verbatim>\n".to_string())
    );
    assert_eq!(
        twiki.step(&mut state, &DocEvent::BlockStart(DocTag::CodeBlock)),
        Ok("<verbatim>\n".to_string())
    );
    assert!(state.inside_code_block);
    assert_eq!(
        twiki.step(&mut state, &DocEvent::BlockEnd(DocTag::CodeBlock)),
        Ok("</verbatim>\n".to_string())
    );
    assert_eq!(state, fresh());
}

#[test]
fn paragraph_list_and_item_boundaries() {
    let twiki = Twiki::default();
    let mut state = fresh();
    assert_eq!(twiki.step(&mut state, &DocEvent::BlockStart(DocTag::Paragraph)), Ok(String::new()));
    assert_eq!(twiki.step(&mut state, &DocEvent::BlockEnd(DocTag::Paragraph)), Ok("\n".to_string()));
    assert_eq!(twiki.step(&mut state, &DocEvent::BlockStart(DocTag::List(false))), Ok(String::new()));
    assert!(state.inside_list);
    assert_eq!(twiki.step(&mut state, &DocEvent::BlockStart(DocTag::ListItem)), Ok(String::new()));
    assert_eq!(twiki.step(&mut state, &DocEvent::BlockEnd(DocTag::ListItem)), Ok("\n".to_string()));
    assert!(state.inside_list);
    assert_eq!(twiki.step(&mut state, &DocEvent::BlockEnd(DocTag::List(false))), Ok(String::new()));
    assert_eq!(state, fresh());
    assert_eq!(twiki.step(&mut state, &DocEvent::BlockStart(DocTag::List(true))), Ok(String::new()));
    assert!(state.inside_list);
}

#[test]
fn strong_marker_depends_on_emphasis() {
    let twiki = Twiki::default();
    let mut state = fresh();
    assert_eq!(twiki.step(&mut state, &DocEvent::BlockStart(DocTag::Strong)), Ok("*".to_string()));
    assert_eq!(twiki.step(&mut state, &DocEvent::BlockEnd(DocTag::Strong)), Ok("*".to_string()));
    assert_eq!(twiki.step(&mut state, &DocEvent::BlockStart(DocTag::Emphasis)), Ok("_".to_string()));
    assert!(state.emphasis_active);
    assert_eq!(twiki.step(&mut state, &DocEvent::BlockStart(DocTag::Strong)), Ok("_".to_string()));
    assert_eq!(twiki.step(&mut state, &DocEvent::BlockEnd(DocTag::Strong)), Ok("_".to_string()));
    assert_eq!(twiki.step(&mut state, &DocEvent::BlockEnd(DocTag::Emphasis)), Ok("_".to_string()));
    assert_eq!(state, fresh());
}

#[test]
fn strikethrough_markers() {
    let twiki = Twiki::default();
    let mut state = fresh();
    assert_eq!(
        twiki.step(&mut state, &DocEvent::BlockStart(DocTag::Strikethrough)),
        Ok("<strike>".to_string())
    );
    assert_eq!(
        twiki.step(&mut state, &DocEvent::BlockEnd(DocTag::Strikethrough)),
        Ok("</strike>".to_string())
    );
}

#[test]
fn inline_and_email_links() {
    let twiki = Twiki::default();
    let mut state = fresh();
    let inline = link(LinkKind::Inline, "./file.md#heading-title");
    assert_eq!(
        twiki.step(&mut state, &DocEvent::BlockStart(inline.clone())),
        Ok("[[#heading-title][".to_string())
    );
    assert_eq!(twiki.step(&mut state, &DocEvent::BlockEnd(inline)), Ok("]]".to_string()));
    let email = link(LinkKind::Email, "a@example.org");
    assert_eq!(
        twiki.step(&mut state, &DocEvent::BlockStart(email.clone())),
        Ok("<a href=\"mailto:a@example.org\">".to_string())
    );
    assert_eq!(twiki.step(&mut state, &DocEvent::BlockEnd(email)), Ok("</a>".to_string()));
    assert_eq!(state, fresh());
}

#[test]
fn leaf_events() {
    let twiki = Twiki::default();
    let mut state = fresh();
    assert_eq!(
        twiki.step(&mut state, &DocEvent::InlineCode("x".to_string())),
        Ok("=x=".to_string())
    );
    assert_eq!(
        twiki.step(&mut state, &DocEvent::RawHtml("<br/>".to_string())),
        Ok("<br/>".to_string())
    );
    assert_eq!(twiki.step(&mut state, &DocEvent::SoftBreak), Ok("\n".to_string()));
    assert_eq!(twiki.step(&mut state, &DocEvent::HardBreak), Ok("\n".to_string()));
    assert_eq!(twiki.step(&mut state, &DocEvent::TaskMarker(true)), Ok("\n".to_string()));
    assert_eq!(twiki.step(&mut state, &DocEvent::TaskMarker(false)), Ok("\n".to_string()));
    assert_eq!(twiki.step(&mut state, &DocEvent::ThematicBreak), Ok("\n---\n".to_string()));
    assert_eq!(twiki.step(&mut state, &text("  plain * text  ")), Ok("  plain * text  ".to_string()));
    assert_eq!(state, fresh());
}

#[test]
fn text_inside_a_code_block() {
    let twiki = Twiki::default();
    let mut state = fresh();
    state.inside_code_block = true;
    state.inside_list = true;
    assert_eq!(twiki.step(&mut state, &text("  ```rust\nlet x;\n")), Ok(String::new()));
    assert_eq!(twiki.step(&mut state, &text("let x;\n```  \n")), Ok("let x;\n".to_string()));
    assert_eq!(twiki.step(&mut state, &text("let x;  \n")), Ok("let x;".to_string()));
    assert_eq!(twiki.step(&mut state, &text("** not a bullet")), Ok("** not a bullet".to_string()));
    assert!(state.inside_code_block && state.inside_list);
}

#[test]
fn text_inside_a_list() {
    let twiki = Twiki::default();
    let mut state = fresh();
    state.inside_list = true;
    assert_eq!(twiki.step(&mut state, &text("item")), Ok("* item".to_string()));
    assert_eq!(twiki.step(&mut state, &text("* item")), Ok("* item".to_string()));
    assert_eq!(twiki.step(&mut state, &text("**   item")), Ok("\t* item".to_string()));
    assert_eq!(twiki.step(&mut state, &text("**** i *")), Ok("\t\t\t* i *".to_string()));
    assert_eq!(twiki.step(&mut state, &text("  item")), Ok("* item".to_string()));
    assert_eq!(twiki.step(&mut state, &text("")), Ok("* ".to_string()));
}

#[test]
fn every_rejected_tag_names_its_construct() {
    let twiki = Twiki::default();
    let cases = vec![
        (DocTag::Table, Construct::Table),
        (DocTag::TableHead, Construct::TableHead),
        (DocTag::TableRow, Construct::TableRow),
        (DocTag::TableCell, Construct::TableCell),
        (DocTag::FootnoteDefinition, Construct::FootnoteDefinition),
        (DocTag::Image, Construct::Image),
        (link(LinkKind::Reference, "u"), Construct::Link(LinkKind::Reference)),
        (link(LinkKind::ReferenceUnknown, "u"), Construct::Link(LinkKind::ReferenceUnknown)),
        (link(LinkKind::Collapsed, "u"), Construct::Link(LinkKind::Collapsed)),
        (link(LinkKind::CollapsedUnknown, "u"), Construct::Link(LinkKind::CollapsedUnknown)),
        (link(LinkKind::Shortcut, "u"), Construct::Link(LinkKind::Shortcut)),
        (link(LinkKind::ShortcutUnknown, "u"), Construct::Link(LinkKind::ShortcutUnknown)),
        (link(LinkKind::Autolink, "u"), Construct::Link(LinkKind::Autolink)),
    ];
    for (tag, construct) in cases {
        for flags in 0..8u8 {
            let before = TransducerState {
                inside_code_block: flags & 1 != 0,
                inside_list: flags & 2 != 0,
                emphasis_active: flags & 4 != 0,
            };
            let mut state = before;
            assert_eq!(
                twiki.step(&mut state, &DocEvent::BlockStart(tag.clone())),
                Err(Error::Unsupported(construct))
            );
            assert_eq!(state, before);
            assert_eq!(
                twiki.step(&mut state, &DocEvent::BlockEnd(tag.clone())),
                Err(Error::Unsupported(construct))
            );
            assert_eq!(state, before);
            assert_eq!(tag.rejection(), Some(construct));
        }
    }
    let mut state = fresh();
    assert_eq!(
        twiki.step(&mut state, &DocEvent::FootnoteRef("1".to_string())),
        Err(Error::Unsupported(Construct::FootnoteReference))
    );
    assert_eq!(DocTag::Paragraph.rejection(), None);
    assert_eq!(text("t").rejection(), None);
    assert!(LinkKind::Inline.supported() && LinkKind::Email.supported());
    assert!(!LinkKind::Autolink.supported());
}

#[test]
fn rejected_event_adds_nothing_to_the_sink() {
    let events = vec![
        DocEvent::BlockStart(DocTag::Paragraph),
        text("before"),
        DocEvent::BlockStart(DocTag::Table),
        text("after"),
        DocEvent::BlockEnd(DocTag::Paragraph),
    ];
    let (r, out) = render(events.clone());
    assert_eq!(r, Err(Error::Unsupported(Construct::Table)));
    assert_eq!(out, "before");
    assert_eq!(Twiki::default().check(&events), Err(Error::Unsupported(Construct::Table)));

    let mut sink = StringIO::new();
    assert_eq!(sink.write_str("kept"), Ok(()));
    let alone = vec![DocEvent::BlockStart(DocTag::Image)];
    assert_eq!(
        Twiki::default().render(&alone, &mut sink),
        Err(Error::Unsupported(Construct::Image))
    );
    assert_eq!(sink.to_string(), "kept");
}

#[test]
fn a_run_of_events_renders_in_order() {
    let events = vec![
        DocEvent::BlockStart(DocTag::Paragraph),
        DocEvent::BlockStart(DocTag::Emphasis),
        DocEvent::BlockStart(DocTag::Strong),
        text("both"),
        DocEvent::BlockEnd(DocTag::Strong),
        DocEvent::BlockEnd(DocTag::Emphasis),
        DocEvent::BlockEnd(DocTag::Paragraph),
        DocEvent::BlockStart(DocTag::CodeBlock),
        text("```\n"),
        text("code"),
        DocEvent::BlockEnd(DocTag::CodeBlock),
        DocEvent::BlockStart(DocTag::List(false)),
        DocEvent::BlockStart(DocTag::ListItem),
        text("*** deep"),
        DocEvent::BlockEnd(DocTag::ListItem),
        DocEvent::BlockEnd(DocTag::List(false)),
    ];
    let (r, out) = render(events.clone());
    assert_eq!(r, Ok(()));
    assert_eq!(out, "__both__\n<verbatim>\ncode</verbatim>\n\t\t* deep\n");
    assert_eq!(Twiki::default().check(&events), Ok(()));
    let (again, same) = render(events);
    assert_eq!(again, Ok(()));
    assert_eq!(same, out);
}

#[test]
fn an_empty_run_renders_to_nothing() {
    let (r, out) = render(Vec::new());
    assert_eq!(r, Ok(()));
    assert_eq!(out, "");
}

#[test]
fn anchor_targets() {
    let twiki = Twiki::default();
    assert_eq!(twiki.anchor_target("https://www.example.org"), "https://www.example.org");
    assert_eq!(twiki.anchor_target("http://example.org/#x"), "http://example.org/#x");
    assert_eq!(twiki.anchor_target("./file.md#heading-title"), "#heading-title");
    assert_eq!(twiki.anchor_target("a#b#c"), "#b#c");
    assert_eq!(twiki.anchor_target("#only"), "#only");
    assert_eq!(twiki.anchor_target("./file.md"), "");
    assert_eq!(twiki.anchor_target(""), "");
    assert_eq!(twiki.anchor_target("ftp://example.org/a#b"), "#b");
    assert_eq!(twiki.anchor_target("HTTPS://example.org/a#b"), "#b");
    assert_eq!(resolve_anchor("https:/x#y"), "#y");
}

#[test]
fn code_block_text_rule() {
    assert_eq!(code_block_text("```"), "");
    assert_eq!(code_block_text(" \t```ruby\nrest"), "");
    assert_eq!(code_block_text("code```"), "code");
    assert_eq!(code_block_text("code\n``` \n"), "code\n");
    assert_eq!(code_block_text("code``````"), "code```");
    assert_eq!(code_block_text("code"), "code");
    assert_eq!(code_block_text("code\n"), "code");
    assert_eq!(code_block_text("  code \u{a0}\u{2003}"), "  code");
    assert_eq!(code_block_text("``"), "``");
    assert_eq!(code_block_text(""), "");
    assert_eq!(code_block_text("   "), "");
    assert_eq!(code_block_text("gr\u{fc}n```"), "gr\u{fc}n");
}

#[test]
fn list_item_rule() {
    assert_eq!(list_item("item 1"), "* item 1");
    assert_eq!(list_item("* item 2"), "* item 2");
    assert_eq!(list_item("** item 3"), "\t* item 3");
    assert_eq!(list_item("***\u{a0} item"), "\t\t* item");
    assert_eq!(list_item("***"), "\t\t* ");
    assert_eq!(list_item(" * x"), "* * x");
}

#[test]
fn character_runs() {
    let chars = chars_of("  **a#b \n");
    assert_eq!(chars, vec![' ', ' ', '*', '*', 'a', '#', 'b', ' ', '\n']);
    assert_eq!(count_leading(&chars, 0, CharClass::Whitespace), 2);
    assert_eq!(count_leading(&chars, 0, CharClass::Star), 0);
    assert_eq!(count_leading(&chars, 2, CharClass::Star), 2);
    assert_eq!(count_leading(&chars, 0, CharClass::NonHash), 5);
    assert_eq!(count_leading(&chars, 6, CharClass::NonHash), 3);
    assert_eq!(count_leading(&chars, 9, CharClass::NonHash), 0);
    assert_eq!(count_leading(&chars, 10, CharClass::NonHash), 0);
    assert_eq!(count_trailing(&chars, CharClass::Whitespace), 2);
    assert_eq!(count_trailing(&chars, CharClass::Star), 0);
    assert!(matches_at(&chars, 2, "**a"));
    assert!(!matches_at(&chars, 2, "**b"));
    assert!(!matches_at(&chars, 7, " \n\n"));
    assert!(matches_at(&chars, 9, ""));
    assert!(!matches_at(&chars, 10, ""));
    assert!(CharClass::Whitespace.test('\u{2028}'));
    assert!(!CharClass::Whitespace.test('`'));
    assert!(CharClass::Star.test('*') && !CharClass::Star.test('+'));
    assert!(CharClass::NonHash.test('*') && !CharClass::NonHash.test('#'));
}

#[test]
fn string_sink() {
    let mut sink = StringIO::default();
    assert_eq!(sink.to_string(), "");
    assert_eq!(sink.write_str("a"), Ok(()));
    assert_eq!(sink.write("b\u{e9}".as_bytes()), Ok(3));
    assert_eq!(sink.flush(), Ok(()));
    assert_eq!(sink.to_string(), "ab\u{e9}");
    assert!(sink.write(&[0x62, 0xff]).is_err());
    assert!(sink.write(&[0xc3]).is_err());
    assert_eq!(sink.to_string(), "ab\u{e9}");
    assert_eq!(sink.write(&[]), Ok(0));
    assert_eq!(StringIO::new().to_string(), "");
}

#[test]
fn ignored_chapters() {
    let config = WordcountConfig {
        ignores: vec!["Preface".to_string(), "Index".to_string()],
        filename: "index.twiki".to_string(),
    };
    assert!(config.ignores_chapter("Preface"));
    assert!(config.ignores_chapter("Index"));
    assert!(!config.ignores_chapter("preface"));
    assert!(!config.ignores_chapter(""));
    let empty = WordcountConfig::default();
    assert!(empty.ignores.is_empty());
    assert_eq!(empty.filename, "");
    assert!(!empty.ignores_chapter("Preface"));
}
