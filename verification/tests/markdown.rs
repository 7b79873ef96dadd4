use mdbook_twiki::{
    markdown_to_twiki, markdown_to_twiki_string, parse_markdown, ByteSink, ByteWriter, Construct,
    DocEvent, DocTag, Error, Extensions, LinkKind, StringIO, Twiki, WriteFailure,
};

fn rendered(markdown: &str) -> String {
    markdown_to_twiki_string(markdown.to_string())
}

/// Takes writes until its budget of calls is used up.
struct Budget {
    taken: Vec<u8>,
    calls_left: usize,
}

impl ByteWriter for Budget {
    fn write_all(&mut self, bytes: &[u8]) -> Result<(), WriteFailure> {
        if self.calls_left == 0 {
            return Err(WriteFailure);
        }
        self.calls_left -= 1;
        self.taken.extend_from_slice(bytes);
        Ok(())
    }
}

#[test]
fn heading_levels_one_to_six() {
    for n in 1..=6usize {
        let input = format!("{} text", "#".repeat(n));
        let expected = format!("---{} text\n", "+".repeat(n));
        assert_eq!(rendered(&input), expected);
    }
}

#[test]
fn inline_code_is_wrapped_in_equals_signs() {
    assert_eq!(rendered("`x`"), "=x=\n");
}

#[test]
fn fenced_code_block_loses_its_fence_lines() {
    let out = rendered("```rust\nlet x = 1;\nlet y = 2;\n```\n");
    assert_eq!(out, "<verbatim>\nlet x = 1;\nlet y = 2;</verbatim>\n");
    assert!(!out.contains("```"));
}

#[test]
fn closing_fence_inside_the_last_text_run_is_stripped() {
    let out = rendered("```\n    code\n    ```");
    assert_eq!(out, "<verbatim>\n    code\n    </verbatim>\n");
}

#[test]
fn nested_bullets_get_one_tab_per_extra_level() {
    assert_eq!(rendered("* a\n** b\n*** c\n"), "* a\n\t* b\n\t\t* c\n");
}

#[test]
fn bold_italic_and_both() {
    assert_eq!(rendered("**bold**"), "*bold*\n");
    assert_eq!(rendered("_italic_"), "_italic_\n");
    assert_eq!(rendered("***both***"), "__both__\n");
}

#[test]
fn inline_links_keep_fragment_or_absolute_url() {
    assert_eq!(rendered("[title](./file.md#heading-title)"), "[[#heading-title][title]]\n");
    assert_eq!(rendered("[title](https://example.org)"), "[[https://example.org][title]]\n");
    assert_eq!(rendered("[title](http://example.org/a#b)"), "[[http://example.org/a#b][title]]\n");
    assert_eq!(rendered("[title](./file.md)"), "[[][title]]\n");
}

#[test]
fn email_autolink_becomes_a_mailto_anchor() {
    assert_eq!(
        rendered("<john@example.org>"),
        "<a href=\"mailto:john@example.org\">john@example.org</a>\n"
    );
}

#[test]
fn strikethrough_block_quote_rule_and_breaks() {
    assert_eq!(rendered("~~gone~~"), "<strike>gone</strike>\n");
    assert_eq!(rendered("> quote"), "<verbatim>\nquote\n</verbatim>\n");
    assert_eq!(rendered("a\n\n---\n\nb"), "a\n\n---\nb\n");
    assert_eq!(rendered("a  \nb"), "a\nb\n");
    assert_eq!(rendered("a\nb"), "a\nb\n");
}

#[test]
fn inline_html_is_copied() {
    assert_eq!(rendered("a <b>x</b>"), "a <b>x</b>\n");
}

#[test]
fn task_list_marker_is_a_newline() {
    assert_eq!(rendered("- [x] done"), "\n* done\n");
}

#[test]
fn ordered_list_items_are_bullets() {
    assert_eq!(rendered("1. one\n2. two\n"), "* one\n* two\n");
}

#[test]
fn table_is_rejected() {
    let r = markdown_to_twiki("| a |\n|---|\n| b |\n".to_string());
    assert_eq!(r, Err(Error::Unsupported(Construct::Table)));
}

#[test]
fn image_is_rejected_after_what_came_before() {
    let r = markdown_to_twiki("before ![alt](img.png)".to_string());
    assert_eq!(r, Err(Error::Unsupported(Construct::Image)));
    let mut sink = StringIO::new();
    let r = Twiki::default().convert("before ![alt](img.png)", &mut sink);
    assert_eq!(r, Err(Error::Unsupported(Construct::Image)));
    assert_eq!(sink.to_string(), "before ");
}

#[test]
fn footnotes_are_rejected() {
    let r = markdown_to_twiki("text[^1]\n\n[^1]: note\n".to_string());
    assert_eq!(r, Err(Error::Unsupported(Construct::FootnoteReference)));
    let r = markdown_to_twiki("[^1]: note\n".to_string());
    assert_eq!(r, Err(Error::Unsupported(Construct::FootnoteDefinition)));
}

#[test]
fn reference_links_and_autolinks_are_rejected() {
    let r = markdown_to_twiki("[a][b]\n\n[b]: http://example.org\n".to_string());
    assert_eq!(r, Err(Error::Unsupported(Construct::Link(LinkKind::Reference))));
    let r = markdown_to_twiki("[b]\n\n[b]: http://example.org\n".to_string());
    assert_eq!(r, Err(Error::Unsupported(Construct::Link(LinkKind::Shortcut))));
    let r = markdown_to_twiki("[b][]\n\n[b]: http://example.org\n".to_string());
    assert_eq!(r, Err(Error::Unsupported(Construct::Link(LinkKind::Collapsed))));
    let r = markdown_to_twiki("<http://example.org>".to_string());
    assert_eq!(r, Err(Error::Unsupported(Construct::Link(LinkKind::Autolink))));
}

#[test]
fn checked_rendering_agrees_with_plain_rendering() {
    let r = markdown_to_twiki("# title\n\ntext with `code`\n".to_string());
    assert_eq!(r, Ok("---+ title\ntext with =code=\n".to_string()));
    assert_eq!(rendered("# title\n\ntext with `code`\n"), "---+ title\ntext with =code=\n");
}

#[test]
fn converting_twice_gives_the_same_bytes() {
    let document = "# h\n\n* a\n** b\n\n```\ncode\n```\n\n[t](x.md#y) and **b** _i_\n";
    let mut first = StringIO::new();
    let mut second = StringIO::new();
    let twiki = Twiki::default();
    assert_eq!(twiki.convert(document, &mut first), Ok(()));
    assert_eq!(twiki.convert(document, &mut second), Ok(()));
    assert_eq!(first.to_string(), second.to_string());
    assert_eq!(rendered(document), first.to_string());
}

#[test]
fn documents_sharing_a_sink_are_appended_in_order() {
    let mut sink = StringIO::new();
    let twiki = Twiki::default();
    assert_eq!(twiki.convert("# one", &mut sink), Ok(()));
    assert_eq!(twiki.convert("**two**", &mut sink), Ok(()));
    assert_eq!(sink.to_string(), "---+ one\n*two*\n");
}

#[test]
fn base_url_does_not_change_the_rendering() {
    let plain = Twiki::default();
    let based = Twiki { base_url: Some("https://wiki.example.org/".to_string()) };
    let document = "[title](./file.md#part)";
    let mut a = StringIO::new();
    let mut b = StringIO::new();
    assert_eq!(plain.convert(document, &mut a), Ok(()));
    assert_eq!(based.convert(document, &mut b), Ok(()));
    assert_eq!(a.to_string(), "[[#part][title]]\n");
    assert_eq!(b.to_string(), a.to_string());
}

#[test]
fn tokenizer_events_become_document_events() {
    let events = parse_markdown("## t\n\n[x](u \"v\") `c`\n", Extensions::all());
    assert_eq!(
        events,
        vec![
            DocEvent::BlockStart(DocTag::Heading(2, None)),
            DocEvent::Text("t".to_string()),
            DocEvent::BlockEnd(DocTag::Heading(2, None)),
            DocEvent::BlockStart(DocTag::Paragraph),
            DocEvent::BlockStart(DocTag::Link(LinkKind::Inline, "u".to_string(), "v".to_string())),
            DocEvent::Text("x".to_string()),
            DocEvent::BlockEnd(DocTag::Link(LinkKind::Inline, "u".to_string(), "v".to_string())),
            DocEvent::Text(" ".to_string()),
            DocEvent::InlineCode("c".to_string()),
            DocEvent::BlockEnd(DocTag::Paragraph),
        ]
    );
}

#[test]
fn tokenizer_follows_the_extensions_asked_for() {
    let none = Extensions { strikethrough: false, tables: false, footnotes: false, task_lists: false };
    assert_eq!(
        parse_markdown("~~a~~", none),
        vec![
            DocEvent::BlockStart(DocTag::Paragraph),
            DocEvent::Text("~~a~~".to_string()),
            DocEvent::BlockEnd(DocTag::Paragraph),
        ]
    );
    assert_eq!(
        parse_markdown("~~a~~", Extensions::all()),
        vec![
            DocEvent::BlockStart(DocTag::Paragraph),
            DocEvent::BlockStart(DocTag::Strikethrough),
            DocEvent::Text("a".to_string()),
            DocEvent::BlockEnd(DocTag::Strikethrough),
            DocEvent::BlockEnd(DocTag::Paragraph),
        ]
    );
    let lists = Extensions { task_lists: true, ..none };
    assert_eq!(
        parse_markdown("- [ ] a", lists),
        vec![
            DocEvent::BlockStart(DocTag::List(false)),
            DocEvent::BlockStart(DocTag::ListItem),
            DocEvent::TaskMarker(false),
            DocEvent::Text("a".to_string()),
            DocEvent::BlockEnd(DocTag::ListItem),
            DocEvent::BlockEnd(DocTag::List(false)),
        ]
    );
    assert_eq!(
        parse_markdown("3. a", none),
        vec![
            DocEvent::BlockStart(DocTag::List(true)),
            DocEvent::BlockStart(DocTag::ListItem),
            DocEvent::Text("a".to_string()),
            DocEvent::BlockEnd(DocTag::ListItem),
            DocEvent::BlockEnd(DocTag::List(true)),
        ]
    );
}

#[test]
fn refused_write_stops_the_conversion() {
    let mut sink = ByteSink::new(Budget { taken: Vec::new(), calls_left: 2 });
    let r = Twiki::default().convert("# h\n\ntext\n", &mut sink);
    assert_eq!(r, Err(Error::WriteFailure));
    assert_eq!(sink.into_writer().taken, b"---+ h".to_vec());
}

#[test]
fn byte_sink_passes_utf8_on() {
    let mut sink = ByteSink::new(Budget { taken: Vec::new(), calls_left: 100 });
    let r = Twiki::default().convert("gr\u{fc}\u{df}e", &mut sink);
    assert_eq!(r, Ok(()));
    assert_eq!(sink.into_writer().taken, "gr\u{fc}\u{df}e\n".as_bytes().to_vec());
}
