use mdbook_twiki::markdown_to_twiki_string;

#[test]
fn test_conversion() {
    let matrix = [
        ["`inline_code`", "=inline_code=\n"],
        [
            r#"```ruby
        def fn(i); o; end
        ```"#,
            r#"<verbatim>
        def fn(i); o; end
        </verbatim>
"#,
        ],
        ["# heading 1", "---+ heading 1\n"],
        ["## heading 2", "---++ heading 2\n"],
        ["### heading 3", "---+++ heading 3\n"],
        ["#### heading 4", "---++++ heading 4\n"],
        ["text", "text\n"],
        [
            r#"paragraph 1
            paragraph 2"#,
            "paragraph 1\nparagraph 2\n",
        ],
        ["_italic_", "_italic_\n"],
        ["**bold**", "*bold*\n"],
        ["***bolditalic***", "__bolditalic__\n"],
        [
            "* item 1\n** item 2\n*** item 3\n",
            "* item 1\n\t* item 2\n\t\t* item 3\n",
        ],
        [
            "[title](./file.md#heading-title)",
            "[[#heading-title][title]]\n",
        ],
        [
            "[title](https://www.example.org)",
            "[[https://www.example.org][title]]\n",
        ],
    ];
    matrix.iter().for_each(|[input, expected]: &[&str; 2]| {
        let actual = markdown_to_twiki_string(input.to_string());
        assert!(
            &actual == expected,
            "expected = {:?}, actual = {:?}",
            expected,
            actual
        );
    });
}
