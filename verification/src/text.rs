//! The character-level rules of the markup: trimming, fence markers, list
//! bullets and link anchors, each as a function on character sequences with
//! the executable function that computes it.

use vstd::prelude::*;
use vstd::string::StringExecFns;

verus! {

/// Whether `c` has the Unicode property `White_Space`.
pub uninterp spec fn white_space(c: char) -> bool;

/// `char::is_whitespace` tells whether the character has the Unicode property
/// `White_Space`. The contract only names that answer.
pub assume_specification[ char::is_whitespace ](c: char) -> (b: bool)
    ensures
        b == white_space(c),
;

/// The classes of characters that the text rules strip from an end of a run.
#[derive(Clone, Copy, Debug, PartialEq, Eq, Structural)]
pub enum CharClass {
    /// Any character with the Unicode property `White_Space`.
    Whitespace,
    /// The bullet character `*`.
    Star,
    /// Any character but `#`.
    NonHash,
}

impl CharClass {
    /// Whether `c` belongs to the class.
    pub open spec fn holds(self, c: char) -> bool {
        match self {
            CharClass::Whitespace => white_space(c),
            CharClass::Star => c == '*',
            CharClass::NonHash => c != '#',
        }
    }

    /// Tests whether `c` belongs to the class.
    pub fn test(self, c: char) -> (b: bool)
        ensures
            b == self.holds(c),
    {
        match self {
            CharClass::Whitespace => c.is_whitespace(),
            CharClass::Star => c == '*',
            CharClass::NonHash => c != '#',
        }
    }
}

/// Length of the longest prefix of `s` made of characters of `class`.
pub open spec fn leading_run(s: Seq<char>, class: CharClass) -> nat
    decreases s.len(),
{
    if s.len() > 0 && class.holds(s[0]) {
        1 + leading_run(s.drop_first(), class)
    } else {
        0
    }
}

/// Length of the longest suffix of `s` made of characters of `class`.
pub open spec fn trailing_run(s: Seq<char>, class: CharClass) -> nat
    decreases s.len(),
{
    if s.len() > 0 && class.holds(s.last()) {
        1 + trailing_run(s.drop_last(), class)
    } else {
        0
    }
}

/// `s` without its leading whitespace.
pub open spec fn trim_start(s: Seq<char>) -> Seq<char> {
    s.skip(leading_run(s, CharClass::Whitespace) as int)
}

/// `s` without its trailing whitespace.
pub open spec fn trim_end(s: Seq<char>) -> Seq<char> {
    s.take(s.len() - trailing_run(s, CharClass::Whitespace))
}

/// The marker that opens and closes a fenced code block.
pub open spec fn fence() -> Seq<char> {
    "```"@
}

/// `unit` written `n` times in a row.
pub open spec fn repeat(unit: Seq<char>, n: nat) -> Seq<char>
    decreases n,
{
    if n == 0 {
        Seq::empty()
    } else {
        repeat(unit, (n - 1) as nat) + unit
    }
}

/// What a text run inside a code block contributes to the output: nothing
/// when the run opens with a fence marker after its leading whitespace;
/// else the run without its trailing whitespace and without the fence
/// marker that may stand before that whitespace.
pub open spec fn code_text(s: Seq<char>) -> Seq<char> {
    if fence().is_prefix_of(trim_start(s)) {
        Seq::empty()
    } else if fence().is_suffix_of(trim_end(s)) {
        trim_end(s).take(trim_end(s).len() - fence().len())
    } else {
        trim_end(s)
    }
}

/// Number of tabs before the bullet of a list item whose text opens with
/// `stars` bullet characters: one for every character beyond the first.
pub open spec fn indent(stars: nat) -> nat {
    if stars == 0 {
        0
    } else {
        (stars - 1) as nat
    }
}

/// What a text run inside a list contributes to the output: a tab for every
/// leading `*` beyond the first, the bullet `* `, and the run without its
/// leading `*` characters and the whitespace after them.
pub open spec fn list_item_text(s: Seq<char>) -> Seq<char> {
    let stars = leading_run(s, CharClass::Star);
    repeat("\t"@, indent(stars)) + "* "@ + trim_start(s.skip(stars as int))
}

/// The target written into a wiki link for the url of an inline link: the
/// url itself when it is absolute, else its fragment from the first `#` on,
/// which is empty when the url holds no `#`.
pub open spec fn anchor_target(url: Seq<char>) -> Seq<char> {
    if "https://"@.is_prefix_of(url) || "http://"@.is_prefix_of(url) {
        url
    } else {
        url.skip(leading_run(url, CharClass::NonHash) as int)
    }
}

/// A prefix of `k` characters of `class` that ends the sequence or is
/// followed by a character outside the class is the leading run.
pub proof fn lemma_leading_run(s: Seq<char>, class: CharClass, k: int)
    requires
        0 <= k <= s.len(),
        forall|i: int| 0 <= i < k ==> class.holds(#[trigger] s[i]),
        k < s.len() ==> !class.holds(s[k]),
    ensures
        leading_run(s, class) == k,
    decreases k,
{
    if k > 0 {
        let rest = s.drop_first();
        assert forall|i: int| 0 <= i < k - 1 implies class.holds(#[trigger] rest[i]) by {
            assert(rest[i] == s[i + 1]);
        }
        lemma_leading_run(rest, class, k - 1);
    }
}

/// `n` copies of a string of one character are `n` characters long and hold
/// that character only.
pub proof fn lemma_repeat_one(unit: Seq<char>, n: nat)
    requires
        unit.len() == 1,
    ensures
        repeat(unit, n).len() == n,
        forall|i: int| 0 <= i < n ==> #[trigger] repeat(unit, n)[i] == unit[0],
    decreases n,
{
    if n > 0 {
        lemma_repeat_one(unit, (n - 1) as nat);
    }
}

/// The leading run lies within the sequence, holds characters of `class`
/// only, and ends the sequence or is followed by a character outside the
/// class.
pub proof fn lemma_leading_run_bounds(s: Seq<char>, class: CharClass)
    ensures
        leading_run(s, class) <= s.len(),
        forall|i: int| 0 <= i < leading_run(s, class) ==> class.holds(#[trigger] s[i]),
        leading_run(s, class) < s.len() ==> !class.holds(s[leading_run(s, class) as int]),
    decreases s.len(),
{
    if s.len() > 0 && class.holds(s[0]) {
        let rest = s.drop_first();
        lemma_leading_run_bounds(rest, class);
        assert forall|i: int| 0 <= i < leading_run(s, class) implies class.holds(
            #[trigger] s[i],
        ) by {
            if i > 0 {
                assert(s[i] == rest[i - 1]);
            }
        }
        if leading_run(s, class) < s.len() {
            assert(s[leading_run(s, class) as int] == rest[leading_run(rest, class) as int]);
        }
    }
}

/// A suffix of `k` characters of `class` that starts the sequence or is
/// preceded by a character outside the class is the trailing run.
pub proof fn lemma_trailing_run(s: Seq<char>, class: CharClass, k: int)
    requires
        0 <= k <= s.len(),
        forall|i: int| s.len() - k <= i < s.len() ==> class.holds(#[trigger] s[i]),
        k < s.len() ==> !class.holds(s[s.len() - k - 1]),
    ensures
        trailing_run(s, class) == k,
    decreases k,
{
    if k > 0 {
        let rest = s.drop_last();
        assert forall|i: int| rest.len() - (k - 1) <= i < rest.len() implies class.holds(
            #[trigger] rest[i],
        ) by {
            assert(rest[i] == s[i]);
        }
        lemma_trailing_run(rest, class, k - 1);
    }
}

/// The characters of `s`, in order.
pub fn chars_of(s: &str) -> (chars: Vec<char>)
    ensures
        chars@ == s@,
{
    let mut chars: Vec<char> = Vec::new();
    for c in it: s.chars()
        invariant
            it.seq() == s@,
            chars@ == s@.take(it.index() as int),
    {
        chars.push(c);
    }
    chars
}

/// Counts the characters of `class` that `chars` holds in a row from index
/// `from` on; there are none when `from` lies beyond the end.
pub fn count_leading(chars: &Vec<char>, from: usize, class: CharClass) -> (k: usize)
    ensures
        from <= chars.len() ==> k == leading_run(chars@.skip(from as int), class),
        from <= chars.len() ==> from + k <= chars.len(),
        from > chars.len() ==> k == 0,
{
    if from > chars.len() {
        return 0;
    }
    let mut i: usize = from;
    while i < chars.len() && class.test(chars[i])
        invariant
            from <= i <= chars.len(),
            forall|j: int| from <= j < i ==> class.holds(#[trigger] chars@[j]),
        decreases chars.len() - i,
    {
        i += 1;
    }
    proof {
        lemma_leading_run(chars@.skip(from as int), class, i - from);
    }
    i - from
}

/// Counts the characters of `class` that `chars` holds in a row at its end.
pub fn count_trailing(chars: &Vec<char>, class: CharClass) -> (k: usize)
    ensures
        k == trailing_run(chars@, class),
        k <= chars.len(),
{
    let mut i: usize = chars.len();
    while i > 0 && class.test(chars[i - 1])
        invariant
            i <= chars.len(),
            forall|j: int| i <= j < chars.len() ==> class.holds(#[trigger] chars@[j]),
        decreases i,
    {
        i -= 1;
    }
    proof {
        lemma_trailing_run(chars@, class, chars.len() - i);
    }
    chars.len() - i
}

/// Whether `pattern` stands in `chars` at index `at`.
pub fn matches_at(chars: &Vec<char>, at: usize, pattern: &str) -> (b: bool)
    ensures
        b == (at <= chars.len() && pattern@.is_prefix_of(chars@.skip(at as int))),
{
    if at > chars.len() {
        return false;
    }
    let wanted = chars_of(pattern);
    if wanted.len() > chars.len() - at {
        return false;
    }
    let mut i: usize = 0;
    while i < wanted.len()
        invariant
            at <= chars.len(),
            wanted@ == pattern@,
            wanted.len() <= chars.len() - at,
            i <= wanted.len(),
            forall|j: int| 0 <= j < i ==> wanted@[j] == chars@[at + j],
        decreases wanted.len() - i,
    {
        if wanted[i] != chars[at + i] {
            proof {
                let window = chars@.skip(at as int).subrange(0, pattern@.len() as int);
                assert(window[i as int] != pattern@[i as int]);
            }
            return false;
        }
        i += 1;
    }
    proof {
        let window = chars@.skip(at as int).subrange(0, pattern@.len() as int);
        assert(pattern@ =~= window);
    }
    true
}

/// Appends `unit` to `out`, `n` times.
pub fn append_repeated(out: &mut String, unit: &str, n: usize)
    ensures
        final(out)@ == old(out)@ + repeat(unit@, n as nat),
{
    let mut i: usize = 0;
    while i < n
        invariant
            i <= n,
            out@ == old(out)@ + repeat(unit@, i as nat),
        decreases n - i,
    {
        out.append(unit);
        i += 1;
        assert(out@ == old(out)@ + repeat(unit@, i as nat)) by {
            assert(repeat(unit@, i as nat) == repeat(unit@, (i - 1) as nat) + unit@);
        }
    }
    assert(old(out)@ + repeat(unit@, 0) == old(out)@);
}

/// The contribution of a text run inside a code block.
pub fn code_block_text(text: &str) -> (out: String)
    ensures
        out@ == code_text(text@),
{
    let chars = chars_of(text);
    let lead = count_leading(&chars, 0, CharClass::Whitespace);
    assert(chars@.skip(0) == chars@);
    if matches_at(&chars, lead, "```") {
        return String::new();
    }
    let kept = chars.len() - count_trailing(&chars, CharClass::Whitespace);
    let marker = chars_of("```").len();
    if marker <= kept && matches_at(&chars, kept - marker, "```") {
        proof {
            let trimmed = trim_end(text@);
            assert(text@.skip(kept - marker) =~= trimmed.skip(kept - marker) + text@.skip(
                kept as int,
            ));
            assert(text@.skip(kept - marker).subrange(0, marker as int) =~= trimmed.subrange(
                kept - marker,
                kept as int,
            ));
            assert(text@.subrange(0, kept - marker) =~= trimmed.take(kept - marker));
        }
        text.substring_char(0, kept - marker).to_owned()
    } else {
        proof {
            let trimmed = trim_end(text@);
            if marker <= kept {
                assert(text@.skip(kept - marker).subrange(0, marker as int) =~= trimmed.subrange(
                    kept - marker,
                    kept as int,
                ));
            }
        }
        text.substring_char(0, kept).to_owned()
    }
}

/// The contribution of a text run inside a list.
pub fn list_item(text: &str) -> (out: String)
    ensures
        out@ == list_item_text(text@),
{
    let chars = chars_of(text);
    let stars = count_leading(&chars, 0, CharClass::Star);
    assert(chars@.skip(0) == chars@);
    let blanks = count_leading(&chars, stars, CharClass::Whitespace);
    let mut out = String::new();
    append_repeated(&mut out, "\t", if stars == 0 { 0 } else { stars - 1 });
    out.append("* ");
    out.append(text.substring_char(stars + blanks, chars.len()));
    proof {
        assert(text@.skip(stars as int).skip(blanks as int) =~= text@.subrange(
            stars + blanks,
            text@.len() as int,
        ));
    }
    out
}

/// The link target for the url of an inline link.
pub fn resolve_anchor(url: &str) -> (out: String)
    ensures
        out@ == anchor_target(url@),
{
    let chars = chars_of(url);
    assert(chars@.skip(0) == chars@);
    if matches_at(&chars, 0, "https://") || matches_at(&chars, 0, "http://") {
        url.to_owned()
    } else {
        let path = count_leading(&chars, 0, CharClass::NonHash);
        url.substring_char(path, chars.len()).to_owned()
    }
}

} // verus!
