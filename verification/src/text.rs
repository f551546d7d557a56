//! Text as sequences of characters: white space, trimming, filling a
//! template, and finding the part of an answer that stands between
//! delimiters.

use vstd::prelude::*;
use vstd::string::StringExecFns;

verus! {

/// Whether `c` is white space: one of the code points that carry the Unicode
/// property `White_Space`.
pub open spec fn is_white_space(c: char) -> bool {
    let n = c as u32;
    ||| 0x09 <= n <= 0x0D
    ||| n == 0x20
    ||| n == 0x85
    ||| n == 0xA0
    ||| n == 0x1680
    ||| 0x2000 <= n <= 0x200A
    ||| n == 0x2028
    ||| n == 0x2029
    ||| n == 0x202F
    ||| n == 0x205F
    ||| n == 0x3000
}

/// Whether `c` is white space.
pub fn white_space(c: char) -> (white: bool)
    ensures
        white == is_white_space(c),
{
    let n: u32 = c as u32;
    (0x09 <= n && n <= 0x0D) || n == 0x20 || n == 0x85 || n == 0xA0 || n == 0x1680 || (0x2000 <= n
        && n <= 0x200A) || n == 0x2028 || n == 0x2029 || n == 0x202F || n == 0x205F || n == 0x3000
}

/// `s` without the white space at its start.
pub open spec fn skip_white(s: Seq<char>) -> Seq<char>
    decreases s.len(),
{
    if s.len() > 0 && is_white_space(s.first()) {
        skip_white(s.drop_first())
    } else {
        s
    }
}

/// `s` without the white space at its end.
pub open spec fn drop_white(s: Seq<char>) -> Seq<char>
    decreases s.len(),
{
    if s.len() > 0 && is_white_space(s.last()) {
        drop_white(s.drop_last())
    } else {
        s
    }
}

/// `s` without the white space at its start and at its end.
pub open spec fn trimmed(s: Seq<char>) -> Seq<char> {
    drop_white(skip_white(s))
}

/// Whether `s` neither starts nor ends with white space.
pub open spec fn is_tight(s: Seq<char>) -> bool {
    s.len() > 0 ==> !is_white_space(s.first()) && !is_white_space(s.last())
}

/// What is left after skipping white space is the end of `s`, and does not
/// start with white space.
pub proof fn lemma_skip_white(s: Seq<char>)
    ensures
        skip_white(s).len() <= s.len(),
        skip_white(s) == s.skip(s.len() - skip_white(s).len()),
        skip_white(s).len() > 0 ==> !is_white_space(skip_white(s).first()),
        forall|k: int| 0 <= k < s.len() - skip_white(s).len() ==> is_white_space(s[k]),
    decreases s.len(),
{
    if s.len() > 0 && is_white_space(s.first()) {
        let rest = s.drop_first();
        lemma_skip_white(rest);
        let kept = skip_white(rest);
        assert(rest.skip(rest.len() - kept.len()) =~= s.skip(s.len() - kept.len()));
        assert forall|k: int| 0 <= k < s.len() - kept.len() implies is_white_space(s[k]) by {
            if k > 0 {
                assert(s[k] == rest[k - 1]);
            }
        }
    } else {
        assert(s.skip(0) =~= s);
    }
}

/// What is left after dropping white space is the start of `s`, and does
/// not end with white space.
pub proof fn lemma_drop_white(s: Seq<char>)
    ensures
        drop_white(s).len() <= s.len(),
        drop_white(s) == s.take(drop_white(s).len() as int),
        drop_white(s).len() > 0 ==> !is_white_space(drop_white(s).last()),
        forall|k: int| drop_white(s).len() <= k < s.len() ==> is_white_space(s[k]),
    decreases s.len(),
{
    if s.len() > 0 && is_white_space(s.last()) {
        let rest = s.drop_last();
        lemma_drop_white(rest);
        let kept = drop_white(rest);
        assert(rest.take(kept.len() as int) =~= s.take(kept.len() as int));
        assert forall|k: int| kept.len() <= k < s.len() implies is_white_space(s[k]) by {
            if k < rest.len() {
                assert(s[k] == rest[k]);
            }
        }
    } else {
        assert(s.take(s.len() as int) =~= s);
    }
}

/// Trimming leaves a text that neither starts nor ends with white space, and
/// trimming such a text changes nothing.
pub proof fn law_trimmed_is_tight(s: Seq<char>)
    ensures
        is_tight(trimmed(s)),
        trimmed(trimmed(s)) == trimmed(s),
        is_tight(s) ==> trimmed(s) == s,
{
    let kept = skip_white(s);
    lemma_skip_white(s);
    lemma_drop_white(kept);
    let tight = drop_white(kept);
    if tight.len() > 0 {
        assert(tight.first() == kept.first());
    }
    assert(skip_white(tight) == tight);
    assert(drop_white(tight) == tight);
}

/// The characters of `s`, in order.
pub fn chars_of(s: &str) -> (chars: Vec<char>)
    ensures
        chars@ == s@,
{
    broadcast use vstd::string::group_string_axioms;

    let mut chars: Vec<char> = Vec::new();
    for c in it: s.chars()
        invariant
            it.seq() == s@,
            chars@ == it.seq().take(it.index()),
    {
        chars.push(c);
    }
    chars
}

/// Skipping white space that starts `from` characters into `s`: where all of
/// `s` before `from` is white space, the rest decides.
proof fn lemma_skip_white_from(s: Seq<char>, from: int)
    requires
        0 <= from <= s.len(),
        forall|k: int| 0 <= k < from ==> is_white_space(s[k]),
    ensures
        skip_white(s) == skip_white(s.skip(from)),
    decreases from,
{
    if from > 0 {
        lemma_skip_white_from(s, from - 1);
        let rest = s.skip(from - 1);
        assert(rest.first() == s[from - 1]);
        assert(rest.drop_first() =~= s.skip(from));
    } else {
        assert(s.skip(0) =~= s);
    }
}

/// Dropping white space from the end of `s` down to `to`: where all of `s`
/// from `to` on is white space, the part before decides.
proof fn lemma_drop_white_to(s: Seq<char>, to: int)
    requires
        0 <= to <= s.len(),
        forall|k: int| to <= k < s.len() ==> is_white_space(s[k]),
    ensures
        drop_white(s) == drop_white(s.take(to)),
    decreases s.len() - to,
{
    if to < s.len() {
        assert(is_white_space(s.last()));
        let shorter = s.drop_last();
        lemma_drop_white_to(shorter, to);
        assert(shorter.take(to) =~= s.take(to));
    } else {
        assert(s.take(to) =~= s);
    }
}

/// `s` without the white space at its start and at its end.
pub fn trim(s: &str) -> (kept: String)
    ensures
        kept@ == trimmed(s@),
{
    let chars = chars_of(s);
    let n = chars.len();
    let mut from: usize = 0;
    while from < n && white_space(chars[from])
        invariant
            n == chars.len(),
            from <= n,
            forall|k: int| 0 <= k < from ==> is_white_space(chars@[k]),
        decreases n - from,
    {
        from = from + 1;
    }
    let mut to: usize = n;
    while to > from && white_space(chars[to - 1])
        invariant
            n == chars.len(),
            from <= to <= n,
            forall|k: int| to <= k < n ==> is_white_space(chars@[k]),
        decreases to,
    {
        to = to - 1;
    }
    proof {
        let rest = s@.skip(from as int);
        lemma_skip_white_from(s@, from as int);
        assert(skip_white(rest) == rest);
        lemma_drop_white_to(rest, to - from);
        let kept = rest.take(to - from);
        assert(kept =~= s@.subrange(from as int, to as int));
        assert(drop_white(kept) == kept);
    }
    s.substring_char(from, to).to_owned()
}

/// The mark in a template at which the user's text is put in: `{text}`.
pub open spec fn placeholder() -> Seq<char> {
    seq!['{', 't', 'e', 'x', 't', '}']
}

/// `template` with every placeholder replaced by `with`, the placeholders
/// taken from the left and never overlapping.
pub open spec fn filled(template: Seq<char>, with: Seq<char>) -> Seq<char>
    decreases template.len(),
{
    if template.len() == 0 {
        template
    } else if placeholder().is_prefix_of(template) {
        with + filled(template.skip(6), with)
    } else {
        seq![template.first()] + filled(template.drop_first(), with)
    }
}

/// Whether a placeholder starts `at` characters into `chars`.
fn placeholder_at(chars: &Vec<char>, at: usize) -> (found: bool)
    requires
        at <= chars.len(),
    ensures
        found == placeholder().is_prefix_of(chars@.skip(at as int)),
{
    let n = chars.len();
    let found = n - at >= 6 && chars[at] == '{' && chars[at + 1] == 't' && chars[at + 2] == 'e'
        && chars[at + 3] == 'x' && chars[at + 4] == 't' && chars[at + 5] == '}';
    proof {
        let rest = chars@.skip(at as int);
        if found {
            assert(placeholder() =~= rest.subrange(0, 6));
        } else if rest.len() >= 6 {
            let start = rest.subrange(0, 6);
            assert(start[0] == chars@[at + 0] && start[1] == chars@[at + 1] && start[2]
                == chars@[at + 2] && start[3] == chars@[at + 3] && start[4] == chars@[at + 4]
                && start[5] == chars@[at + 5]);
            assert(placeholder()[0] == '{' && placeholder()[1] == 't' && placeholder()[2] == 'e'
                && placeholder()[3] == 'x' && placeholder()[4] == 't' && placeholder()[5] == '}');
        }
    }
    found
}

/// `template` with every placeholder `{text}` replaced by `with`.
pub fn fill(template: &str, with: &str) -> (text: String)
    ensures
        text@ == filled(template@, with@),
{
    let chars = chars_of(template);
    let n = chars.len();
    let mut text = String::new();
    let mut copied: usize = 0;
    let mut at: usize = 0;
    assert(template@.subrange(0, 0) + filled(template@.skip(0), with@) =~= filled(
        template@,
        with@,
    )) by {
        assert(template@.skip(0) =~= template@);
    }
    while at < n
        invariant
            n == chars.len(),
            chars@ == template@,
            copied <= at <= n,
            filled(template@, with@) == text@ + template@.subrange(copied as int, at as int)
                + filled(template@.skip(at as int), with@),
        decreases n - at,
    {
        let ghost rest = template@.skip(at as int);
        if placeholder_at(&chars, at) {
            text.append(template.substring_char(copied, at));
            text.append(with);
            proof {
                assert(rest.skip(6) =~= template@.skip(at + 6));
                assert(template@.subrange(at + 6, at + 6) =~= Seq::<char>::empty());
            }
            at = at + 6;
            copied = at;
        } else {
            proof {
                assert(rest.drop_first() =~= template@.skip(at + 1));
                assert(template@.subrange(copied as int, at as int) + seq![rest.first()]
                    =~= template@.subrange(copied as int, at + 1));
            }
            at = at + 1;
        }
    }
    text.append(template.substring_char(copied, n));
    assert(template@.skip(n as int) =~= Seq::<char>::empty());
    text
}

/// Whether the characters of `s` after `open` and before `close` stand
/// between delimiters: `<` at `open`, `>` at `close`, at least one character
/// between the two and none of them `>`.
pub open spec fn is_capture(s: Seq<char>, open: int, close: int) -> bool {
    &&& 0 <= open
    &&& open + 1 < close < s.len()
    &&& s[open] == '<'
    &&& s[close] == '>'
    &&& forall|k: int| open < k < close ==> s[k] != '>'
}

/// Whether `open` and `close` are the delimiters of the first capture of `s`:
/// no capture starts further left.
pub open spec fn is_first_capture(s: Seq<char>, open: int, close: int) -> bool {
    &&& is_capture(s, open, close)
    &&& forall|a: int, b: int| is_capture(s, a, b) ==> open <= a
}

/// What stands between the first pair of delimiters of `s`, if there is such
/// a pair.
pub open spec fn delimited(s: Seq<char>) -> Option<Seq<char>> {
    if exists|open: int, close: int| is_first_capture(s, open, close) {
        let (open, close) = choose|open: int, close: int| is_first_capture(s, open, close);
        Some(s.subrange(open + 1, close))
    } else {
        None
    }
}

/// The first capture is unique: whoever has found one has found what
/// `delimited` gives.
pub proof fn lemma_first_capture(s: Seq<char>, open: int, close: int)
    requires
        is_first_capture(s, open, close),
    ensures
        delimited(s) == Some(s.subrange(open + 1, close)),
{
    let (a, b) = choose|a: int, b: int| is_first_capture(s, a, b);
    assert(is_first_capture(s, a, b));
    assert(is_capture(s, a, b) && is_capture(s, open, close));
    assert(a == open);
    if b < close {
        assert(s[b] != '>');
    }
    if close < b {
        assert(s[close] != '>');
    }
}

/// Where nothing stands between delimiters, `delimited` gives nothing.
pub proof fn lemma_no_capture(s: Seq<char>)
    requires
        forall|a: int, b: int| !is_capture(s, a, b),
    ensures
        delimited(s) is None,
{
}

/// What stands between the first pair of delimiters of `s`: after the first
/// `<` that is followed by at least one character other than `>` and then by
/// `>`, up to that `>`.
pub fn extract(s: &str) -> (found: Option<String>)
    ensures
        match found {
            Some(text) => delimited(s@) == Some(text@),
            None => delimited(s@) is None,
        },
{
    let chars = chars_of(s);
    let n = chars.len();
    let mut open: usize = 0;
    while open < n
        invariant
            n == chars.len(),
            chars@ == s@,
            open <= n,
            forall|a: int, b: int| is_capture(s@, a, b) ==> open <= a,
        decreases n - open,
    {
        if chars[open] == '<' {
            let mut close: usize = open + 1;
            while close < n && chars[close] != '>'
                invariant
                    n == chars.len(),
                    chars@ == s@,
                    open < close <= n,
                    forall|k: int| open < k < close ==> s@[k] != '>',
                decreases n - close,
            {
                close = close + 1;
            }
            if close == n {
                proof {
                    assert forall|a: int, b: int| !is_capture(s@, a, b) by {
                        if is_capture(s@, a, b) {
                            assert(open <= a);
                            assert(s@[b] != '>');
                        }
                    }
                    lemma_no_capture(s@);
                }
                return None;
            }
            if close > open + 1 {
                proof {
                    assert(is_capture(s@, open as int, close as int));
                    lemma_first_capture(s@, open as int, close as int);
                }
                return Some(s.substring_char(open + 1, close).to_owned());
            }
            assert forall|a: int, b: int| is_capture(s@, a, b) implies open + 1 <= a by {
                if a == open {
                    assert(s@[open + 1] == '>');
                }
            }
        } else {
            assert forall|a: int, b: int| is_capture(s@, a, b) implies open + 1 <= a by {
                assert(open <= a);
            }
        }
        open = open + 1;
    }
    proof {
        lemma_no_capture(s@);
    }
    None
}

} // verus!
