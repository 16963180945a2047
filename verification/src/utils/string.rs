//! Text helpers: shell escaping, decimal rendering, joining, replacing and
//! trimming, each with its meaning stated over sequences of characters.

use itertools::Itertools;
use vstd::prelude::*;

verus! {

/// `String::push` appends one character at the end of the string.
pub assume_specification[ String::push ](s: &mut String, c: char)
    ensures
        final(s)@ == old(s)@.push(c),
;

/// Whether a character has the Unicode `White_Space` property.
pub uninterp spec fn is_white_space(c: char) -> bool;

/// `char::is_whitespace` tells whether the character has the Unicode
/// `White_Space` property; the property itself is left unstated.
pub assume_specification[ char::is_whitespace ](c: char) -> (b: bool)
    ensures
        b == is_white_space(c),
;

/// What a single character becomes when it is escaped for a shell.
pub open spec fn escaped_char(c: char) -> Seq<char> {
    if c == '$' {
        seq!['\\', '$']
    } else if c == '\n' {
        seq!['\\', 'n']
    } else if c == '\r' {
        seq!['\\', 'r']
    } else if c == '"' {
        seq!['\\', '"']
    } else if c == '\'' {
        seq!['\\', '\'']
    } else {
        seq![c]
    }
}

/// The escaped form of a text: each character replaced by its escaped form.
pub open spec fn escaped(s: Seq<char>) -> Seq<char>
    decreases s.len(),
{
    if s.len() == 0 {
        Seq::empty()
    } else {
        escaped(s.drop_last()) + escaped_char(s.last())
    }
}

/// Escapes `$`, line feed, carriage return and both quote characters so that
/// the value survives being substituted into a shell command.
pub fn escape_sh(value: &str) -> (out: String)
    ensures
        out@ == escaped(value@),
{
    let mut out = String::new();
    for c in it: value.chars()
        invariant
            it.seq() == value@,
            out@ == escaped(value@.take(it.index())),
    {
        proof {
            let k = it.index();
            assert(value@.take(k + 1).drop_last() == value@.take(k));
            assert(value@.take(k + 1).last() == c);
        }
        if c == '$' {
            out.push('\\');
            out.push('$');
        } else if c == '\n' {
            out.push('\\');
            out.push('n');
        } else if c == '\r' {
            out.push('\\');
            out.push('r');
        } else if c == '"' {
            out.push('\\');
            out.push('"');
        } else if c == '\'' {
            out.push('\\');
            out.push('\'');
        } else {
            out.push(c);
        }
    }
    proof {
        assert(value@.take(value@.len() as int) == value@);
    }
    out
}

/// True of the characters that `escape_sh` escapes.
pub open spec fn needs_escape(c: char) -> bool {
    c == '$' || c == '\n' || c == '\r' || c == '"' || c == '\''
}

/// A text is shell-safe when it holds no raw line break and every `$` and
/// quote in it directly follows a backslash.
pub open spec fn shell_safe(s: Seq<char>) -> bool {
    forall|i: int|
        0 <= i < s.len() && needs_escape(#[trigger] s[i]) ==> {
            &&& s[i] != '\n'
            &&& s[i] != '\r'
            &&& i > 0
            &&& s[i - 1] == '\\'
        }
}

/// Whatever the input, the escaped text is shell-safe.
pub proof fn lemma_escaped_is_shell_safe(s: Seq<char>)
    ensures
        shell_safe(escaped(s)),
    decreases s.len(),
{
    if s.len() > 0 {
        lemma_escaped_is_shell_safe(s.drop_last());
        let head = escaped(s.drop_last());
        let tail = escaped_char(s.last());
        let all = escaped(s);
        assert(all == head + tail);
        assert forall|i: int| 0 <= i < all.len() && needs_escape(#[trigger] all[i]) implies {
            &&& all[i] != '\n'
            &&& all[i] != '\r'
            &&& i > 0
            &&& all[i - 1] == '\\'
        } by {
            if i < head.len() {
                assert(all[i] == head[i]);
                assert(needs_escape(head[i]));
                assert(all[i - 1] == head[i - 1]);
            } else {
                assert(all[i] == tail[i - head.len()]);
                if i - head.len() == 1 {
                    assert(all[i - 1] == tail[0]);
                }
            }
        }
    }
}

/// Escaping leaves a text without special characters as it is.
pub proof fn lemma_escaped_plain(s: Seq<char>)
    requires
        forall|i: int| 0 <= i < s.len() ==> !needs_escape(#[trigger] s[i]),
    ensures
        escaped(s) == s,
    decreases s.len(),
{
    if s.len() > 0 {
        lemma_escaped_plain(s.drop_last());
        assert(s.drop_last().push(s.last()) == s);
        assert(escaped(s) =~= s);
    }
}

/// The character of a decimal digit.
pub open spec fn digit_char(d: int) -> char {
    if d == 0 {
        '0'
    } else if d == 1 {
        '1'
    } else if d == 2 {
        '2'
    } else if d == 3 {
        '3'
    } else if d == 4 {
        '4'
    } else if d == 5 {
        '5'
    } else if d == 6 {
        '6'
    } else if d == 7 {
        '7'
    } else if d == 8 {
        '8'
    } else {
        '9'
    }
}

/// The decimal numeral of a natural number, without sign or leading zeros.
pub open spec fn decimal(n: nat) -> Seq<char>
    decreases n,
{
    if n < 10 {
        seq![digit_char(n as int)]
    } else {
        decimal(n / 10).push(digit_char((n % 10) as int))
    }
}

fn digit(d: u64) -> (c: char)
    requires
        d < 10,
    ensures
        c == digit_char(d as int),
{
    if d == 0 {
        '0'
    } else if d == 1 {
        '1'
    } else if d == 2 {
        '2'
    } else if d == 3 {
        '3'
    } else if d == 4 {
        '4'
    } else if d == 5 {
        '5'
    } else if d == 6 {
        '6'
    } else if d == 7 {
        '7'
    } else if d == 8 {
        '8'
    } else {
        '9'
    }
}

/// Renders a number as its decimal numeral.
pub fn decimal_string(n: u64) -> (out: String)
    ensures
        out@ == decimal(n as nat),
    decreases n,
{
    if n < 10 {
        let mut out = String::new();
        out.push(digit(n));
        assert(out@ =~= seq![digit_char(n as int)]);
        out
    } else {
        let mut out = decimal_string(n / 10);
        out.push(digit(n % 10));
        out
    }
}

/// The texts of `parts` in order, with `sep` between neighbours.
pub open spec fn joined(parts: Seq<Seq<char>>, sep: Seq<char>) -> Seq<char>
    decreases parts.len(),
{
    if parts.len() == 0 {
        Seq::empty()
    } else if parts.len() == 1 {
        parts[0]
    } else {
        joined(parts.drop_last(), sep) + sep + parts.last()
    }
}

/// `Itertools::join` over the strings of `parts`: the empty string when there
/// are none, otherwise the first string followed, for each further one, by the
/// separator and that string. A `String` displays as itself.
#[verifier::external_body]
pub(crate) fn join(parts: &Vec<String>, sep: &str) -> (out: String)
    ensures
        out@ == joined(parts.deep_view(), sep@),
{
    parts.iter().join(sep)
}

/// `s` with every occurrence of the character `from` replaced by `to`.
pub open spec fn replaced(s: Seq<char>, from: char, to: Seq<char>) -> Seq<char>
    decreases s.len(),
{
    if s.len() == 0 {
        Seq::empty()
    } else if s.last() == from {
        replaced(s.drop_last(), from, to) + to
    } else {
        replaced(s.drop_last(), from, to).push(s.last())
    }
}

/// Replaces every occurrence of one character by a text.
pub fn replace_char(s: &str, from: char, to: &str) -> (out: String)
    ensures
        out@ == replaced(s@, from, to@),
{
    let mut out = String::new();
    for c in it: s.chars()
        invariant
            it.seq() == s@,
            out@ == replaced(s@.take(it.index()), from, to@),
    {
        proof {
            let k = it.index();
            assert(s@.take(k + 1).drop_last() == s@.take(k));
            assert(s@.take(k + 1).last() == c);
        }
        if c == from {
            out.append(to);
        } else {
            out.push(c);
        }
    }
    proof {
        assert(s@.take(s@.len() as int) == s@);
    }
    out
}

/// `s` without its leading white space.
pub open spec fn trimmed_start(s: Seq<char>) -> Seq<char>
    decreases s.len(),
{
    if s.len() > 0 && is_white_space(s[0]) {
        trimmed_start(s.drop_first())
    } else {
        s
    }
}

/// `s` without its trailing white space.
pub open spec fn trimmed_end(s: Seq<char>) -> Seq<char>
    decreases s.len(),
{
    if s.len() > 0 && is_white_space(s.last()) {
        trimmed_end(s.drop_last())
    } else {
        s
    }
}

/// `s` without leading and trailing white space.
pub open spec fn trimmed(s: Seq<char>) -> Seq<char> {
    trimmed_end(trimmed_start(s))
}

/// The characters of a text, one by one.
pub fn chars_of(s: &str) -> (out: Vec<char>)
    ensures
        out@ == s@,
{
    let mut out: Vec<char> = Vec::new();
    for c in it: s.chars()
        invariant
            it.seq() == s@,
            out@ == s@.take(it.index()),
    {
        out.push(c);
        assert(out@ =~= s@.take(it.index() + 1));
    }
    proof {
        assert(s@.take(s@.len() as int) == s@);
    }
    out
}

/// Removes leading and trailing white space.
pub fn trim(s: &str) -> (out: String)
    ensures
        out@ == trimmed(s@),
{
    let chars = chars_of(s);
    let n: usize = chars.len();
    let mut start: usize = 0;
    assert(chars@.subrange(0, n as int) == chars@);
    while start < n && chars[start].is_whitespace()
        invariant
            n == chars@.len(),
            start <= n,
            trimmed_start(chars@) == trimmed_start(chars@.subrange(start as int, n as int)),
        decreases n - start,
    {
        proof {
            let rest = chars@.subrange(start as int, n as int);
            assert(rest[0] == chars@[start as int]);
            assert(rest.drop_first() == chars@.subrange(start + 1, n as int));
        }
        start = start + 1;
    }
    let ghost body = chars@.subrange(start as int, n as int);
    assert(trimmed_start(chars@) == body) by {
        if start < n {
            assert(body[0] == chars@[start as int]);
        }
    }
    let mut end: usize = n;
    while end > start && chars[end - 1].is_whitespace()
        invariant
            n == chars@.len(),
            start <= end <= n,
            body == chars@.subrange(start as int, n as int),
            trimmed_end(body) == trimmed_end(chars@.subrange(start as int, end as int)),
        decreases end,
    {
        proof {
            let rest = chars@.subrange(start as int, end as int);
            assert(rest.last() == chars@[end - 1]);
            assert(rest.drop_last() == chars@.subrange(start as int, end - 1));
        }
        end = end - 1;
    }
    let ghost kept = chars@.subrange(start as int, end as int);
    assert(trimmed_end(body) == kept) by {
        if end > start {
            assert(kept.last() == chars@[end - 1]);
        }
    }
    let mut out = String::new();
    let mut i: usize = start;
    while i < end
        invariant
            start <= i <= end <= n,
            n == chars@.len(),
            out@ == chars@.subrange(start as int, i as int),
        decreases end - i,
    {
        out.push(chars[i]);
        assert(out@ =~= chars@.subrange(start as int, i + 1));
        i = i + 1;
    }
    out
}

/// An owned copy of a text.
pub fn text(s: &str) -> (out: String)
    ensures
        out@ == s@,
{
    s.to_owned()
}

/// Copies a list of texts.
pub fn clone_strings(items: &[String]) -> (out: Vec<String>)
    ensures
        out.deep_view() == items.deep_view(),
{
    let mut out: Vec<String> = Vec::new();
    let mut i: usize = 0;
    while i < items.len()
        invariant
            i <= items@.len(),
            out@.len() == i,
            forall|k: int| 0 <= k < i ==> out@[k]@ == items@[k]@,
        decreases items@.len() - i,
    {
        out.push(items[i].clone());
        i = i + 1;
    }
    assert(out.deep_view() =~= items.deep_view());
    out
}

/// Copies a list of name and value pairs.
pub fn clone_pairs(items: &Vec<(String, String)>) -> (out: Vec<(String, String)>)
    ensures
        out.deep_view() == items.deep_view(),
{
    let mut out: Vec<(String, String)> = Vec::new();
    let mut i: usize = 0;
    while i < items.len()
        invariant
            i <= items@.len(),
            out@.len() == i,
            forall|k: int| 0 <= k < i ==> out@[k].deep_view() == items@[k].deep_view(),
        decreases items@.len() - i,
    {
        out.push((items[i].0.clone(), items[i].1.clone()));
        i = i + 1;
    }
    assert(out.deep_view() =~= items.deep_view());
    out
}

} // verus!
