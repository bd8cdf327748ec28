//! Character-level utilities shared by the document reader and the renderers:
//! whitespace trimming, quote stripping, whitespace tokenization, and the
//! escaping used when strings are embedded in generated artifacts.

use vstd::prelude::*;
use vstd::string::StrSliceExecFns;

verus! {

/// The whitespace characters trimming and tokenization recognize. A line of
/// a document never contains a line feed, but trimmed values from other
/// sources may.
pub open spec fn is_space(c: char) -> bool {
    c == ' ' || c == '\t' || c == '\r' || c == '\n'
}

/// First index at or after `i` holding a character that is not line whitespace
/// (`l.len()` if none).
pub open spec fn skip_ws(l: Seq<char>, i: int) -> int
    decreases l.len() - i,
{
    if i < 0 || i >= l.len() {
        l.len() as int
    } else if is_space(l[i]) {
        skip_ws(l, i + 1)
    } else {
        i
    }
}

/// Scanning backward from `i`, the index just past the last character that is
/// not line whitespace (0 if all of `l.subrange(0, i)` is whitespace).
pub open spec fn trim_end_idx(l: Seq<char>, i: int) -> int
    decreases i,
{
    if i <= 0 {
        0
    } else if i > l.len() {
        trim_end_idx(l, l.len() as int)
    } else if is_space(l[i - 1]) {
        trim_end_idx(l, i - 1)
    } else {
        i
    }
}

/// `l` with leading and trailing line whitespace removed.
pub open spec fn spec_trim(l: Seq<char>) -> Seq<char> {
    let a = skip_ws(l, 0);
    let b = trim_end_idx(l, l.len() as int);
    if a <= b {
        l.subrange(a, b)
    } else {
        Seq::empty()
    }
}

/// The quote characters that `unquote` strips: it also recognizes
/// backticks.
pub open spec fn is_quote(c: char) -> bool {
    c == '"' || c == '\'' || c == '`'
}

/// The quote characters a document scalar can be wrapped in: single or
/// double quotes only.
pub open spec fn is_value_quote(c: char) -> bool {
    c == '"' || c == '\''
}

/// What `unquote` returns: one outermost pair of matching quote characters
/// (single, double or backtick) is removed, anything else is left as it is.
pub open spec fn spec_unquote(s: Seq<char>) -> Seq<char> {
    if s.len() < 2 {
        s
    } else if is_quote(s[0]) && s.last() == s[0] {
        s.subrange(1, s.len() - 1)
    } else {
        s
    }
}

/// A scalar extracted from a document after quote normalization: one
/// outermost pair of matching single or double quotes is removed, anything
/// else — a backtick-wrapped value included — is kept verbatim.
pub open spec fn spec_unquote_value(s: Seq<char>) -> Seq<char> {
    if s.len() < 2 {
        s
    } else if is_value_quote(s[0]) && s.last() == s[0] {
        s.subrange(1, s.len() - 1)
    } else {
        s
    }
}

/// Quote-normalizes one document scalar: strips one outermost pair of
/// matching single or double quotes, and keeps any other value verbatim.
pub(crate) fn unquote_value(s: &str) -> (r: String)
    ensures
        r@ == spec_unquote_value(s@),
{
    let n = s.unicode_len();
    if n < 2 {
        return s.to_owned();
    }
    let first = s.get_char(0);
    if first != '"' && first != '\'' {
        return s.to_owned();
    }
    if s.get_char(n - 1) != first {
        return s.to_owned();
    }
    s.substring_char(1, n - 1).to_owned()
}

/// Quote normalization is idempotent on plain values: stripping the outer
/// quotes of a wrapped value yields the value itself, and normalizing a
/// value that carries no outer quote pair leaves it unchanged — so a second
/// normalization of such a value changes nothing.
pub proof fn lemma_unquote_round(s: Seq<char>, q: char)
    requires
        is_quote(q),
        s.len() < 2 || !(is_quote(s[0]) && s.last() == s[0]),
    ensures
        spec_unquote(seq![q] + s + seq![q]) == s,
        spec_unquote(s) == s,
{
    let w = seq![q] + s + seq![q];
    assert(w.len() == s.len() + 2);
    assert(w[0] == q);
    assert(w.last() == q);
    assert(w.subrange(1, w.len() - 1) =~= s);
}

/// The same idempotence for the document-scalar normalization, whose quote
/// characters are single and double quotes alone: stripping a wrapped value
/// yields the value itself, and a value with no outer pair of those quotes
/// is kept unchanged.
pub proof fn lemma_unquote_value_round(s: Seq<char>, q: char)
    requires
        is_value_quote(q),
        s.len() < 2 || !(is_value_quote(s[0]) && s.last() == s[0]),
    ensures
        spec_unquote_value(seq![q] + s + seq![q]) == s,
        spec_unquote_value(s) == s,
{
    let w = seq![q] + s + seq![q];
    assert(w.len() == s.len() + 2);
    assert(w[0] == q);
    assert(w.last() == q);
    assert(w.subrange(1, w.len() - 1) =~= s);
}

proof fn lemma_skip_ws_bounds(l: Seq<char>, i: int)
    requires
        0 <= i <= l.len(),
    ensures
        i <= skip_ws(l, i) <= l.len(),
        forall|j: int| i <= j < skip_ws(l, i) ==> is_space(l[j]),
        skip_ws(l, i) < l.len() ==> !is_space(l[skip_ws(l, i)]),
    decreases l.len() - i,
{
    if i < l.len() && is_space(l[i]) {
        lemma_skip_ws_bounds(l, i + 1);
    }
}

proof fn lemma_trim_end_bounds(l: Seq<char>, i: int)
    requires
        0 <= i <= l.len(),
    ensures
        0 <= trim_end_idx(l, i) <= i,
        forall|j: int| trim_end_idx(l, i) <= j < i ==> is_space(l[j]),
        trim_end_idx(l, i) > 0 ==> !is_space(l[trim_end_idx(l, i) - 1]),
    decreases i,
{
    if i > 0 && is_space(l[i - 1]) {
        lemma_trim_end_bounds(l, i - 1);
    }
}

/// The character of `s` at index `i`.
pub fn char_at(s: &str, i: usize) -> (c: char)
    requires
        i < s@.len(),
    ensures
        c == s@[i as int],
{
    s.get_char(i)
}

/// `s` with leading and trailing line whitespace removed.
pub fn trim(s: &str) -> (r: &str)
    ensures
        r@ == spec_trim(s@),
{
    let n = s.unicode_len();
    let mut a: usize = 0;
    while a < n && is_space_exec(s.get_char(a))
        invariant
            0 <= a <= n,
            n == s@.len(),
            forall|j: int| 0 <= j < a ==> is_space(s@[j]),
        decreases n - a,
    {
        a += 1;
    }
    let mut b: usize = n;
    while b > a && is_space_exec(s.get_char(b - 1))
        invariant
            a <= b <= n,
            n == s@.len(),
            forall|j: int| b <= j < n ==> is_space(s@[j]),
        decreases b,
    {
        b -= 1;
    }
    proof {
        lemma_skip_ws_bounds(s@, 0);
        lemma_trim_end_bounds(s@, s@.len() as int);
        let sa = skip_ws(s@, 0);
        let sb = trim_end_idx(s@, s@.len() as int);
        if b == a {
            // everything outside [a, b) is whitespace, so the trimmed value is empty
            assert(sa >= b || is_space(s@[sa]));
            assert(forall|j: int| sb <= j < s@.len() ==> is_space(s@[j]));
            if sa < sb {
                assert(!is_space(s@[sa]));
                assert(sa >= b);
                assert(sb <= a || is_space(s@[sb - 1]));
                assert(false);
            }
            assert(spec_trim(s@) =~= s@.subrange(a as int, b as int));
        } else {
            assert(!is_space(s@[a as int]));
            assert(!is_space(s@[b - 1]));
            assert(sa == a) by {
                if sa < a {
                    assert(is_space(s@[sa]));
                    assert(!is_space(s@[sa]));
                } else if sa > a {
                    assert(is_space(s@[a as int]));
                }
            }
            assert(sb == b) by {
                if sb > b {
                    assert(is_space(s@[sb - 1]));
                    assert(!is_space(s@[sb - 1]));
                } else if sb < b {
                    assert(is_space(s@[b - 1]));
                }
            }
            assert(spec_trim(s@) =~= s@.subrange(a as int, b as int));
        }
    }
    s.substring_char(a, b)
}

/// Executable form of `is_space`.
pub fn is_space_exec(c: char) -> (r: bool)
    ensures
        r == is_space(c),
{
    c == ' ' || c == '\t' || c == '\r' || c == '\n'
}

/// Relies on `String::push`: appends one character at the end of the string.
#[verifier::external_body]
pub(crate) fn push_char(s: &mut String, c: char)
    ensures
        final(s)@ == old(s)@.push(c),
{
    s.push(c);
}

/// Character-for-character equality of two string slices.
pub fn str_eq(a: &str, b: &str) -> (r: bool)
    ensures
        r == (a@ == b@),
{
    let na = a.unicode_len();
    let nb = b.unicode_len();
    if na != nb {
        return false;
    }
    let mut i: usize = 0;
    while i < na
        invariant
            0 <= i <= na,
            na == a@.len(),
            na == b@.len(),
            forall|j: int| 0 <= j < i ==> a@[j] == b@[j],
        decreases na - i,
    {
        if a.get_char(i) != b.get_char(i) {
            return false;
        }
        i += 1;
    }
    proof {
        assert(a@ =~= b@);
    }
    true
}

// ---------------------------------------------------------------------------
// Whitespace tokenization
// ---------------------------------------------------------------------------

/// The whitespace-separated tokens of `s` from index `i` on, with `cur` the
/// token in progress.
pub open spec fn toks(s: Seq<char>, i: int, cur: Seq<char>) -> Seq<Seq<char>>
    decreases s.len() - i,
{
    if i < 0 || i >= s.len() {
        if cur.len() > 0 {
            seq![cur]
        } else {
            Seq::empty()
        }
    } else if is_space(s[i]) {
        (if cur.len() > 0 {
            seq![cur]
        } else {
            Seq::empty()
        }) + toks(s, i + 1, Seq::empty())
    } else {
        toks(s, i + 1, cur.push(s[i]))
    }
}

/// The whitespace-separated tokens of `s`, in order, each non-empty.
pub open spec fn spec_tokens(s: Seq<char>) -> Seq<Seq<char>> {
    toks(s, 0, Seq::empty())
}

/// Splits `s` at line whitespace into its tokens.
pub fn tokens(s: &str) -> (r: Vec<String>)
    ensures
        r.deep_view() == spec_tokens(s@),
{
    let n = s.unicode_len();
    let mut r: Vec<String> = Vec::new();
    let mut cur = String::new();
    let mut i: usize = 0;
    while i < n
        invariant
            0 <= i <= n,
            n == s@.len(),
            spec_tokens(s@) =~= r.deep_view() + toks(s@, i as int, cur@),
        decreases n - i,
    {
        let c = char_at(s, i);
        if is_space_exec(c) {
            if !cur.as_str().is_empty() {
                let ghost old_r = r.deep_view();
                let ghost old_cur = cur@;
                r.push(cur);
                cur = String::new();
                proof {
                    assert(r.deep_view() =~= old_r + seq![old_cur]);
                    assert(toks(s@, i as int, old_cur) == seq![old_cur] + toks(
                        s@,
                        i + 1,
                        Seq::<char>::empty(),
                    ));
                    assert(old_r + (seq![old_cur] + toks(s@, i + 1, cur@)) =~= r.deep_view()
                        + toks(s@, i + 1, cur@));
                }
            } else {
                proof {
                    assert(toks(s@, i as int, cur@) =~= Seq::<Seq<char>>::empty() + toks(
                        s@,
                        i + 1,
                        Seq::<char>::empty(),
                    ));
                    assert(cur@ =~= Seq::<char>::empty());
                    assert(Seq::<Seq<char>>::empty() + toks(s@, i + 1, cur@) =~= toks(
                        s@,
                        i + 1,
                        cur@,
                    ));
                }
            }
        } else {
            let ghost old_cur = cur@;
            push_char(&mut cur, c);
            proof {
                assert(toks(s@, i as int, old_cur) == toks(s@, i + 1, old_cur.push(s@[i as int])));
                assert(cur@ == old_cur.push(s@[i as int]));
            }
        }
        i += 1;
    }
    if !cur.as_str().is_empty() {
        let ghost old_r = r.deep_view();
        let ghost old_cur = cur@;
        r.push(cur);
        proof {
            assert(r.deep_view() =~= old_r + seq![old_cur]);
        }
    }
    r
}

// ---------------------------------------------------------------------------
// Escaping for generated artifacts
// ---------------------------------------------------------------------------

/// How one character is embedded between double quotes in a generated
/// artifact: backslashes and double quotes gain a backslash.
pub open spec fn esc_char(c: char) -> Seq<char> {
    if c == '\\' || c == '"' {
        seq!['\\', c]
    } else {
        seq![c]
    }
}

/// The escaping of the first `i` characters of `s`.
pub open spec fn esc_upto(s: Seq<char>, i: int) -> Seq<char>
    decreases i,
{
    if i <= 0 || i > s.len() {
        Seq::empty()
    } else {
        esc_upto(s, i - 1) + esc_char(s[i - 1])
    }
}

/// `s` with every backslash and double quote escaped by a backslash.
pub open spec fn spec_escape(s: Seq<char>) -> Seq<char> {
    esc_upto(s, s.len() as int)
}

/// Appends `s` to `out`, escaping backslashes and double quotes.
pub fn append_escaped(out: &mut String, s: &str)
    ensures
        final(out)@ == old(out)@ + spec_escape(s@),
{
    let n = s.unicode_len();
    let mut i: usize = 0;
    while i < n
        invariant
            0 <= i <= n,
            n == s@.len(),
            out@ =~= old(out)@ + esc_upto(s@, i as int),
        decreases n - i,
    {
        let c = char_at(s, i);
        if c == '\\' || c == '"' {
            push_char(out, '\\');
        }
        push_char(out, c);
        proof {
            assert(esc_upto(s@, i + 1) =~= esc_upto(s@, i as int) + esc_char(s@[i as int]));
            assert(out@ =~= old(out)@ + esc_upto(s@, i + 1));
        }
        i += 1;
    }
}

// ---------------------------------------------------------------------------
// Bracketed quoted lists
// ---------------------------------------------------------------------------

/// One entry of a rendered list: a comma-space before every entry but the
/// first, then the escaped value between double quotes.
pub open spec fn list_entry(items: Seq<Seq<char>>, k: int) -> Seq<char> {
    (if k > 0 {
        ", "@
    } else {
        Seq::<char>::empty()
    }) + "\""@ + spec_escape(items[k]) + "\""@
}

/// The first `i` entries of a rendered list.
pub open spec fn list_upto(items: Seq<Seq<char>>, i: int) -> Seq<char>
    decreases i,
{
    if i <= 0 || i > items.len() {
        Seq::empty()
    } else {
        list_upto(items, i - 1) + list_entry(items, i - 1)
    }
}

/// A bracketed, comma-separated, double-quoted list of the values, in order.
pub open spec fn spec_str_list(items: Seq<Seq<char>>) -> Seq<char> {
    "["@ + list_upto(items, items.len() as int) + "]"@
}

/// Renders the values as a bracketed, comma-separated, double-quoted list,
/// escaping each value.
pub fn render_str_list(items: &Vec<String>) -> (r: String)
    ensures
        r@ == spec_str_list(items.deep_view()),
{
    let mut r = String::new();
    r.append("[");
    let n = items.len();
    let mut i: usize = 0;
    while i < n
        invariant
            0 <= i <= n,
            n == items.deep_view().len(),
            r@ =~= "["@ + list_upto(items.deep_view(), i as int),
        decreases n - i,
    {
        if i > 0 {
            r.append(", ");
        }
        r.append("\"");
        proof {
            assert(items@[i as int]@ == items.deep_view()[i as int]);
        }
        append_escaped(&mut r, items[i].as_str());
        r.append("\"");
        proof {
            assert(list_upto(items.deep_view(), i + 1) =~= list_upto(items.deep_view(), i as int)
                + list_entry(items.deep_view(), i as int));
            assert(r@ =~= "["@ + list_upto(items.deep_view(), i + 1));
        }
        i += 1;
    }
    r.append("]");
    r
}

/// `s` with every `-` replaced by `_` (generated identifiers cannot carry a
/// dash).
pub open spec fn spec_dashes(s: Seq<char>) -> Seq<char> {
    s.map_values(|c: char| if c == '-' { '_' } else { c })
}

/// Replaces every dash of `s` with an underscore.
pub fn dashes_to_underscores(s: &str) -> (r: String)
    ensures
        r@ == spec_dashes(s@),
{
    let n = s.unicode_len();
    let mut r = String::new();
    let mut i: usize = 0;
    while i < n
        invariant
            0 <= i <= n,
            n == s@.len(),
            r@.len() == i,
            forall|j: int| 0 <= j < i ==> r@[j] == spec_dashes(s@)[j],
        decreases n - i,
    {
        let c = char_at(s, i);
        if c == '-' {
            push_char(&mut r, '_');
        } else {
            push_char(&mut r, c);
        }
        i += 1;
    }
    proof {
        assert(r@ =~= spec_dashes(s@));
    }
    r
}

/// Whether a console reply means yes: the reply is `y` or `Y` once
/// surrounding whitespace is dropped.
pub fn yes_or_no(response: &str) -> (r: bool)
    ensures
        r == (spec_trim(response@) == "y"@ || spec_trim(response@) == "Y"@),
{
    proof {
        reveal_strlit("y");
        reveal_strlit("Y");
    }
    let t = trim(response);
    let n = t.unicode_len();
    if n != 1 {
        proof {
            assert(t@ != "y"@ && t@ != "Y"@);
        }
        return false;
    }
    let c = t.get_char(0);
    proof {
        if c == 'y' {
            assert(t@ =~= "y"@);
        } else {
            assert(t@ != "y"@);
        }
        if c == 'Y' {
            assert(t@ =~= "Y"@);
        } else {
            assert(t@ != "Y"@);
        }
    }
    c == 'y' || c == 'Y'
}

/// Each document scalar of `items`, quote-normalized.
pub open spec fn spec_unquote_values(items: Seq<Seq<char>>) -> Seq<Seq<char>> {
    items.map_values(|s: Seq<char>| spec_unquote_value(s))
}

/// Quote-normalizes every document scalar of `items`.
pub fn unquote_values(items: &Vec<String>) -> (r: Vec<String>)
    ensures
        r.deep_view() == spec_unquote_values(items.deep_view()),
{
    let n = items.len();
    let mut r: Vec<String> = Vec::new();
    let mut i: usize = 0;
    while i < n
        invariant
            0 <= i <= n,
            n == items@.len(),
            r.deep_view() =~= spec_unquote_values(items.deep_view()).subrange(0, i as int),
        decreases n - i,
    {
        let ghost old_r = r.deep_view();
        proof {
            assert(items@[i as int]@ == items.deep_view()[i as int]);
        }
        r.push(unquote_value(items[i].as_str()));
        proof {
            assert(r.deep_view() =~= old_r + seq![
                spec_unquote_value(items.deep_view()[i as int]),
            ]);
            assert(r.deep_view() =~= spec_unquote_values(items.deep_view()).subrange(0, i + 1));
        }
        i += 1;
    }
    proof {
        assert(r.deep_view() =~= spec_unquote_values(items.deep_view()));
    }
    r
}

/// Strips one outermost pair of matching single quotes, double quotes or
/// backticks from `s`; a value with no such pair is returned unchanged.
pub fn unquote(s: &str) -> (r: String)
    ensures
        r@ == spec_unquote(s@),
{
    let n = s.unicode_len();
    if n < 2 {
        return s.to_owned();
    }
    let first = s.get_char(0);
    if first != '"' && first != '\'' && first != '`' {
        return s.to_owned();
    }
    if s.get_char(n - 1) != first {
        return s.to_owned();
    }
    s.substring_char(1, n - 1).to_owned()
}

} // verus!
