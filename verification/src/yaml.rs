//! The configuration document: a named node over retained source lines.
//!
//! A document is a line-oriented, indentation-structured mapping of sections.
//! A node keeps the raw lines of its content and is read lazily: section
//! lookup, iteration and scalar extraction all work directly over the lines.
//! The grammar of a node's own (indent-zero) level is:
//!
//! - `key:` starts a section whose content is the following deeper-indented
//!   block, dedented; `key: value` is a section whose content is the value
//!   (the colon of a key is followed by a space or ends the line, so a
//!   colon glued to more text, as in a URL, separates nothing);
//! - `- value` is one item of a sequence of scalars;
//! - blank lines and lines whose first non-blank character is `#` carry
//!   nothing;
//! - any other line, including anything that opens with a quote, is scalar
//!   text.

use vstd::prelude::*;
use vstd::string::StrSliceExecFns;
use vstd::string::StringExecFns;

use crate::error::CiError;
use crate::text::{char_at, is_space, is_space_exec, spec_trim, str_eq, trim};

verus! {

/// A node of a configuration document: its name (the key it was reached by,
/// empty at the root) and the lines of its content.
pub struct Yaml {
    name: String,
    lines: Vec<String>,
}

/// The mathematical value of a document node.
pub struct YamlView {
    pub name: Seq<char>,
    pub lines: Seq<Seq<char>>,
}

impl View for Yaml {
    type V = YamlView;

    closed spec fn view(&self) -> YamlView {
        YamlView { name: self.name@, lines: self.lines.deep_view() }
    }
}

// ---------------------------------------------------------------------------
// Lines of a source text
// ---------------------------------------------------------------------------

/// The lines of `s`, split at every line feed. A text with no line feed is a
/// single line; a trailing line feed contributes a final empty line.
pub open spec fn split_from(s: Seq<char>, i: int, start: int) -> Seq<Seq<char>>
    recommends
        0 <= start <= i <= s.len(),
    decreases s.len() - i,
{
    if i >= s.len() {
        seq![s.subrange(start, if i <= s.len() { s.len() as int } else { i })]
    } else if s[i] == '\n' {
        seq![s.subrange(start, i)] + split_from(s, i + 1, i + 1)
    } else {
        split_from(s, i + 1, start)
    }
}

/// The lines of a source text.
pub open spec fn spec_split_lines(s: Seq<char>) -> Seq<Seq<char>> {
    split_from(s, 0, 0)
}

/// The lines of `s` as owned strings.
pub fn split_lines(s: &str) -> (r: Vec<String>)
    ensures
        r.deep_view() == spec_split_lines(s@),
{
    let n = s.unicode_len();
    let mut r: Vec<String> = Vec::new();
    let mut start: usize = 0;
    let mut i: usize = 0;
    while i < n
        invariant
            0 <= start <= i <= n,
            n == s@.len(),
            spec_split_lines(s@) == r.deep_view() + split_from(s@, i as int, start as int),
        decreases n - i,
    {
        if char_at(s, i) == '\n' {
            let line = s.substring_char(start, i).to_owned();
            let ghost old_r = r.deep_view();
            r.push(line);
            proof {
                assert(r.deep_view() =~= old_r + seq![s@.subrange(start as int, i as int)]);
                assert(old_r + split_from(s@, i as int, start as int) =~= r.deep_view()
                    + split_from(s@, i as int + 1, i as int + 1));
            }
            start = i + 1;
        }
        i += 1;
    }
    let line = s.substring_char(start, n).to_owned();
    let ghost old_r = r.deep_view();
    r.push(line);
    proof {
        assert(r.deep_view() =~= old_r + seq![s@.subrange(start as int, n as int)]);
    }
    r
}

// ---------------------------------------------------------------------------
// The shape of one line
// ---------------------------------------------------------------------------

/// First index at or after `i` that does not hold a plain space (the line's
/// length if every remaining character is a space).
pub open spec fn indent_from(l: Seq<char>, i: int) -> int
    recommends
        0 <= i <= l.len(),
    decreases l.len() - i,
{
    if i < 0 || i >= l.len() {
        l.len() as int
    } else if l[i] == ' ' {
        indent_from(l, i + 1)
    } else {
        i
    }
}

/// The indentation of a line: the number of leading spaces.
pub open spec fn indent_of(l: Seq<char>) -> int {
    indent_from(l, 0)
}

/// First index at or after `i` that holds no line whitespace.
pub open spec fn sig_from(l: Seq<char>, i: int) -> int
    recommends
        0 <= i <= l.len(),
    decreases l.len() - i,
{
    if i < 0 || i >= l.len() {
        l.len() as int
    } else if is_space(l[i]) {
        sig_from(l, i + 1)
    } else {
        i
    }
}

/// A line that carries no content: blank, or a comment whose first non-blank
/// character is `#`.
pub open spec fn ignored_line(l: Seq<char>) -> bool {
    sig_from(l, 0) >= l.len() || l[sig_from(l, 0)] == '#'
}

/// First index at or after `i` holding a colon that can end a key: one
/// followed by a space, or one that ends the line (the line's length if
/// there is none). A colon glued to more text, as in a URL, separates
/// nothing.
pub open spec fn colon_from(l: Seq<char>, i: int) -> int
    recommends
        0 <= i <= l.len(),
    decreases l.len() - i,
{
    if i < 0 || i >= l.len() {
        l.len() as int
    } else if l[i] == ':' && (i + 1 >= l.len() || l[i + 1] == ' ') {
        i
    } else {
        colon_from(l, i + 1)
    }
}

/// A line that starts a section at this node's own level: it begins in the
/// first column, is not a sequence item, does not open with a quote (a
/// quoted value is scalar text, whatever it holds), and holds a key-ending
/// colon.
pub open spec fn is_key_line(l: Seq<char>) -> bool {
    &&& l.len() > 0
    &&& !is_space(l[0])
    &&& l[0] != '-'
    &&& l[0] != '#'
    &&& !crate::text::is_quote(l[0])
    &&& colon_from(l, 0) < l.len()
}

/// The key of a key line: everything before its first colon.
pub open spec fn key_of(l: Seq<char>) -> Seq<char> {
    l.subrange(0, colon_from(l, 0))
}

/// The inline value of a key line: everything after its first colon, trimmed.
pub open spec fn value_of(l: Seq<char>) -> Seq<char> {
    spec_trim(l.subrange(colon_from(l, 0) + 1, l.len() as int))
}

/// A sequence item at this node's own level: a `-` in the first column,
/// alone or followed by a space.
pub open spec fn is_item_line(l: Seq<char>) -> bool {
    &&& l.len() > 0
    &&& l[0] == '-'
    &&& (l.len() == 1 || l[1] == ' ')
}

/// The value of a sequence item: everything after the `-`, trimmed.
pub open spec fn item_value(l: Seq<char>) -> Seq<char> {
    spec_trim(l.subrange(1, l.len() as int))
}

/// The indentation of `l`.
fn line_indent(l: &str) -> (r: usize)
    ensures
        r as int == indent_of(l@),
        r <= l@.len(),
{
    let n = l.unicode_len();
    let mut i: usize = 0;
    while i < n && char_at(l, i) == ' '
        invariant
            0 <= i <= n,
            n == l@.len(),
            indent_of(l@) == indent_from(l@, i as int),
        decreases n - i,
    {
        i += 1;
    }
    i
}

/// Whether `l` is blank or a comment.
fn line_ignored(l: &str) -> (r: bool)
    ensures
        r == ignored_line(l@),
{
    let n = l.unicode_len();
    let mut i: usize = 0;
    while i < n && is_space_exec(char_at(l, i))
        invariant
            0 <= i <= n,
            n == l@.len(),
            sig_from(l@, 0) == sig_from(l@, i as int),
        decreases n - i,
    {
        i += 1;
    }
    i >= n || char_at(l, i) == '#'
}

/// The index of the first key-ending colon of `l`, or its length.
fn line_colon(l: &str) -> (r: usize)
    ensures
        r as int == colon_from(l@, 0),
        r <= l@.len(),
{
    let n = l.unicode_len();
    let mut i: usize = 0;
    while i < n && !(char_at(l, i) == ':' && (i + 1 >= n || char_at(l, i + 1) == ' '))
        invariant
            0 <= i <= n,
            n == l@.len(),
            colon_from(l@, 0) == colon_from(l@, i as int),
        decreases n - i,
    {
        i += 1;
    }
    i
}

/// Whether `l` starts a section at this node's own level.
fn line_is_key(l: &str) -> (r: bool)
    ensures
        r == is_key_line(l@),
{
    let n = l.unicode_len();
    if n == 0 {
        return false;
    }
    let c = char_at(l, 0);
    if is_space_exec(c) || c == '-' || c == '#' || c == '"' || c == '\'' || c == '`' {
        return false;
    }
    line_colon(l) < n
}

/// The key of a key line.
fn line_key<'a>(l: &'a str) -> (r: &'a str)
    requires
        is_key_line(l@),
    ensures
        r@ == key_of(l@),
{
    let c = line_colon(l);
    l.substring_char(0, c)
}

/// The inline value of a key line.
fn line_value<'a>(l: &'a str) -> (r: &'a str)
    requires
        is_key_line(l@),
    ensures
        r@ == value_of(l@),
{
    let c = line_colon(l);
    let n = l.unicode_len();
    trim(l.substring_char(c + 1, n))
}

/// Whether `l` is a sequence item at this node's own level.
fn line_is_item(l: &str) -> (r: bool)
    ensures
        r == is_item_line(l@),
{
    let n = l.unicode_len();
    n > 0 && char_at(l, 0) == '-' && (n == 1 || char_at(l, 1) == ' ')
}

/// The value of a sequence item line.
fn line_item_value<'a>(l: &'a str) -> (r: &'a str)
    requires
        is_item_line(l@),
    ensures
        r@ == item_value(l@),
{
    let n = l.unicode_len();
    trim(l.substring_char(1, n))
}

// ---------------------------------------------------------------------------
// Sections of a node
// ---------------------------------------------------------------------------

/// Index of the first key line at or after `i` whose key is `name`
/// (-1 if there is none).
pub open spec fn key_index_from(lines: Seq<Seq<char>>, name: Seq<char>, i: int) -> int
    decreases lines.len() - i,
{
    if i < 0 || i >= lines.len() {
        -1
    } else if is_key_line(lines[i]) && key_of(lines[i]) == name {
        i
    } else {
        key_index_from(lines, name, i + 1)
    }
}

/// Whether the node with these lines has a section named `name`.
pub open spec fn spec_has_section(lines: Seq<Seq<char>>, name: Seq<char>) -> bool {
    key_index_from(lines, name, 0) >= 0
}

/// Index of the first line at or after `i` that returns to the first column:
/// a non-ignored line with indentation zero. The block opened by a key line
/// ends there.
pub open spec fn block_end_from(lines: Seq<Seq<char>>, i: int) -> int
    decreases lines.len() - i,
{
    if i < 0 || i >= lines.len() {
        lines.len() as int
    } else if !ignored_line(lines[i]) && indent_of(lines[i]) == 0 {
        i
    } else {
        block_end_from(lines, i + 1)
    }
}

/// The indentation of the first non-ignored line in `[i, e)`, or 0 if every
/// line there is ignored.
pub open spec fn block_indent_from(lines: Seq<Seq<char>>, i: int, e: int) -> int
    decreases e - i,
{
    if i < 0 || i >= e || i >= lines.len() {
        0
    } else if !ignored_line(lines[i]) {
        indent_of(lines[i])
    } else {
        block_indent_from(lines, i + 1, e)
    }
}

/// `l` with up to `d` leading spaces removed.
pub open spec fn dedent_line(l: Seq<char>, d: int) -> Seq<char> {
    let k = if indent_of(l) < d {
        indent_of(l)
    } else {
        d
    };
    l.subrange(k, l.len() as int)
}

/// The content lines of the section named `name`: the inline value of its key
/// line if there is one, otherwise the following block, dedented by the
/// indentation of the block's first non-ignored line.
pub open spec fn spec_section_block(lines: Seq<Seq<char>>, name: Seq<char>) -> Seq<Seq<char>>
    recommends
        spec_has_section(lines, name),
{
    let i = key_index_from(lines, name, 0);
    if value_of(lines[i]).len() > 0 {
        seq![value_of(lines[i])]
    } else {
        let e = block_end_from(lines, i + 1);
        let d = block_indent_from(lines, i + 1, e);
        lines.subrange(i + 1, e).map_values(|l: Seq<char>| dedent_line(l, d))
    }
}

/// The keys of all key lines, in document order.
pub open spec fn names_from(lines: Seq<Seq<char>>, i: int) -> Seq<Seq<char>>
    decreases lines.len() - i,
{
    if i < 0 || i >= lines.len() {
        Seq::empty()
    } else if is_key_line(lines[i]) {
        seq![key_of(lines[i])] + names_from(lines, i + 1)
    } else {
        names_from(lines, i + 1)
    }
}

/// The section names of a node, in document order.
pub open spec fn spec_section_names(lines: Seq<Seq<char>>) -> Seq<Seq<char>> {
    names_from(lines, 0)
}

proof fn lemma_key_exists(lines: Seq<Seq<char>>, name: Seq<char>, i: int, j: int)
    requires
        0 <= i <= j < lines.len(),
        is_key_line(lines[j]),
        key_of(lines[j]) == name,
    ensures
        key_index_from(lines, name, i) >= 0,
    decreases j - i,
{
    if i < j && !(is_key_line(lines[i]) && key_of(lines[i]) == name) {
        lemma_key_exists(lines, name, i + 1, j);
    }
}

proof fn lemma_names_have_sections(lines: Seq<Seq<char>>, i: int)
    requires
        0 <= i <= lines.len(),
    ensures
        forall|k: int|
            0 <= k < names_from(lines, i).len() ==> spec_has_section(
                lines,
                #[trigger] names_from(lines, i)[k],
            ),
    decreases lines.len() - i,
{
    if i < lines.len() {
        lemma_names_have_sections(lines, i + 1);
        if is_key_line(lines[i]) {
            lemma_key_exists(lines, key_of(lines[i]), 0, i);
            assert forall|k: int| 0 <= k < names_from(lines, i).len() implies spec_has_section(
                lines,
                #[trigger] names_from(lines, i)[k],
            ) by {
                if k > 0 {
                    assert(names_from(lines, i)[k] == names_from(lines, i + 1)[k - 1]);
                }
            }
        } else {
            assert(names_from(lines, i) == names_from(lines, i + 1));
        }
    }
}

// ---------------------------------------------------------------------------
// Items of a node
// ---------------------------------------------------------------------------

/// Index of the first non-ignored line at or after `i` (the number of lines
/// if every remaining line is ignored).
pub open spec fn doc_sig_from(lines: Seq<Seq<char>>, i: int) -> int
    decreases lines.len() - i,
{
    if i < 0 || i >= lines.len() {
        lines.len() as int
    } else if !ignored_line(lines[i]) {
        i
    } else {
        doc_sig_from(lines, i + 1)
    }
}

/// The values of all sequence item lines, in document order.
pub open spec fn item_values_from(lines: Seq<Seq<char>>, i: int) -> Seq<Seq<char>>
    decreases lines.len() - i,
{
    if i < 0 || i >= lines.len() {
        Seq::empty()
    } else if is_item_line(lines[i]) {
        seq![item_value(lines[i])] + item_values_from(lines, i + 1)
    } else {
        item_values_from(lines, i + 1)
    }
}

/// A nameless node holding one scalar value.
pub open spec fn scalar_view(v: Seq<char>) -> YamlView {
    YamlView { name: Seq::empty(), lines: seq![v] }
}

/// The items a node yields when iterated, decided by its first non-ignored
/// line: the values of a sequence, the child sections of a mapping, the node
/// itself for plain scalar text, and nothing for an empty node.
pub open spec fn spec_items(lines: Seq<Seq<char>>) -> Seq<YamlView> {
    let f = doc_sig_from(lines, 0);
    if f >= lines.len() {
        Seq::empty()
    } else if is_item_line(lines[f]) {
        item_values_from(lines, 0).map_values(|v: Seq<char>| scalar_view(v))
    } else if is_key_line(lines[f]) {
        spec_section_names(lines).map_values(
            |n: Seq<char>| YamlView { name: n, lines: spec_section_block(lines, n) },
        )
    } else {
        seq![YamlView { name: Seq::empty(), lines: lines }]
    }
}

// ---------------------------------------------------------------------------
// Joining lines back into text
// ---------------------------------------------------------------------------

/// The first `i` lines joined with line feeds.
pub open spec fn join_upto(lines: Seq<Seq<char>>, i: int) -> Seq<char>
    decreases i,
{
    if i <= 0 || i > lines.len() {
        Seq::empty()
    } else if i == 1 {
        lines[0]
    } else {
        join_upto(lines, i - 1) + seq!['\n'] + lines[i - 1]
    }
}

/// All lines joined with line feeds.
pub open spec fn spec_join(lines: Seq<Seq<char>>) -> Seq<char> {
    join_upto(lines, lines.len() as int)
}

// ---------------------------------------------------------------------------
// Quote pairing
// ---------------------------------------------------------------------------

/// The number of double quotes at or after index `i` of a line.
pub open spec fn dq_from(l: Seq<char>, i: int) -> int
    decreases l.len() - i,
{
    if i < 0 || i >= l.len() {
        0
    } else if l[i] == '"' {
        1 + dq_from(l, i + 1)
    } else {
        dq_from(l, i + 1)
    }
}

/// A line whose double quotes do not pair up.
pub open spec fn line_unmatched(l: Seq<char>) -> bool {
    dq_from(l, 0) % 2 == 1
}

/// Index of the first line at or after `i` with unmatched quotes (-1 if
/// there is none).
pub open spec fn unmatched_from(lines: Seq<Seq<char>>, i: int) -> int
    decreases lines.len() - i,
{
    if i < 0 || i >= lines.len() {
        -1
    } else if line_unmatched(lines[i]) {
        i
    } else {
        unmatched_from(lines, i + 1)
    }
}

/// Whether `l` has an odd number of double quotes.
fn line_has_unmatched(l: &str) -> (r: bool)
    ensures
        r == line_unmatched(l@),
{
    let n = l.unicode_len();
    let mut count: usize = 0;
    let mut i: usize = 0;
    while i < n
        invariant
            0 <= i <= n,
            n == l@.len(),
            count <= i,
            dq_from(l@, 0) == count + dq_from(l@, i as int),
        decreases n - i,
    {
        if char_at(l, i) == '"' {
            count += 1;
        }
        i += 1;
    }
    count % 2 == 1
}

/// The first line of the document whose double quotes do not pair up, if
/// there is one. Only double quotes are checked: apostrophes in prose are
/// not quoting.
pub fn unmatched_quotes(yaml: &Yaml) -> (r: Option<String>)
    ensures
        (r is Some) <==> unmatched_from(yaml@.lines, 0) >= 0,
        r matches Some(l) ==> l@ == yaml@.lines[unmatched_from(yaml@.lines, 0)],
{
    let n = yaml.lines.len();
    let mut i: usize = 0;
    while i < n
        invariant
            0 <= i <= n,
            n == yaml@.lines.len(),
            unmatched_from(yaml@.lines, 0) == unmatched_from(yaml@.lines, i as int),
        decreases n - i,
    {
        let l = yaml.lines[i].as_str();
        proof {
            assert(l@ == yaml@.lines[i as int]);
        }
        if line_has_unmatched(l) {
            return Some(yaml.lines[i].clone());
        }
        i += 1;
    }
    None
}

/// The items of a node, each as its text: the lines of each item joined with
/// line feeds.
pub open spec fn spec_scalar_items(lines: Seq<Seq<char>>) -> Seq<Seq<char>> {
    spec_items(lines).map_values(|v: YamlView| spec_join(v.lines))
}

// ---------------------------------------------------------------------------
// First-scalar extraction
// ---------------------------------------------------------------------------

/// The first scalar of the section named `name`: the text of the section's
/// first item, with one outermost pair of matching single or double quotes
/// stripped; empty if the section has no items.
pub open spec fn spec_unwrap(lines: Seq<Seq<char>>, name: Seq<char>) -> Seq<char>
    recommends
        spec_has_section(lines, name),
{
    let its = spec_items(spec_section_block(lines, name));
    if its.len() > 0 {
        crate::text::spec_unquote_value(spec_join(its[0].lines))
    } else {
        Seq::empty()
    }
}

/// Takes the section of `yaml` named `section`, and returns its first value
/// as a string with one outermost pair of matching single or double quotes
/// stripped. A section without items yields the empty string.
pub fn unwrap(yaml: &Yaml, section: &str) -> (r: String)
    requires
        spec_has_section(yaml@.lines, section@),
    ensures
        r@ == spec_unwrap(yaml@.lines, section@),
{
    match yaml.get_section(section) {
        Ok(s) => match s.nth(0) {
            Some(item) => crate::text::unquote_value(item.text().as_str()),
            None => String::new(),
        },
        Err(_) => {
            proof {
                assert(false);
            }
            String::new()
        },
    }
}

// ---------------------------------------------------------------------------
// Construction and naming
// ---------------------------------------------------------------------------

impl Yaml {
    /// Reads a document from its source text. The node keeps the lines of the
    /// text and is named by the empty string.
    pub fn from_text(text: &str) -> (y: Yaml)
        ensures
            y@.name == Seq::<char>::empty(),
            y@.lines == spec_split_lines(text@),
    {
        Yaml { name: String::new(), lines: split_lines(text) }
    }

    /// The name of this node: the key under which it was found, or the empty
    /// string at the root.
    pub fn get_name(&self) -> (r: String)
        ensures
            r@ == self@.name,
    {
        self.name.clone()
    }

    /// Whether line `j` is ignored (blank or a comment).
    fn ignored_at(&self, j: usize) -> (r: bool)
        requires
            j < self@.lines.len(),
        ensures
            r == ignored_line(self@.lines[j as int]),
    {
        let l = self.lines[j].as_str();
        proof {
            assert(l@ == self@.lines[j as int]);
        }
        line_ignored(l)
    }

    /// Whether line `j` returns to the first column: real content with
    /// indentation zero.
    fn col0_at(&self, j: usize) -> (r: bool)
        requires
            j < self@.lines.len(),
        ensures
            r == (!ignored_line(self@.lines[j as int]) && indent_of(self@.lines[j as int]) == 0),
    {
        let l = self.lines[j].as_str();
        proof {
            assert(l@ == self@.lines[j as int]);
        }
        !line_ignored(l) && line_indent(l) == 0
    }

    /// Index of the first key line naming `name`, if any.
    fn key_index(&self, name: &str) -> (r: Option<usize>)
        ensures
            match r {
                Some(i) => i < self@.lines.len() && key_index_from(self@.lines, name@, 0)
                    == i as int && is_key_line(self@.lines[i as int]) && key_of(
                    self@.lines[i as int],
                ) == name@,
                None => key_index_from(self@.lines, name@, 0) == -1,
            },
    {
        let n = self.lines.len();
        let mut i: usize = 0;
        while i < n
            invariant
                0 <= i <= n,
                n == self@.lines.len(),
                key_index_from(self@.lines, name@, 0) == key_index_from(
                    self@.lines,
                    name@,
                    i as int,
                ),
            decreases n - i,
        {
            let l = self.lines[i].as_str();
            proof {
                assert(l@ == self@.lines[i as int]);
            }
            if line_is_key(l) && str_eq(line_key(l), name) {
                return Some(i);
            }
            i += 1;
        }
        None
    }

    /// Whether this node has a section named `name`.
    pub fn has_section(&self, name: &str) -> (r: bool)
        ensures
            r == spec_has_section(self@.lines, name@),
    {
        self.key_index(name).is_some()
    }

    /// The section of this node named `name`, or a typed missing-section
    /// failure naming this node and the key that was not found.
    pub fn get_section(&self, name: &str) -> (r: Result<Yaml, CiError>)
        ensures
            (r is Ok) <==> spec_has_section(self@.lines, name@),
            r matches Ok(s) ==> s@.name == name@ && s@.lines == spec_section_block(
                self@.lines,
                name@,
            ),
            r matches Err(e) ==> e@ == (crate::error::CiErrorView::MissingSection {
                entity: self@.name,
                section: name@,
            }),
    {
        let i = match self.key_index(name) {
            Some(i) => i,
            None => {
                return Err(
                    CiError::MissingSection { entity: self.name.clone(), section: name.to_owned() },
                );
            },
        };
        let key_line = self.lines[i].as_str();
        proof {
            assert(key_line@ == self@.lines[i as int]);
        }
        let v = line_value(key_line);
        if v.unicode_len() > 0 {
            let mut content: Vec<String> = Vec::new();
            content.push(v.to_owned());
            proof {
                assert(content.deep_view() =~= seq![value_of(self@.lines[i as int])]);
            }
            return Ok(Yaml { name: name.to_owned(), lines: content });
        }
        let n = self.lines.len();
        // the block ends at the next non-ignored line in the first column
        let mut e: usize = i + 1;
        while e < n && !self.col0_at(e)
            invariant
                i + 1 <= e <= n,
                n == self@.lines.len(),
                block_end_from(self@.lines, i + 1) == block_end_from(self@.lines, e as int),
            decreases n - e,
        {
            e += 1;
        }
        proof {
            assert(block_end_from(self@.lines, i + 1) == e as int);
        }
        // the block is dedented by the indentation of its first real line
        let mut k: usize = i + 1;
        while k < e && self.ignored_at(k)
            invariant
                i + 1 <= k <= e <= n,
                n == self@.lines.len(),
                block_indent_from(self@.lines, i + 1, e as int) == block_indent_from(
                    self@.lines,
                    k as int,
                    e as int,
                ),
            decreases e - k,
        {
            k += 1;
        }
        let d: usize = if k < e {
            let l = self.lines[k].as_str();
            proof {
                assert(l@ == self@.lines[k as int]);
            }
            line_indent(l)
        } else {
            0
        };
        proof {
            assert(d as int == block_indent_from(self@.lines, i + 1, e as int));
        }
        let mut content: Vec<String> = Vec::new();
        let mut j: usize = i + 1;
        while j < e
            invariant
                i + 1 <= j <= e <= n,
                n == self@.lines.len(),
                content.deep_view() =~= self@.lines.subrange(i + 1, j as int).map_values(
                    |l: Seq<char>| dedent_line(l, d as int),
                ),
            decreases e - j,
        {
            let l = self.lines[j].as_str();
            proof {
                assert(l@ == self@.lines[j as int]);
            }
            let ind = line_indent(l);
            let cut = if ind < d {
                ind
            } else {
                d
            };
            let dl = l.substring_char(cut, l.unicode_len()).to_owned();
            proof {
                assert(cut as int == (if indent_of(l@) < d as int {
                    indent_of(l@)
                } else {
                    d as int
                }));
                assert(dl@ =~= dedent_line(l@, d as int));
            }
            let ghost old_content = content.deep_view();
            content.push(dl);
            proof {
                assert(content.deep_view() =~= old_content + seq![dedent_line(l@, d as int)]);
                assert(content.deep_view() =~= self@.lines.subrange(i + 1, j + 1).map_values(
                    |l: Seq<char>| dedent_line(l, d as int),
                ));
            }
            j += 1;
        }
        proof {
            assert(content.deep_view() =~= spec_section_block(self@.lines, name@));
        }
        Ok(Yaml { name: name.to_owned(), lines: content })
    }

    /// The names of the sections of this node, in document order.
    pub fn get_section_names(&self) -> (r: Vec<String>)
        ensures
            r.deep_view() == spec_section_names(self@.lines),
    {
        let n = self.lines.len();
        let mut r: Vec<String> = Vec::new();
        let mut i: usize = 0;
        while i < n
            invariant
                0 <= i <= n,
                n == self@.lines.len(),
                spec_section_names(self@.lines) =~= r.deep_view() + names_from(
                    self@.lines,
                    i as int,
                ),
            decreases n - i,
        {
            let l = self.lines[i].as_str();
            proof {
                assert(l@ == self@.lines[i as int]);
            }
            if line_is_key(l) {
                let ghost old_r = r.deep_view();
                r.push(line_key(l).to_owned());
                proof {
                    assert(r.deep_view() =~= old_r + seq![key_of(l@)]);
                    assert(old_r + names_from(self@.lines, i as int) =~= r.deep_view()
                        + names_from(self@.lines, i + 1));
                }
            }
            i += 1;
        }
        r
    }

    /// The items of this node: the values of a sequence, the child sections
    /// of a mapping, or the node itself for plain scalar text.
    pub fn items(&self) -> (r: Vec<Yaml>)
        ensures
            r@.map_values(|y: Yaml| y@) == spec_items(self@.lines),
    {
        let n = self.lines.len();
        // find the first line that carries content
        let mut f: usize = 0;
        while f < n && self.ignored_at(f)
            invariant
                0 <= f <= n,
                n == self@.lines.len(),
                doc_sig_from(self@.lines, 0) == doc_sig_from(self@.lines, f as int),
            decreases n - f,
        {
            f += 1;
        }
        proof {
            assert(doc_sig_from(self@.lines, 0) == f as int);
        }
        let mut r: Vec<Yaml> = Vec::new();
        if f >= n {
            proof {
                assert(r@.map_values(|y: Yaml| y@) =~= spec_items(self@.lines));
            }
            return r;
        }
        let first = self.lines[f].as_str();
        proof {
            assert(first@ == self@.lines[f as int]);
        }
        if line_is_item(first) {
            // a sequence of scalar values
            let mut i: usize = 0;
            while i < n
                invariant
                    0 <= i <= n,
                    n == self@.lines.len(),
                    item_values_from(self@.lines, 0).map_values(
                        |v: Seq<char>| scalar_view(v),
                    ) =~= r@.map_values(|y: Yaml| y@) + item_values_from(
                        self@.lines,
                        i as int,
                    ).map_values(|v: Seq<char>| scalar_view(v)),
                decreases n - i,
            {
                let l = self.lines[i].as_str();
                proof {
                    assert(l@ == self@.lines[i as int]);
                }
                if line_is_item(l) {
                    let mut content: Vec<String> = Vec::new();
                    content.push(line_item_value(l).to_owned());
                    let ghost old_vs = r@.map_values(|y: Yaml| y@);
                    let y = Yaml { name: String::new(), lines: content };
                    proof {
                        assert(y@.lines =~= seq![item_value(l@)]);
                        assert(y@ == scalar_view(item_value(l@)));
                    }
                    r.push(y);
                    proof {
                        assert(r@.map_values(|y: Yaml| y@) =~= old_vs + seq![
                            scalar_view(item_value(l@)),
                        ]);
                        assert(item_values_from(self@.lines, i as int).map_values(
                            |v: Seq<char>| scalar_view(v),
                        ) =~= seq![scalar_view(item_value(l@))] + item_values_from(
                            self@.lines,
                            i + 1,
                        ).map_values(|v: Seq<char>| scalar_view(v)));
                    }
                } else {
                    proof {
                        assert(item_values_from(self@.lines, i as int) == item_values_from(
                            self@.lines,
                            i + 1,
                        ));
                    }
                }
                i += 1;
            }
            proof {
                assert(r@.map_values(|y: Yaml| y@) =~= item_values_from(
                    self@.lines,
                    0,
                ).map_values(|v: Seq<char>| scalar_view(v)));
            }
            r
        } else if line_is_key(first) {
            // a mapping: one child node per section name
            let names = self.get_section_names();
            proof {
                lemma_names_have_sections(self@.lines, 0);
            }
            let m = names.len();
            let mut i: usize = 0;
            while i < m
                invariant
                    0 <= i <= m,
                    m == spec_section_names(self@.lines).len(),
                    names.deep_view() == spec_section_names(self@.lines),
                    forall|k: int|
                        0 <= k < spec_section_names(self@.lines).len() ==> spec_has_section(
                            self@.lines,
                            #[trigger] spec_section_names(self@.lines)[k],
                        ),
                    r@.map_values(|y: Yaml| y@) =~= spec_section_names(self@.lines).subrange(
                        0,
                        i as int,
                    ).map_values(
                        |nm: Seq<char>| YamlView {
                            name: nm,
                            lines: spec_section_block(self@.lines, nm),
                        },
                    ),
                decreases m - i,
            {
                let name = names[i].as_str();
                proof {
                    assert(name@ == spec_section_names(self@.lines)[i as int]);
                }
                match self.get_section(name) {
                    Ok(s) => {
                        let ghost old_vs = r@.map_values(|y: Yaml| y@);
                        r.push(s);
                        proof {
                            let vs = r@.map_values(|y: Yaml| y@);
                            assert(vs =~= old_vs + seq![
                                YamlView {
                                    name: name@,
                                    lines: spec_section_block(self@.lines, name@),
                                },
                            ]);
                            assert(vs =~= spec_section_names(self@.lines).subrange(
                                0,
                                i + 1,
                            ).map_values(
                                |nm: Seq<char>| YamlView {
                                    name: nm,
                                    lines: spec_section_block(self@.lines, nm),
                                },
                            ));
                        }
                    },
                    Err(_) => {
                        proof {
                            assert(false);
                        }
                    },
                }
                i += 1;
            }
            proof {
                assert(spec_section_names(self@.lines).subrange(
                    0,
                    spec_section_names(self@.lines).len() as int,
                ) =~= spec_section_names(self@.lines));
                assert(r@.map_values(|y: Yaml| y@) =~= spec_items(self@.lines));
            }
            r
        } else {
            // plain scalar text: the node itself, namelessly
            let mut content: Vec<String> = Vec::new();
            let mut j: usize = 0;
            while j < n
                invariant
                    0 <= j <= n,
                    n == self@.lines.len(),
                    content.deep_view() =~= self@.lines.subrange(0, j as int),
                decreases n - j,
            {
                let ghost old_content = content.deep_view();
                content.push(self.lines[j].clone());
                proof {
                    assert(content.deep_view() =~= old_content + seq![self@.lines[j as int]]);
                    assert(content.deep_view() =~= self@.lines.subrange(0, j + 1));
                }
                j += 1;
            }
            proof {
                assert(content.deep_view() =~= self@.lines);
            }
            r.push(Yaml { name: String::new(), lines: content });
            proof {
                assert(r@.map_values(|y: Yaml| y@) =~= spec_items(self@.lines));
            }
            r
        }
    }

    /// The `n`-th item of this node, if it has that many.
    pub fn nth(&self, n: usize) -> (r: Option<Yaml>)
        ensures
            match r {
                Some(y) => n < spec_items(self@.lines).len() && y@ == spec_items(
                    self@.lines,
                )[n as int],
                None => n >= spec_items(self@.lines).len(),
            },
    {
        let mut its = self.items();
        if n < its.len() {
            proof {
                assert(its@.map_values(|y: Yaml| y@)[n as int] == spec_items(
                    self@.lines,
                )[n as int]);
            }
            Some(its.swap_remove(n))
        } else {
            None
        }
    }

    /// The items of this node, each as its text.
    pub fn item_texts(&self) -> (r: Vec<String>)
        ensures
            r.deep_view() == spec_scalar_items(self@.lines),
    {
        let its = self.items();
        let n = its.len();
        let mut r: Vec<String> = Vec::new();
        let mut i: usize = 0;
        while i < n
            invariant
                0 <= i <= n,
                n == its@.len(),
                its@.map_values(|y: Yaml| y@) == spec_items(self@.lines),
                r.deep_view() =~= spec_scalar_items(self@.lines).subrange(0, i as int),
            decreases n - i,
        {
            let t = its[i].text();
            proof {
                assert(its@[i as int]@ == spec_items(self@.lines)[i as int]);
                assert(spec_scalar_items(self@.lines)[i as int] == spec_join(
                    spec_items(self@.lines)[i as int].lines,
                ));
            }
            let ghost old_r = r.deep_view();
            r.push(t);
            proof {
                assert(r.deep_view() =~= old_r + seq![
                    spec_scalar_items(self@.lines)[i as int],
                ]);
                assert(r.deep_view() =~= spec_scalar_items(self@.lines).subrange(0, i + 1));
            }
            i += 1;
        }
        proof {
            assert(r.deep_view() =~= spec_scalar_items(self@.lines));
        }
        r
    }

    /// The content of this node as text: its lines joined with line feeds.
    pub fn text(&self) -> (r: String)
        ensures
            r@ == spec_join(self@.lines),
    {
        let n = self.lines.len();
        let mut r = String::new();
        let mut i: usize = 0;
        proof {
            reveal_strlit("\n");
        }
        while i < n
            invariant
                0 <= i <= n,
                n == self@.lines.len(),
                r@ =~= join_upto(self@.lines, i as int),
                "\n"@ =~= seq!['\n'],
            decreases n - i,
        {
            if i > 0 {
                r.append("\n");
            }
            r.append(self.lines[i].as_str());
            proof {
                assert(self@.lines[i as int] == self.lines@[i as int]@);
                assert(r@ =~= join_upto(self@.lines, i + 1));
            }
            i += 1;
        }
        r
    }
}

} // verus!
