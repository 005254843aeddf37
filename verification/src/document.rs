//! The configuration document: a key-value text in two-level sections,
//!
//! ```text
//! [providers.mock]
//! data = "hello"        # a comment
//!
//! [hooks.command]
//! command = "cat"
//! pipe_data = true
//! ```
//!
//! The grammar is given by the spec functions in this module, line by line:
//! blank lines and `#` comments are skipped, `[table]` and `[table.name]`
//! headers open a section, and `key = value` lines add an assignment to the
//! section last opened. A value is a double-quoted string with the usual
//! backslash escapes, a single-quoted string taken verbatim, or one of the
//! booleans; keys and section names are bare words of letters, digits, `-`
//! and `_`. Assignments before any header belong to no section and are
//! ignored. Anything else — in particular multi-line strings, numbers,
//! arrays and inline tables — is a syntax error, reported with its line
//! number.
//!
//! Section order in the parsed document equals source order — this is what
//! lets the factory preserve hook declaration order.

use vstd::prelude::*;

use crate::errors::ConfigError;
use crate::text::{chars_to_string, text_to_chars};

verus! {

/// A setting's value, as mathematical values.
#[verifier::ext_equal]
pub enum ValueView {
    Str(Seq<char>),
    Bool(bool),
}

/// One `key = value` assignment, as mathematical values.
#[verifier::ext_equal]
pub struct EntryView {
    pub key: Seq<char>,
    pub value: ValueView,
}

/// One section, as mathematical values.
#[verifier::ext_equal]
pub struct SectionView {
    pub table: Seq<char>,
    pub name: Option<Seq<char>>,
    pub entries: Seq<EntryView>,
}

/// A setting's value: the subset of values the configuration schema uses.
#[derive(Debug, PartialEq)]
pub enum RawValue {
    Str(String),
    Bool(bool),
}

impl View for RawValue {
    type V = ValueView;

    open spec fn view(&self) -> ValueView {
        match self {
            RawValue::Str(s) => ValueView::Str(s@),
            RawValue::Bool(b) => ValueView::Bool(*b),
        }
    }
}

/// One `key = value` assignment.
#[derive(Debug, PartialEq)]
pub struct RawEntry {
    pub key: String,
    pub value: RawValue,
}

impl View for RawEntry {
    type V = EntryView;

    open spec fn view(&self) -> EntryView {
        EntryView { key: self.key@, value: self.value@ }
    }
}

/// One section: a `[table]` or `[table.name]` header and the assignments
/// under it.
#[derive(Debug, PartialEq)]
pub struct RawSection {
    pub table: String,
    pub name: Option<String>,
    pub entries: Vec<RawEntry>,
}

impl View for RawSection {
    type V = SectionView;

    open spec fn view(&self) -> SectionView {
        SectionView {
            table: self.table@,
            name: match self.name {
                Some(n) => Some(n@),
                None => None,
            },
            entries: self.entries@.map_values(|e: RawEntry| e@),
        }
    }
}

/// A parsed document: its sections, in source order.
#[derive(Debug, PartialEq)]
pub struct RawDoc {
    pub sections: Vec<RawSection>,
}

impl View for RawDoc {
    type V = Seq<SectionView>;

    open spec fn view(&self) -> Seq<SectionView> {
        self.sections@.map_values(|s: RawSection| s@)
    }
}

// ---------------------------------------------------------------------------
// The grammar, one line at a time.
// ---------------------------------------------------------------------------

/// Horizontal whitespace (a carriage return counts, so CRLF input works).
pub open spec fn is_space(c: char) -> bool {
    c == ' ' || c == '\t' || c == '\r'
}

/// Characters allowed in bare keys and section names.
pub open spec fn is_key_char(c: char) -> bool {
    ('a' <= c && c <= 'z') || ('A' <= c && c <= 'Z') || ('0' <= c && c <= '9') || c == '_' || c
        == '-'
}

/// What a backslash escape inside a quoted string denotes.
pub open spec fn escape_char(c: char) -> Option<char> {
    if c == '"' {
        Some('"')
    } else if c == '\\' {
        Some('\\')
    } else if c == 'n' {
        Some('\n')
    } else if c == 't' {
        Some('\t')
    } else if c == 'r' {
        Some('\r')
    } else {
        None
    }
}

/// First position at or after `i` that is not horizontal whitespace.
pub open spec fn skip_spaces(l: Seq<char>, i: int) -> int
    decreases l.len() - i,
{
    if i < l.len() && is_space(l[i]) {
        skip_spaces(l, i + 1)
    } else {
        i
    }
}

/// First position at or after `i` that is not a key character.
pub open spec fn key_end(l: Seq<char>, i: int) -> int
    decreases l.len() - i,
{
    if i < l.len() && is_key_char(l[i]) {
        key_end(l, i + 1)
    } else {
        i
    }
}

/// Whether everything from `i` on is whitespace, possibly followed by a
/// comment.
pub open spec fn rest_is_blank(l: Seq<char>, i: int) -> bool {
    let j = skip_spaces(l, i);
    j >= l.len() || l[j] == '#'
}

/// Scans a quoted string's body from `i` (just after the opening quote) to
/// its closing quote: the denoted characters and the position after the
/// quote, or nothing if the string is unterminated or an escape is unknown.
pub open spec fn scan_string(l: Seq<char>, i: int) -> Option<(Seq<char>, int)>
    decreases l.len() - i,
{
    if i >= l.len() {
        None
    } else if l[i] == '"' {
        Some((Seq::empty(), i + 1))
    } else if l[i] == '\\' {
        if i + 1 < l.len() {
            match escape_char(l[i + 1]) {
                Some(c) => match scan_string(l, i + 2) {
                    Some((s, j)) => Some((seq![c] + s, j)),
                    None => None,
                },
                None => None,
            }
        } else {
            None
        }
    } else {
        match scan_string(l, i + 1) {
            Some((s, j)) => Some((seq![l[i]] + s, j)),
            None => None,
        }
    }
}

/// Scans a literal (single-quoted) string's body from `i` (just after the
/// opening quote) to its closing quote: the characters, taken verbatim, and
/// the position after the quote, or nothing if the string is unterminated.
pub open spec fn scan_literal(l: Seq<char>, i: int) -> Option<(Seq<char>, int)>
    decreases l.len() - i,
{
    if i >= l.len() {
        None
    } else if l[i] == '\'' {
        Some((Seq::empty(), i + 1))
    } else {
        match scan_literal(l, i + 1) {
            Some((s, j)) => Some((seq![l[i]] + s, j)),
            None => None,
        }
    }
}

/// A header line: `[table]` or `[table.name]`, with nothing but whitespace or
/// a comment after it.
pub open spec fn parse_header(l: Seq<char>) -> Option<(Seq<char>, Option<Seq<char>>)> {
    let i0 = skip_spaces(l, 0);
    if i0 < l.len() && l[i0] == '[' {
        let k1e = key_end(l, i0 + 1);
        if k1e == i0 + 1 {
            None
        } else if k1e < l.len() && l[k1e] == ']' {
            if rest_is_blank(l, k1e + 1) {
                Some((l.subrange(i0 + 1, k1e), None))
            } else {
                None
            }
        } else if k1e < l.len() && l[k1e] == '.' {
            let k2e = key_end(l, k1e + 1);
            if k2e == k1e + 1 {
                None
            } else if k2e < l.len() && l[k2e] == ']' && rest_is_blank(l, k2e + 1) {
                Some((l.subrange(i0 + 1, k1e), Some(l.subrange(k1e + 1, k2e))))
            } else {
                None
            }
        } else {
            None
        }
    } else {
        None
    }
}

/// An assignment line: `key = value`, where the value is a quoted string or
/// a boolean, with nothing but whitespace or a comment after it.
pub open spec fn parse_pair(l: Seq<char>) -> Option<(Seq<char>, ValueView)> {
    let i0 = skip_spaces(l, 0);
    let ke = key_end(l, i0);
    if ke == i0 {
        None
    } else {
        let j = skip_spaces(l, ke);
        if j < l.len() && l[j] == '=' {
            let v = skip_spaces(l, j + 1);
            if v < l.len() && l[v] == '"' {
                match scan_string(l, v + 1) {
                    Some((s, e)) => if rest_is_blank(l, e) {
                        Some((l.subrange(i0, ke), ValueView::Str(s)))
                    } else {
                        None
                    },
                    None => None,
                }
            } else if v < l.len() && l[v] == '\'' {
                match scan_literal(l, v + 1) {
                    Some((s, e)) => if rest_is_blank(l, e) {
                        Some((l.subrange(i0, ke), ValueView::Str(s)))
                    } else {
                        None
                    },
                    None => None,
                }
            } else {
                let we = key_end(l, v);
                if l.subrange(v, we) == seq!['t', 'r', 'u', 'e'] && rest_is_blank(l, we) {
                    Some((l.subrange(i0, ke), ValueView::Bool(true)))
                } else if l.subrange(v, we) == seq!['f', 'a', 'l', 's', 'e'] && rest_is_blank(
                    l,
                    we,
                ) {
                    Some((l.subrange(i0, ke), ValueView::Bool(false)))
                } else {
                    None
                }
            }
        } else {
            None
        }
    }
}

/// What one line of the document is.
pub enum LineView {
    /// Blank, or only a comment.
    Blank,
    /// A section header.
    Header { table: Seq<char>, name: Option<Seq<char>> },
    /// An assignment.
    Pair { key: Seq<char>, value: ValueView },
    /// A syntax error.
    Bad,
}

/// Classifies one line of the document.
pub open spec fn classify_line(l: Seq<char>) -> LineView {
    let i0 = skip_spaces(l, 0);
    if i0 >= l.len() || l[i0] == '#' {
        LineView::Blank
    } else if l[i0] == '[' {
        match parse_header(l) {
            Some((table, name)) => LineView::Header { table, name },
            None => LineView::Bad,
        }
    } else {
        match parse_pair(l) {
            Some((key, value)) => LineView::Pair { key, value },
            None => LineView::Bad,
        }
    }
}

// ---------------------------------------------------------------------------
// Lines of a text, and the whole-document parse.
// ---------------------------------------------------------------------------

/// The lines of `s`, split at every line feed. A text has one line more than
/// it has line feeds; the empty text is one empty line.
pub open spec fn spec_lines(s: Seq<char>) -> Seq<Seq<char>>
    decreases s.len(),
{
    if s.len() == 0 {
        seq![Seq::<char>::empty()]
    } else if s[0] == '\n' {
        seq![Seq::<char>::empty()] + spec_lines(s.subrange(1, s.len() as int))
    } else {
        let rest = spec_lines(s.subrange(1, s.len() as int));
        seq![seq![s[0]] + rest[0]] + rest.subrange(1, rest.len() as int)
    }
}

/// A text always has at least one line.
proof fn lemma_spec_lines_nonempty(s: Seq<char>)
    ensures
        spec_lines(s).len() >= 1,
    decreases s.len(),
{
    if s.len() > 0 {
        lemma_spec_lines_nonempty(s.subrange(1, s.len() as int));
    }
}

/// Appending a character extends the last line, or — for a line feed —
/// starts a new empty line.
proof fn lemma_spec_lines_push(s: Seq<char>, c: char)
    ensures
        c == '\n' ==> spec_lines(s.push(c)) == spec_lines(s).push(Seq::<char>::empty()),
        c != '\n' ==> spec_lines(s.push(c)) == spec_lines(s).update(
            spec_lines(s).len() - 1,
            spec_lines(s).last().push(c),
        ),
    decreases s.len(),
{
    lemma_spec_lines_nonempty(s);
    if s.len() == 0 {
        assert(s.push(c) =~= seq![c]);
        assert(spec_lines(Seq::<char>::empty()) == seq![Seq::<char>::empty()]);
        assert(seq![c].subrange(1, 1) =~= Seq::<char>::empty());
        if c == '\n' {
            assert(spec_lines(s.push(c)) =~~= spec_lines(s).push(Seq::<char>::empty()));
        } else {
            assert(spec_lines(s.push(c)) =~~= spec_lines(s).update(
                0,
                spec_lines(s).last().push(c),
            ));
        }
    } else {
        let t = s.subrange(1, s.len() as int);
        lemma_spec_lines_nonempty(t);
        lemma_spec_lines_push(t, c);
        assert(s.push(c)[0] == s[0]);
        assert(s.push(c).subrange(1, s.len() + 1 as int) =~= t.push(c));
        let rest = spec_lines(t);
        let restp = spec_lines(t.push(c));
        if s[0] == '\n' {
            if c == '\n' {
                assert(spec_lines(s.push(c)) =~= seq![Seq::<char>::empty()] + restp);
                assert(seq![Seq::<char>::empty()] + rest.push(Seq::<char>::empty()) =~= (seq![
                    Seq::<char>::empty(),
                ] + rest).push(Seq::<char>::empty()));
            } else {
                assert(spec_lines(s.push(c)) =~= seq![Seq::<char>::empty()] + restp);
                assert(seq![Seq::<char>::empty()] + rest.update(
                    rest.len() - 1,
                    rest.last().push(c),
                ) =~= (seq![Seq::<char>::empty()] + rest).update(
                    rest.len() as int,
                    rest.last().push(c),
                ));
                assert(spec_lines(s).last() == rest.last());
            }
        } else {
            if c == '\n' {
                assert(spec_lines(s.push(c)) =~= seq![seq![s[0]] + restp[0]] + restp.subrange(
                    1,
                    restp.len() as int,
                ));
                assert(restp == rest.push(Seq::<char>::empty()));
                assert(restp[0] == rest[0]);
                assert(restp.subrange(1, restp.len() as int) =~= rest.subrange(
                    1,
                    rest.len() as int,
                ).push(Seq::<char>::empty()));
                assert(seq![seq![s[0]] + rest[0]] + rest.subrange(1, rest.len() as int).push(
                    Seq::<char>::empty(),
                ) =~= (seq![seq![s[0]] + rest[0]] + rest.subrange(1, rest.len() as int)).push(
                    Seq::<char>::empty(),
                ));
            } else {
                assert(spec_lines(s.push(c)) =~= seq![seq![s[0]] + restp[0]] + restp.subrange(
                    1,
                    restp.len() as int,
                ));
                assert(restp == rest.update(rest.len() - 1, rest.last().push(c)));
                if rest.len() == 1 {
                    assert(restp[0] == rest.last().push(c));
                    assert(restp.subrange(1, restp.len() as int) =~= rest.subrange(
                        1,
                        rest.len() as int,
                    ));
                    assert(spec_lines(s).last() == seq![s[0]] + rest[0]);
                    assert(seq![s[0]] + rest[0].push(c) =~= (seq![s[0]] + rest[0]).push(c));
                    assert(spec_lines(s.push(c)) =~= spec_lines(s).update(
                        spec_lines(s).len() - 1,
                        spec_lines(s).last().push(c),
                    ));
                } else {
                    assert(restp[0] == rest[0]);
                    assert(restp.subrange(1, restp.len() as int) =~= rest.subrange(
                        1,
                        rest.len() as int,
                    ).update(rest.len() - 2, rest.last().push(c)));
                    assert(spec_lines(s).last() == rest.last());
                    assert(spec_lines(s.push(c)) =~= spec_lines(s).update(
                        spec_lines(s).len() - 1,
                        spec_lines(s).last().push(c),
                    ));
                }
            }
        }
    }
}

/// A section list with one more assignment appended to its last section.
pub open spec fn push_entry(acc: Seq<SectionView>, e: EntryView) -> Seq<SectionView>
    recommends
        acc.len() > 0,
{
    acc.update(
        acc.len() - 1,
        SectionView {
            table: acc.last().table,
            name: acc.last().name,
            entries: acc.last().entries.push(e),
        },
    )
}

/// Parses the lines of a document, given the sections parsed so far and the
/// 1-based number of the first line; a syntax error is the number of its
/// line.
pub open spec fn parse_lines(lines: Seq<Seq<char>>, acc: Seq<SectionView>, lineno: int) -> Result<
    Seq<SectionView>,
    int,
>
    decreases lines.len(),
{
    if lines.len() == 0 {
        Ok(acc)
    } else {
        match classify_line(lines[0]) {
            LineView::Blank => parse_lines(lines.drop_first(), acc, lineno + 1),
            LineView::Header { table, name } => parse_lines(
                lines.drop_first(),
                acc.push(SectionView { table, name, entries: Seq::empty() }),
                lineno + 1,
            ),
            LineView::Pair { key, value } => if acc.len() == 0 {
                // An assignment before any header belongs to no section.
                parse_lines(lines.drop_first(), acc, lineno + 1)
            } else {
                parse_lines(lines.drop_first(), push_entry(acc, EntryView { key, value }), lineno + 1)
            },
            LineView::Bad => Err(lineno),
        }
    }
}

/// The whole-document parse: the sections of `text`, in source order, or the
/// line number of the first offending line.
pub open spec fn spec_parse_doc(text: Seq<char>) -> Result<Seq<SectionView>, int> {
    parse_lines(spec_lines(text), Seq::empty(), 1)
}

// ---------------------------------------------------------------------------
// The executable parser, verified against the grammar above.
// ---------------------------------------------------------------------------

/// The views of a vector of lines.
pub open spec fn lines_view(ls: Seq<Vec<char>>) -> Seq<Seq<char>> {
    ls.map_values(|l: Vec<char>| l@)
}

/// The views of a vector of sections.
pub open spec fn sections_view(ss: Seq<RawSection>) -> Seq<SectionView> {
    ss.map_values(|s: RawSection| s@)
}

fn is_space_exec(c: char) -> (r: bool)
    ensures
        r == is_space(c),
{
    c == ' ' || c == '\t' || c == '\r'
}

fn is_key_char_exec(c: char) -> (r: bool)
    ensures
        r == is_key_char(c),
{
    ('a' <= c && c <= 'z') || ('A' <= c && c <= 'Z') || ('0' <= c && c <= '9') || c == '_' || c
        == '-'
}

fn escape_char_exec(c: char) -> (r: Option<char>)
    ensures
        r == escape_char(c),
{
    if c == '"' {
        Some('"')
    } else if c == '\\' {
        Some('\\')
    } else if c == 'n' {
        Some('\n')
    } else if c == 't' {
        Some('\t')
    } else if c == 'r' {
        Some('\r')
    } else {
        None
    }
}

fn skip_spaces_exec(l: &Vec<char>, i: usize) -> (j: usize)
    requires
        i <= l@.len(),
    ensures
        j == skip_spaces(l@, i as int),
        i <= j <= l@.len(),
{
    let mut j: usize = i;
    while j < l.len() && is_space_exec(l[j])
        invariant
            i <= j <= l@.len(),
            skip_spaces(l@, i as int) == skip_spaces(l@, j as int),
        decreases l@.len() - j,
    {
        j = j + 1;
    }
    j
}

fn key_end_exec(l: &Vec<char>, i: usize) -> (j: usize)
    requires
        i <= l@.len(),
    ensures
        j == key_end(l@, i as int),
        i <= j <= l@.len(),
{
    let mut j: usize = i;
    while j < l.len() && is_key_char_exec(l[j])
        invariant
            i <= j <= l@.len(),
            key_end(l@, i as int) == key_end(l@, j as int),
        decreases l@.len() - j,
    {
        j = j + 1;
    }
    j
}

fn rest_is_blank_exec(l: &Vec<char>, i: usize) -> (r: bool)
    requires
        i <= l@.len(),
    ensures
        r == rest_is_blank(l@, i as int),
{
    let j = skip_spaces_exec(l, i);
    j >= l.len() || l[j] == '#'
}

/// The characters `l[a..b]`, as a fresh vector.
fn copy_range(l: &Vec<char>, a: usize, b: usize) -> (v: Vec<char>)
    requires
        a <= b <= l@.len(),
    ensures
        v@ == l@.subrange(a as int, b as int),
{
    let mut v: Vec<char> = Vec::new();
    let mut i: usize = a;
    while i < b
        invariant
            a <= i <= b <= l@.len(),
            v@ =~= l@.subrange(a as int, i as int),
        decreases b - i,
    {
        v.push(l[i]);
        i = i + 1;
        proof {
            assert(l@.subrange(a as int, i as int) =~= l@.subrange(a as int, i - 1 as int).push(
                l@[i - 1],
            ));
        }
    }
    proof {
        assert(v@ =~= l@.subrange(a as int, b as int));
    }
    v
}

fn scan_string_exec(l: &Vec<char>, start: usize) -> (r: Option<(Vec<char>, usize)>)
    requires
        start <= l@.len(),
    ensures
        match scan_string(l@, start as int) {
            Some((s, e)) => r matches Some(p) && p.0@ == s && p.1 == e && p.1 <= l@.len(),
            None => r is None,
        },
{
    let mut out: Vec<char> = Vec::new();
    let mut i: usize = start;
    loop
        invariant
            start <= i <= l@.len(),
            match scan_string(l@, i as int) {
                Some((s, e)) => scan_string(l@, start as int) matches Some(p) && p.0 == out@ + s
                    && p.1 == e,
                None => scan_string(l@, start as int) is None,
            },
        decreases l@.len() - i,
    {
        if i >= l.len() {
            return None;
        }
        let c = l[i];
        if c == '"' {
            proof {
                assert(out@ + Seq::<char>::empty() =~= out@);
            }
            return Some((out, i + 1));
        }
        if c == '\\' {
            if i + 1 >= l.len() {
                return None;
            }
            let d = match escape_char_exec(l[i + 1]) {
                Some(d) => d,
                None => return None,
            };
            let ghost prev = out@;
            out.push(d);
            i = i + 2;
            proof {
                match scan_string(l@, i as int) {
                    Some((s, e)) => {
                        assert(out@ + s =~= prev + (seq![d] + s));
                    },
                    None => {},
                }
            }
        } else {
            let ghost prev = out@;
            out.push(c);
            i = i + 1;
            proof {
                match scan_string(l@, i as int) {
                    Some((s, e)) => {
                        assert(out@ + s =~= prev + (seq![c] + s));
                    },
                    None => {},
                }
            }
        }
    }
}

fn scan_literal_exec(l: &Vec<char>, start: usize) -> (r: Option<(Vec<char>, usize)>)
    requires
        start <= l@.len(),
    ensures
        match scan_literal(l@, start as int) {
            Some((s, e)) => r matches Some(p) && p.0@ == s && p.1 == e && p.1 <= l@.len(),
            None => r is None,
        },
{
    let mut out: Vec<char> = Vec::new();
    let mut i: usize = start;
    loop
        invariant
            start <= i <= l@.len(),
            match scan_literal(l@, i as int) {
                Some((s, e)) => scan_literal(l@, start as int) matches Some(p) && p.0 == out@ + s
                    && p.1 == e,
                None => scan_literal(l@, start as int) is None,
            },
        decreases l@.len() - i,
    {
        if i >= l.len() {
            return None;
        }
        let c = l[i];
        if c == '\'' {
            proof {
                assert(out@ + Seq::<char>::empty() =~= out@);
            }
            return Some((out, i + 1));
        }
        let ghost prev = out@;
        out.push(c);
        i = i + 1;
        proof {
            match scan_literal(l@, i as int) {
                Some((s, e)) => {
                    assert(out@ + s =~= prev + (seq![c] + s));
                },
                None => {},
            }
        }
    }
}

/// Whether `l[a..b]` spells a boolean literal; `word_val` tells which.
fn word_bool(l: &Vec<char>, a: usize, b: usize) -> (r: Option<bool>)
    requires
        a <= b <= l@.len(),
    ensures
        l@.subrange(a as int, b as int) == seq!['t', 'r', 'u', 'e'] ==> r == Some(true),
        l@.subrange(a as int, b as int) == seq!['f', 'a', 'l', 's', 'e'] ==> r == Some(false),
        r matches Some(x) && x ==> l@.subrange(a as int, b as int) == seq!['t', 'r', 'u', 'e'],
        r matches Some(x) && !x ==> l@.subrange(a as int, b as int) == seq![
            'f',
            'a',
            'l',
            's',
            'e',
        ],
    {
    if b - a == 4 && l[a] == 't' && l[a + 1] == 'r' && l[a + 2] == 'u' && l[a + 3] == 'e' {
        proof {
            assert(l@.subrange(a as int, b as int) =~= seq!['t', 'r', 'u', 'e']);
        }
        Some(true)
    } else if b - a == 5 && l[a] == 'f' && l[a + 1] == 'a' && l[a + 2] == 'l' && l[a + 3] == 's'
        && l[a + 4] == 'e' {
        proof {
            assert(l@.subrange(a as int, b as int) =~= seq!['f', 'a', 'l', 's', 'e']);
        }
        Some(false)
    } else {
        proof {
            assert(l@.subrange(a as int, b as int).len() == b - a);
        }
        None
    }
}

/// What one line of the document is, as runtime data.
enum LineClass {
    Blank,
    Header { table: String, name: Option<String> },
    Pair { key: String, value: RawValue },
    Bad,
}

impl View for LineClass {
    type V = LineView;

    closed spec fn view(&self) -> LineView {
        match self {
            LineClass::Blank => LineView::Blank,
            LineClass::Header { table, name } => LineView::Header {
                table: table@,
                name: match name {
                    Some(n) => Some(n@),
                    None => None,
                },
            },
            LineClass::Pair { key, value } => LineView::Pair { key: key@, value: value@ },
            LineClass::Bad => LineView::Bad,
        }
    }
}

fn parse_header_exec(l: &Vec<char>) -> (r: Option<(String, Option<String>)>)
    ensures
        match parse_header(l@) {
            Some((t, n)) => r matches Some(p) && p.0@ == t && (match n {
                Some(nn) => p.1 matches Some(x) && x@ == nn,
                None => p.1 is None,
            }),
            None => r is None,
        },
{
    let i0 = skip_spaces_exec(l, 0);
    if i0 >= l.len() || l[i0] != '[' {
        return None;
    }
    let k1s = i0 + 1;
    let k1e = key_end_exec(l, k1s);
    if k1e == k1s {
        return None;
    }
    if k1e < l.len() && l[k1e] == ']' {
        if rest_is_blank_exec(l, k1e + 1) {
            let table = chars_to_string(&copy_range(l, k1s, k1e));
            return Some((table, None));
        }
        return None;
    }
    if k1e < l.len() && l[k1e] == '.' {
        let k2s = k1e + 1;
        let k2e = key_end_exec(l, k2s);
        if k2e == k2s {
            return None;
        }
        if k2e < l.len() && l[k2e] == ']' {
            if rest_is_blank_exec(l, k2e + 1) {
                let table = chars_to_string(&copy_range(l, k1s, k1e));
                let name = chars_to_string(&copy_range(l, k2s, k2e));
                return Some((table, Some(name)));
            }
        }
        return None;
    }
    None
}

fn parse_pair_exec(l: &Vec<char>) -> (r: Option<(String, RawValue)>)
    ensures
        match parse_pair(l@) {
            Some((k, v)) => r matches Some(p) && p.0@ == k && p.1@ == v,
            None => r is None,
        },
{
    let i0 = skip_spaces_exec(l, 0);
    let ke = key_end_exec(l, i0);
    if ke == i0 {
        return None;
    }
    let j = skip_spaces_exec(l, ke);
    if j >= l.len() || l[j] != '=' {
        return None;
    }
    let v = skip_spaces_exec(l, j + 1);
    if v < l.len() && l[v] == '"' {
        let (body, e) = match scan_string_exec(l, v + 1) {
            Some(p) => p,
            None => return None,
        };
        if rest_is_blank_exec(l, e) {
            let key = chars_to_string(&copy_range(l, i0, ke));
            let value = RawValue::Str(chars_to_string(&body));
            return Some((key, value));
        }
        return None;
    }
    if v < l.len() && l[v] == '\'' {
        let (body, e) = match scan_literal_exec(l, v + 1) {
            Some(p) => p,
            None => return None,
        };
        if rest_is_blank_exec(l, e) {
            let key = chars_to_string(&copy_range(l, i0, ke));
            let value = RawValue::Str(chars_to_string(&body));
            return Some((key, value));
        }
        return None;
    }
    let we = key_end_exec(l, v);
    match word_bool(l, v, we) {
        Some(x) => {
            if rest_is_blank_exec(l, we) {
                let key = chars_to_string(&copy_range(l, i0, ke));
                Some((key, RawValue::Bool(x)))
            } else {
                None
            }
        },
        None => None,
    }
}

fn classify_line_exec(l: &Vec<char>) -> (r: LineClass)
    ensures
        r@ == classify_line(l@),
{
    let i0 = skip_spaces_exec(l, 0);
    if i0 >= l.len() || l[i0] == '#' {
        return LineClass::Blank;
    }
    if l[i0] == '[' {
        return match parse_header_exec(l) {
            Some((table, name)) => LineClass::Header { table, name },
            None => LineClass::Bad,
        };
    }
    match parse_pair_exec(l) {
        Some((key, value)) => LineClass::Pair { key, value },
        None => LineClass::Bad,
    }
}

/// Splits a text into its lines, exactly as `spec_lines` says.
fn split_lines(chars: &Vec<char>) -> (lines: Vec<Vec<char>>)
    ensures
        lines_view(lines@) == spec_lines(chars@),
{
    let mut out: Vec<Vec<char>> = Vec::new();
    let mut cur: Vec<char> = Vec::new();
    let mut i: usize = 0;
    while i < chars.len()
        invariant
            i <= chars@.len(),
            lines_view(out@).push(cur@) == spec_lines(chars@.subrange(0, i as int)),
        decreases chars@.len() - i,
    {
        let c = chars[i];
        let ghost prefix = chars@.subrange(0, i as int);
        proof {
            assert(chars@.subrange(0, i + 1 as int) =~= prefix.push(chars@[i as int]));
            lemma_spec_lines_push(prefix, chars@[i as int]);
        }
        if c == '\n' {
            let ghost old_out = out@;
            let ghost old_cur = cur@;
            out.push(cur);
            cur = Vec::new();
            proof {
                assert(lines_view(out@) =~= lines_view(old_out).push(old_cur));
                assert(lines_view(out@).push(cur@) =~~= spec_lines(prefix).push(
                    Seq::<char>::empty(),
                ));
            }
        } else {
            let ghost old_cur = cur@;
            cur.push(c);
            proof {
                let lv = lines_view(out@).push(old_cur);
                assert(lv.last() == old_cur);
                assert(lines_view(out@).push(cur@) =~~= lv.update(lv.len() - 1, old_cur.push(c)));
            }
        }
        i = i + 1;
    }
    proof {
        assert(chars@.subrange(0, chars@.len() as int) =~= chars@);
    }
    let ghost old_out = out@;
    let ghost old_cur = cur@;
    out.push(cur);
    proof {
        assert(lines_view(out@) =~= lines_view(old_out).push(old_cur));
    }
    out
}

/// Parses a configuration document, exactly as `spec_parse_doc` says: the
/// sections in source order on success, and for malformed text the 1-based
/// number of the first offending line.
pub fn parse_document(text: &str) -> (r: Result<RawDoc, ConfigError>)
    ensures
        spec_parse_doc(text@) matches Ok(m) ==> (r matches Ok(d) && d@ == m),
        spec_parse_doc(text@) matches Err(line) ==> (r matches Err(e) && e matches
            ConfigError::Syntax { line: n } && n == line),
{
    let chars = text_to_chars(text);
    let lines = split_lines(&chars);
    let ghost lv = spec_lines(text@);
    let mut sections: Vec<RawSection> = Vec::new();
    proof {
        assert(lv.subrange(0, lv.len() as int) =~= lv);
        assert(sections_view(sections@) =~= Seq::<SectionView>::empty());
    }
    let mut i: usize = 0;
    while i < lines.len()
        invariant
            i <= lines@.len(),
            lines_view(lines@) == lv,
            lv == spec_lines(text@),
            parse_lines(lv.subrange(i as int, lv.len() as int), sections_view(sections@), i + 1)
                == spec_parse_doc(text@),
        decreases lines@.len() - i,
    {
        let ghost rest = lv.subrange(i as int, lv.len() as int);
        proof {
            assert(rest[0] == lv[i as int]);
            assert(rest.drop_first() =~= lv.subrange(i + 1 as int, lv.len() as int));
        }
        let cls = classify_line_exec(&lines[i]);
        match cls {
            LineClass::Blank => {},
            LineClass::Header { table, name } => {
                let ghost old_sections = sections@;
                let sec = RawSection { table, name, entries: Vec::new() };
                let ghost svw = sec@;
                sections.push(sec);
                proof {
                    assert(svw.entries =~= Seq::<EntryView>::empty());
                    assert(sections_view(sections@) =~~= sections_view(old_sections).push(svw));
                }
            },
            LineClass::Pair { key, value } => {
                if sections.len() > 0 {
                    let ghost old_sections = sections@;
                    let ghost ev = (RawEntry { key, value })@;
                    let mut last = match sections.pop() {
                        Some(s) => s,
                        None => {
                            proof {
                                assert(false);
                            }
                            return Err(ConfigError::Syntax { line: 1 });
                        },
                    };
                    last.entries.push(RawEntry { key, value });
                    sections.push(last);
                    proof {
                        assert(sections_view(sections@) =~~= push_entry(
                            sections_view(old_sections),
                            ev,
                        ));
                    }
                }
            },
            LineClass::Bad => {
                return Err(ConfigError::Syntax { line: i + 1 });
            },
        }
        i = i + 1;
    }
    proof {
        assert(lv.subrange(i as int, lv.len() as int) =~= Seq::<Seq<char>>::empty());
    }
    Ok(RawDoc { sections })
}

} // verus!
