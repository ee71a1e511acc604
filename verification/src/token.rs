//! Source tokens: a piece of script text together with the place in the
//! script files that it came from.

use vstd::prelude::*;
use vstd::string::{StrSliceExecFns, StringExecFns};
use std::ops::Range;
use std::sync::Arc;
use crate::date::{parse_date, Date};
use crate::report::{diag, diag_info, ErrorKey, Severity, Sink};

verus! {

/// Where a file comes from. Content of a mod overrides base content.
#[derive(Clone, Copy, Debug, PartialEq, Eq, PartialOrd, Ord, Hash, Structural)]
pub enum FileKind {
    Vanilla,
    Mod,
}

impl FileKind {
    /// The precedence of the kind: a higher rank overrides a lower one.
    pub open spec fn spec_rank(self) -> u8 {
        match self {
            FileKind::Vanilla => 0,
            FileKind::Mod => 1,
        }
    }

    #[verifier::when_used_as_spec(spec_rank)]
    pub fn rank(self) -> (r: u8)
        ensures
            r == self.spec_rank(),
    {
        match self {
            FileKind::Vanilla => 0,
            FileKind::Mod => 1,
        }
    }
}

/// The paths of the files that were loaded. A [`Loc`] names its file by an
/// index into this table.
pub struct PathTable {
    paths: Vec<(String, String)>,
}

impl View for PathTable {
    type V = Seq<(Seq<char>, Seq<char>)>;

    closed spec fn view(&self) -> Seq<(Seq<char>, Seq<char>)> {
        Seq::new(self.paths@.len(), |i: int| (self.paths@[i].0@, self.paths@[i].1@))
    }
}

impl PathTable {
    /// A table without files.
    pub fn new() -> (r: PathTable)
        ensures
            r@.len() == 0,
    {
        PathTable { paths: Vec::new() }
    }

    /// Records a file by its path inside the game directory and its full
    /// path, and returns the index that stands for it from now on.
    pub fn store(&mut self, local: String, fullpath: String) -> (idx: u32)
        requires
            old(self)@.len() < u32::MAX,
        ensures
            idx == old(self)@.len(),
            final(self)@ == old(self)@.push((local@, fullpath@)),
    {
        let n = self.paths.len();
        self.paths.push((local, fullpath));
        assert(self@ =~= old(self)@.push((local@, fullpath@)));
        n as u32
    }

    /// The number of files in the table.
    pub fn len(&self) -> (n: usize)
        ensures
            n == self@.len(),
    {
        self.paths.len()
    }

    /// The path inside the game directory of the file with the index.
    pub fn lookup_path(&self, idx: u32) -> (r: &str)
        requires
            idx < self@.len(),
        ensures
            r@ == self@[idx as int].0,
    {
        self.paths[idx as usize].0.as_str()
    }

    /// The full path of the file with the index.
    pub fn lookup_fullpath(&self, idx: u32) -> (r: &str)
        requires
            idx < self@.len(),
        ensures
            r@ == self@[idx as int].1,
    {
        self.paths[idx as usize].1.as_str()
    }
}

/// `Arc::clone`: the new pointer holds the value that the old one holds.
#[verifier::external_body]
fn arc_loc_clone(a: &Arc<Loc>) -> (r: Arc<Loc>)
    ensures
        r == *a,
{
    Arc::clone(a)
}

/// A place in a script file.
#[derive(Debug, PartialEq, Eq, PartialOrd, Ord, Hash)]
pub struct Loc {
    pub idx: u32,
    pub kind: FileKind,
    /// Line 0 means that the place is the file as a whole.
    pub line: u32,
    pub column: u32,
    /// In a macro expansion, the place of the macro's invocation.
    pub link: Option<Arc<Loc>>,
}

impl Clone for Loc {
    fn clone(&self) -> (r: Self)
        ensures
            r == *self,
    {
        let link = match &self.link {
            Some(a) => Some(arc_loc_clone(a)),
            None => None,
        };
        Loc { idx: self.idx, kind: self.kind, line: self.line, column: self.column, link }
    }
}

impl Loc {
    /// The place that stands for a whole file, which is recorded in `table`.
    pub fn for_file(table: &mut PathTable, pathname: String, kind: FileKind, fullpath: String) -> (r: Loc)
        requires
            old(table)@.len() < u32::MAX,
        ensures
            final(table)@ == old(table)@.push((pathname@, fullpath@)),
            r == (Loc { idx: old(table)@.len() as u32, kind, line: 0, column: 0, link: None }),
    {
        let idx = table.store(pathname, fullpath);
        Loc { idx, kind, line: 0, column: 0, link: None }
    }

    /// The file's path inside the game directory.
    pub fn pathname<'a>(&self, table: &'a PathTable) -> (r: &'a str)
        requires
            self.idx < table@.len(),
        ensures
            r@ == table@[self.idx as int].0,
    {
        table.lookup_path(self.idx)
    }

    /// The file's full path in the filesystem.
    pub fn fullpath<'a>(&self, table: &'a PathTable) -> (r: &'a str)
        requires
            self.idx < table@.len(),
        ensures
            r@ == table@[self.idx as int].1,
    {
        table.lookup_fullpath(self.idx)
    }

    /// Whether the two places are in the same file.
    pub fn same_file(&self, other: &Loc) -> (r: bool)
        ensures
            r == (self.idx == other.idx),
    {
        self.idx == other.idx
    }

    /// The call-site identity of the place: file, line and column.
    pub open spec fn spec_site(&self) -> (u32, u32, u32) {
        (self.idx, self.line, self.column)
    }

    #[verifier::when_used_as_spec(spec_site)]
    pub fn site(&self) -> (r: (u32, u32, u32))
        ensures
            r == self.spec_site(),
    {
        (self.idx, self.line, self.column)
    }
}


/// The characters of `s`, one element for each.
pub fn to_chars(s: &str) -> (v: Vec<char>)
    ensures
        v@ == s@,
{
    let mut v: Vec<char> = Vec::new();
    for c in it: s.chars()
        invariant
            v@ == s@.take(it.index() as int),
            it.seq() == s@,
    {
        v.push(c);
    }
    v
}

/// Whether the two strings hold the same characters.
pub fn str_eq(a: &str, b: &str) -> (r: bool)
    ensures
        r == (a@ == b@),
{
    let x = a.as_bytes();
    let y = b.as_bytes();
    proof {
        vstd::utf8::encode_utf8_decode_utf8(a@);
        vstd::utf8::encode_utf8_decode_utf8(b@);
    }
    if x.len() != y.len() {
        return false;
    }
    let mut i: usize = 0;
    while i < x.len()
        invariant
            i <= x.len(),
            x.len() == y.len(),
            x@ == vstd::utf8::encode_utf8(a@),
            y@ == vstd::utf8::encode_utf8(b@),
            forall|k: int| 0 <= k < i ==> x@[k] == y@[k],
        decreases x.len() - i,
    {
        if x[i] != y[i] {
            assert(x@[i as int] != y@[i as int]);
            return false;
        }
        i += 1;
    }
    assert(x@ =~= y@);
    true
}

/// The characters of `s` from position `from` up to `to`, as a new string.
fn substr(s: &str, from: usize, to: usize) -> (r: String)
    requires
        from <= to <= s@.len(),
    ensures
        r@ == s@.subrange(from as int, to as int),
{
    String::from_str(s.substring_char(from, to))
}

/// The length of the longest prefix of `s` whose characters all satisfy `p`.
pub open spec fn leading_run(s: Seq<char>, p: spec_fn(char) -> bool) -> nat
    decreases s.len(),
{
    if s.len() > 0 && p(s[0]) {
        1 + leading_run(s.drop_first(), p)
    } else {
        0
    }
}

/// The length of the longest suffix of `s` whose characters all satisfy `p`.
pub open spec fn trailing_run(s: Seq<char>, p: spec_fn(char) -> bool) -> nat
    decreases s.len(),
{
    if s.len() > 0 && p(s.last()) {
        1 + trailing_run(s.drop_last(), p)
    } else {
        0
    }
}

/// A prefix of `n` characters that satisfy `p`, followed by the end of the
/// text or by a character that does not, is the leading run.
pub proof fn lemma_leading_run(s: Seq<char>, p: spec_fn(char) -> bool, n: int)
    requires
        0 <= n <= s.len(),
        forall|i: int| 0 <= i < n ==> p(#[trigger] s[i]),
        n == s.len() || !p(s[n]),
    ensures
        leading_run(s, p) == n,
    decreases n,
{
    if n > 0 {
        let t = s.drop_first();
        assert forall|i: int| 0 <= i < n - 1 implies p(#[trigger] t[i]) by {
            assert(t[i] == s[i + 1]);
        }
        lemma_leading_run(t, p, n - 1);
    }
}

/// A suffix of `n` characters that satisfy `p`, preceded by the start of the
/// text or by a character that does not, is the trailing run.
pub proof fn lemma_trailing_run(s: Seq<char>, p: spec_fn(char) -> bool, n: int)
    requires
        0 <= n <= s.len(),
        forall|i: int| s.len() - n <= i < s.len() ==> p(#[trigger] s[i]),
        n == s.len() || !p(s[s.len() - n - 1]),
    ensures
        trailing_run(s, p) == n,
    decreases n,
{
    if n > 0 {
        let t = s.drop_last();
        assert forall|i: int| t.len() - (n - 1) <= i < t.len() implies p(#[trigger] t[i]) by {
            assert(t[i] == s[i]);
        }
        lemma_trailing_run(t, p, n - 1);
    }
}

/// The leading run is no longer than the text, its characters satisfy `p`,
/// and the character that follows it, if any, does not.
pub proof fn lemma_leading_run_props(s: Seq<char>, p: spec_fn(char) -> bool)
    ensures
        leading_run(s, p) <= s.len(),
        forall|i: int| 0 <= i < leading_run(s, p) ==> p(#[trigger] s[i]),
        leading_run(s, p) < s.len() ==> !p(s[leading_run(s, p) as int]),
    decreases s.len(),
{
    if s.len() > 0 && p(s[0]) {
        let t = s.drop_first();
        lemma_leading_run_props(t, p);
        assert forall|i: int| 0 <= i < leading_run(s, p) implies p(#[trigger] s[i]) by {
            if i > 0 {
                assert(s[i] == t[i - 1]);
            }
        }
    }
}

/// Whether the character has the Unicode property White_Space.
pub open spec fn spec_is_whitespace(c: char) -> bool {
    ||| c == ' '
    ||| ('\u{9}' <= c && c <= '\u{d}')
    ||| c == '\u{85}'
    ||| c == '\u{a0}'
    ||| c == '\u{1680}'
    ||| ('\u{2000}' <= c && c <= '\u{200a}')
    ||| c == '\u{2028}'
    ||| c == '\u{2029}'
    ||| c == '\u{202f}'
    ||| c == '\u{205f}'
    ||| c == '\u{3000}'
}

#[verifier::when_used_as_spec(spec_is_whitespace)]
pub fn is_whitespace(c: char) -> (r: bool)
    ensures
        r == spec_is_whitespace(c),
{
    c == ' ' || ('\u{9}' <= c && c <= '\u{d}') || c == '\u{85}' || c == '\u{a0}' || c == '\u{1680}'
        || ('\u{2000}' <= c && c <= '\u{200a}') || c == '\u{2028}' || c == '\u{2029}'
        || c == '\u{202f}' || c == '\u{205f}' || c == '\u{3000}'
}

/// The predicate "is a whitespace character".
pub open spec fn whitespace() -> spec_fn(char) -> bool {
    |c: char| spec_is_whitespace(c)
}

/// The predicate "is the character `ch`".
pub open spec fn exactly(ch: char) -> spec_fn(char) -> bool {
    |c: char| c == ch
}

/// The predicate "is not the character `ch`".
pub open spec fn other_than(ch: char) -> spec_fn(char) -> bool {
    |c: char| c != ch
}

/// The number of bytes that the character takes in UTF-8.
pub open spec fn spec_len_utf8(c: char) -> nat {
    if (c as u32) < 0x80 {
        1
    } else if (c as u32) < 0x800 {
        2
    } else if (c as u32) < 0x10000 {
        3
    } else {
        4
    }
}

pub fn len_utf8(c: char) -> (r: u32)
    ensures
        r == spec_len_utf8(c),
{
    let v: u32 = c as u32;
    if v < 0x80 {
        1
    } else if v < 0x800 {
        2
    } else if v < 0x10000 {
        3
    } else {
        4
    }
}

/// The number of bytes that the text takes in UTF-8.
pub open spec fn utf8_len(text: Seq<char>) -> nat
    decreases text.len(),
{
    if text.len() == 0 {
        0
    } else {
        utf8_len(text.drop_last()) + spec_len_utf8(text.last())
    }
}

/// The byte at which character `k` of the text starts in UTF-8. For `k`
/// the number of characters, it is the byte where the text ends.
pub open spec fn byte_offset(text: Seq<char>, k: int) -> nat {
    utf8_len(text.take(k))
}

/// Whether both ends of a range of bytes stand where a character of the
/// text starts, or where the text ends, the first not after the second.
pub open spec fn on_char_boundaries(text: Seq<char>, start: int, end: int) -> bool {
    exists|a: int, b: int|
        0 <= a <= b <= text.len() && #[trigger] byte_offset(text, a) == start && #[trigger] byte_offset(text, b)
            == end
}

/// The text starts at byte 0, and each character starts where the one
/// before it ends.
pub proof fn lemma_byte_offset_step(text: Seq<char>, k: int)
    requires
        0 <= k < text.len(),
    ensures
        byte_offset(text, 0) == 0,
        byte_offset(text, k + 1) == byte_offset(text, k) + spec_len_utf8(text[k]),
{
    assert(text.take(k + 1).drop_last() =~= text.take(k));
    assert(text.take(0) =~= Seq::<char>::empty());
}

/// A later character starts at a later byte: no two characters start at
/// the same byte.
pub proof fn lemma_byte_offset_grows(text: Seq<char>, k: int, m: int)
    requires
        0 <= k <= m <= text.len(),
    ensures
        byte_offset(text, k) + (m - k) <= byte_offset(text, m),
    decreases m - k,
{
    if k < m {
        lemma_byte_offset_grows(text, k, m - 1);
        lemma_byte_offset_step(text, m - 1);
    }
}

/// The character that starts at byte `b` of the text; the number of
/// characters for the byte where the text ends. `None` where no
/// character starts at the byte.
pub fn index_of_byte(chars: &Vec<char>, b: usize) -> (r: Option<usize>)
    ensures
        r matches Some(k) ==> k <= chars@.len() && byte_offset(chars@, k as int) == b,
        r is None ==> forall|k: int| 0 <= k <= chars@.len() ==> byte_offset(chars@, k) != b,
{
    let n = chars.len();
    let mut i: usize = 0;
    let mut off: usize = 0;
    proof {
        assert(chars@.take(0) =~= Seq::<char>::empty());
    }
    while i < n && off < b
        invariant
            i <= n,
            n == chars@.len(),
            off == byte_offset(chars@, i as int),
            forall|k: int| 0 <= k < i ==> byte_offset(chars@, k) < b,
        decreases n - i,
    {
        let w = len_utf8(chars[i]) as usize;
        proof {
            lemma_byte_offset_step(chars@, i as int);
        }
        if off > usize::MAX - w {
            proof {
                assert forall|k: int| 0 <= k <= chars@.len() implies byte_offset(chars@, k) != b by {
                    if k > i {
                        lemma_byte_offset_grows(chars@, i + 1, k);
                    }
                }
            }
            return None;
        }
        off = off + w;
        i += 1;
    }
    if off == b {
        Some(i)
    } else {
        proof {
            assert forall|k: int| 0 <= k <= chars@.len() implies byte_offset(chars@, k) != b by {
                if k >= i {
                    lemma_byte_offset_grows(chars@, i as int, k);
                }
            }
        }
        None
    }
}

/// Whether a text of `len` characters can stand at `loc`: the columns and
/// lines of all its characters can be counted in 32 bits.
pub open spec fn placeable(loc: Loc, len: nat) -> bool {
    loc.column + len <= u32::MAX && loc.line + len <= u32::MAX
}

/// The lowercase form of a text, by the Unicode lowercase mapping.
pub uninterp spec fn lowercase_of(s: Seq<char>) -> Seq<char>;

/// `str::to_lowercase`: the result is the lowercase form of the argument.
#[verifier::external_body]
fn str_to_lowercase(s: &str) -> (r: String)
    ensures
        r@ == lowercase_of(s@),
{
    s.to_lowercase()
}

/// `String::push`: the character is appended to the text.
#[verifier::external_body]
fn string_push(s: &mut String, c: char)
    ensures
        final(s)@ == old(s)@.push(c),
{
    s.push(c)
}

/// A piece of script text and its place in the script files. Two tokens are
/// equal when their texts are, whatever their places.
#[derive(Debug)]
pub struct Token {
    s: String,
    loc: Loc,
}

impl View for Token {
    type V = Seq<char>;

    closed spec fn view(&self) -> Seq<char> {
        self.s@
    }
}

impl Clone for Token {
    fn clone(&self) -> (r: Self)
        ensures
            r == *self,
    {
        proof {
            use_type_invariant(self);
        }
        Token { s: self.s.clone(), loc: self.loc.clone() }
    }
}

impl PartialEq for Token {
    fn eq(&self, other: &Self) -> (r: bool) {
        str_eq(self.s.as_str(), other.s.as_str())
    }
}

impl Eq for Token {}

impl vstd::std_specs::cmp::PartialEqSpecImpl for Token {
    open spec fn obeys_eq_spec() -> bool {
        true
    }

    open spec fn eq_spec(&self, other: &Self) -> bool {
        self@ == other@
    }
}

impl Token {
    #[verifier::type_invariant]
    closed spec fn inv(&self) -> bool {
        placeable(self.loc, self.s@.len())
    }

    /// The place of the token.
    pub closed spec fn spec_loc(&self) -> &Loc {
        &self.loc
    }

    #[verifier::when_used_as_spec(spec_loc)]
    pub fn loc(&self) -> (r: &Loc)
        ensures
            r == self.spec_loc(),
            placeable(*r, self@.len()),
    {
        proof {
            use_type_invariant(self);
        }
        &self.loc
    }

    /// A token of the text `s` at `loc`.
    #[must_use]
    pub fn new(s: &str, loc: Loc) -> (r: Token)
        requires
            placeable(loc, s@.len()),
        ensures
            r@ == s@,
            *r.loc() == loc,
    {
        Token { s: String::from_str(s), loc }
    }

    /// A token of a text that the program itself holds, at `loc`.
    #[must_use]
    pub fn from_static_str(s: &'static str, loc: Loc) -> (r: Token)
        requires
            placeable(loc, s@.len()),
        ensures
            r@ == s@,
            *r.loc() == loc,
    {
        Token { s: String::from_str(s), loc }
    }

    /// A token of `s` at `loc`, where the text can stand there.
    pub fn try_new(s: &str, loc: Loc) -> (r: Option<Token>)
        ensures
            r is Some <==> placeable(loc, s@.len()),
            r matches Some(t) ==> t@ == s@ && *t.loc() == loc,
    {
        let n = s.unicode_len();
        if n <= u32::MAX as usize && loc.column <= u32::MAX - n as u32 && loc.line <= u32::MAX - n as u32 {
            Some(Token { s: String::from_str(s), loc })
        } else {
            None
        }
    }

    /// The token without text that stands at `loc`.
    pub fn from_loc(loc: Loc) -> (r: Token)
        ensures
            r@ == Seq::<char>::empty(),
            *r.loc() == loc,
    {
        Token { s: String::new(), loc }
    }

    /// The number of characters of the text.
    pub fn char_len(&self) -> (n: usize)
        ensures
            n == self@.len(),
    {
        self.s.as_str().unicode_len()
    }

    /// The range of characters that a range of bytes of the text in UTF-8
    /// holds. `None` where an end of the range stands inside a character
    /// or after the text, or the range ends before it starts.
    pub fn char_range(&self, bytes: Range<usize>) -> (r: Option<Range<usize>>)
        ensures
            r is Some == on_char_boundaries(self@, bytes.start as int, bytes.end as int),
            r matches Some(range) ==> {
                &&& range.start <= range.end <= self@.len()
                &&& byte_offset(self@, range.start as int) == bytes.start
                &&& byte_offset(self@, range.end as int) == bytes.end
            },
    {
        let chars = to_chars(self.s.as_str());
        if bytes.start > bytes.end {
            proof {
                assert forall|a: int, b: int| 0 <= a <= b <= self@.len() implies !(byte_offset(self@, a)
                    == bytes.start && byte_offset(self@, b) == bytes.end) by {
                    lemma_byte_offset_grows(self@, a, b);
                }
            }
            return None;
        }
        match index_of_byte(&chars, bytes.start) {
            Some(a) => match index_of_byte(&chars, bytes.end) {
                Some(b) => {
                    proof {
                        if b < a {
                            lemma_byte_offset_grows(self@, b as int, a as int);
                        }
                    }
                    Some(Range { start: a, end: b })
                },
                None => None,
            },
            None => None,
        }
    }

    /// A token of the characters in `range`, which counts characters, not
    /// bytes.
    #[must_use]
    pub fn subtoken(&self, range: Range<usize>, loc: Loc) -> (r: Token)
        requires
            range.start <= range.end <= self@.len(),
            placeable(loc, (range.end - range.start) as nat),
        ensures
            r@ == self@.subrange(range.start as int, range.end as int),
            *r.loc() == loc,
    {
        Token { s: substr(self.s.as_str(), range.start, range.end), loc }
    }

    /// The text of the token.
    pub fn as_str(&self) -> (r: &str)
        ensures
            r@ == self@,
    {
        self.s.as_str()
    }

    /// Whether the text is `s`.
    pub fn is(&self, s: &str) -> (r: bool)
        ensures
            r == (self@ == s@),
    {
        str_eq(self.s.as_str(), s)
    }

    /// Whether the lowercase form of the text is `s`.
    pub fn lowercase_is(&self, s: &str) -> (r: bool)
        ensures
            r == (lowercase_of(self@) == s@),
    {
        let low = str_to_lowercase(self.s.as_str());
        str_eq(low.as_str(), s)
    }

    /// Whether the text starts with `s`.
    pub fn starts_with(&self, s: &str) -> (r: bool)
        ensures
            r == s@.is_prefix_of(self@),
    {
        let a = to_chars(self.s.as_str());
        let b = to_chars(s);
        chars_start_with(&a, &b)
    }

    /// The text without the suffix `sfx`, at the same place; `None` where
    /// the text does not end with `sfx`.
    #[must_use]
    pub fn strip_suffix(&self, sfx: &str) -> (r: Option<Token>)
        ensures
            r is Some <==> sfx@.is_suffix_of(self@),
            r matches Some(t) ==> t@ == self@.subrange(0, self@.len() - sfx@.len()) && t.loc() == self.loc(),
    {
        proof {
            use_type_invariant(self);
        }
        let a = to_chars(self.s.as_str());
        let b = to_chars(sfx);
        if chars_end_with(&a, &b) {
            Some(Token { s: substr(self.s.as_str(), 0, a.len() - b.len()), loc: self.loc.clone() })
        } else {
            None
        }
    }

    /// The text without the prefix `pfx`, at the column that follows the
    /// prefix; `None` where the text does not start with `pfx`.
    #[must_use]
    pub fn strip_prefix(&self, pfx: &str) -> (r: Option<Token>)
        ensures
            r is Some <==> pfx@.is_prefix_of(self@),
            r matches Some(t) ==> t@ == self@.subrange(pfx@.len() as int, self@.len() as int)
                && *t.loc() == (Loc { column: (self.loc().column + pfx@.len()) as u32, ..*self.loc() }),
    {
        proof {
            use_type_invariant(self);
        }
        let a = to_chars(self.s.as_str());
        let b = to_chars(pfx);
        if chars_start_with(&a, &b) {
            let mut loc = self.loc.clone();
            loc.column = loc.column + b.len() as u32;
            Some(Token { s: substr(self.s.as_str(), b.len(), a.len()), loc })
        } else {
            None
        }
    }

    /// Appends `c` and the text of `other` to the text.
    pub fn combine(&mut self, other: &Token, c: char)
        requires
            placeable(*old(self).loc(), old(self)@.len() + 1 + other@.len()),
        ensures
            final(self)@ == old(self)@.push(c) + other@,
            final(self).loc() == old(self).loc(),
    {
        let mut s = self.s.clone();
        string_push(&mut s, c);
        s.append(other.s.as_str());
        let loc = self.loc.clone();
        *self = Token { s, loc };
    }

    /// The token with `link` as the place of the macro invocation that it
    /// came from.
    #[must_use]
    pub fn linked(self, link: Option<Arc<Loc>>) -> (r: Token)
        ensures
            r@ == self@,
            *r.loc() == (Loc { link: link, ..*self.loc() }),
    {
        proof {
            use_type_invariant(&self);
        }
        let Token { s, loc } = self;
        Token { s, loc: Loc { idx: loc.idx, kind: loc.kind, line: loc.line, column: loc.column, link } }
    }
}

/// Whether `a` starts with the characters of `b`.
fn chars_start_with(a: &Vec<char>, b: &Vec<char>) -> (r: bool)
    ensures
        r == b@.is_prefix_of(a@),
{
    if b.len() > a.len() {
        return false;
    }
    let mut i: usize = 0;
    while i < b.len()
        invariant
            i <= b.len() <= a.len(),
            forall|k: int| 0 <= k < i ==> a@[k] == b@[k],
        decreases b.len() - i,
    {
        if a[i] != b[i] {
            assert(a@.subrange(0, b@.len() as int)[i as int] != b@[i as int]);
            return false;
        }
        i += 1;
    }
    assert(a@.subrange(0, b@.len() as int) =~= b@);
    true
}

/// Whether `a` ends with the characters of `b`.
fn chars_end_with(a: &Vec<char>, b: &Vec<char>) -> (r: bool)
    ensures
        r == b@.is_suffix_of(a@),
{
    if b.len() > a.len() {
        return false;
    }
    let off = a.len() - b.len();
    let mut i: usize = 0;
    while i < b.len()
        invariant
            i <= b.len() <= a.len(),
            off == a.len() - b.len(),
            forall|k: int| 0 <= k < i ==> a@[off + k] == b@[k],
        decreases b.len() - i,
    {
        if a[off + i] != b[i] {
            assert(a@.subrange(a@.len() - b@.len(), a@.len() as int)[i as int] != b@[i as int]);
            return false;
        }
        i += 1;
    }
    assert(a@.subrange(a@.len() - b@.len(), a@.len() as int) =~= b@);
    true
}


/// A class of characters that a scan can follow.
#[derive(Clone, Copy)]
pub enum CharClass {
    /// The characters with the Unicode property White_Space.
    Whitespace,
    /// The space character alone.
    Space,
    /// The decimal digits `0` to `9`.
    Digit,
    /// Every character but the given one.
    Not(char),
}

/// Whether the character is a decimal digit.
pub open spec fn is_digit(c: char) -> bool {
    '0' <= c && c <= '9'
}

/// The predicate "is a decimal digit".
pub open spec fn digit() -> spec_fn(char) -> bool {
    |c: char| is_digit(c)
}

impl CharClass {
    /// The class as a predicate on characters.
    pub open spec fn pred(self) -> spec_fn(char) -> bool {
        match self {
            CharClass::Whitespace => whitespace(),
            CharClass::Space => exactly(' '),
            CharClass::Digit => digit(),
            CharClass::Not(ch) => other_than(ch),
        }
    }

    /// Whether the character belongs to the class.
    pub fn has(self, c: char) -> (r: bool)
        ensures
            r == (self.pred())(c),
    {
        match self {
            CharClass::Whitespace => is_whitespace(c),
            CharClass::Space => c == ' ',
            CharClass::Digit => '0' <= c && c <= '9',
            CharClass::Not(ch) => c != ch,
        }
    }
}

/// The end of the run of characters of class `cl` that starts at `from` and
/// stays below `to`.
pub fn scan_forward(chars: &Vec<char>, from: usize, to: usize, cl: CharClass) -> (i: usize)
    requires
        from <= to <= chars@.len(),
    ensures
        from <= i <= to,
        i - from == leading_run(chars@.subrange(from as int, to as int), cl.pred()),
{
    let mut i: usize = from;
    while i < to && cl.has(chars[i])
        invariant
            from <= i <= to <= chars@.len(),
            forall|k: int| from <= k < i ==> (cl.pred())(#[trigger] chars@[k]),
        decreases to - i,
    {
        i += 1;
    }
    proof {
        let sub = chars@.subrange(from as int, to as int);
        assert forall|k: int| 0 <= k < i - from implies (cl.pred())(#[trigger] sub[k]) by {
            assert(sub[k] == chars@[from + k]);
        }
        lemma_leading_run(sub, cl.pred(), i - from);
    }
    i
}

/// The start of the run of characters of class `cl` that ends at `to` and
/// stays at or above `from`.
pub fn scan_backward(chars: &Vec<char>, from: usize, to: usize, cl: CharClass) -> (j: usize)
    requires
        from <= to <= chars@.len(),
    ensures
        from <= j <= to,
        to - j == trailing_run(chars@.subrange(from as int, to as int), cl.pred()),
{
    let mut j: usize = to;
    while j > from && cl.has(chars[j - 1])
        invariant
            from <= j <= to <= chars@.len(),
            forall|k: int| j <= k < to ==> (cl.pred())(#[trigger] chars@[k]),
        decreases j - from,
    {
        j -= 1;
    }
    proof {
        let sub = chars@.subrange(from as int, to as int);
        assert forall|k: int| sub.len() - (to - j) <= k < sub.len() implies (cl.pred())(
            #[trigger] sub[k],
        ) by {
            assert(sub[k] == chars@[from + k]);
        }
        lemma_trailing_run(sub, cl.pred(), to - j);
    }
    j
}

/// The number that a text of decimal digits writes.
pub open spec fn digits_value(s: Seq<char>) -> int
    decreases s.len(),
{
    if s.len() == 0 {
        0
    } else {
        digits_value(s.drop_last()) * 10 + (s.last() as int - '0' as int)
    }
}

/// Whether every character of the text is a decimal digit.
pub open spec fn all_digits(s: Seq<char>) -> bool {
    forall|i: int| 0 <= i < s.len() ==> is_digit(#[trigger] s[i])
}

/// The integer that a text writes: an optional sign, then one or more
/// decimal digits. `None` for every other text.
pub open spec fn parse_int(s: Seq<char>) -> Option<int> {
    if s.len() > 0 && (s[0] == '-' || s[0] == '+') {
        let d = s.drop_first();
        if d.len() > 0 && all_digits(d) {
            Some(if s[0] == '-' { -digits_value(d) } else { digits_value(d) })
        } else {
            None
        }
    } else if s.len() > 0 && all_digits(s) {
        Some(digits_value(s))
    } else {
        None
    }
}

/// The integer that a text writes, where it lies between `lo` and `hi`.
pub open spec fn parse_int_in(s: Seq<char>, lo: int, hi: int) -> Option<int> {
    match parse_int(s) {
        Some(v) => if lo <= v <= hi { Some(v) } else { None },
        None => None,
    }
}

/// The 64-bit integer that a text writes.
pub open spec fn parse_i64(s: Seq<char>) -> Option<i64> {
    match parse_int_in(s, i64::MIN as int, i64::MAX as int) {
        Some(v) => Some(v as i64),
        None => None,
    }
}

/// A text of digits writes a number that is at least the number written by
/// each of its prefixes, and none is negative.
pub proof fn lemma_digits_monotonic(s: Seq<char>, k: int)
    requires
        all_digits(s),
        0 <= k <= s.len(),
    ensures
        0 <= digits_value(s.take(k)) <= digits_value(s),
    decreases s.len() - k,
{
    lemma_digits_nonnegative(s.take(k));
    if k == s.len() {
        assert(s.take(k) =~= s);
    } else {
        lemma_digits_monotonic(s, k + 1);
        assert(s.take(k + 1).drop_last() =~= s.take(k));
        assert(is_digit(s[k]));
    }
}

/// A text of digits writes no negative number.
pub proof fn lemma_digits_nonnegative(s: Seq<char>)
    requires
        all_digits(s),
    ensures
        0 <= digits_value(s),
    decreases s.len(),
{
    if s.len() > 0 {
        lemma_digits_nonnegative(s.drop_last());
        assert(is_digit(s.last()));
    }
}

/// Reads the characters from `from` up to `to` as an integer between `lo`
/// and `hi`.
pub fn parse_int_range(chars: &Vec<char>, from: usize, to: usize, lo: i64, hi: i64) -> (r: Option<i64>)
    requires
        from <= to <= chars@.len(),
    ensures
        r matches Some(v) ==> parse_int_in(chars@.subrange(from as int, to as int), lo as int, hi as int) == Some(
            v as int,
        ),
        r is None ==> parse_int_in(chars@.subrange(from as int, to as int), lo as int, hi as int) is None,
{
    let ghost text = chars@.subrange(from as int, to as int);
    if from == to {
        return None;
    }
    let first = chars[from];
    assert(text[0] == first);
    let negative = first == '-';
    let start: usize = if first == '-' || first == '+' { from + 1 } else { from };
    let ghost digits = chars@.subrange(start as int, to as int);
    proof {
        if start > from {
            assert(digits =~= text.drop_first());
        } else {
            assert(digits =~= text);
        }
    }
    if start == to {
        return None;
    }
    let end = scan_forward(chars, start, to, CharClass::Digit);
    proof {
        lemma_leading_run_props(digits, digit());
    }
    if end < to {
        assert(!is_digit(digits[end - start]));
        return None;
    }
    assert(all_digits(digits));
    assert(parse_int(text) == Some(if negative { -digits_value(digits) } else { digits_value(digits) }));
    // The magnitude is accumulated up to 2^63, the largest that a 64-bit
    // integer of either sign can need.
    let limit: u64 = 0x8000_0000_0000_0000;
    let mut mag: u64 = 0;
    let mut i: usize = start;
    while i < to
        invariant
            from <= start <= i <= to <= chars@.len(),
            digits == chars@.subrange(start as int, to as int),
            text == chars@.subrange(from as int, to as int),
            parse_int(text) == Some(if negative { -digits_value(digits) } else { digits_value(digits) }),
            all_digits(digits),
            mag == digits_value(digits.take(i - start)),
            mag <= limit,
            limit == 0x8000_0000_0000_0000,
        decreases to - i,
    {
        let c = chars[i];
        assert(digits[i - start] == c);
        assert(is_digit(c));
        let d: u64 = (c as u32 - '0' as u32) as u64;
        proof {
            assert(digits.take(i - start + 1).drop_last() =~= digits.take(i - start));
            lemma_digits_monotonic(digits, i - start + 1);
        }
        if mag > (limit - d) / 10 {
            assert(digits_value(digits) > limit);
            return None;
        }
        mag = mag * 10 + d;
        i += 1;
    }
    assert(digits.take(to - start) =~= digits);
    if negative {
        if mag == limit {
            if lo == i64::MIN {
                Some(i64::MIN)
            } else {
                None
            }
        } else {
            let v: i64 = -(mag as i64);
            if lo <= v && v <= hi {
                Some(v)
            } else {
                None
            }
        }
    } else {
        if mag == limit {
            None
        } else {
            let v: i64 = mag as i64;
            if lo <= v && v <= hi {
                Some(v)
            } else {
                None
            }
        }
    }
}

/// Without its sign, if it has one.
pub open spec fn unsigned_part(s: Seq<char>) -> Seq<char> {
    if s.len() > 0 && (s[0] == '+' || s[0] == '-') {
        s.drop_first()
    } else {
        s
    }
}

/// Whether the two characters are the same letter, whatever their case.
/// `low` is a lowercase ASCII letter.
pub open spec fn same_letter(c: char, low: char) -> bool {
    c == low || c as u32 + 32 == low as u32
}

/// Whether the text is `word`, whatever the case of its letters. `word` is
/// made of lowercase ASCII letters.
pub open spec fn is_word(s: Seq<char>, word: Seq<char>) -> bool {
    s.len() == word.len() && forall|i: int| 0 <= i < s.len() ==> same_letter(#[trigger] s[i], word[i])
}

/// Whether the text is an exponent: `e` or `E`, an optional sign, then one
/// or more digits.
pub open spec fn is_exponent(s: Seq<char>) -> bool {
    s.len() > 0 && (s[0] == 'e' || s[0] == 'E') && {
        let d = unsigned_part(s.drop_first());
        d.len() > 0 && all_digits(d)
    }
}

/// Whether the text is a decimal number without sign: digits with at most
/// one point among them, at least one digit in all, then an optional
/// exponent.
pub open spec fn is_decimal(s: Seq<char>) -> bool {
    let n1 = leading_run(s, digit());
    let rest1 = s.skip(n1 as int);
    if rest1.len() > 0 && rest1[0] == '.' {
        let frac = rest1.drop_first();
        let n2 = leading_run(frac, digit());
        let rest2 = frac.skip(n2 as int);
        n1 + n2 >= 1 && (rest2.len() == 0 || is_exponent(rest2))
    } else {
        n1 >= 1 && (rest1.len() == 0 || is_exponent(rest1))
    }
}

/// Whether the text writes a number: an optional sign, then `inf`,
/// `infinity` or `nan` in any case, or a decimal number.
pub open spec fn is_number_text(s: Seq<char>) -> bool {
    let body = unsigned_part(s);
    is_word(body, seq!['i', 'n', 'f'])
        || is_word(body, seq!['i', 'n', 'f', 'i', 'n', 'i', 't', 'y'])
        || is_word(body, seq!['n', 'a', 'n'])
        || is_decimal(body)
}

/// Whether the characters from `from` up to `to` are `word` in any case.
fn range_is_word(chars: &Vec<char>, from: usize, to: usize, word: &Vec<char>) -> (r: bool)
    requires
        from <= to <= chars@.len(),
        forall|i: int| 0 <= i < word@.len() ==> 'a' <= #[trigger] word@[i] <= 'z',
    ensures
        r == is_word(chars@.subrange(from as int, to as int), word@),
{
    let ghost sub = chars@.subrange(from as int, to as int);
    if to - from != word.len() {
        return false;
    }
    let mut i: usize = 0;
    while i < word.len()
        invariant
            from <= to <= chars@.len(),
            to - from == word@.len(),
            i <= word@.len(),
            sub == chars@.subrange(from as int, to as int),
            forall|k: int| 0 <= k < word@.len() ==> 'a' <= #[trigger] word@[k] <= 'z',
            forall|k: int| 0 <= k < i ==> same_letter(#[trigger] sub[k], word@[k]),
        decreases word.len() - i,
    {
        let c = chars[from + i];
        let w = word[i];
        assert(sub[i as int] == c);
        assert('a' <= word@[i as int] <= 'z');
        let same = c == w || (w as u32) - 32 == (c as u32);
        if !same {
            assert(!same_letter(sub[i as int], word@[i as int]));
            return false;
        }
        i += 1;
    }
    true
}

/// Whether the characters from `from` up to `to` are an exponent.
fn range_is_exponent(chars: &Vec<char>, from: usize, to: usize) -> (r: bool)
    requires
        from <= to <= chars@.len(),
    ensures
        r == is_exponent(chars@.subrange(from as int, to as int)),
{
    let ghost sub = chars@.subrange(from as int, to as int);
    if from == to {
        return false;
    }
    let c = chars[from];
    assert(sub[0] == c);
    if c != 'e' && c != 'E' {
        return false;
    }
    let mut start: usize = from + 1;
    assert(sub.drop_first() =~= chars@.subrange(from + 1, to as int));
    if start < to {
        let sign = chars[start];
        assert(sub.drop_first()[0] == sign);
        if sign == '+' || sign == '-' {
            start = start + 1;
            assert(unsigned_part(sub.drop_first()) =~= chars@.subrange(start as int, to as int));
        }
    }
    let ghost d = chars@.subrange(start as int, to as int);
    assert(unsigned_part(sub.drop_first()) =~= d);
    let end = scan_forward(chars, start, to, CharClass::Digit);
    proof {
        lemma_leading_run_props(d, digit());
        if end < to {
            assert(!is_digit(d[end - start]));
        }
    }
    start < to && end == to
}

/// Whether the characters from `from` up to `to` are a decimal number
/// without sign.
fn range_is_decimal(chars: &Vec<char>, from: usize, to: usize) -> (r: bool)
    requires
        from <= to <= chars@.len(),
    ensures
        r == is_decimal(chars@.subrange(from as int, to as int)),
{
    let ghost sub = chars@.subrange(from as int, to as int);
    let int_end = scan_forward(chars, from, to, CharClass::Digit);
    let ghost n1 = leading_run(sub, digit());
    assert(sub.skip(n1 as int) =~= chars@.subrange(int_end as int, to as int));
    if int_end < to && chars[int_end] == '.' {
        assert(sub.skip(n1 as int)[0] == chars@[int_end as int]);
        let ghost frac = sub.skip(n1 as int).drop_first();
        assert(frac =~= chars@.subrange(int_end + 1, to as int));
        let frac_end = scan_forward(chars, int_end + 1, to, CharClass::Digit);
        let ghost n2 = leading_run(frac, digit());
        assert(frac.skip(n2 as int) =~= chars@.subrange(frac_end as int, to as int));
        let some_digit = (int_end - from) + (frac_end - (int_end + 1)) >= 1;
        if !some_digit {
            return false;
        }
        if frac_end == to {
            return true;
        }
        range_is_exponent(chars, frac_end, to)
    } else {
        if int_end < to {
            assert(sub.skip(n1 as int)[0] == chars@[int_end as int]);
        }
        if int_end == from {
            return false;
        }
        if int_end == to {
            return true;
        }
        range_is_exponent(chars, int_end, to)
    }
}

/// Whether the characters write a number.
pub fn chars_are_number(chars: &Vec<char>) -> (r: bool)
    ensures
        r == is_number_text(chars@),
{
    let n = chars.len();
    let start: usize = if n > 0 && (chars[0] == '+' || chars[0] == '-') { 1 } else { 0 };
    assert(unsigned_part(chars@) =~= chars@.subrange(start as int, n as int));
    let inf: Vec<char> = vec!['i', 'n', 'f'];
    let infinity: Vec<char> = vec!['i', 'n', 'f', 'i', 'n', 'i', 't', 'y'];
    let nan: Vec<char> = vec!['n', 'a', 'n'];
    assert(inf@ =~= seq!['i', 'n', 'f']);
    assert(infinity@ =~= seq!['i', 'n', 'f', 'i', 'n', 'i', 't', 'y']);
    assert(nan@ =~= seq!['n', 'a', 'n']);
    range_is_word(chars, start, n, &inf) || range_is_word(chars, start, n, &infinity) || range_is_word(
        chars,
        start,
        n,
        &nan,
    ) || range_is_decimal(chars, start, n)
}


/// The start of the piece that holds position `i`, where the text is cut at
/// each `ch`: the position after the last `ch` before `i`, or 0.
pub open spec fn piece_start(text: Seq<char>, ch: char, i: int) -> int
    decreases i,
{
    if i <= 0 {
        0
    } else if text[i - 1] == ch {
        i
    } else {
        piece_start(text, ch, i - 1)
    }
}

/// The number of line feeds among the first `i` characters.
pub open spec fn newlines_before(text: Seq<char>, i: int) -> int
    decreases i,
{
    if i <= 0 {
        0
    } else {
        newlines_before(text, i - 1) + if text[i - 1] == '\n' { 1int } else { 0int }
    }
}

/// The pieces that end before position `i`, each as the positions of its
/// start and end.
pub open spec fn pieces_before(text: Seq<char>, ch: char, i: int) -> Seq<(int, int)>
    decreases i,
{
    if i <= 0 {
        Seq::empty()
    } else if text[i - 1] == ch {
        pieces_before(text, ch, i - 1).push((piece_start(text, ch, i - 1), i - 1))
    } else {
        pieces_before(text, ch, i - 1)
    }
}

/// The pieces into which `ch` cuts the text, in order: one more than the
/// text has occurrences of `ch`.
pub open spec fn split_ranges(text: Seq<char>, ch: char) -> Seq<(int, int)> {
    pieces_before(text, ch, text.len() as int).push((piece_start(text, ch, text.len() as int), text.len() as int))
}

/// The place of the piece that starts at `start`. The first piece stands
/// where the text does. A later one stands as many columns further as
/// characters precede it, and as many lines further as line feeds precede
/// the separator before it.
pub open spec fn piece_loc(base: Loc, text: Seq<char>, start: int) -> Loc {
    if start == 0 {
        base
    } else {
        Loc {
            column: (base.column + start) as u32,
            line: (base.line + newlines_before(text, start - 1)) as u32,
            ..base
        }
    }
}

/// A piece starts at or before the position that it holds, and no more line
/// feeds precede a position than characters do.
pub proof fn lemma_piece_bounds(text: Seq<char>, ch: char, i: int)
    requires
        0 <= i <= text.len(),
    ensures
        0 <= piece_start(text, ch, i) <= i,
        0 <= newlines_before(text, i) <= i,
    decreases i,
{
    if i > 0 {
        lemma_piece_bounds(text, ch, i - 1);
    }
}

/// What stripping whitespace leaves of a text: the positions of the start
/// and the end of the rest. A text of whitespace alone is left whole.
pub open spec fn stripped_range(text: Seq<char>) -> (int, int) {
    let lead = leading_run(text, whitespace());
    if lead == text.len() {
        (0, text.len() as int)
    } else {
        (lead as int, text.len() - trailing_run(text, whitespace()))
    }
}

/// What trimming spaces leaves of a text: the positions of the start and
/// the end of the rest. Nothing is left of a text of spaces alone.
pub open spec fn trimmed_range(text: Seq<char>) -> (int, int) {
    let lead = leading_run(text, exactly(' '));
    if lead == text.len() {
        (0, 0)
    } else {
        (lead as int, text.len() - trailing_run(text, exactly(' ')))
    }
}

/// The position of the first `ch` in the text, or the length of the text
/// where it holds none.
pub open spec fn first_index(text: Seq<char>, ch: char) -> nat {
    leading_run(text, other_than(ch))
}

/// The most digits that a number may have after its point.
pub const MAX_DECIMALS: usize = 5;

/// Whether the text has a point with more than five bytes after it, as
/// the text is written in UTF-8.
pub open spec fn too_many_decimals(text: Seq<char>) -> bool {
    first_index(text, '.') < text.len() && utf8_len(text.skip(first_index(text, '.') as int)) > MAX_DECIMALS + 1
}

impl Token {
    /// A token of the characters in `range` without the whitespace at
    /// either end, at `loc` moved right by the whitespace that was taken
    /// from the start. If the range holds whitespace alone, the token holds
    /// all of it, and stands after it.
    #[must_use]
    pub fn subtoken_stripped(&self, range: Range<usize>, loc: Loc) -> (r: Token)
        requires
            range.start <= range.end <= self@.len(),
            placeable(loc, (range.end - range.start) as nat),
            leading_run(self@.subrange(range.start as int, range.end as int), whitespace()) == range.end
                - range.start ==> loc.column + 2 * (range.end - range.start) <= u32::MAX,
        ensures
            ({
                let sub = self@.subrange(range.start as int, range.end as int);
                let (a, b) = stripped_range(sub);
                &&& r@ == sub.subrange(a, b)
                &&& *r.loc() == (Loc { column: (loc.column + leading_run(sub, whitespace())) as u32, ..loc })
            }),
    {
        let chars = to_chars(self.s.as_str());
        let ghost sub = chars@.subrange(range.start as int, range.end as int);
        let i = scan_forward(&chars, range.start, range.end, CharClass::Whitespace);
        let mut loc = loc;
        loc.column = loc.column + (i - range.start) as u32;
        if i == range.end {
            assert(sub.subrange(0, sub.len() as int) =~= sub);
            Token { s: substr(self.s.as_str(), range.start, range.end), loc }
        } else {
            let j = scan_backward(&chars, range.start, range.end, CharClass::Whitespace);
            proof {
                lemma_leading_run_props(sub, whitespace());
                assert(sub[i - range.start] == chars@[i as int]);
                if j <= i {
                    // The character at `i` is no whitespace, so the run from
                    // the end stops after it.
                    assert(trailing_run(sub, whitespace()) >= range.end - i);
                    lemma_trailing_run_props(sub, whitespace());
                    assert(whitespace()(sub[i - range.start]));
                }
                assert(sub.subrange(i - range.start, j - range.start) =~= chars@.subrange(i as int, j as int));
            }
            Token { s: substr(self.s.as_str(), i, j), loc }
        }
    }

    /// The token without the spaces at either end, moved right by the
    /// spaces that were taken from the start. Of a text of spaces alone an
    /// empty token is left, at the same place.
    #[must_use]
    pub fn trim(&self) -> (r: Token)
        ensures
            ({
                let (a, b) = trimmed_range(self@);
                &&& r@ == self@.subrange(a, b)
                &&& *r.loc() == (Loc { column: (self.loc().column + a) as u32, ..*self.loc() })
            }),
    {
        proof {
            use_type_invariant(self);
        }
        let chars = to_chars(self.s.as_str());
        let n = chars.len();
        assert(chars@.subrange(0, n as int) =~= chars@);
        let i = scan_forward(&chars, 0, n, CharClass::Space);
        if i == n {
            assert(self@.subrange(0, 0) =~= Seq::<char>::empty());
            Token { s: String::new(), loc: self.loc.clone() }
        } else {
            let j = scan_backward(&chars, 0, n, CharClass::Space);
            proof {
                lemma_leading_run_props(chars@, exactly(' '));
                if j <= i {
                    assert(trailing_run(chars@, exactly(' ')) >= n - i);
                    lemma_trailing_run_props(chars@, exactly(' '));
                    assert(exactly(' ')(chars@[i as int]));
                }
            }
            let mut loc = self.loc.clone();
            loc.column = loc.column + i as u32;
            Token { s: substr(self.s.as_str(), i, j), loc }
        }
    }

    /// The pieces into which `ch` cuts the text, each at its place.
    #[must_use]
    pub fn split(&self, ch: char) -> (r: Vec<Token>)
        ensures
            r@.len() == split_ranges(self@, ch).len(),
            forall|k: int|
                0 <= k < r@.len() ==> {
                    let (a, b) = #[trigger] split_ranges(self@, ch)[k];
                    &&& r@[k]@ == self@.subrange(a, b)
                    &&& *r@[k].loc() == piece_loc(*self.loc(), self@, a)
                },
    {
        proof {
            use_type_invariant(self);
        }
        let chars = to_chars(self.s.as_str());
        let n = chars.len();
        let mut pos: usize = 0;
        let mut vec: Vec<Token> = Vec::new();
        let mut loc = self.loc.clone();
        let mut lines: u32 = 0;
        let mut i: usize = 0;
        while i < n
            invariant
                i <= n,
                n == chars@.len(),
                chars@ == self@,
                self.s@ == self@,
                placeable(self.loc, n as nat),
                self.loc == *self.loc(),
                pos == piece_start(self@, ch, i as int),
                pos <= i,
                lines == newlines_before(self@, i as int),
                lines <= i,
                loc == piece_loc(self.loc, self@, pos as int),
                vec@.len() == pieces_before(self@, ch, i as int).len(),
                forall|k: int|
                    0 <= k < vec@.len() ==> {
                        let (a, b) = #[trigger] pieces_before(self@, ch, i as int)[k];
                        &&& vec@[k]@ == self@.subrange(a, b)
                        &&& *vec@[k].loc() == piece_loc(self.loc, self@, a)
                    },
            decreases n - i,
        {
            let c = chars[i];
            proof {
                lemma_piece_bounds(self@, ch, i as int);
                lemma_piece_bounds(self@, ch, pos as int);
                if pos > 0 {
                    lemma_piece_bounds(self@, ch, pos - 1);
                }
            }
            if c == ch {
                let piece = Token { s: substr(self.s.as_str(), pos, i), loc: loc.clone() };
                vec.push(piece);
                pos = i + 1;
                loc.column = self.loc.column + i as u32 + 1;
                loc.line = self.loc.line + lines;
            }
            if c == '\n' {
                lines += 1;
            }
            i += 1;
        }
        proof {
            lemma_piece_bounds(self@, ch, pos as int);
            if pos > 0 {
                lemma_piece_bounds(self@, ch, pos - 1);
            }
        }
        vec.push(Token { s: substr(self.s.as_str(), pos, n), loc });
        vec
    }

    /// The text before the first `ch` and the text after it; `None` where
    /// the text holds no `ch`.
    #[must_use]
    pub fn split_once(&self, ch: char) -> (r: Option<(Token, Token)>)
        ensures
            r is Some <==> first_index(self@, ch) < self@.len(),
            r matches Some((t1, t2)) ==> {
                let i = first_index(self@, ch) as int;
                &&& t1@ == self@.subrange(0, i)
                &&& t1.loc() == self.loc()
                &&& t2@ == self@.subrange(i + 1, self@.len() as int)
                &&& *t2.loc() == (Loc { column: (self.loc().column + i + 1) as u32, ..*self.loc() })
            },
    {
        proof {
            use_type_invariant(self);
        }
        let chars = to_chars(self.s.as_str());
        let n = chars.len();
        assert(chars@.subrange(0, n as int) =~= chars@);
        let i = scan_forward(&chars, 0, n, CharClass::Not(ch));
        if i < n {
            let token1 = Token { s: substr(self.s.as_str(), 0, i), loc: self.loc.clone() };
            let mut loc = self.loc.clone();
            loc.column = loc.column + i as u32 + 1;
            let token2 = Token { s: substr(self.s.as_str(), i + 1, n), loc };
            Some((token1, token2))
        } else {
            None
        }
    }

    /// The text up to and with the first `ch`, and the text after it;
    /// `None` where the text holds no `ch`. The second token stands further
    /// right by the characters before `ch` and by the bytes of `ch`.
    #[must_use]
    pub fn split_after(&self, ch: char) -> (r: Option<(Token, Token)>)
        requires
            self.loc().column + self@.len() + spec_len_utf8(ch) - 1 <= u32::MAX,
        ensures
            r is Some <==> first_index(self@, ch) < self@.len(),
            r matches Some((t1, t2)) ==> {
                let i = first_index(self@, ch) as int;
                &&& t1@ == self@.subrange(0, i + 1)
                &&& t1.loc() == self.loc()
                &&& t2@ == self@.subrange(i + 1, self@.len() as int)
                &&& *t2.loc() == (Loc {
                    column: (self.loc().column + i + spec_len_utf8(ch)) as u32,
                    ..*self.loc()
                })
            },
    {
        proof {
            use_type_invariant(self);
        }
        let chars = to_chars(self.s.as_str());
        let n = chars.len();
        assert(chars@.subrange(0, n as int) =~= chars@);
        let i = scan_forward(&chars, 0, n, CharClass::Not(ch));
        if i < n {
            let chlen = len_utf8(ch);
            let token1 = Token { s: substr(self.s.as_str(), 0, i + 1), loc: self.loc.clone() };
            let mut loc = self.loc.clone();
            loc.column = loc.column + i as u32 + chlen;
            let token2 = Token { s: substr(self.s.as_str(), i + 1, n), loc };
            Some((token1, token2))
        } else {
            None
        }
    }

    /// Whether the text writes a number.
    pub fn is_number(&self) -> (r: bool)
        ensures
            r == is_number_text(self@),
    {
        let chars = to_chars(self.s.as_str());
        chars_are_number(&chars)
    }

    /// Reports a number that has more than five bytes after its point.
    pub fn check_number(&self, sink: &mut Sink)
        ensures
            final(sink)@ == if too_many_decimals(self@) {
                old(sink)@.push(
                    diag_info(
                        Severity::Error,
                        ErrorKey::Validation,
                        *self.loc(),
                        "only 5 decimals are supported"@,
                        "if you give more decimals, you get an error and the number is read as 0"@,
                    ),
                )
            } else {
                old(sink)@
            },
    {
        let chars = to_chars(self.s.as_str());
        let n = chars.len();
        assert(chars@.subrange(0, n as int) =~= chars@);
        let idx = scan_forward(&chars, 0, n, CharClass::Not('.'));
        let mut bytes: usize = 0;
        let mut i: usize = idx;
        proof {
            assert(chars@.subrange(idx as int, idx as int) =~= Seq::<char>::empty());
        }
        while i < n
            invariant
                idx <= i <= n,
                n == chars@.len(),
                bytes <= MAX_DECIMALS + 5,
                (bytes > MAX_DECIMALS + 1) == (utf8_len(chars@.subrange(idx as int, i as int)) > MAX_DECIMALS + 1),
                bytes <= MAX_DECIMALS + 1 ==> bytes == utf8_len(chars@.subrange(idx as int, i as int)),
            decreases n - i,
        {
            proof {
                assert(chars@.subrange(idx as int, i + 1).drop_last() =~= chars@.subrange(idx as int, i as int));
            }
            if bytes <= MAX_DECIMALS + 1 {
                bytes = bytes + len_utf8(chars[i]) as usize;
            }
            i += 1;
        }
        proof {
            assert(chars@.subrange(idx as int, n as int) =~= chars@.skip(idx as int));
        }
        if idx < n && bytes > MAX_DECIMALS + 1 {
            sink.error_info(
                &self.loc,
                ErrorKey::Validation,
                "only 5 decimals are supported",
                "if you give more decimals, you get an error and the number is read as 0",
            );
        }
    }

    /// The integer that the text writes, if it writes one.
    pub fn get_integer(&self) -> (r: Option<i64>)
        ensures
            r == parse_i64(self@),
    {
        let chars = to_chars(self.s.as_str());
        assert(chars@.subrange(0, chars@.len() as int) =~= chars@);
        parse_int_range(&chars, 0, chars.len(), i64::MIN, i64::MAX)
    }

    /// Whether the text writes an integer.
    pub fn is_integer(&self) -> (r: bool)
        ensures
            r == parse_i64(self@) is Some,
    {
        self.get_integer().is_some()
    }

    /// The integer that the text writes; where it writes none, `None`, and
    /// an error is reported.
    pub fn expect_integer(&self, sink: &mut Sink) -> (r: Option<i64>)
        ensures
            r == parse_i64(self@),
            final(sink)@ == if r is Some {
                old(sink)@
            } else {
                old(sink)@.push(diag(Severity::Error, ErrorKey::Validation, *self.loc(), "expected integer"@))
            },
    {
        let r = self.get_integer();
        if r.is_none() {
            sink.error(&self.loc, ErrorKey::Validation, "expected integer");
        }
        r
    }
}

/// The trailing run is no longer than the text, and its characters satisfy
/// `p`.
pub proof fn lemma_trailing_run_props(s: Seq<char>, p: spec_fn(char) -> bool)
    ensures
        trailing_run(s, p) <= s.len(),
        forall|i: int| s.len() - trailing_run(s, p) <= i < s.len() ==> p(#[trigger] s[i]),
    decreases s.len(),
{
    if s.len() > 0 && p(s.last()) {
        let t = s.drop_last();
        lemma_trailing_run_props(t, p);
        assert forall|i: int| s.len() - trailing_run(s, p) <= i < s.len() implies p(#[trigger] s[i]) by {
            if i < s.len() - 1 {
                assert(s[i] == t[i]);
            }
        }
    }
}


impl Token {
    /// The date that the text writes, if it writes one.
    pub fn get_date(&self) -> (r: Option<Date>)
        ensures
            r == parse_date(self@),
    {
        Date::parse(self.as_str())
    }

    /// Whether the text writes a date.
    pub fn is_date(&self) -> (r: bool)
        ensures
            r == parse_date(self@) is Some,
    {
        self.get_date().is_some()
    }

    /// The date that the text writes; where it writes none, `None`, and an
    /// error is reported. A date that ends in a point is read, and reported
    /// as untidy.
    pub fn expect_date(&self, sink: &mut Sink) -> (r: Option<Date>)
        ensures
            r == parse_date(self@),
            final(sink)@ == if r is None {
                old(sink)@.push(diag(Severity::Error, ErrorKey::Validation, *self.loc(), "expected date"@))
            } else if self@.len() > 0 && self@.last() == '.' {
                old(sink)@.push(diag(Severity::Untidy, ErrorKey::Validation, *self.loc(), "trailing dot on date"@))
            } else {
                old(sink)@
            },
    {
        let chars = to_chars(self.as_str());
        let r = Date::parse_chars(&chars);
        if r.is_some() {
            let n = chars.len();
            if n > 0 && chars[n - 1] == '.' {
                sink.untidy(self.loc(), ErrorKey::Validation, "trailing dot on date");
            }
        } else {
            sink.error(self.loc(), ErrorKey::Validation, "expected date");
        }
        r
    }
}

} // verus!
