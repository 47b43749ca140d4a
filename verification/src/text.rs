//! Character-level string helpers shared by the rules, the diff parser and the
//! line index. Every helper is stated over the `Seq<char>` view of its strings.
use vstd::prelude::*;

verus! {

/// Appends one character to a `String` (`String::push`).
#[verifier::external_body]
pub(crate) fn push_char(s: &mut String, c: char)
    ensures
        final(s)@ == old(s)@.push(c),
{
    s.push(c);
}

/// Appends a string slice to a `String`.
pub(crate) fn push_str(s: &mut String, tail: &str)
    ensures
        final(s)@ == old(s)@ + tail@,
{
    s.append(tail);
}

/// The characters of `s`, in order.
pub fn chars_of(s: &str) -> (out: Vec<char>)
    ensures
        out@ == s@,
{
    let mut out: Vec<char> = Vec::new();
    for c in it: s.chars()
        invariant
            out@ == it.seq().take(it.index() as int),
            it.seq() == s@,
    {
        out.push(c);
    }
    out
}

/// A `String` holding exactly the characters of `v`.
pub fn string_of(v: &[char]) -> (out: String)
    ensures
        out@ == v@,
{
    let mut out = String::new();
    let mut i: usize = 0;
    while i < v.len()
        invariant
            i <= v@.len(),
            out@ == v@.take(i as int),
        decreases v@.len() - i,
    {
        assert(v@.take(i + 1) =~= v@.take(i as int).push(v@[i as int]));
        push_char(&mut out, v[i]);
        i += 1;
    }
    assert(v@.take(v@.len() as int) =~= v@);
    out
}

/// An owned copy of a string slice.
pub fn owned(s: &str) -> (out: String)
    ensures
        out@ == s@,
{
    let chars = chars_of(s);
    string_of(&chars)
}

/// The concatenation of two strings.
pub fn concat2(a: &str, b: &str) -> (out: String)
    ensures
        out@ == a@ + b@,
{
    let mut out = owned(a);
    push_str(&mut out, b);
    out
}

/// The concatenation of three strings.
pub fn concat3(a: &str, b: &str, c: &str) -> (out: String)
    ensures
        out@ == a@ + b@ + c@,
{
    let mut out = owned(a);
    push_str(&mut out, b);
    push_str(&mut out, c);
    out
}

/// The concatenation of five strings.
pub fn concat5(a: &str, b: &str, c: &str, d: &str, e: &str) -> (out: String)
    ensures
        out@ == a@ + b@ + c@ + d@ + e@,
{
    let mut out = owned(a);
    push_str(&mut out, b);
    push_str(&mut out, c);
    push_str(&mut out, d);
    push_str(&mut out, e);
    out
}

/// Equality of two character slices.
pub fn chars_eq(a: &[char], b: &[char]) -> (equal: bool)
    ensures
        equal == (a@ == b@),
{
    if a.len() != b.len() {
        return false;
    }
    let mut i: usize = 0;
    while i < a.len()
        invariant
            a@.len() == b@.len(),
            i <= a@.len(),
            forall|k: int| 0 <= k < i ==> a@[k] == b@[k],
        decreases a@.len() - i,
    {
        if a[i] != b[i] {
            return false;
        }
        i += 1;
    }
    assert(a@ =~= b@);
    true
}

/// Do the characters `cs` spell `word`?
pub fn chars_eq_str(cs: &[char], word: &str) -> (equal: bool)
    ensures
        equal == (cs@ == word@),
{
    let w = chars_of(word);
    chars_eq(cs, &w)
}

/// Equality of two string slices, by their characters.
pub fn str_eq(a: &str, b: &str) -> (equal: bool)
    ensures
        equal == (a@ == b@),
{
    let x = chars_of(a);
    let y = chars_of(b);
    chars_eq(&x, &y)
}

/// `needle` occurs in `hay` starting at position `i`.
pub open spec fn occurs_at(hay: Seq<char>, needle: Seq<char>, i: int) -> bool {
    0 <= i && i + needle.len() <= hay.len() && hay.subrange(i, i + needle.len()) == needle
}

/// `needle` occurs somewhere in `hay`.
pub open spec fn seq_contains(hay: Seq<char>, needle: Seq<char>) -> bool {
    exists|i: int| occurs_at(hay, needle, i)
}

/// `hay` begins with `prefix`.
pub open spec fn seq_starts_with(hay: Seq<char>, prefix: Seq<char>) -> bool {
    occurs_at(hay, prefix, 0)
}

/// `hay` ends with `suffix`.
pub open spec fn seq_ends_with(hay: Seq<char>, suffix: Seq<char>) -> bool {
    occurs_at(hay, suffix, hay.len() - suffix.len())
}

/// Does `needle` occur in `hay` at position `i`?
pub fn matches_at(hay: &[char], needle: &[char], i: usize) -> (found: bool)
    ensures
        found == occurs_at(hay@, needle@, i as int),
{
    if i > hay.len() || needle.len() > hay.len() - i {
        return false;
    }
    let mut k: usize = 0;
    while k < needle.len()
        invariant
            i + needle@.len() <= hay@.len(),
            hay@.len() == hay.len(),
            needle@.len() == needle.len(),
            k <= needle@.len(),
            forall|m: int| 0 <= m < k ==> hay@[i + m] == needle@[m],
        decreases needle@.len() - k,
    {
        if hay[i + k] != needle[k] {
            assert(hay@.subrange(i as int, i + needle@.len())[k as int] != needle@[k as int]);
            return false;
        }
        k += 1;
    }
    assert(hay@.subrange(i as int, i + needle@.len()) =~= needle@);
    true
}

/// Does `needle` occur anywhere in `hay`?
pub fn contains(hay: &[char], needle: &[char]) -> (found: bool)
    ensures
        found == seq_contains(hay@, needle@),
{
    if needle.len() > hay.len() {
        assert forall|i: int| !occurs_at(hay@, needle@, i) by {}
        return false;
    }
    let last = hay.len() - needle.len();
    let mut i: usize = 0;
    loop
        invariant_except_break
            last == hay@.len() - needle@.len(),
            i <= last,
            forall|j: int| 0 <= j < i ==> !occurs_at(hay@, needle@, j),
        ensures
            forall|j: int| 0 <= j <= last ==> !occurs_at(hay@, needle@, j),
        decreases last - i,
    {
        if matches_at(hay, needle, i) {
            return true;
        }
        if i == last {
            break;
        }
        i += 1;
    }
    assert forall|j: int| !occurs_at(hay@, needle@, j) by {
        if 0 <= j <= last {
        }
    }
    false
}

/// Does `hay` begin with `prefix`?
pub fn starts_with(hay: &[char], prefix: &[char]) -> (found: bool)
    ensures
        found == seq_starts_with(hay@, prefix@),
{
    matches_at(hay, prefix, 0)
}

/// Does `hay` end with `suffix`?
pub fn ends_with(hay: &[char], suffix: &[char]) -> (found: bool)
    ensures
        found == seq_ends_with(hay@, suffix@),
{
    if suffix.len() > hay.len() {
        return false;
    }
    matches_at(hay, suffix, hay.len() - suffix.len())
}

/// Does the string `hay` contain the string `needle`?
pub fn str_contains(hay: &str, needle: &str) -> (found: bool)
    ensures
        found == seq_contains(hay@, needle@),
{
    let h = chars_of(hay);
    let n = chars_of(needle);
    contains(&h, &n)
}

/// Does the string `hay` begin with the string `prefix`?
pub fn str_starts_with(hay: &str, prefix: &str) -> (found: bool)
    ensures
        found == seq_starts_with(hay@, prefix@),
{
    let h = chars_of(hay);
    let p = chars_of(prefix);
    starts_with(&h, &p)
}

/// Does the string `hay` end with the string `suffix`?
pub fn str_ends_with(hay: &str, suffix: &str) -> (found: bool)
    ensures
        found == seq_ends_with(hay@, suffix@),
{
    let h = chars_of(hay);
    let s = chars_of(suffix);
    ends_with(&h, &s)
}

/// ASCII lower-casing of one character (other characters are unchanged).
pub open spec fn ascii_lower_char(c: char) -> char {
    if 'A' <= c && c <= 'Z' {
        ((c as u32) + 32) as char
    } else {
        c
    }
}

/// ASCII upper-casing of one character (other characters are unchanged).
pub open spec fn ascii_upper_char(c: char) -> char {
    if 'a' <= c && c <= 'z' {
        ((c as u32) - 32) as char
    } else {
        c
    }
}

/// ASCII lower-casing of a character sequence.
pub open spec fn ascii_lower(s: Seq<char>) -> Seq<char> {
    s.map_values(|c: char| ascii_lower_char(c))
}

/// ASCII upper-casing of a character sequence.
pub open spec fn ascii_upper(s: Seq<char>) -> Seq<char> {
    s.map_values(|c: char| ascii_upper_char(c))
}

fn lower_char(c: char) -> (out: char)
    ensures
        out == ascii_lower_char(c),
{
    if 'A' <= c && c <= 'Z' {
        let code: u8 = ((c as u32) + 32) as u8;
        code as char
    } else {
        c
    }
}

fn upper_char(c: char) -> (out: char)
    ensures
        out == ascii_upper_char(c),
{
    if 'a' <= c && c <= 'z' {
        let code: u8 = ((c as u32) - 32) as u8;
        code as char
    } else {
        c
    }
}

/// The characters of `s`, ASCII-lower-cased.
pub fn to_ascii_lowercase(s: &str) -> (out: Vec<char>)
    ensures
        out@ == ascii_lower(s@),
{
    let mut out: Vec<char> = Vec::new();
    for c in it: s.chars()
        invariant
            it.seq() == s@,
            out@ == ascii_lower(it.seq().take(it.index() as int)),
    {
        assert(ascii_lower(it.seq().take(it.index() + 1)) =~= ascii_lower(
            it.seq().take(it.index() as int),
        ).push(ascii_lower_char(c)));
        out.push(lower_char(c));
    }
    out
}

/// The characters of `s`, ASCII-upper-cased.
pub fn to_ascii_uppercase(s: &[char]) -> (out: Vec<char>)
    ensures
        out@ == ascii_upper(s@),
{
    let mut out: Vec<char> = Vec::new();
    let mut i: usize = 0;
    while i < s.len()
        invariant
            i <= s@.len(),
            out@ == ascii_upper(s@.take(i as int)),
        decreases s@.len() - i,
    {
        assert(ascii_upper(s@.take(i + 1)) =~= ascii_upper(s@.take(i as int)).push(
            ascii_upper_char(s@[i as int]),
        ));
        out.push(upper_char(s[i]));
        i += 1;
    }
    assert(s@.take(s@.len() as int) =~= s@);
    out
}

/// Unicode `White_Space` (the set `char::is_whitespace` tests).
pub open spec fn is_white_space(c: char) -> bool {
    let u = c as u32;
    ||| 0x09 <= u <= 0x0D
    ||| u == 0x20
    ||| u == 0x85
    ||| u == 0xA0
    ||| u == 0x1680
    ||| 0x2000 <= u <= 0x200A
    ||| u == 0x2028
    ||| u == 0x2029
    ||| u == 0x202F
    ||| u == 0x205F
    ||| u == 0x3000
}

/// Is `c` Unicode white space?
pub fn is_whitespace(c: char) -> (white: bool)
    ensures
        white == is_white_space(c),
{
    let u = c as u32;
    (0x09 <= u && u <= 0x0D) || u == 0x20 || u == 0x85 || u == 0xA0 || u == 0x1680 || (0x2000
        <= u && u <= 0x200A) || u == 0x2028 || u == 0x2029 || u == 0x202F || u == 0x205F || u
        == 0x3000
}

/// Number of trailing white-space characters of `s`.
pub open spec fn trailing_white(s: Seq<char>) -> nat
    decreases s.len(),
{
    if s.len() > 0 && is_white_space(s.last()) {
        trailing_white(s.drop_last()) + 1
    } else {
        0
    }
}

/// Number of leading white-space characters of `s`.
pub open spec fn leading_white(s: Seq<char>) -> nat
    decreases s.len(),
{
    if s.len() > 0 && is_white_space(s.first()) {
        leading_white(s.drop_first()) + 1
    } else {
        0
    }
}

/// `s` without its trailing white space (`str::trim_end`).
pub open spec fn trim_end_spec(s: Seq<char>) -> Seq<char> {
    s.take(s.len() - trailing_white(s))
}

/// `s` without its leading white space (`str::trim_start`).
pub open spec fn trim_start_spec(s: Seq<char>) -> Seq<char> {
    s.skip(leading_white(s) as int)
}

/// `s` without leading and trailing white space (`str::trim`).
pub open spec fn trim_spec(s: Seq<char>) -> Seq<char> {
    trim_start_spec(trim_end_spec(s))
}

proof fn lemma_trailing_white_bound(s: Seq<char>)
    ensures
        trailing_white(s) <= s.len(),
    decreases s.len(),
{
    if s.len() > 0 && is_white_space(s.last()) {
        lemma_trailing_white_bound(s.drop_last());
    }
}

proof fn lemma_leading_white_bound(s: Seq<char>)
    ensures
        leading_white(s) <= s.len(),
    decreases s.len(),
{
    if s.len() > 0 && is_white_space(s.first()) {
        lemma_leading_white_bound(s.drop_first());
    }
}

/// `s` without trailing white space.
pub fn trim_end(s: &[char]) -> (out: Vec<char>)
    ensures
        out@ == trim_end_spec(s@),
{
    let mut end: usize = s.len();
    assert(s@.take(s@.len() as int) =~= s@);
    while end > 0 && is_whitespace(s[end - 1])
        invariant
            end <= s@.len(),
            trailing_white(s@) == trailing_white(s@.take(end as int)) + (s@.len() - end),
        decreases end,
    {
        assert(s@.take(end as int).drop_last() =~= s@.take(end - 1));
        end -= 1;
    }
    assert(trailing_white(s@.take(end as int)) == 0);
    let mut out: Vec<char> = Vec::new();
    let mut i: usize = 0;
    while i < end
        invariant
            end <= s@.len(),
            i <= end,
            out@ == s@.take(i as int),
        decreases end - i,
    {
        assert(s@.take(i + 1) =~= s@.take(i as int).push(s@[i as int]));
        out.push(s[i]);
        i += 1;
    }
    out
}

/// `s` without leading or trailing white space.
pub fn trim(s: &[char]) -> (out: Vec<char>)
    ensures
        out@ == trim_spec(s@),
{
    let t = trim_end(s);
    let mut start: usize = 0;
    assert(t@.skip(0) =~= t@);
    while start < t.len() && is_whitespace(t[start])
        invariant
            start <= t@.len(),
            leading_white(t@) == leading_white(t@.skip(start as int)) + start,
        decreases t@.len() - start,
    {
        assert(t@.skip(start as int).drop_first() =~= t@.skip(start + 1));
        start += 1;
    }
    assert(leading_white(t@.skip(start as int)) == 0);
    let mut out: Vec<char> = Vec::new();
    let mut i: usize = start;
    while i < t.len()
        invariant
            start <= i <= t@.len(),
            out@ == t@.subrange(start as int, i as int),
        decreases t@.len() - i,
    {
        assert(t@.subrange(start as int, i + 1) =~= t@.subrange(start as int, i as int).push(
            t@[i as int],
        ));
        out.push(t[i]);
        i += 1;
    }
    assert(t@.subrange(start as int, t@.len() as int) =~= t@.skip(start as int));
    out
}

} // verus!

verus! {

/// Lexicographic order on character sequences (by code point, which is also
/// the byte order of their UTF-8 encodings).
pub open spec fn seq_lt(a: Seq<char>, b: Seq<char>) -> bool
    decreases a.len(),
{
    if a.len() == 0 {
        b.len() > 0
    } else if b.len() == 0 {
        false
    } else if a[0] != b[0] {
        (a[0] as u32) < (b[0] as u32)
    } else {
        seq_lt(a.drop_first(), b.drop_first())
    }
}

/// `a` sorts no later than `b`.
pub open spec fn seq_le(a: Seq<char>, b: Seq<char>) -> bool {
    !seq_lt(b, a)
}

proof fn lemma_seq_lt_skip(a: Seq<char>, b: Seq<char>, i: int)
    requires
        0 <= i <= a.len(),
        i <= b.len(),
        a.take(i) == b.take(i),
    ensures
        seq_lt(a, b) == seq_lt(a.skip(i), b.skip(i)),
    decreases i,
{
    if i > 0 {
        assert(a[0] == a.take(i)[0]);
        assert(b[0] == b.take(i)[0]);
        assert(a.drop_first().take(i - 1) =~= a.take(i).drop_first());
        assert(b.drop_first().take(i - 1) =~= b.take(i).drop_first());
        lemma_seq_lt_skip(a.drop_first(), b.drop_first(), i - 1);
        assert(a.drop_first().skip(i - 1) =~= a.skip(i));
        assert(b.drop_first().skip(i - 1) =~= b.skip(i));
    } else {
        assert(a.skip(0) =~= a);
        assert(b.skip(0) =~= b);
    }
}

/// Is `a` strictly before `b` in lexicographic order?
pub fn chars_lt(a: &[char], b: &[char]) -> (less: bool)
    ensures
        less == seq_lt(a@, b@),
{
    let mut i: usize = 0;
    while i < a.len() && i < b.len() && a[i] == b[i]
        invariant
            i <= a@.len(),
            i <= b@.len(),
            a@.take(i as int) == b@.take(i as int),
        decreases a@.len() - i,
    {
        assert(a@.take(i + 1) =~= a@.take(i as int).push(a@[i as int]));
        assert(b@.take(i + 1) =~= b@.take(i as int).push(b@[i as int]));
        i += 1;
    }
    proof {
        lemma_seq_lt_skip(a@, b@, i as int);
    }
    if i == a.len() {
        proof {
            assert(a@.skip(i as int).len() == 0);
        }
        return i < b.len();
    }
    if i == b.len() {
        return false;
    }
    proof {
        assert(a@.skip(i as int)[0] == a@[i as int]);
        assert(b@.skip(i as int)[0] == b@[i as int]);
    }
    (a[i] as u32) < (b[i] as u32)
}

/// Is the string `a` strictly before `b` in lexicographic order?
pub fn str_lt(a: &str, b: &str) -> (less: bool)
    ensures
        less == seq_lt(a@, b@),
{
    let x = chars_of(a);
    let y = chars_of(b);
    chars_lt(&x, &y)
}

} // verus!

verus! {

proof fn lemma_char_u32_injective(x: char, y: char)
    requires
        x != y,
    ensures
        (x as u32) != (y as u32),
{
    if (x as u32) == (y as u32) {
        vstd::utf8::char_u32_cast(x, x as u32);
        vstd::utf8::char_u32_cast(y, y as u32);
    }
}

/// Strict lexicographic order is transitive.
pub proof fn lemma_seq_lt_transitive(a: Seq<char>, b: Seq<char>, c: Seq<char>)
    requires
        seq_lt(a, b),
        seq_lt(b, c),
    ensures
        seq_lt(a, c),
    decreases a.len(),
{
    if a.len() > 0 && b.len() > 0 && c.len() > 0 && a[0] == b[0] && b[0] == c[0] {
        lemma_seq_lt_transitive(a.drop_first(), b.drop_first(), c.drop_first());
    }
}

/// Two character sequences are equal or strictly ordered one way.
pub proof fn lemma_seq_lt_trichotomy(a: Seq<char>, b: Seq<char>)
    ensures
        seq_lt(a, b) || seq_lt(b, a) || a == b,
        !(seq_lt(a, b) && seq_lt(b, a)),
    decreases a.len(),
{
    if a.len() > 0 && b.len() > 0 && a[0] == b[0] {
        lemma_seq_lt_trichotomy(a.drop_first(), b.drop_first());
        if a.drop_first() == b.drop_first() {
            assert(a =~= seq![a[0]] + a.drop_first());
            assert(b =~= seq![b[0]] + b.drop_first());
        }
    } else if a.len() > 0 && b.len() > 0 {
        lemma_char_u32_injective(a[0], b[0]);
    } else if a.len() == 0 && b.len() == 0 {
        assert(a =~= b);
    }
}

/// `seq_le` is transitive.
pub proof fn lemma_seq_le_transitive(a: Seq<char>, b: Seq<char>, c: Seq<char>)
    requires
        seq_le(a, b),
        seq_le(b, c),
    ensures
        seq_le(a, c),
{
    lemma_seq_lt_trichotomy(a, b);
    lemma_seq_lt_trichotomy(b, c);
    lemma_seq_lt_trichotomy(a, c);
    if seq_lt(c, a) {
        if seq_lt(a, b) {
            lemma_seq_lt_transitive(c, a, b);
        }
    }
}

} // verus!

verus! {

/// The decimal digit character for a value below 10.
pub open spec fn digit_char(d: nat) -> char {
    ((('0' as u32) + d) as u32) as char
}

/// Decimal representation of a natural number, without leading zeros.
pub open spec fn decimal(n: nat) -> Seq<char>
    decreases n,
{
    if n < 10 {
        seq![digit_char(n)]
    } else {
        decimal(n / 10).push(digit_char(n % 10))
    }
}

fn digit(d: u64) -> (c: char)
    requires
        d < 10,
    ensures
        c == digit_char(d as nat),
{
    let code: u8 = (48 + d) as u8;
    code as char
}

/// The decimal representation of `n`.
pub fn to_decimal(n: u64) -> (text: String)
    ensures
        text@ == decimal(n as nat),
    decreases n,
{
    if n < 10 {
        let mut text = String::new();
        push_char(&mut text, digit(n));
        assert(text@ =~= seq![digit_char(n as nat)]);
        text
    } else {
        let mut text = to_decimal(n / 10);
        push_char(&mut text, digit(n % 10));
        text
    }
}

} // verus!

verus! {

/// `cs` split at every `\n` (an empty input gives one empty piece; a
/// trailing `\n` gives a trailing empty piece).
pub open spec fn split_newlines(cs: Seq<char>) -> Seq<Seq<char>>
    decreases cs.len(),
{
    if cs.len() == 0 {
        seq![Seq::empty()]
    } else {
        let pieces = split_newlines(cs.drop_last());
        if cs.last() == '\n' {
            pieces.push(Seq::empty())
        } else {
            pieces.update(pieces.len() - 1, pieces.last().push(cs.last()))
        }
    }
}

proof fn lemma_split_nonempty(cs: Seq<char>)
    ensures
        split_newlines(cs).len() >= 1,
    decreases cs.len(),
{
    if cs.len() > 0 {
        lemma_split_nonempty(cs.drop_last());
    }
}

/// A line without one trailing `\r`.
pub open spec fn strip_cr(line: Seq<char>) -> Seq<char> {
    if line.len() > 0 && line.last() == '\r' {
        line.drop_last()
    } else {
        line
    }
}

/// The lines of `cs` as `str::lines` gives them: split at `\n`, without a
/// final empty piece, each without a trailing `\r`.
pub open spec fn lines_spec(cs: Seq<char>) -> Seq<Seq<char>> {
    let pieces = split_newlines(cs);
    let kept = if pieces.last().len() == 0 {
        pieces.drop_last()
    } else {
        pieces
    };
    kept.map_values(|line: Seq<char>| strip_cr(line))
}

fn strip_cr_vec(line: Vec<char>) -> (out: Vec<char>)
    ensures
        out@ == strip_cr(line@),
{
    let mut line = line;
    if line.len() > 0 && line[line.len() - 1] == '\r' {
        line.pop();
    }
    line
}

/// The lines of `s` (`str::lines`).
pub fn lines(s: &str) -> (out: Vec<Vec<char>>)
    ensures
        out@.len() == lines_spec(s@).len(),
        forall|i: int| 0 <= i < out@.len() ==> (#[trigger] out@[i])@ == lines_spec(s@)[i],
{
    let cs = chars_of(s);
    let mut out: Vec<Vec<char>> = Vec::new();
    let mut current: Vec<char> = Vec::new();
    let mut i: usize = 0;
    proof {
        assert(cs@.take(0) =~= Seq::<char>::empty());
    }
    while i < cs.len()
        invariant
            cs@ == s@,
            i <= cs@.len(),
            split_newlines(cs@.take(i as int)).len() == out@.len() + 1,
            forall|k: int| 0 <= k < out@.len() ==> (#[trigger] out@[k])@ == strip_cr(split_newlines(cs@.take(i as int))[k]),
            current@ == split_newlines(cs@.take(i as int)).last(),
        decreases cs@.len() - i,
    {
        let c = cs[i];
        assert(cs@.take(i + 1).drop_last() =~= cs@.take(i as int));
        assert(cs@.take(i + 1).last() == c);
        if c == '\n' {
            let finished = strip_cr_vec(current);
            out.push(finished);
            current = Vec::new();
            assert(current@ =~= Seq::<char>::empty());
        } else {
            current.push(c);
        }
        i += 1;
    }
    assert(cs@.take(cs@.len() as int) =~= cs@);
    if current.len() > 0 {
        let finished = strip_cr_vec(current);
        out.push(finished);
    }
    out
}

/// The position of the first `c` in `cs`, if any.
pub open spec fn first_index_of(cs: Seq<char>, c: char) -> Option<int>
    decreases cs.len(),
{
    if cs.len() == 0 {
        None
    } else if cs[0] == c {
        Some(0)
    } else {
        match first_index_of(cs.drop_first(), c) {
            Some(i) => Some(i + 1),
            None => None,
        }
    }
}

proof fn lemma_first_index_of_skip(cs: Seq<char>, c: char, k: int)
    requires
        0 <= k <= cs.len(),
        forall|j: int| 0 <= j < k ==> cs[j] != c,
    ensures
        first_index_of(cs, c) == (match first_index_of(cs.skip(k), c) {
            Some(i) => Some(i + k),
            None => None,
        }),
    decreases k,
{
    if k > 0 {
        lemma_first_index_of_skip(cs.drop_first(), c, k - 1);
        assert(cs.drop_first().skip(k - 1) =~= cs.skip(k));
    } else {
        assert(cs.skip(0) =~= cs);
        match first_index_of(cs, c) {
            Some(i) => {},
            None => {},
        }
    }
}

/// The first `c` of `cs` is at `k` when `cs[k]` is `c` and no earlier one is.
pub proof fn lemma_first_index_at(cs: Seq<char>, c: char, k: int)
    requires
        0 <= k < cs.len(),
        cs[k] == c,
        forall|j: int| 0 <= j < k ==> cs[j] != c,
    ensures
        first_index_of(cs, c) == Some(k),
{
    lemma_first_index_of_skip(cs, c, k);
    assert(cs.skip(k)[0] == c);
}

/// With no `c` before `k`, the first `c` of `cs`, if any, is at or after `k`.
pub proof fn lemma_first_index_from(cs: Seq<char>, c: char, k: int)
    requires
        0 <= k <= cs.len(),
        forall|j: int| 0 <= j < k ==> cs[j] != c,
    ensures
        match first_index_of(cs, c) {
            Some(i) => k <= i < cs.len() && cs[i] == c,
            None => true,
        },
{
    lemma_first_index_bound(cs, c);
}

/// The position of the first `c` in `cs`, if any.
pub fn find_char(cs: &[char], c: char) -> (found: Option<usize>)
    ensures
        match found {
            Some(i) => first_index_of(cs@, c) == Some(i as int),
            None => first_index_of(cs@, c) == None::<int>,
        },
{
    let mut i: usize = 0;
    while i < cs.len()
        invariant
            i <= cs@.len(),
            forall|j: int| 0 <= j < i ==> cs@[j] != c,
        decreases cs@.len() - i,
    {
        if cs[i] == c {
            proof {
                lemma_first_index_of_skip(cs@, c, i as int);
                assert(cs@.skip(i as int)[0] == c);
            }
            return Some(i);
        }
        i += 1;
    }
    proof {
        lemma_first_index_of_skip(cs@, c, i as int);
        assert(cs@.skip(i as int).len() == 0);
    }
    None
}

/// The part of `cs` before the first `c` (all of `cs` without one).
pub open spec fn before_first(cs: Seq<char>, c: char) -> Seq<char> {
    match first_index_of(cs, c) {
        Some(i) => cs.take(i),
        None => cs,
    }
}

/// The part of `cs` after the first `c`, if there is one.
pub open spec fn after_first(cs: Seq<char>, c: char) -> Option<Seq<char>> {
    match first_index_of(cs, c) {
        Some(i) => Some(cs.skip(i + 1)),
        None => None,
    }
}

proof fn lemma_first_index_bound(cs: Seq<char>, c: char)
    ensures
        match first_index_of(cs, c) {
            Some(i) => 0 <= i < cs.len() && cs[i] == c,
            None => true,
        },
    decreases cs.len(),
{
    if cs.len() > 0 && cs[0] != c {
        lemma_first_index_bound(cs.drop_first(), c);
    }
}

/// A copy of `cs[from..to]`.
pub fn slice_to_vec(cs: &[char], from: usize, to: usize) -> (out: Vec<char>)
    requires
        from <= to <= cs@.len(),
    ensures
        out@ == cs@.subrange(from as int, to as int),
{
    let mut out: Vec<char> = Vec::new();
    let mut i: usize = from;
    while i < to
        invariant
            from <= i <= to,
            to <= cs@.len(),
            out@ == cs@.subrange(from as int, i as int),
        decreases to - i,
    {
        assert(cs@.subrange(from as int, i + 1) =~= cs@.subrange(from as int, i as int).push(cs@[i as int]));
        out.push(cs[i]);
        i += 1;
    }
    out
}

/// The part of `cs` before the first `c`.
pub fn take_before(cs: &[char], c: char) -> (out: Vec<char>)
    ensures
        out@ == before_first(cs@, c),
{
    proof {
        lemma_first_index_bound(cs@, c);
    }
    match find_char(cs, c) {
        Some(i) => slice_to_vec(cs, 0, i),
        None => {
            let out = slice_to_vec(cs, 0, cs.len());
            assert(cs@.subrange(0, cs@.len() as int) =~= cs@);
            out
        },
    }
}

/// The part of `cs` after the first `c`, if any.
pub fn take_after(cs: &[char], c: char) -> (out: Option<Vec<char>>)
    ensures
        match out {
            Some(v) => after_first(cs@, c) == Some(v@),
            None => after_first(cs@, c) == None::<Seq<char>>,
        },
{
    proof {
        lemma_first_index_bound(cs@, c);
    }
    match find_char(cs, c) {
        Some(i) => {
            assert(i < cs.len());
            let out = slice_to_vec(cs, i + 1, cs.len());
            assert(cs@.subrange(i + 1, cs@.len() as int) =~= cs@.skip(i + 1));
            Some(out)
        },
        None => None,
    }
}

/// An ASCII decimal digit.
pub open spec fn is_digit(c: char) -> bool {
    '0' <= c && c <= '9'
}

/// The value of a sequence of decimal digits.
pub open spec fn digits_value(cs: Seq<char>) -> nat
    decreases cs.len(),
{
    if cs.len() == 0 {
        0
    } else {
        digits_value(cs.drop_last()) * 10 + ((cs.last() as u32) - ('0' as u32)) as nat
    }
}

/// What `str::parse::<u32>` accepts: an optional `+` then one or more digits,
/// with a value that fits in `u32`.
pub open spec fn parse_u32_spec(cs: Seq<char>) -> Option<u32> {
    parse_digits_spec(unsigned_part(cs))
}

/// `cs` without one leading `+`.
pub open spec fn unsigned_part(cs: Seq<char>) -> Seq<char> {
    if cs.len() > 0 && cs[0] == '+' {
        cs.drop_first()
    } else {
        cs
    }
}

/// All characters are decimal digits.
pub open spec fn all_digits(cs: Seq<char>) -> bool {
    forall|i: int| 0 <= i < cs.len() ==> is_digit(cs[i])
}

/// The value of one or more digits that fits in `u32`.
pub open spec fn parse_digits_spec(digits: Seq<char>) -> Option<u32> {
    if digits.len() > 0 && all_digits(digits) && digits_value(digits) <= u32::MAX {
        Some(digits_value(digits) as u32)
    } else {
        None
    }
}

/// Parse a decimal `u32` (`str::parse::<u32>`).
pub fn parse_u32(cs: &[char]) -> (value: Option<u32>)
    ensures
        value == parse_u32_spec(cs@),
{
    let start: usize = if cs.len() > 0 && cs[0] == '+' {
        1
    } else {
        0
    };
    let ghost digits = unsigned_part(cs@);
    assert(digits =~= cs@.skip(start as int));
    if start >= cs.len() {
        return None;
    }
    let mut value: u64 = 0;
    let mut i: usize = start;
    while i < cs.len()
        invariant
            start <= i <= cs@.len(),
            digits == unsigned_part(cs@),
            digits =~= cs@.skip(start as int),
            forall|j: int| start <= j < i ==> is_digit(cs@[j]),
            value == digits_value(cs@.subrange(start as int, i as int)),
            value <= u32::MAX,
        decreases cs@.len() - i,
    {
        let c = cs[i];
        if !('0' <= c && c <= '9') {
            proof {
                assert(digits[i - start] == cs@[i as int]);
                assert(!is_digit(digits[i - start]));
                assert(!all_digits(digits));
                assert(parse_digits_spec(digits) == None::<u32>);
                assert(parse_u32_spec(cs@) == parse_digits_spec(digits));
            }
            return None;
        }
        assert(cs@.subrange(start as int, i + 1).drop_last() =~= cs@.subrange(start as int, i as int));
        let d = ((c as u32) - 48) as u64;
        let next = value * 10 + d;
        if next > 4294967295 {
            proof {
                assert(digits.take(i + 1 - start) =~= cs@.subrange(start as int, i + 1));
                if all_digits(digits) {
                    lemma_digits_value_prefix(digits, i + 1 - start);
                }
                assert(parse_digits_spec(digits) == None::<u32>);
                assert(parse_u32_spec(cs@) == parse_digits_spec(digits));
            }
            return None;
        }
        value = next;
        i += 1;
    }
    assert(cs@.subrange(start as int, cs@.len() as int) =~= digits);
    Some(value as u32)
}

proof fn lemma_digits_value_prefix(cs: Seq<char>, k: int)
    requires
        0 <= k <= cs.len(),
        forall|i: int| 0 <= i < cs.len() ==> is_digit(cs[i]),
    ensures
        digits_value(cs.take(k)) <= digits_value(cs),
    decreases cs.len() - k,
{
    if k < cs.len() {
        lemma_digits_value_prefix(cs, k + 1);
        assert(cs.take(k + 1).drop_last() =~= cs.take(k));
    } else {
        assert(cs.take(k) =~= cs);
    }
}

} // verus!
