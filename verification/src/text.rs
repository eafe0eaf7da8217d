//! Text as a sequence of characters: searching, replacing, trimming, and the
//! few pieces of the standard library that the rest of the crate relies on.

use vstd::prelude::*;
use vstd::utf8::*;

verus! {

// ---------------------------------------------------------------------------
// Searching
// ---------------------------------------------------------------------------

/// `pat` stands in `s` at position `i`.
pub open spec fn occurs_at(s: Seq<char>, pat: Seq<char>, i: int) -> bool {
    &&& 0 <= i
    &&& i + pat.len() <= s.len()
    &&& s.subrange(i, i + pat.len()) == pat
}

/// `pat` stands somewhere in `s`.
pub open spec fn holds(s: Seq<char>, pat: Seq<char>) -> bool {
    exists|i: int| occurs_at(s, pat, i)
}

/// `s` starts with `start`.
pub open spec fn starts_with(s: Seq<char>, start: Seq<char>) -> bool {
    start.len() <= s.len() && s.take(start.len() as int) == start
}

/// `s` ends with `end`.
pub open spec fn ends_with(s: Seq<char>, end: Seq<char>) -> bool {
    end.len() <= s.len() && s.skip(s.len() - end.len()) == end
}

/// The first position of `pat` in `s` that is not before `from`.
pub open spec fn find_from(s: Seq<char>, pat: Seq<char>, from: int) -> Option<int>
    decreases s.len() - from,
{
    if from < 0 || from + pat.len() > s.len() {
        None
    } else if occurs_at(s, pat, from) {
        Some(from)
    } else if from == s.len() {
        None
    } else {
        find_from(s, pat, from + 1)
    }
}

/// The position found is the first one at or after `from`, and none is found
/// exactly when there is none.
pub proof fn law_find_first(s: Seq<char>, pat: Seq<char>, from: int)
    requires
        0 <= from,
    ensures
        match find_from(s, pat, from) {
            Some(i) => from <= i && occurs_at(s, pat, i) && (forall|j: int|
                from <= j < i ==> !occurs_at(s, pat, j)),
            None => forall|j: int| from <= j ==> !occurs_at(s, pat, j),
        },
    decreases s.len() - from,
{
    if from + pat.len() <= s.len() && !occurs_at(s, pat, from) && from != s.len() {
        law_find_first(s, pat, from + 1);
    }
}

/// A position that is the first one is the position found.
pub proof fn lemma_find_is(s: Seq<char>, pat: Seq<char>, from: int, i: int)
    requires
        0 <= from <= i,
        occurs_at(s, pat, i),
        forall|j: int| from <= j < i ==> !occurs_at(s, pat, j),
    ensures
        find_from(s, pat, from) == Some(i),
{
    law_find_first(s, pat, from);
}

/// A one-character pattern occurs where that character is.
pub proof fn lemma_occurs_char(s: Seq<char>, c: char, i: int)
    ensures
        occurs_at(s, seq![c], i) <==> 0 <= i < s.len() && s[i] == c,
{
    if 0 <= i < s.len() {
        assert(s.subrange(i, i + 1) =~= seq![s[i]]);
        assert(seq![s[i]][0] == s[i]);
        assert(seq![c][0] == c);
    }
}

fn occurs_here(s: &Vec<char>, pat: &Vec<char>, i: usize) -> (r: bool)
    requires
        i <= s.len(),
    ensures
        r == occurs_at(s@, pat@, i as int),
{
    if s.len() - i < pat.len() {
        return false;
    }
    let mut k: usize = 0;
    while k < pat.len()
        invariant
            i + pat.len() <= s.len(),
            k <= pat.len(),
            forall|j: int| 0 <= j < k ==> s[i + j] == pat[j],
        decreases pat.len() - k,
    {
        if s[i + k] != pat[k] {
            assert(s@.subrange(i as int, i + pat@.len())[k as int] != pat@[k as int]);
            return false;
        }
        k += 1;
    }
    assert(s@.subrange(i as int, i + pat@.len()) =~= pat@);
    true
}

/// Position of the first occurrence of `pat` in `s` at or after `from`.
pub fn find(s: &Vec<char>, pat: &Vec<char>, from: usize) -> (r: Option<usize>)
    requires
        from <= s.len(),
    ensures
        match r {
            Some(i) => find_from(s@, pat@, from as int) == Some(i as int),
            None => find_from(s@, pat@, from as int) is None,
        },
        r matches Some(i) ==> from <= i && i + pat.len() <= s.len(),
{
    let mut i: usize = from;
    while i < s.len()
        invariant
            from <= i <= s.len(),
            find_from(s@, pat@, from as int) == find_from(s@, pat@, i as int),
        decreases s.len() - i,
    {
        if occurs_here(s, pat, i) {
            return Some(i);
        }
        i += 1;
    }
    if occurs_here(s, pat, i) {
        Some(i)
    } else {
        None
    }
}

// ---------------------------------------------------------------------------
// Replacing
// ---------------------------------------------------------------------------

/// `s` with the occurrences of `pat`, taken from the left and without overlap,
/// replaced by `with`.
pub open spec fn replaced(s: Seq<char>, pat: Seq<char>, with: Seq<char>) -> Seq<char>
    decreases s.len(),
{
    if s.len() == 0 || pat.len() == 0 {
        s
    } else if occurs_at(s, pat, 0) {
        with + replaced(s.skip(pat.len() as int), pat, with)
    } else {
        seq![s[0]] + replaced(s.skip(1), pat, with)
    }
}

fn extend_chars(out: &mut Vec<char>, more: &Vec<char>)
    ensures
        final(out)@ == old(out)@ + more@,
{
    let mut k: usize = 0;
    while k < more.len()
        invariant
            k <= more.len(),
            out@ == old(out)@ + more@.take(k as int),
        decreases more.len() - k,
    {
        out.push(more[k]);
        k += 1;
        assert(more@.take(k as int) =~= more@.take(k - 1).push(more@[k - 1]));
    }
    assert(more@.take(k as int) =~= more@);
}

/// Replaces every occurrence of a pattern.
pub fn replace(s: &Vec<char>, pat: &Vec<char>, with: &Vec<char>) -> (r: Vec<char>)
    requires
        pat.len() > 0,
    ensures
        r@ == replaced(s@, pat@, with@),
{
    let mut out: Vec<char> = Vec::new();
    let mut i: usize = 0;
    assert(s@.skip(0) =~= s@);
    while i < s.len()
        invariant
            pat.len() > 0,
            i <= s.len(),
            replaced(s@, pat@, with@) == out@ + replaced(s@.skip(i as int), pat@, with@),
        decreases s.len() - i,
    {
        let ghost rest = s@.skip(i as int);
        if occurs_here(s, pat, i) {
            assert(rest.subrange(0, pat@.len() as int) =~= s@.subrange(i as int, i + pat@.len()));
            extend_chars(&mut out, with);
            i += pat.len();
            assert(rest.skip(pat@.len() as int) =~= s@.skip(i as int));
        } else {
            proof {
                if pat@.len() <= rest.len() {
                    assert(rest.subrange(0, pat@.len() as int) =~= s@.subrange(
                        i as int,
                        i + pat@.len(),
                    ));
                }
            }
            out.push(s[i]);
            i += 1;
            assert(rest.skip(1) =~= s@.skip(i as int));
        }
    }
    assert(s@.skip(i as int) =~= Seq::<char>::empty());
    out
}

// ---------------------------------------------------------------------------
// Strings and their characters
// ---------------------------------------------------------------------------

/// `String::push`: the given character is added at the end of the string.
pub assume_specification[ String::push ](s: &mut String, c: char)
    ensures
        final(s)@ == old(s)@.push(c),
;

/// A text of one character.
pub fn one(c: char) -> (r: Vec<char>)
    ensures
        r@ == seq![c],
{
    let r: Vec<char> = vec![c];
    assert(r@ =~= seq![c]);
    r
}

/// A text of two characters.
pub fn two(a: char, b: char) -> (r: Vec<char>)
    ensures
        r@ == seq![a, b],
{
    let r: Vec<char> = vec![a, b];
    assert(r@ =~= seq![a, b]);
    r
}

/// The characters of a string, in order.
pub fn chars_of(s: &str) -> (r: Vec<char>)
    ensures
        r@ == s@,
{
    let mut out: Vec<char> = Vec::new();
    for c in it: s.chars()
        invariant
            it.seq() == s@,
            out@ == s@.take(it.index() as int),
    {
        proof {
            assert(s@.take(it.index() + 1) =~= s@.take(it.index() as int).push(c));
        }
        out.push(c);
    }
    assert(s@.take(s@.len() as int) =~= s@);
    out
}

/// The string made of the characters of `s` in the range `from..to`.
pub fn string_of(s: &Vec<char>, from: usize, to: usize) -> (r: String)
    requires
        from <= to <= s.len(),
    ensures
        r@ == s@.subrange(from as int, to as int),
{
    let mut out = String::new();
    let mut k: usize = from;
    while k < to
        invariant
            from <= k <= to <= s.len(),
            out@ == s@.subrange(from as int, k as int),
        decreases to - k,
    {
        out.push(s[k]);
        k += 1;
        assert(s@.subrange(from as int, k as int) =~= s@.subrange(from as int, k - 1).push(
            s@[k - 1],
        ));
    }
    out
}

/// Two strings hold the same characters.
pub fn same_text(a: &str, b: &str) -> (r: bool)
    ensures
        r == (a@ == b@),
{
    a.to_owned() == b.to_owned()
}

/// The views of a list of strings.
pub open spec fn texts(v: Seq<String>) -> Seq<Seq<char>> {
    v.map_values(|s: String| s@)
}

/// The view of an optional string.
pub open spec fn opt_text(s: Option<String>) -> Option<Seq<char>> {
    match s {
        Some(t) => Some(t@),
        None => None,
    }
}

/// The views of a result whose two sides are strings.
pub open spec fn result_text(r: Result<String, String>) -> Result<Seq<char>, Seq<char>> {
    match r {
        Ok(t) => Ok(t@),
        Err(e) => Err(e@),
    }
}

/// A copy of an optional string.
pub fn copy_opt(s: &Option<String>) -> (r: Option<String>)
    ensures
        opt_text(r) == opt_text(*s),
{
    match s {
        Some(t) => Some(t.clone()),
        None => None,
    }
}

// ---------------------------------------------------------------------------
// Trimming
// ---------------------------------------------------------------------------

/// What is cut off at both ends of a text.
#[derive(Clone, Copy)]
pub enum Edge {
    /// Characters with the Unicode property `White_Space`.
    Whitespace,
    /// Single and double quotation marks.
    Quotes,
}

/// The characters with the Unicode property `White_Space`.
pub open spec fn white_space(c: char) -> bool {
    let u = c as u32;
    ||| 0x9 <= u <= 0xD
    ||| u == 0x20
    ||| u == 0x85
    ||| u == 0xA0
    ||| u == 0x1680
    ||| 0x2000 <= u <= 0x200A
    ||| u == 0x2028
    ||| u == 0x2029
    ||| u == 0x202F
    ||| u == 0x205F
    ||| u == 0x3000
}

impl Edge {
    /// The characters that are cut off.
    pub open spec fn covers(self, c: char) -> bool {
        match self {
            Edge::Whitespace => white_space(c),
            Edge::Quotes => c == '"' || c == '\'',
        }
    }

    /// Tells whether a character is cut off.
    pub fn is_covered(self, c: char) -> (r: bool)
        ensures
            r == self.covers(c),
    {
        match self {
            Edge::Whitespace => {
                let u: u32 = c as u32;
                (0x9 <= u && u <= 0xD) || u == 0x20 || u == 0x85 || u == 0xA0 || u == 0x1680 || (
                0x2000 <= u && u <= 0x200A) || u == 0x2028 || u == 0x2029 || u == 0x202F || u
                    == 0x205F || u == 0x3000
            },
            Edge::Quotes => c == '"' || c == '\'',
        }
    }
}

/// `s` without the covered characters at its start.
pub open spec fn trimmed_start(s: Seq<char>, edge: Edge) -> Seq<char>
    decreases s.len(),
{
    if s.len() > 0 && edge.covers(s[0]) {
        trimmed_start(s.skip(1), edge)
    } else {
        s
    }
}

/// `s` without the covered characters at its end.
pub open spec fn trimmed_end(s: Seq<char>, edge: Edge) -> Seq<char>
    decreases s.len(),
{
    if s.len() > 0 && edge.covers(s.last()) {
        trimmed_end(s.drop_last(), edge)
    } else {
        s
    }
}

/// `s` without the covered characters at its ends.
pub open spec fn trimmed(s: Seq<char>, edge: Edge) -> Seq<char> {
    trimmed_end(trimmed_start(s, edge), edge)
}

/// Cuts the covered characters off both ends of a text.
pub fn trim(s: &str, edge: Edge) -> (r: String)
    ensures
        r@ == trimmed(s@, edge),
{
    let v = chars_of(s);
    let mut from: usize = 0;
    assert(v@.skip(0) =~= v@);
    while from < v.len() && edge.is_covered(v[from])
        invariant
            from <= v.len(),
            trimmed_start(v@, edge) == trimmed_start(v@.skip(from as int), edge),
        decreases v.len() - from,
    {
        from += 1;
        assert(v@.skip(from - 1).skip(1) =~= v@.skip(from as int));
    }
    let mut to: usize = v.len();
    let ghost core = trimmed_start(v@, edge);
    assert(core =~= v@.subrange(from as int, to as int));
    while from < to && edge.is_covered(v[to - 1])
        invariant
            from <= to <= v.len(),
            trimmed_end(core, edge) == trimmed_end(v@.subrange(from as int, to as int), edge),
        decreases to,
    {
        to -= 1;
        assert(v@.subrange(from as int, to + 1).drop_last() =~= v@.subrange(
            from as int,
            to as int,
        ));
    }
    string_of(&v, from, to)
}

// ---------------------------------------------------------------------------
// Letter case, numbers, bytes
// ---------------------------------------------------------------------------

/// The lower-case letter of an ASCII letter; any other character stays.
pub open spec fn ascii_lower_char(c: char) -> char {
    if 'A' <= c <= 'Z' {
        (c as u32 + 32) as char
    } else {
        c
    }
}

/// A text with its ASCII letters in lower case.
pub open spec fn ascii_lower(s: Seq<char>) -> Seq<char> {
    s.map_values(|c: char| ascii_lower_char(c))
}

/// The text that `str::to_lowercase` returns for a text.
pub uninterp spec fn unicode_lower(s: Seq<char>) -> Seq<char>;

/// `str::to_lowercase`: the result is a function of the text alone, and for a
/// text of ASCII characters only its ASCII letters change case.
#[verifier::external_body]
pub(crate) fn to_lower(s: &str) -> (r: String)
    ensures
        r@ == unicode_lower(s@),
        is_ascii_chars(s@) ==> r@ == ascii_lower(s@),
{
    s.to_lowercase()
}

/// The text that `String::from_utf8_lossy` returns for some bytes.
pub uninterp spec fn utf8_lossy(bytes: Seq<u8>) -> Seq<char>;

/// `String::from_utf8_lossy`: the result is a function of the bytes alone, and
/// bytes that are valid UTF-8 give the text that they encode.
#[verifier::external_body]
pub(crate) fn decode_lossy(bytes: &Vec<u8>) -> (r: String)
    ensures
        r@ == utf8_lossy(bytes@),
        valid_utf8(bytes@) ==> r@ == decode_utf8(bytes@),
{
    String::from_utf8_lossy(bytes).into_owned()
}

/// The decimal digit for a number below ten.
pub open spec fn digit(d: nat) -> char {
    ('0' as u32 + d) as char
}

/// The decimal notation of a number.
pub open spec fn decimal(n: nat) -> Seq<char>
    decreases n,
{
    if n < 10 {
        seq![digit(n)]
    } else {
        decimal(n / 10).push(digit(n % 10))
    }
}

/// Writes a number in decimal notation.
pub fn decimal_text(n: u32) -> (r: String)
    ensures
        r@ == decimal(n as nat),
    decreases n,
{
    if n < 10 {
        let mut out = String::new();
        out.push((48u8 + n as u8) as char);
        assert(out@ =~= seq![digit(n as nat)]);
        out
    } else {
        let mut out = decimal_text(n / 10);
        let d: u8 = (n % 10) as u8;
        out.push((48u8 + d) as char);
        out
    }
}

// ---------------------------------------------------------------------------
// Laws
// ---------------------------------------------------------------------------

/// The number that a text of decimal digits stands for.
pub open spec fn decimal_value(s: Seq<char>) -> int
    decreases s.len(),
{
    if s.len() == 0 {
        0
    } else {
        10 * decimal_value(s.drop_last()) + (s.last() as u32 - '0' as u32)
    }
}

/// The decimal notation of a number stands for that number, is made of digits,
/// and starts with a zero only for zero.
pub proof fn law_decimal_notation(n: nat)
    ensures
        decimal_value(decimal(n)) == n,
        decimal(n).len() > 0,
        forall|i: int| 0 <= i < decimal(n).len() ==> '0' <= #[trigger] decimal(n)[i] <= '9',
        decimal(n)[0] == '0' ==> n == 0,
    decreases n,
{
    if n < 10 {
        assert(decimal(n).drop_last() =~= Seq::<char>::empty());
        reveal_with_fuel(decimal_value, 2);
    } else {
        law_decimal_notation(n / 10);
        assert(decimal(n).drop_last() =~= decimal(n / 10));
    }
}

/// Where the first character of the pattern does not occur, nothing is replaced.
pub proof fn law_nothing_to_replace(s: Seq<char>, pat: Seq<char>, with: Seq<char>)
    requires
        pat.len() > 0,
        !s.contains(pat[0]),
    ensures
        replaced(s, pat, with) == s,
    decreases s.len(),
{
    if s.len() > 0 {
        if occurs_at(s, pat, 0) {
            assert(s.subrange(0, pat.len() as int)[0] == s[0]);
            assert(s.contains(s[0]));
        }
        assert forall|c: char| s.skip(1).contains(c) implies s.contains(c) by {
            let i = choose|i: int| 0 <= i < s.skip(1).len() && s.skip(1)[i] == c;
            assert(s[i + 1] == c);
        }
        law_nothing_to_replace(s.skip(1), pat, with);
        assert(seq![s[0]] + s.skip(1) =~= s);
    }
}

/// Replacing a single character works piece by piece.
pub proof fn lemma_replace_char_in_parts(x: Seq<char>, y: Seq<char>, c: char, with: Seq<char>)
    ensures
        replaced(x + y, seq![c], with) == replaced(x, seq![c], with) + replaced(
            y,
            seq![c],
            with,
        ),
    decreases x.len(),
{
    let pat = seq![c];
    if x.len() == 0 {
        assert(x + y =~= y);
        assert(replaced(x, pat, with) + replaced(y, pat, with) =~= replaced(y, pat, with));
    } else {
        assert((x + y).skip(1) =~= x.skip(1) + y);
        lemma_occurs_char(x + y, c, 0);
        lemma_occurs_char(x, c, 0);
        lemma_replace_char_in_parts(x.skip(1), y, c, with);
        let rest_x = replaced(x.skip(1), pat, with);
        let rest_y = replaced(y, pat, with);
        if x[0] == c {
            assert(with + (rest_x + rest_y) =~= (with + rest_x) + rest_y);
        } else {
            assert(seq![x[0]] + (rest_x + rest_y) =~= (seq![x[0]] + rest_x) + rest_y);
        }
    }
}

/// A pattern of two characters that stands at the start is replaced there.
pub proof fn lemma_replace_pair_hit(a: char, b: char, rest: Seq<char>, with: Seq<char>)
    ensures
        replaced(seq![a, b] + rest, seq![a, b], with) == with + replaced(rest, seq![a, b], with),
{
    let s = seq![a, b] + rest;
    assert(s.subrange(0, 2) =~= seq![a, b]);
    assert(s.skip(2) =~= rest);
}

/// A character that does not start the pattern stays.
pub proof fn lemma_replace_pair_miss(
    c: char,
    a: char,
    b: char,
    rest: Seq<char>,
    with: Seq<char>,
)
    requires
        c != a || rest.len() == 0 || rest[0] != b,
    ensures
        replaced(seq![c] + rest, seq![a, b], with) == seq![c] + replaced(
            rest,
            seq![a, b],
            with,
        ),
{
    let s = seq![c] + rest;
    let pat = seq![a, b];
    assert(s.skip(1) =~= rest);
    if occurs_at(s, pat, 0) {
        assert(s.subrange(0, 2)[0] == c);
        assert(s.subrange(0, 2)[1] == rest[0]);
        assert(pat[0] == a && pat[1] == b);
    }
}

/// A pattern stands where it was put.
pub proof fn law_pattern_stands(before: Seq<char>, pat: Seq<char>, after: Seq<char>)
    ensures
        occurs_at(before + pat + after, pat, before.len() as int),
        holds(before + pat + after, pat),
{
    let s = before + pat + after;
    let at = before.len() as int;
    assert(s.subrange(at, at + pat.len()) =~= pat);
    assert(occurs_at(s, pat, at));
}

/// Two texts joined start with the one and end with the other.
pub proof fn law_end(front: Seq<char>, end: Seq<char>)
    ensures
        starts_with(front + end, front),
        ends_with(front + end, end),
{
    assert((front + end).take(front.len() as int) =~= front);
    assert((front + end).skip(front.len() as int) =~= end);
}

/// A text in which a pattern stands is what comes before it, the pattern and
/// what comes after it.
pub proof fn law_pattern_splits(s: Seq<char>, pat: Seq<char>, i: int)
    requires
        occurs_at(s, pat, i),
    ensures
        0 <= i,
        i + pat.len() <= s.len(),
        s == s.take(i) + pat + s.skip(i + pat.len()),
{
    assert(s =~= s.take(i) + s.subrange(i, i + pat.len()) + s.skip(i + pat.len()));
}

/// Where the pattern does not stand, nothing is replaced.
pub proof fn law_absent_pattern(s: Seq<char>, pat: Seq<char>, with: Seq<char>)
    requires
        !holds(s, pat),
    ensures
        replaced(s, pat, with) == s,
    decreases s.len(),
{
    if s.len() > 0 && pat.len() > 0 {
        assert(!occurs_at(s, pat, 0));
        let rest = s.skip(1);
        if holds(rest, pat) {
            let i = choose|i: int| occurs_at(rest, pat, i);
            assert(s.subrange(i + 1, i + 1 + pat.len()) =~= rest.subrange(i, i + pat.len()));
            assert(occurs_at(s, pat, i + 1));
        }
        law_absent_pattern(rest, pat, with);
        assert(seq![s[0]] + rest =~= s);
    }
}

/// The first occurrence of the pattern is replaced, what comes before it stays,
/// and behind it the replacing goes on.
pub proof fn law_replacing_goes_on(
    before: Seq<char>,
    pat: Seq<char>,
    after: Seq<char>,
    with: Seq<char>,
)
    requires
        pat.len() > 0,
        forall|i: int| 0 <= i < before.len() ==> !occurs_at(before + pat + after, pat, i),
    ensures
        replaced(before + pat + after, pat, with) == before + with + replaced(after, pat, with),
    decreases before.len(),
{
    let s = before + pat + after;
    if before.len() == 0 {
        assert(s.subrange(0, pat.len() as int) =~= pat);
        assert(s.skip(pat.len() as int) =~= after);
        assert(before + with =~= with);
    } else {
        let b = before.skip(1);
        let rest = b + pat + after;
        assert(s.skip(1) =~= rest);
        assert(!occurs_at(s, pat, 0));
        assert forall|i: int| 0 <= i < b.len() implies !occurs_at(rest, pat, i) by {
            assert(!occurs_at(s, pat, i + 1));
            if i + pat.len() <= rest.len() {
                assert(s.subrange(i + 1, i + 1 + pat.len()) =~= rest.subrange(i, i + pat.len()));
            }
        }
        law_replacing_goes_on(b, pat, after, with);
        let tail = replaced(after, pat, with);
        assert(seq![s[0]] + (b + with + tail) =~= before + with + tail);
    }
}

/// A text taken apart at a character.
pub open spec fn fields(s: Seq<char>, sep: char) -> Seq<Seq<char>>
    decreases s.len(),
{
    if s.len() == 0 {
        seq![s]
    } else {
        let rest = fields(s.skip(1), sep);
        if s[0] == sep {
            seq![Seq::empty()] + rest
        } else {
            seq![seq![s[0]] + rest[0]] + rest.skip(1)
        }
    }
}

/// A text without the character is one field.
pub proof fn law_one_field(s: Seq<char>, sep: char)
    requires
        !s.contains(sep),
    ensures
        fields(s, sep) == seq![s],
    decreases s.len(),
{
    if s.len() > 0 {
        assert(s.contains(s[0]));
        lemma_skip_contains(s, sep);
        law_one_field(s.skip(1), sep);
        assert(seq![s[0]] + s.skip(1) =~= s);
        assert(fields(s, sep) =~= seq![s]);
    }
}

/// The character parts the field before it from the fields behind it.
pub proof fn law_next_field(s: Seq<char>, sep: char, rest: Seq<char>)
    requires
        !s.contains(sep),
    ensures
        fields(s + seq![sep] + rest, sep) == seq![s] + fields(rest, sep),
    decreases s.len(),
{
    let whole = s + seq![sep] + rest;
    if s.len() == 0 {
        assert(whole.skip(1) =~= rest);
        assert(whole[0] == sep);
        assert(s =~= Seq::<char>::empty());
        assert(fields(whole, sep) =~= seq![s] + fields(rest, sep));
    } else {
        assert(s.contains(s[0]));
        lemma_skip_contains(s, sep);
        law_next_field(s.skip(1), sep, rest);
        assert(whole.skip(1) =~= s.skip(1) + seq![sep] + rest);
        let tail = fields(whole.skip(1), sep);
        assert(whole[0] == s[0]);
        assert(tail[0] =~= s.skip(1));
        assert(tail.skip(1) =~= fields(rest, sep));
        assert(seq![s[0]] + s.skip(1) =~= s);
        assert(fields(whole, sep) =~= seq![s] + fields(rest, sep));
    }
}

/// Behind the character a new field starts, which is the last one where the
/// character does not come again.
pub proof fn law_last_field(front: Seq<char>, sep: char, last: Seq<char>)
    requires
        !last.contains(sep),
    ensures
        fields(front + seq![sep] + last, sep) == fields(front, sep).push(last),
        fields(front, sep).len() > 0,
    decreases front.len(),
{
    let whole = front + seq![sep] + last;
    if front.len() == 0 {
        assert(whole[0] == sep);
        assert(whole.skip(1) =~= last);
        law_one_field(last, sep);
        assert(front =~= Seq::<char>::empty());
        assert(fields(whole, sep) =~= fields(front, sep).push(last));
    } else {
        let rest = front.skip(1);
        assert(whole[0] == front[0]);
        assert(whole.skip(1) =~= rest + seq![sep] + last);
        law_last_field(rest, sep, last);
        assert(fields(whole, sep) =~= fields(front, sep).push(last));
    }
}

/// A pair that starts with a backslash stands nowhere where no backslash comes
/// before its other character.
pub proof fn lemma_pair_absent(s: Seq<char>, b: char)
    requires
        forall|i: int| 0 <= i < s.len() - 1 && #[trigger] s[i] == '\\' ==> s[i + 1] != b,
    ensures
        !holds(s, seq!['\\', b]),
{
    let pat = seq!['\\', b];
    if holds(s, pat) {
        let i = choose|i: int| occurs_at(s, pat, i);
        assert(s.subrange(i, i + 2)[0] == pat[0]);
        assert(s.subrange(i, i + 2)[1] == pat[1]);
        assert(s[i] == '\\' && s[i + 1] == b);
    }
}

/// A front that does not hold the first character of the pattern stays as it is.
pub proof fn lemma_front_stays(a: Seq<char>, b: Seq<char>, pat: Seq<char>, with: Seq<char>)
    requires
        pat.len() > 0,
        !a.contains(pat[0]),
    ensures
        replaced(a + b, pat, with) == a + replaced(b, pat, with),
    decreases a.len(),
{
    let s = a + b;
    if a.len() == 0 {
        assert(s =~= b);
        assert(a + replaced(b, pat, with) =~= replaced(b, pat, with));
    } else {
        let rest = a.skip(1);
        assert(a.contains(a[0]));
        if occurs_at(s, pat, 0) {
            assert(s.subrange(0, pat.len() as int)[0] == pat[0]);
        }
        if rest.contains(pat[0]) {
            let i = choose|i: int| 0 <= i < rest.len() && rest[i] == pat[0];
            assert(a[i + 1] == pat[0]);
        }
        assert(s.skip(1) =~= rest + b);
        lemma_front_stays(rest, b, pat, with);
        assert(seq![a[0]] + (rest + replaced(b, pat, with)) =~= a + replaced(b, pat, with));
    }
}

/// A run of backslashes.
pub open spec fn backslashes(n: nat) -> Seq<char> {
    Seq::new(n, |i: int| '\\')
}

/// Replacing an escape in a run of backslashes: only the last of them can start
/// it, where the character behind the run completes it.
pub proof fn lemma_replace_behind_run(
    k: nat,
    c: char,
    rest: Seq<char>,
    x: char,
    with: Seq<char>,
)
    requires
        c != '\\',
        x != '\\',
    ensures
        replaced(backslashes(k) + seq![c] + rest, seq!['\\', x], with) == if c == x && k > 0 {
            backslashes((k - 1) as nat) + with + replaced(rest, seq!['\\', x], with)
        } else {
            backslashes(k) + seq![c] + replaced(rest, seq!['\\', x], with)
        },
    decreases k,
{
    let done = replaced(rest, seq!['\\', x], with);
    let whole = backslashes(k) + seq![c] + rest;
    if k == 0 {
        assert(whole =~= seq![c] + rest);
        lemma_replace_pair_miss(c, '\\', x, rest, with);
        assert(backslashes(0) + seq![c] + done =~= seq![c] + done);
    } else if k == 1 && c == x {
        assert(whole =~= seq!['\\', x] + rest);
        lemma_replace_pair_hit('\\', x, rest, with);
        assert(backslashes(0) + with + done =~= with + done);
    } else {
        let less = (k - 1) as nat;
        let tail = backslashes(less) + seq![c] + rest;
        assert(whole =~= seq!['\\'] + tail);
        assert(tail[0] == if k == 1 {
            c
        } else {
            '\\'
        });
        lemma_replace_pair_miss('\\', '\\', x, tail, with);
        lemma_replace_behind_run(less, c, rest, x, with);
        if c == x {
            assert(seq!['\\'] + (backslashes((less - 1) as nat) + with + done) =~= backslashes(less)
                + with + done);
        } else {
            assert(seq!['\\'] + (backslashes(less) + seq![c] + done) =~= backslashes(k) + seq![c]
                + done);
        }
    }
}

/// Replacing pairs of backslashes by one halves a run of them, rounded up.
pub proof fn lemma_halve_run(k: nat, c: char, rest: Seq<char>)
    requires
        c != '\\',
    ensures
        replaced(backslashes(k) + seq![c] + rest, seq!['\\', '\\'], seq!['\\']) == backslashes(
            (k + 1) / 2,
        ) + seq![c] + replaced(rest, seq!['\\', '\\'], seq!['\\']),
    decreases k,
{
    let with = seq!['\\'];
    let done = replaced(rest, seq!['\\', '\\'], with);
    let whole = backslashes(k) + seq![c] + rest;
    if k == 0 {
        assert(whole =~= seq![c] + rest);
        lemma_replace_pair_miss(c, '\\', '\\', rest, with);
        assert(backslashes(0) + seq![c] + done =~= seq![c] + done);
    } else if k == 1 {
        let tail = seq![c] + rest;
        assert(whole =~= seq!['\\'] + tail);
        lemma_replace_pair_miss('\\', '\\', '\\', tail, with);
        lemma_replace_pair_miss(c, '\\', '\\', rest, with);
        assert(seq!['\\'] + (seq![c] + done) =~= backslashes(1) + seq![c] + done);
    } else {
        let less = (k - 2) as nat;
        let tail = backslashes(less) + seq![c] + rest;
        assert(whole =~= seq!['\\', '\\'] + tail);
        lemma_replace_pair_hit('\\', '\\', tail, with);
        lemma_halve_run(less, c, rest);
        let half = (less + 1) / 2;
        assert(with + (backslashes(half) + seq![c] + done) =~= backslashes(half + 1) + seq![c]
            + done);
        assert((k + 1) / 2 == half + 1);
    }
}

/// The same at the end of a text: no escape starts there, and a run is halved.
pub proof fn lemma_run_at_the_end(k: nat, x: char, with: Seq<char>)
    requires
        x != '\\',
    ensures
        replaced(backslashes(k), seq!['\\', x], with) == backslashes(k),
        replaced(backslashes(k), seq!['\\', '\\'], seq!['\\']) == backslashes((k + 1) / 2),
    decreases k,
{
    let run = backslashes(k);
    lemma_pair_absent(run, x);
    law_absent_pattern(run, seq!['\\', x], with);
    if k == 0 {
        assert(backslashes(0) =~= Seq::<char>::empty());
    } else if k == 1 {
        assert(run =~= seq!['\\'] + Seq::empty());
        lemma_replace_pair_miss('\\', '\\', '\\', Seq::empty(), seq!['\\']);
        assert(replaced(Seq::<char>::empty(), seq!['\\', '\\'], seq!['\\'])
            =~= Seq::<char>::empty());
        assert(seq!['\\'] + Seq::<char>::empty() =~= backslashes(1));
    } else {
        let less = (k - 2) as nat;
        assert(run =~= seq!['\\', '\\'] + backslashes(less));
        lemma_replace_pair_hit('\\', '\\', backslashes(less), seq!['\\']);
        lemma_run_at_the_end(less, x, with);
        let half = (less + 1) / 2;
        assert(seq!['\\'] + backslashes(half) =~= backslashes(half + 1));
        assert((k + 1) / 2 == half + 1);
    }
}

/// Two texts without a character make a text without it.
pub proof fn lemma_parts_without(a: Seq<char>, b: Seq<char>, c: char)
    requires
        !a.contains(c),
        !b.contains(c),
    ensures
        !(a + b).contains(c),
{
    if (a + b).contains(c) {
        let i = choose|i: int| 0 <= i < (a + b).len() && (a + b)[i] == c;
        if i < a.len() {
            assert(a[i] == c);
        } else {
            assert(b[i - a.len()] == c);
        }
    }
}

/// Texts with the same start and the same end are equal exactly when what is in
/// between is.
pub proof fn lemma_same_inside(before: Seq<char>, a: Seq<char>, b: Seq<char>, after: Seq<char>)
    ensures
        before + a + after == before + b + after <==> a == b,
{
    let x = before + a + after;
    let y = before + b + after;
    let n = before.len() as int;
    assert(x.subrange(n, x.len() - after.len()) =~= a);
    assert(y.subrange(n, y.len() - after.len()) =~= b);
}

proof fn lemma_skip_contains(s: Seq<char>, c: char)
    requires
        s.len() > 0,
    ensures
        s.skip(1).contains(c) ==> s.contains(c),
{
    if s.skip(1).contains(c) {
        let i = choose|i: int| 0 <= i < s.skip(1).len() && s.skip(1)[i] == c;
        assert(s[i + 1] == c);
    }
}

/// The code points of the characters that count as white space.
pub open spec fn white_space_codes() -> Seq<u32> {
    seq![
        0x9u32, 0xA, 0xB, 0xC, 0xD, 0x20, 0x85, 0xA0, 0x1680, 0x2000, 0x2001, 0x2002, 0x2003,
        0x2004, 0x2005, 0x2006, 0x2007, 0x2008, 0x2009, 0x200A, 0x2028, 0x2029, 0x202F, 0x205F,
        0x3000,
    ]
}

/// White space is what Unicode lists as such, and quotation marks are the single
/// and the double one.
pub proof fn law_what_is_cut(c: char)
    ensures
        Edge::Whitespace.covers(c) <==> white_space_codes().contains(c as u32),
        Edge::Quotes.covers(c) <==> seq!['"', '\''].contains(c),
{
    let codes = white_space_codes();
    let u = c as u32;
    if white_space(c) {
        let i: int = if 0x9 <= u <= 0xD {
            u - 0x9
        } else if u == 0x20 {
            5
        } else if u == 0x85 {
            6
        } else if u == 0xA0 {
            7
        } else if u == 0x1680 {
            8
        } else if 0x2000 <= u <= 0x200A {
            u - 0x2000 + 9
        } else if u == 0x2028 {
            20
        } else if u == 0x2029 {
            21
        } else if u == 0x202F {
            22
        } else if u == 0x205F {
            23
        } else {
            24
        };
        assert(codes[i] == u);
    }
    if codes.contains(u) {
        let i = choose|i: int| 0 <= i < codes.len() && codes[i] == u;
        assert(0 <= i < 25);
    }
    let marks = seq!['"', '\''];
    assert(marks[0] == '"' && marks[1] == '\'');
}

/// Putting a text in lower case keeps its length, leaves no capital letter of
/// ASCII, moves each of them to the letter at the same place of the small
/// alphabet, and keeps every other character.
pub proof fn law_ascii_lower(s: Seq<char>, i: int)
    requires
        0 <= i < s.len(),
    ensures
        ascii_lower(s).len() == s.len(),
        !('A' <= ascii_lower(s)[i] <= 'Z'),
        'A' <= s[i] <= 'Z' ==> 'a' <= ascii_lower(s)[i] <= 'z' && ascii_lower(s)[i] as u32
            - 'a' as u32 == s[i] as u32 - 'A' as u32,
        !('A' <= s[i] <= 'Z') ==> ascii_lower(s)[i] == s[i],
{
}

/// What remains after trimming starts and ends with nothing that is cut.
pub proof fn law_trimmed_edges(s: Seq<char>, edge: Edge)
    ensures
        trimmed(s, edge).len() > 0 ==> !edge.covers(trimmed(s, edge)[0]) && !edge.covers(
            trimmed(s, edge).last(),
        ),
{
    lemma_trimmed_start(s, edge);
    lemma_trimmed_end(trimmed_start(s, edge), edge);
}

/// Trimming twice is the same as trimming once.
pub proof fn law_trim_once(s: Seq<char>, edge: Edge)
    ensures
        trimmed(trimmed(s, edge), edge) == trimmed(s, edge),
{
    law_trimmed_edges(s, edge);
}

proof fn lemma_trimmed_start(s: Seq<char>, edge: Edge)
    ensures
        trimmed_start(s, edge).len() > 0 ==> !edge.covers(trimmed_start(s, edge)[0]),
    decreases s.len(),
{
    if s.len() > 0 && edge.covers(s[0]) {
        lemma_trimmed_start(s.skip(1), edge);
    }
}

proof fn lemma_trimmed_end(s: Seq<char>, edge: Edge)
    ensures
        trimmed_end(s, edge).len() > 0 ==> !edge.covers(trimmed_end(s, edge).last()) && s.len() > 0
            && trimmed_end(s, edge)[0] == s[0],
    decreases s.len(),
{
    if s.len() > 0 && edge.covers(s.last()) {
        lemma_trimmed_end(s.drop_last(), edge);
    }
}

/// Covered characters around a text that neither starts nor ends with one are
/// cut off, and nothing else is.
pub proof fn law_trim_around(before: Seq<char>, s: Seq<char>, after: Seq<char>, edge: Edge)
    requires
        forall|i: int| 0 <= i < before.len() ==> edge.covers(#[trigger] before[i]),
        forall|i: int| 0 <= i < after.len() ==> edge.covers(#[trigger] after[i]),
        s.len() > 0 ==> !edge.covers(s[0]) && !edge.covers(s.last()),
    ensures
        trimmed(before + s + after, edge) == s,
    decreases before.len() + after.len(),
{
    let whole = before + s + after;
    if before.len() > 0 {
        assert(edge.covers(before[0]));
        assert(whole.skip(1) =~= before.skip(1) + s + after);
        assert forall|i: int| 0 <= i < before.skip(1).len() implies edge.covers(
            #[trigger] before.skip(1)[i],
        ) by {
            assert(edge.covers(before[i + 1]));
        }
        law_trim_around(before.skip(1), s, after, edge);
    } else if s.len() == 0 && after.len() > 0 {
        assert(edge.covers(after[0]));
        assert(whole =~= after);
        assert(whole.skip(1) =~= before + s + after.skip(1));
        assert forall|i: int| 0 <= i < after.skip(1).len() implies edge.covers(
            #[trigger] after.skip(1)[i],
        ) by {
            assert(edge.covers(after[i + 1]));
        }
        law_trim_around(before, s, after.skip(1), edge);
    } else {
        assert(whole =~= s + after);
        lemma_trim_after(s, after, edge);
    }
}

proof fn lemma_trim_after(s: Seq<char>, after: Seq<char>, edge: Edge)
    requires
        forall|i: int| 0 <= i < after.len() ==> edge.covers(#[trigger] after[i]),
        s.len() > 0 ==> !edge.covers(s.last()),
    ensures
        trimmed_end(s + after, edge) == s,
    decreases after.len(),
{
    if after.len() == 0 {
        assert(s + after =~= s);
    } else {
        assert(edge.covers(after.last()));
        assert((s + after).drop_last() =~= s + after.drop_last());
        lemma_trim_after(s, after.drop_last(), edge);
    }
}

/// Nothing is lost in the views of strings: a list keeps its length and its
/// order, an optional string and a result stay what they are, and an empty
/// string is a string.
pub proof fn law_views_keep_everything(
    v: Seq<String>,
    i: int,
    s: Option<String>,
    r: Result<String, String>,
)
    ensures
        texts(v).len() == v.len(),
        0 <= i < v.len() ==> texts(v)[i] == v[i]@,
        opt_text(s) is Some <==> s is Some,
        s matches Some(t) ==> opt_text(s) == Some(t@),
        r matches Ok(t) ==> result_text(r) == Ok::<_, Seq<char>>(t@),
        r matches Err(e) ==> result_text(r) == Err::<Seq<char>, _>(e@),
{
}

} // verus!
