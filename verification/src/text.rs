//! Character-level scanning on which the message grammar is built.
//!
//! Every function here works on a slice of `char`s and is specified over the
//! `Seq<char>` that the slice denotes. String slices enter through
//! [`chars_of`]; positions found on the characters are positions in the view
//! of the string slice they came from.
use crate::search::{first_index, lemma_first_index, lemma_first_index_unique};
use vstd::prelude::*;
use vstd::utf8::encode_utf8;

verus! {

/// Whether `c` is white space as Unicode defines it (`White_Space`).
pub open spec fn spec_is_whitespace(c: char) -> bool {
    let n: u32 = c as u32;
    ||| 0x09 <= n <= 0x0d
    ||| n == 0x20
    ||| n == 0x85
    ||| n == 0xa0
    ||| n == 0x1680
    ||| 0x2000 <= n <= 0x200a
    ||| n == 0x2028
    ||| n == 0x2029
    ||| n == 0x202f
    ||| n == 0x205f
    ||| n == 0x3000
}

/// Tests whether `c` is Unicode white space.
#[verifier::when_used_as_spec(spec_is_whitespace)]
pub fn is_whitespace(c: char) -> (r: bool)
    ensures
        r == spec_is_whitespace(c),
{
    let n: u32 = c as u32;
    (0x09 <= n && n <= 0x0d) || n == 0x20 || n == 0x85 || n == 0xa0 || n == 0x1680 || (0x2000 <= n
        && n <= 0x200a) || n == 0x2028 || n == 0x2029 || n == 0x202f || n == 0x205f || n == 0x3000
}

/// The classes of characters that a scan can stop at.
#[derive(Clone, Copy, Debug, PartialEq, Eq, Structural)]
pub enum CharClass {
    /// The line feed alone.
    LineFeed,
    /// Unicode white space.
    Space,
    /// Everything but white space.
    Word,
}

impl CharClass {
    /// Whether `c` belongs to the class.
    pub open spec fn spec_contains(self, c: char) -> bool {
        match self {
            CharClass::LineFeed => c == '\n',
            CharClass::Space => spec_is_whitespace(c),
            CharClass::Word => !spec_is_whitespace(c),
        }
    }

    /// The class as a predicate on characters.
    pub open spec fn members(self) -> spec_fn(char) -> bool {
        |c: char| self.spec_contains(c)
    }

    /// Tests whether `c` belongs to the class.
    #[verifier::when_used_as_spec(spec_contains)]
    pub fn contains(self, c: char) -> (r: bool)
        ensures
            r == self.spec_contains(c),
    {
        match self {
            CharClass::LineFeed => c == '\n',
            CharClass::Space => is_whitespace(c),
            CharClass::Word => !is_whitespace(c),
        }
    }
}

/// The least position at or after `from` whose character is in `class`, or
/// the length of `s` where there is none.
pub open spec fn spec_skip_to(s: Seq<char>, from: int, class: CharClass) -> int {
    first_index(s, class.members(), from)
}

/// Scans `s` from `from` to the first character of `class`.
pub fn skip_to(s: &[char], from: usize, class: CharClass) -> (stop: usize)
    requires
        from <= s.len(),
    ensures
        stop == spec_skip_to(s@, from as int, class),
        from <= stop <= s.len(),
{
    let mut i: usize = from;
    while i < s.len() && !class.contains(s[i])
        invariant
            from <= i <= s.len(),
            forall|j: int| from <= j < i ==> !#[trigger] class.members()(s@[j]),
        decreases s.len() - i,
    {
        i += 1;
    }
    proof {
        lemma_first_index_unique(s@, class.members(), from as int, i as int);
    }
    i
}

/// Whether `pat` stands in `s` at position `i`.
pub open spec fn occurs_at(s: Seq<char>, pat: Seq<char>, i: int) -> bool {
    0 <= i && i + pat.len() <= s.len() && s.subrange(i, i + pat.len()) == pat
}

/// The least position at or after `from` at which `pat` stands in `s`.
pub open spec fn spec_find(s: Seq<char>, pat: Seq<char>, from: int) -> Option<int>
    decreases s.len() + 1 - from,
{
    if from < 0 || from + pat.len() > s.len() {
        None
    } else if occurs_at(s, pat, from) {
        Some(from)
    } else {
        spec_find(s, pat, from + 1)
    }
}

/// `spec_find` gives the first occurrence at or after `from`, and `None`
/// exactly when there is no occurrence there.
pub proof fn lemma_find(s: Seq<char>, pat: Seq<char>, from: int)
    requires
        0 <= from,
    ensures
        match spec_find(s, pat, from) {
            Some(i) => from <= i && occurs_at(s, pat, i) && forall|j: int|
                from <= j < i ==> !occurs_at(s, pat, j),
            None => forall|j: int| from <= j ==> !occurs_at(s, pat, j),
        },
    decreases s.len() + 1 - from,
{
    if from + pat.len() <= s.len() && !occurs_at(s, pat, from) {
        lemma_find(s, pat, from + 1);
    }
}

/// The first occurrence at or after `from`, when nothing stands between
/// `from` and it, is what `spec_find` gives.
pub proof fn lemma_find_unique(s: Seq<char>, pat: Seq<char>, from: int, at: int)
    requires
        0 <= from <= at,
        occurs_at(s, pat, at),
        forall|j: int| from <= j < at ==> !occurs_at(s, pat, j),
    ensures
        spec_find(s, pat, from) == Some(at),
    decreases at - from,
{
    if from < at {
        lemma_find_unique(s, pat, from + 1, at);
    }
}

/// Where no occurrence stands at or after `from`, `spec_find` gives `None`.
pub proof fn lemma_find_none(s: Seq<char>, pat: Seq<char>, from: int)
    requires
        0 <= from,
        forall|j: int| from <= j ==> !occurs_at(s, pat, j),
    ensures
        spec_find(s, pat, from) is None,
    decreases s.len() + 1 - from,
{
    if from + pat.len() <= s.len() {
        lemma_find_none(s, pat, from + 1);
    }
}

/// Tests whether `pat` stands in `s` at position `i`.
pub fn matches_at(s: &[char], pat: &[char], i: usize) -> (r: bool)
    ensures
        r == occurs_at(s@, pat@, i as int),
{
    if i > s.len() || pat.len() > s.len() - i {
        return false;
    }
    let mut k: usize = 0;
    while k < pat.len()
        invariant
            i + pat.len() <= s.len(),
            k <= pat.len(),
            forall|j: int| 0 <= j < k ==> s@[i + j] == pat@[j],
        decreases pat.len() - k,
    {
        if s[i + k] != pat[k] {
            assert(s@.subrange(i as int, i + pat.len())[k as int] == s@[i + k]);
            return false;
        }
        k += 1;
    }
    assert(s@.subrange(i as int, i + pat.len()) =~= pat@);
    true
}

/// Finds the first occurrence of `pat` in `s`.
pub fn find(s: &[char], pat: &[char]) -> (r: Option<usize>)
    ensures
        match r {
            Some(i) => spec_find(s@, pat@, 0) == Some(i as int),
            None => spec_find(s@, pat@, 0) is None,
        },
{
    if pat.len() > s.len() {
        return None;
    }
    let last: usize = s.len() - pat.len();
    let mut i: usize = 0;
    loop
        invariant
            last == s.len() - pat.len(),
            i <= last,
            forall|j: int| 0 <= j < i ==> !occurs_at(s@, pat@, j),
        decreases last - i,
    {
        if matches_at(s, pat, i) {
            proof {
                lemma_find_unique(s@, pat@, 0, i as int);
            }
            return Some(i);
        }
        if i == last {
            proof {
                lemma_find_none(s@, pat@, 0);
            }
            return None;
        }
        i += 1;
    }
}

/// Tests whether `s` begins with `prefix`, character for character.
pub fn starts_with(s: &[char], prefix: &[char]) -> (r: bool)
    ensures
        r == prefix@.is_prefix_of(s@),
{
    matches_at(s, prefix, 0)
}

/// Tests whether two texts hold the same characters.
pub fn same_chars(a: &[char], b: &[char]) -> (r: bool)
    ensures
        r == (a@ == b@),
{
    let r = a.len() == b.len() && matches_at(a, b, 0);
    proof {
        if a@.len() == b@.len() {
            assert(a@.subrange(0, a@.len() as int) =~= a@);
        }
    }
    r
}

/// The characters of a string slice, in order.
pub fn chars_of(s: &str) -> (v: Vec<char>)
    ensures
        v@ == s@,
{
    let mut v: Vec<char> = Vec::new();
    for c in it: s.chars()
        invariant
            v@ == it.seq().take(it.index() as int),
            it.seq() == s@,
    {
        v.push(c);
    }
    v
}

/// Where the first word at or after `from` begins: at the first character
/// that is not white space, or at the end of the text.
pub open spec fn spec_word_start(s: Seq<char>, from: int) -> int {
    spec_skip_to(s, from, CharClass::Word)
}

/// Where the first word at or after `from` stops: at the first white space
/// behind its beginning, or at the end of the text.
pub open spec fn spec_word_stop(s: Seq<char>, from: int) -> int {
    spec_skip_to(s, spec_word_start(s, from), CharClass::Space)
}

/// The first word at or after `from`: the longest run of characters other
/// than white space that begins at the first such character. It is empty
/// where only white space is left.
pub open spec fn spec_word(s: Seq<char>, from: int) -> Seq<char> {
    s.subrange(spec_word_start(s, from), spec_word_stop(s, from))
}

/// Finds the first word at or after `from`: where it begins and where it
/// stops.
pub fn word_at(s: &[char], from: usize) -> (r: (usize, usize))
    requires
        from <= s.len(),
    ensures
        r.0 == spec_word_start(s@, from as int),
        r.1 == spec_word_stop(s@, from as int),
        from <= r.0 <= r.1 <= s.len(),
{
    let start: usize = skip_to(s, from, CharClass::Word);
    let stop: usize = skip_to(s, start, CharClass::Space);
    (start, stop)
}

/// Where the content of the line that begins at `from` stops: before the
/// line feed that ends it, or before the carriage return and line feed that
/// do, or at the end of the text.
pub open spec fn spec_line_stop(s: Seq<char>, from: int) -> int {
    let feed: int = spec_skip_to(s, from, CharClass::LineFeed);
    if from < feed < s.len() && s[feed - 1] == '\r' {
        feed - 1
    } else {
        feed
    }
}

/// Where the line after the one that begins at `from` begins: behind the
/// line feed, or at the end of the text where no line feed follows.
pub open spec fn spec_next_line(s: Seq<char>, from: int) -> int {
    let feed: int = spec_skip_to(s, from, CharClass::LineFeed);
    if feed < s.len() {
        feed + 1
    } else {
        feed
    }
}

/// The line that begins at `from`, without its terminator.
pub open spec fn spec_line(s: Seq<char>, from: int) -> Seq<char> {
    s.subrange(from, spec_line_stop(s, from))
}

/// A line begins at `from`, stops at or after it, and the next line begins
/// behind the stop; in a text that has not ended at `from` the next line
/// begins further on.
pub proof fn lemma_line_bounds(s: Seq<char>, from: int)
    requires
        0 <= from <= s.len(),
    ensures
        from <= spec_line_stop(s, from) <= spec_next_line(s, from) <= s.len(),
        from < s.len() ==> from < spec_next_line(s, from),
{
    lemma_first_index(s, CharClass::LineFeed.members(), from);
}

/// Finds the line that begins at `from`: where its content stops and where
/// the next line begins.
pub fn line_at(s: &[char], from: usize) -> (r: (usize, usize))
    requires
        from <= s.len(),
    ensures
        r.0 == spec_line_stop(s@, from as int),
        r.1 == spec_next_line(s@, from as int),
        from <= r.0 <= r.1 <= s.len(),
        from < s.len() ==> from < r.1,
{
    let feed: usize = skip_to(s, from, CharClass::LineFeed);
    let stop: usize = if from < feed && feed < s.len() && s[feed - 1] == '\r' {
        feed - 1
    } else {
        feed
    };
    let next: usize = if feed < s.len() {
        feed + 1
    } else {
        feed
    };
    (stop, next)
}

/// The character that writes the digit `d`.
pub open spec fn spec_digit(d: int) -> char {
    if d == 0 {
        '0'
    } else if d == 1 {
        '1'
    } else if d == 2 {
        '2'
    } else if d == 3 {
        '3'
    } else if d == 4 {
        '4'
    } else if d == 5 {
        '5'
    } else if d == 6 {
        '6'
    } else if d == 7 {
        '7'
    } else if d == 8 {
        '8'
    } else {
        '9'
    }
}

/// The decimal numeral of `n`: its digits from the most significant down,
/// with no leading zero but for zero itself.
pub open spec fn spec_decimal(n: nat) -> Seq<char>
    decreases n,
{
    if n < 10 {
        seq![spec_digit(n as int)]
    } else {
        spec_decimal(n / 10).push(spec_digit((n % 10) as int))
    }
}

/// The one-character text that writes the digit `d`.
pub fn digit(d: u64) -> (r: &'static str)
    requires
        d < 10,
    ensures
        r@ == seq![spec_digit(d as int)],
{
    proof {
        reveal_strlit("0");
        reveal_strlit("1");
        reveal_strlit("2");
        reveal_strlit("3");
        reveal_strlit("4");
        reveal_strlit("5");
        reveal_strlit("6");
        reveal_strlit("7");
        reveal_strlit("8");
        reveal_strlit("9");
    }
    let r = if d == 0 {
        "0"
    } else if d == 1 {
        "1"
    } else if d == 2 {
        "2"
    } else if d == 3 {
        "3"
    } else if d == 4 {
        "4"
    } else if d == 5 {
        "5"
    } else if d == 6 {
        "6"
    } else if d == 7 {
        "7"
    } else if d == 8 {
        "8"
    } else {
        "9"
    };
    assert(r@ =~= seq![spec_digit(d as int)]);
    r
}

/// Appends the decimal numeral of `n` to `out`.
pub fn push_decimal(out: &mut String, n: u64)
    ensures
        final(out)@ == old(out)@ + spec_decimal(n as nat),
    decreases n,
{
    if n >= 10 {
        push_decimal(out, n / 10);
    }
    out.append(digit(n % 10));
    assert(out@ =~= old(out)@ + spec_decimal(n as nat));
}

/// The decimal numeral of `n`.
pub fn decimal(n: u64) -> (r: String)
    ensures
        r@ == spec_decimal(n as nat),
{
    let mut r = String::new();
    push_decimal(&mut r, n);
    assert(r@ =~= spec_decimal(n as nat));
    r
}

/// Tests whether `s` begins with `prefix`.
pub fn str_starts_with(s: &str, prefix: &str) -> (r: bool)
    ensures
        r == prefix@.is_prefix_of(s@),
{
    let chars = chars_of(s);
    let head = chars_of(prefix);
    starts_with(chars.as_slice(), head.as_slice())
}

/// What follows `prefix` in `s`, where `s` begins with it.
pub fn strip_prefix<'a>(s: &'a str, prefix: &str) -> (r: Option<&'a str>)
    ensures
        match r {
            Some(rest) => prefix@.is_prefix_of(s@) && rest@ == s@.skip(prefix@.len() as int),
            None => !prefix@.is_prefix_of(s@),
        },
{
    let chars = chars_of(s);
    let head = chars_of(prefix);
    if starts_with(chars.as_slice(), head.as_slice()) {
        Some(s.substring_char(head.len(), chars.len()))
    } else {
        None
    }
}

/// Tests whether two string slices hold the same text.
pub fn str_eq(a: &str, b: &str) -> (r: bool)
    ensures
        r == (a@ == b@),
{
    let left = chars_of(a);
    let right = chars_of(b);
    same_chars(left.as_slice(), right.as_slice())
}

/// What is left of `s` behind `prefix`, and nothing where `s` does not
/// begin with `prefix`.
pub open spec fn spec_rest(s: Seq<char>, prefix: Seq<char>) -> Seq<char> {
    if prefix.is_prefix_of(s) {
        s.skip(prefix.len() as int)
    } else {
        Seq::empty()
    }
}

/// Strips `prefix` from `s`; gives the empty text where `s` does not begin
/// with `prefix`.
pub fn rest<'a>(s: &'a str, prefix: &str) -> (r: &'a str)
    ensures
        r@ == spec_rest(s@, prefix@),
{
    proof {
        reveal_strlit("");
    }
    match strip_prefix(s, prefix) {
        Some(tail) => tail,
        None => "",
    }
}

/// The number of bytes that a text takes in UTF-8.
pub open spec fn spec_byte_length(s: Seq<char>) -> nat {
    encode_utf8(s).len()
}

/// Counts the bytes that a text takes in UTF-8.
pub fn byte_length(s: &str) -> (r: usize)
    ensures
        r == spec_byte_length(s@),
{
    s.as_bytes().len()
}

} // verus!
