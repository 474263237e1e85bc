//! Small text conversions that the parsers share: decimal numbers,
//! NUL-padded fields, bytes of uncertain encoding, lines and words.

use vstd::prelude::*;
use vstd::string::*;

verus! {

/// The character that stands for the digit `d`.
pub open spec fn digit_char(d: nat) -> char
    recommends
        d < 10,
{
    if d == 0 {
        '0'
    } else if d == 1 {
        '1'
    } else if d == 2 {
        '2'
    } else if d == 3 {
        '3'
    } else if d == 4 {
        '4'
    } else if d == 5 {
        '5'
    } else if d == 6 {
        '6'
    } else if d == 7 {
        '7'
    } else if d == 8 {
        '8'
    } else {
        '9'
    }
}

/// The decimal numeral of `n`, without sign or leading zeros.
pub open spec fn decimal_digits(n: nat) -> Seq<char>
    decreases n,
{
    if n < 10 {
        seq![digit_char(n)]
    } else {
        decimal_digits(n / 10).push(digit_char(n % 10))
    }
}

/// The digit that `c` stands for; zero for a character that is no digit.
pub open spec fn digit_value(c: char) -> nat {
    if c == '1' {
        1
    } else if c == '2' {
        2
    } else if c == '3' {
        3
    } else if c == '4' {
        4
    } else if c == '5' {
        5
    } else if c == '6' {
        6
    } else if c == '7' {
        7
    } else if c == '8' {
        8
    } else if c == '9' {
        9
    } else {
        0
    }
}

/// The number that a decimal numeral stands for.
pub open spec fn decimal_value(digits: Seq<char>) -> nat
    decreases digits.len(),
{
    if digits.len() == 0 {
        0
    } else {
        10 * decimal_value(digits.drop_last()) + digit_value(digits.last())
    }
}

/// `s` without the NUL characters at its end.
pub open spec fn trim_nul(s: Seq<char>) -> Seq<char>
    decreases s.len(),
{
    if s.len() > 0 && s.last() == '\0' {
        trim_nul(s.drop_last())
    } else {
        s
    }
}

/// The position of the first `x` in `s`, or the length of `s` where there
/// is none.
pub open spec fn position_of<T>(s: Seq<T>, x: T) -> int
    decreases s.len(),
{
    if s.len() == 0 || s[0] == x {
        0
    } else {
        1 + position_of(s.drop_first(), x)
    }
}

/// The first line of `s`, without its line ending: what stands before the
/// first line feed, less one carriage return at its end; all of `s` where
/// it holds no line feed.
pub open spec fn first_line_of(s: Seq<char>) -> Seq<char> {
    let line = s.take(position_of(s, '\n'));
    if position_of(s, '\n') < s.len() && line.len() > 0 && line.last() == '\r' {
        line.drop_last()
    } else {
        line
    }
}

/// The lines of `s`, each without its line ending. A line ends at a line
/// feed; a carriage return right before the line feed belongs to the ending.
/// The last line needs no ending, and an ending at the very end of `s`
/// starts no further line.
pub open spec fn lines_of(s: Seq<char>) -> Seq<Seq<char>>
    decreases s.len(),
{
    if s.len() == 0 {
        Seq::empty()
    } else if 0 <= position_of(s, '\n') < s.len() {
        seq![first_line_of(s)] + lines_of(s.skip(position_of(s, '\n') + 1))
    } else {
        seq![first_line_of(s)]
    }
}

/// Whether `c` is white space: a character with the Unicode property
/// `White_Space`.
pub open spec fn is_space(c: char) -> bool {
    let u = c as u32;
    (0x09 <= u <= 0x0d) || u == 0x20 || u == 0x85 || u == 0xa0 || u == 0x1680 || (0x2000 <= u
        <= 0x200a) || u == 0x2028 || u == 0x2029 || u == 0x202f || u == 0x205f || u == 0x3000
}

/// How many characters stand at the start of `s` before the first for which
/// white space is `space`: the length of the leading white space where
/// `space` is false, of the leading word where it is true.
pub open spec fn run_length(s: Seq<char>, space: bool) -> int
    decreases s.len(),
{
    if s.len() == 0 || is_space(s[0]) == space {
        0
    } else {
        1 + run_length(s.drop_first(), space)
    }
}

/// The first word of `line`: what stands between its leading white space
/// and the next white space. It is empty where `line` holds no word.
pub open spec fn first_word_of(line: Seq<char>) -> Seq<char> {
    let rest = line.skip(run_length(line, false));
    rest.take(run_length(rest, true))
}

/// The text that lossy UTF-8 decoding makes of `bytes`: valid sequences are
/// decoded, and each invalid one is replaced by U+FFFD.
pub uninterp spec fn utf8_lossy(bytes: Seq<u8>) -> Seq<char>;

/// Calls `String::from_utf8_lossy` of the standard library and takes
/// ownership of the result. The contract names the result and claims no
/// more of it.
#[verifier::external_body]
pub(crate) fn from_utf8_lossy(bytes: &[u8]) -> (s: String)
    ensures
        s@ == utf8_lossy(bytes@),
{
    String::from_utf8_lossy(bytes).into_owned()
}

fn digit_str(d: u64) -> (s: &'static str)
    requires
        d < 10,
    ensures
        s@ == seq![digit_char(d as nat)],
{
    proof {
        reveal_strlit("0");
        reveal_strlit("1");
        reveal_strlit("2");
        reveal_strlit("3");
        reveal_strlit("4");
        reveal_strlit("5");
        reveal_strlit("6");
        reveal_strlit("7");
        reveal_strlit("8");
        reveal_strlit("9");
    }
    let s = if d == 0 {
        "0"
    } else if d == 1 {
        "1"
    } else if d == 2 {
        "2"
    } else if d == 3 {
        "3"
    } else if d == 4 {
        "4"
    } else if d == 5 {
        "5"
    } else if d == 6 {
        "6"
    } else if d == 7 {
        "7"
    } else if d == 8 {
        "8"
    } else {
        "9"
    };
    s
}

/// Writes `n` as a decimal numeral.
pub fn decimal(n: u64) -> (s: String)
    ensures
        s@ == decimal_digits(n as nat),
    decreases n,
{
    if n < 10 {
        String::from_str(digit_str(n))
    } else {
        let mut s = decimal(n / 10);
        s.append(digit_str(n % 10));
        s
    }
}

/// The characters of `s`.
pub fn chars_of(s: &str) -> (chars: Vec<char>)
    ensures
        chars@ == s@,
{
    let mut chars: Vec<char> = Vec::new();
    for c in iter: s.chars()
        invariant
            chars@ == s@.take(iter.index() as int),
            iter.seq() == s@,
    {
        chars.push(c);
    }
    chars
}

/// How much of `chars` is left when the NUL characters at its end go.
fn trimmed_len(chars: &[char]) -> (end: usize)
    ensures
        end <= chars@.len(),
        chars@.take(end as int) == trim_nul(chars@),
{
    let mut end: usize = chars.len();
    proof {
        assert(chars@.take(end as int) =~= chars@);
    }
    while end > 0 && chars[end - 1] == '\0'
        invariant
            end <= chars@.len(),
            trim_nul(chars@) == trim_nul(chars@.take(end as int)),
        decreases end,
    {
        proof {
            assert(chars@.take(end as int).drop_last() =~= chars@.take(end - 1));
        }
        end -= 1;
    }
    end
}

/// Copies `s` without the NUL characters at its end.
pub fn trim_trailing_nul(s: &str) -> (r: String)
    ensures
        r@ == trim_nul(s@),
{
    let chars = chars_of(s);
    let end: usize = trimmed_len(chars.as_slice());
    String::from_str(s.substring_char(0, end))
}

/// Copies the first line of `s`, without its line ending.
pub fn first_line(s: &str) -> (line: String)
    ensures
        line@ == first_line_of(s@),
{
    let chars = chars_of(s);
    let end: usize = line_end(chars.as_slice(), 0);
    proof {
        assert(s@.skip(0) =~= s@);
    }
    let stop: usize = content_end(chars.as_slice(), 0, end);
    String::from_str(s.substring_char(0, stop))
}

/// Where the line that starts at `start` ends: at the next line feed, or at
/// the end of the text.
fn line_end(chars: &[char], start: usize) -> (end: usize)
    requires
        start <= chars@.len(),
    ensures
        start <= end <= chars@.len(),
        end - start == position_of(chars@.skip(start as int), '\n'),
{
    let mut end: usize = start;
    while end < chars.len() && chars[end] != '\n'
        invariant
            start <= end <= chars@.len(),
            forall|j: int| 0 <= j < end - start ==> chars@.skip(start as int)[j] != '\n',
        decreases chars@.len() - end,
    {
        end += 1;
    }
    proof {
        lemma_position_found(chars@.skip(start as int), '\n', end - start);
    }
    end
}

/// Where the content of the line from `start` to `end` stops: before its
/// carriage return, where it has one and a line feed follows.
fn content_end(chars: &[char], start: usize, end: usize) -> (stop: usize)
    requires
        start <= end <= chars@.len(),
        end - start == position_of(chars@.skip(start as int), '\n'),
    ensures
        start <= stop <= end,
        chars@.subrange(start as int, stop as int) == first_line_of(chars@.skip(start as int)),
{
    if end < chars.len() && end > start && chars[end - 1] == '\r' {
        end - 1
    } else {
        end
    }
}

/// Whether `c` is white space.
pub fn is_whitespace(c: char) -> (space: bool)
    ensures
        space == is_space(c),
{
    let u: u32 = c as u32;
    (0x09 <= u && u <= 0x0d) || u == 0x20 || u == 0x85 || u == 0xa0 || u == 0x1680 || (0x2000 <= u
        && u <= 0x200a) || u == 0x2028 || u == 0x2029 || u == 0x202f || u == 0x205f || u
        == 0x3000
}

/// What `run_length` counts: no character of the run is of the kind that
/// ends it, and the character after the run, if there is one, is.
pub proof fn lemma_run_length(s: Seq<char>, space: bool)
    ensures
        0 <= run_length(s, space) <= s.len(),
        forall|j: int| 0 <= j < run_length(s, space) ==> is_space(s[j]) != space,
        run_length(s, space) < s.len() ==> is_space(s[run_length(s, space)]) == space,
    decreases s.len(),
{
    if s.len() > 0 && is_space(s[0]) != space {
        let rest = s.drop_first();
        lemma_run_length(rest, space);
        assert forall|j: int| 0 <= j < run_length(s, space) implies is_space(s[j]) != space by {
            if j > 0 {
                assert(rest[j - 1] == s[j]);
            }
        }
    }
}

/// A run that ends at `at` for the reasons that `lemma_run_length` gives has
/// the length `at`.
pub proof fn lemma_run_found(s: Seq<char>, space: bool, at: int)
    requires
        0 <= at <= s.len(),
        forall|j: int| 0 <= j < at ==> is_space(s[j]) != space,
        at < s.len() ==> is_space(s[at]) == space,
    ensures
        run_length(s, space) == at,
{
    lemma_run_length(s, space);
}

fn run_end(chars: &[char], start: usize, space: bool) -> (end: usize)
    requires
        start <= chars@.len(),
    ensures
        start <= end <= chars@.len(),
        end - start == run_length(chars@.skip(start as int), space),
{
    let mut end: usize = start;
    while end < chars.len() && is_whitespace(chars[end]) != space
        invariant
            start <= end <= chars@.len(),
            forall|j: int|
                0 <= j < end - start ==> is_space(chars@.skip(start as int)[j]) != space,
        decreases chars@.len() - end,
    {
        end += 1;
    }
    proof {
        lemma_run_found(chars@.skip(start as int), space, end - start);
    }
    end
}

/// Copies the first word of `line`; the copy is empty where `line` holds no
/// word.
pub fn first_word(line: &str) -> (word: String)
    ensures
        word@ == first_word_of(line@),
{
    let chars = chars_of(line);
    let from: usize = run_end(chars.as_slice(), 0, false);
    proof {
        assert(line@.skip(0) =~= line@);
    }
    let to: usize = run_end(chars.as_slice(), from, true);
    String::from_str(line.substring_char(from, to))
}

/// Splits `s` into its lines, each without its line ending.
pub fn split_lines(s: &str) -> (lines: Vec<String>)
    ensures
        lines@.map_values(|l: String| l@) == lines_of(s@),
{
    let chars = chars_of(s);
    let mut lines: Vec<String> = Vec::new();
    let mut start: usize = 0;
    proof {
        assert(s@.skip(0) =~= s@);
    }
    while start < chars.len()
        invariant
            chars@ == s@,
            start <= s@.len(),
            lines@.map_values(|l: String| l@) + lines_of(s@.skip(start as int)) == lines_of(s@),
        decreases s@.len() - start,
    {
        let end: usize = line_end(chars.as_slice(), start);
        let stop: usize = content_end(chars.as_slice(), start, end);
        let line = String::from_str(s.substring_char(start, stop));
        let ghost rest = s@.skip(start as int);
        lines.push(line);
        proof {
            if end < s@.len() {
                assert(rest.skip(end - start + 1) =~= s@.skip(end + 1));
            }
        }
        if end < chars.len() {
            start = end + 1;
        } else {
            start = end;
        }
    }
    lines
}

/// What `position_of` finds: the value is not before that position, and it
/// is at that position unless it does not occur at all.
pub proof fn lemma_position_of<T>(s: Seq<T>, x: T)
    ensures
        0 <= position_of(s, x) <= s.len(),
        forall|j: int| 0 <= j < position_of(s, x) ==> s[j] != x,
        position_of(s, x) < s.len() ==> s[position_of(s, x)] == x,
    decreases s.len(),
{
    if s.len() > 0 && s[0] != x {
        let rest = s.drop_first();
        lemma_position_of(rest, x);
        assert forall|j: int| 0 <= j < position_of(s, x) implies s[j] != x by {
            if j > 0 {
                assert(rest[j - 1] == s[j]);
            }
        }
    }
}

/// A position with the value at it, or at the end, and without the value
/// before it, is the one that `position_of` finds.
pub proof fn lemma_position_found<T>(s: Seq<T>, x: T, at: int)
    requires
        0 <= at <= s.len(),
        forall|j: int| 0 <= j < at ==> s[j] != x,
        at < s.len() ==> s[at] == x,
    ensures
        position_of(s, x) == at,
{
    lemma_position_of(s, x);
}

/// A numeral is not empty and stands for its number.
pub proof fn lemma_decimal_value(n: nat)
    ensures
        decimal_digits(n).len() >= 1,
        decimal_value(decimal_digits(n)) == n,
    decreases n,
{
    let digits = decimal_digits(n);
    if n >= 10 {
        lemma_decimal_value(n / 10);
        assert(digits.drop_last() =~= decimal_digits(n / 10));
    } else {
        assert(decimal_value(digits.drop_last()) == 0);
    }
}

/// Different numbers have different numerals.
pub proof fn lemma_decimal_injective(n: nat, m: nat)
    requires
        decimal_digits(n) == decimal_digits(m),
    ensures
        n == m,
{
    lemma_decimal_value(n);
    lemma_decimal_value(m);
}

/// Trimming leaves no NUL at the end, takes nothing but NULs away, and does
/// nothing to a text that has been trimmed.
pub proof fn lemma_trim_nul(s: Seq<char>)
    ensures
        trim_nul(s).len() <= s.len(),
        trim_nul(s) == s.take(trim_nul(s).len() as int),
        trim_nul(s).len() > 0 ==> trim_nul(s).last() != '\0',
        forall|i: int| trim_nul(s).len() <= i < s.len() ==> s[i] == '\0',
        trim_nul(trim_nul(s)) == trim_nul(s),
    decreases s.len(),
{
    if s.len() > 0 && s.last() == '\0' {
        lemma_trim_nul(s.drop_last());
        assert forall|i: int| trim_nul(s).len() <= i < s.len() implies s[i] == '\0' by {
            if i < s.len() - 1 {
                assert(s.drop_last()[i] == s[i]);
            }
        }
    }
}

} // verus!
