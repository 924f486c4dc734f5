//! Character classes and small text helpers shared by the encoder and the
//! scanner. Text is modelled as `Seq<char>`, the view of `str` and `String`.

use vstd::prelude::*;

verus! {

/// Characters with the Unicode `White_Space` property.
pub open spec fn is_space(c: char) -> bool {
    ||| '\u{0009}' <= c <= '\u{000D}'
    ||| c == ' '
    ||| c == '\u{0085}'
    ||| c == '\u{00A0}'
    ||| c == '\u{1680}'
    ||| '\u{2000}' <= c <= '\u{200A}'
    ||| c == '\u{2028}'
    ||| c == '\u{2029}'
    ||| c == '\u{202F}'
    ||| c == '\u{205F}'
    ||| c == '\u{3000}'
}

/// The ten ASCII decimal digits.
pub open spec fn is_decimal_digit(c: char) -> bool {
    '0' <= c <= '9'
}

/// The ASCII letters of both cases.
pub open spec fn is_letter(c: char) -> bool {
    'a' <= c <= 'z' || 'A' <= c <= 'Z'
}

/// ASCII letters and decimal digits.
pub open spec fn is_alphanumeric(c: char) -> bool {
    is_letter(c) || is_decimal_digit(c)
}

/// Characters that end a number or an identifier without belonging to it.
pub open spec fn is_delimiter(c: char) -> bool {
    is_space(c) || c == '#' || c == ';' || c == '(' || c == ')' || c == ',' || c == ':'
}

/// Characters that may start an identifier.
pub open spec fn is_identifier_start(c: char) -> bool {
    is_letter(c) || c == '_' || c == '.' || c == '$' || c == '@'
}

/// Characters that may continue an identifier.
pub open spec fn is_identifier_part(c: char) -> bool {
    is_identifier_start(c) || is_decimal_digit(c)
}

/// Value of a digit character in the bases up to sixteen; fifteen is the
/// largest. Letters count in both cases.
pub open spec fn digit_value(c: char) -> Option<nat> {
    if '0' <= c <= '9' {
        Some((c as int - '0' as int) as nat)
    } else if 'a' <= c <= 'f' {
        Some((c as int - 'a' as int + 10) as nat)
    } else if 'A' <= c <= 'F' {
        Some((c as int - 'A' as int + 10) as nat)
    } else {
        None
    }
}

/// `c` is a digit of base `radix`.
pub open spec fn is_digit_of(c: char, radix: nat) -> bool {
    digit_value(c) is Some && digit_value(c)->0 < radix
}

/// Whether `c` is white space.
pub fn char_is_space(c: char) -> (b: bool)
    ensures
        b == is_space(c),
{
    ('\u{0009}' <= c && c <= '\u{000D}') || c == ' ' || c == '\u{0085}' || c == '\u{00A0}' || c
        == '\u{1680}' || ('\u{2000}' <= c && c <= '\u{200A}') || c == '\u{2028}' || c
        == '\u{2029}' || c == '\u{202F}' || c == '\u{205F}' || c == '\u{3000}'
}

/// Whether `c` is one of the digits `0` to `9`.
pub fn char_is_decimal_digit(c: char) -> (b: bool)
    ensures
        b == is_decimal_digit(c),
{
    '0' <= c && c <= '9'
}

/// Whether `c` is an ASCII letter.
pub fn char_is_letter(c: char) -> (b: bool)
    ensures
        b == is_letter(c),
{
    ('a' <= c && c <= 'z') || ('A' <= c && c <= 'Z')
}

/// Whether `c` is an ASCII letter or digit.
pub fn char_is_alphanumeric(c: char) -> (b: bool)
    ensures
        b == is_alphanumeric(c),
{
    char_is_letter(c) || char_is_decimal_digit(c)
}

/// Whether `c` ends a number or an identifier.
pub fn char_is_delimiter(c: char) -> (b: bool)
    ensures
        b == is_delimiter(c),
{
    char_is_space(c) || c == '#' || c == ';' || c == '(' || c == ')' || c == ',' || c == ':'
}

/// Whether an identifier may start with `c`.
pub fn char_is_identifier_start(c: char) -> (b: bool)
    ensures
        b == is_identifier_start(c),
{
    char_is_letter(c) || c == '_' || c == '.' || c == '$' || c == '@'
}

/// Whether an identifier may go on with `c`.
pub fn char_is_identifier_part(c: char) -> (b: bool)
    ensures
        b == is_identifier_part(c),
{
    char_is_identifier_start(c) || char_is_decimal_digit(c)
}

/// The value of `c` as a digit, if it is one in some base up to sixteen.
pub fn char_digit_value(c: char) -> (v: Option<u32>)
    ensures
        v is Some <==> digit_value(c) is Some,
        v is Some ==> v->0 == digit_value(c)->0,
{
    if '0' <= c && c <= '9' {
        Some(c as u32 - '0' as u32)
    } else if 'a' <= c && c <= 'f' {
        Some(c as u32 - 'a' as u32 + 10)
    } else if 'A' <= c && c <= 'F' {
        Some(c as u32 - 'A' as u32 + 10)
    } else {
        None
    }
}

/// The characters of `s`, in order.
pub fn chars_of(s: &str) -> (v: Vec<char>)
    ensures
        v@ == s@,
{
    let mut v: Vec<char> = Vec::new();
    for c in it: s.chars()
        invariant
            it.seq() == s@,
            v@ == s@.take(it.index() as int),
    {
        v.push(c);
    }
    v
}

/// `String::push` appends one character to the end of the string and leaves
/// the characters before it as they were.
pub assume_specification[ std::string::String::push ](s: &mut std::string::String, c: char)
    ensures
        final(s)@ == old(s)@.push(c),
;

/// The characters `text[from..to]` as a string.
pub fn string_of(text: &[char], from: usize, to: usize) -> (s: String)
    requires
        from <= to <= text@.len(),
    ensures
        s@ == text@.subrange(from as int, to as int),
{
    let mut s = String::new();
    let mut i: usize = from;
    while i < to
        invariant
            from <= i <= to <= text@.len(),
            s@ == text@.subrange(from as int, i as int),
        decreases to - i,
    {
        s.push(text[i]);
        i += 1;
    }
    s
}

/// Whether `name` spells exactly the characters of `text`.
pub fn str_is(name: &str, text: &[char]) -> (r: bool)
    ensures
        r == (name@ == text@),
{
    let mut i: usize = 0;
    for c in it: name.chars()
        invariant
            it.seq() == name@,
            i == it.index(),
            i <= text@.len(),
            name@.take(i as int) == text@.take(i as int),
    {
        if i >= text.len() || text[i] != c {
            assert(name@ != text@);
            return false;
        }
        assert(name@.take(i + 1) =~= name@.take(i as int).push(c));
        assert(text@.take(i + 1) =~= text@.take(i as int).push(c));
        i += 1;
    }
    assert(name@.take(i as int) =~= name@);
    if i == text.len() {
        assert(text@.take(i as int) =~= text@);
        true
    } else {
        false
    }
}

/// Where the run of characters other than white space that starts at `from`
/// stops.
pub open spec fn word_end(s: Seq<char>, from: int) -> int
    decreases s.len() - from,
{
    if 0 <= from < s.len() && !is_space(s[from]) {
        word_end(s, from + 1)
    } else {
        from
    }
}

/// A word ends at or after its start, and within the text.
pub proof fn lemma_word_end(s: Seq<char>, from: int)
    requires
        0 <= from <= s.len(),
    ensures
        from <= word_end(s, from) <= s.len(),
    decreases s.len() - from,
{
    if from < s.len() && !is_space(s[from]) {
        lemma_word_end(s, from + 1);
    }
}

/// The words of `s` from position `from` on, where `from` is not inside a
/// word: the longest runs of characters other than white space, in order.
pub open spec fn words_from(s: Seq<char>, from: int) -> Seq<Seq<char>>
    decreases s.len() - from,
    via words_from_decreases
{
    if from < 0 || from >= s.len() {
        Seq::empty()
    } else if is_space(s[from]) {
        words_from(s, from + 1)
    } else {
        seq![s.subrange(from, word_end(s, from + 1))] + words_from(s, word_end(s, from + 1))
    }
}

#[via_fn]
proof fn words_from_decreases(s: Seq<char>, from: int) {
    if 0 <= from < s.len() {
        lemma_word_end(s, from + 1);
    }
}

/// The words of a text: what white space separates. White space before the
/// first word and after the last one is dropped, and no word is empty.
pub open spec fn words(s: Seq<char>) -> Seq<Seq<char>> {
    words_from(s, 0)
}

/// The texts of some strings, in the same order.
pub open spec fn texts(strings: Seq<String>) -> Seq<Seq<char>> {
    strings.map_values(|s: String| s@)
}

/// Splits a text into its words.
pub fn split_words(text: &[char]) -> (found: Vec<String>)
    ensures
        texts(found@) == words(text@),
{
    let n = text.len();
    let mut found: Vec<String> = Vec::new();
    let mut pos: usize = 0;
    assert(texts(found@) =~= Seq::empty());
    assert(Seq::<Seq<char>>::empty() + words(text@) =~= words(text@));
    while pos < n
        invariant
            n == text@.len(),
            pos <= n,
            words(text@) == texts(found@) + words_from(text@, pos as int),
        decreases n - pos,
    {
        if char_is_space(text[pos]) {
            pos += 1;
        } else {
            let start = pos;
            pos += 1;
            while pos < n && !char_is_space(text[pos])
                invariant
                    n == text@.len(),
                    start < pos <= n,
                    word_end(text@, start + 1) == word_end(text@, pos as int),
                decreases n - pos,
            {
                pos += 1;
            }
            let word = string_of(text, start, pos);
            proof {
                let rest = words_from(text@, pos as int);
                assert(texts(found@.push(word)) =~= texts(found@).push(word@));
                assert(texts(found@) + (seq![word@] + rest) =~= texts(found@).push(word@) + rest);
            }
            found.push(word);
        }
    }
    assert(texts(found@) + Seq::<Seq<char>>::empty() =~= texts(found@));
    found
}

/// Decimal digits of a natural number, most significant first, without
/// leading zeros; zero is the single digit `0`.
pub open spec fn decimal_digits(n: nat) -> Seq<char>
    decreases n,
{
    if n < 10 {
        seq![('0' as int + n) as char]
    } else {
        decimal_digits(n / 10).push(('0' as int + n % 10) as char)
    }
}

/// Decimal text of an integer: a minus sign before the digits of a negative
/// number, no sign otherwise.
pub open spec fn decimal_text(n: int) -> Seq<char> {
    if n < 0 {
        seq!['-'] + decimal_digits((-n) as nat)
    } else {
        decimal_digits(n as nat)
    }
}

/// Appends the decimal digits of `n` to `s`.
fn push_decimal_digits(s: &mut String, n: u32)
    ensures
        final(s)@ == old(s)@ + decimal_digits(n as nat),
    decreases n,
{
    if n >= 10 {
        push_decimal_digits(s, n / 10);
    }
    let digit = (n % 10) as u8;
    s.push((digit + 48u8) as char);
    assert(s@ =~= old(s)@ + decimal_digits(n as nat));
}

/// The decimal text of `n`.
pub fn decimal_string(n: i32) -> (s: String)
    ensures
        s@ == decimal_text(n as int),
{
    let mut s = String::new();
    if n < 0 {
        s.push('-');
        let magnitude: u32 = (-(n as i64)) as u32;
        push_decimal_digits(&mut s, magnitude);
    } else {
        push_decimal_digits(&mut s, n as u32);
    }
    assert(s@ =~= decimal_text(n as int));
    s
}

} // verus!
