//! Text fields: what typing adds to them, and case mapping of names.

use vstd::prelude::*;
use crate::level::MAX_COMMENT_LEN;

verus! {

/// The longest size a new-level size field holds, in digits.
pub const MAX_SIZE_DIGITS: usize = 3;

/// The longest level file name, extension left out.
pub const MAX_NAME_LEN: usize = 11;

pub open spec fn is_digit(c: char) -> bool {
    '0' <= c <= '9'
}

pub open spec fn is_lower(c: char) -> bool {
    'a' <= c <= 'z'
}

pub open spec fn is_upper(c: char) -> bool {
    'A' <= c <= 'Z'
}

pub open spec fn is_alnum(c: char) -> bool {
    is_digit(c) || is_lower(c) || is_upper(c)
}

pub open spec fn all_digits(s: Seq<char>) -> bool {
    forall|i: int| 0 <= i < s.len() ==> is_digit(#[trigger] s[i])
}

pub open spec fn all_alnum(s: Seq<char>) -> bool {
    forall|i: int| 0 <= i < s.len() ==> is_alnum(#[trigger] s[i])
}

pub open spec fn all_spaces(s: Seq<char>) -> bool {
    forall|i: int| 0 <= i < s.len() ==> #[trigger] s[i] == ' '
}

/// The value of a string of decimal digits, most significant first.
pub open spec fn digits_value(s: Seq<char>) -> nat
    decreases s.len(),
{
    if s.len() == 0 {
        0
    } else {
        digits_value(s.drop_last()) * 10 + (s.last() as nat - '0' as nat) as nat
    }
}

pub open spec fn upper_char(c: char) -> char {
    if is_lower(c) {
        ((c as u32) - 32) as char
    } else {
        c
    }
}

pub open spec fn lower_char(c: char) -> char {
    if is_upper(c) {
        ((c as u32) + 32) as char
    } else {
        c
    }
}

/// A size field after `add` is typed into it.
pub open spec fn numeric_input(field: Seq<char>, add: Seq<char>) -> Seq<char> {
    if all_digits(add) && field.len() + add.len() <= MAX_SIZE_DIGITS {
        field + add
    } else {
        field
    }
}

/// The file name after `add` is typed into it.
pub open spec fn name_input(field: Seq<char>, add: Seq<char>) -> Seq<char> {
    if all_alnum(add) && field.len() + add.len() <= MAX_NAME_LEN {
        field + add
    } else {
        field
    }
}

/// The level comment after `add` is typed into it.
pub open spec fn comment_input(field: Seq<char>, add: Seq<char>) -> Seq<char> {
    if (all_alnum(add) || all_spaces(add)) && field.len() + add.len() <= MAX_COMMENT_LEN {
        field + add
    } else {
        field
    }
}

/// A field after one character is taken off its end.
pub open spec fn backspaced(field: Seq<char>) -> Seq<char> {
    if field.len() == 0 {
        field
    } else {
        field.drop_last()
    }
}

/// Takes the last character off a field, if it has one.
pub fn backspace(field: &mut Vec<char>)
    ensures
        final(field)@ == backspaced(old(field)@),
{
    field.pop();
}

fn char_is_digit(c: char) -> (r: bool)
    ensures
        r == is_digit(c),
{
    '0' <= c && c <= '9'
}

fn char_is_alnum(c: char) -> (r: bool)
    ensures
        r == is_alnum(c),
{
    ('0' <= c && c <= '9') || ('a' <= c && c <= 'z') || ('A' <= c && c <= 'Z')
}

/// The characters of `s`.
pub fn chars_of(s: &str) -> (r: Vec<char>)
    ensures
        r@ == s@,
{
    let n = s.unicode_len();
    let mut r: Vec<char> = Vec::new();
    let mut i: usize = 0;
    while i < n
        invariant
            n == s@.len(),
            i <= n,
            r@ == s@.subrange(0, i as int),
        decreases n - i,
    {
        r.push(s.get_char(i));
        i = i + 1;
        assert(r@ =~= s@.subrange(0, i as int));
    }
    assert(r@ =~= s@);
    r
}

/// Appends the characters of `add` to `target`.
pub fn append_chars(target: &mut Vec<char>, add: &Vec<char>)
    ensures
        final(target)@ == old(target)@ + add@,
{
    let mut i: usize = 0;
    let ghost t0 = target@;
    while i < add.len()
        invariant
            i <= add@.len(),
            target@ == t0 + add@.subrange(0, i as int),
        decreases add@.len() - i,
    {
        target.push(add[i]);
        i = i + 1;
        assert(target@ =~= t0 + add@.subrange(0, i as int));
    }
    assert(add@.subrange(0, add@.len() as int) =~= add@);
}

/// Adds typed text to a size field: only digits are taken, and only while
/// the field stays within its length; other text leaves it as it was.
pub fn sanitize_numeric_input(new_text: &str, target_text: &mut Vec<char>)
    ensures
        final(target_text)@ == numeric_input(old(target_text)@, new_text@),
{
    let add = chars_of(new_text);
    let mut ok = true;
    let mut i: usize = 0;
    while i < add.len()
        invariant
            i <= add@.len(),
            ok == forall|j: int| 0 <= j < i ==> is_digit(#[trigger] add@[j]),
        decreases add@.len() - i,
    {
        ok = ok && char_is_digit(add[i]);
        i = i + 1;
    }
    if ok && add.len() <= MAX_SIZE_DIGITS && target_text.len() <= MAX_SIZE_DIGITS - add.len() {
        append_chars(target_text, &add);
    }
}

/// Adds typed text to the file name: only letters and digits are taken,
/// and only while the name stays within its length.
pub fn sanitize_level_name_input(new_text: &str, target_text: &mut Vec<char>)
    ensures
        final(target_text)@ == name_input(old(target_text)@, new_text@),
{
    let add = chars_of(new_text);
    let mut ok = true;
    let mut i: usize = 0;
    while i < add.len()
        invariant
            i <= add@.len(),
            ok == forall|j: int| 0 <= j < i ==> is_alnum(#[trigger] add@[j]),
        decreases add@.len() - i,
    {
        ok = ok && char_is_alnum(add[i]);
        i = i + 1;
    }
    if ok && add.len() <= MAX_NAME_LEN && target_text.len() <= MAX_NAME_LEN - add.len() {
        append_chars(target_text, &add);
    }
}

/// Adds typed text to the level comment: text of letters and digits, or
/// text of spaces, is taken while the comment stays within its length.
pub fn sanitize_level_comment_input(new_text: &str, target_text: &mut Vec<char>)
    ensures
        final(target_text)@ == comment_input(old(target_text)@, new_text@),
{
    let add = chars_of(new_text);
    let mut alnum = true;
    let mut spaces = true;
    let mut i: usize = 0;
    while i < add.len()
        invariant
            i <= add@.len(),
            alnum == forall|j: int| 0 <= j < i ==> is_alnum(#[trigger] add@[j]),
            spaces == forall|j: int| 0 <= j < i ==> #[trigger] add@[j] == ' ',
        decreases add@.len() - i,
    {
        alnum = alnum && char_is_alnum(add[i]);
        spaces = spaces && add[i] == ' ';
        i = i + 1;
    }
    if (alnum || spaces) && add.len() <= MAX_COMMENT_LEN && target_text.len() <= MAX_COMMENT_LEN
        - add.len() {
        append_chars(target_text, &add);
    }
}

/// The value of a field of at most three digits.
pub fn parse_digits(s: &Vec<char>) -> (r: u32)
    requires
        all_digits(s@),
        s@.len() <= MAX_SIZE_DIGITS,
    ensures
        r == digits_value(s@),
        r < 1000,
{
    let mut v: u32 = 0;
    let mut i: usize = 0;
    while i < s.len()
        invariant
            all_digits(s@),
            s@.len() <= MAX_SIZE_DIGITS,
            i <= s@.len(),
            v == digits_value(s@.subrange(0, i as int)),
            i == 0 ==> v == 0,
            i == 1 ==> v < 10,
            i == 2 ==> v < 100,
            i == 3 ==> v < 1000,
        decreases s@.len() - i,
    {
        assert(is_digit(s@[i as int]));
        let d = (s[i] as u32) - ('0' as u32);
        assert(s@.subrange(0, i + 1).drop_last() =~= s@.subrange(0, i as int));
        v = v * 10 + d;
        i = i + 1;
    }
    assert(s@.subrange(0, s@.len() as int) =~= s@);
    v
}

/// Every letter of `s` in upper case.
pub fn to_upper(s: &Vec<char>) -> (r: Vec<char>)
    ensures
        r@ == s@.map_values(|c: char| upper_char(c)),
{
    let mut r: Vec<char> = Vec::new();
    let mut i: usize = 0;
    while i < s.len()
        invariant
            i <= s@.len(),
            r@ == s@.subrange(0, i as int).map_values(|c: char| upper_char(c)),
        decreases s@.len() - i,
    {
        let c = s[i];
        let u = if 'a' <= c && c <= 'z' { ((c as u8) - 32) as char } else { c };
        r.push(u);
        i = i + 1;
        assert(r@ =~= s@.subrange(0, i as int).map_values(|c: char| upper_char(c)));
    }
    assert(s@.subrange(0, s@.len() as int) =~= s@);
    r
}

/// Every letter of `s` in lower case.
pub fn to_lower(s: &Vec<char>) -> (r: Vec<char>)
    ensures
        r@ == s@.map_values(|c: char| lower_char(c)),
{
    let mut r: Vec<char> = Vec::new();
    let mut i: usize = 0;
    while i < s.len()
        invariant
            i <= s@.len(),
            r@ == s@.subrange(0, i as int).map_values(|c: char| lower_char(c)),
        decreases s@.len() - i,
    {
        let c = s[i];
        let u = if 'A' <= c && c <= 'Z' { ((c as u8) + 32) as char } else { c };
        r.push(u);
        i = i + 1;
        assert(r@ =~= s@.subrange(0, i as int).map_values(|c: char| lower_char(c)));
    }
    assert(s@.subrange(0, s@.len() as int) =~= s@);
    r
}

} // verus!
