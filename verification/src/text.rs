//! Text: decimal and hexadecimal numbers, trimming, splitting and parsing.
//!
//! The functions here work on strings or on slices of characters, and their
//! contracts speak of sequences of characters.

use vstd::arithmetic::{div_mod, power};
use vstd::prelude::*;

verus! {

/// `String::push` appends one character and leaves the rest as it was.
pub assume_specification[ String::push ](s: &mut String, c: char)
    ensures
        final(s)@ == old(s)@.push(c),
;

/// A string in quotes, as the `Debug` format of `str` writes it.
pub uninterp spec fn debug_quoted(s: Seq<char>) -> Seq<char>;

/// The `Debug` text of a string, which the contract names.
#[verifier::external_body]
pub(crate) fn quoted(s: &str) -> (r: String)
    ensures
        r@ == debug_quoted(s@),
{
    format!("{:?}", s)
}

/// The character of the decimal digit `d`.
pub open spec fn digit(d: nat) -> char {
    ('0' as nat + d) as char
}

/// `n` written in decimal, without leading zeros.
pub open spec fn decimal(n: nat) -> Seq<char>
    decreases n,
{
    if n < 10 {
        seq![digit(n)]
    } else {
        decimal(n / 10).push(digit(n % 10))
    }
}

/// `n` written in decimal, with a minus sign in front of a negative number.
pub open spec fn signed_decimal(n: int) -> Seq<char> {
    if n < 0 {
        seq!['-'] + decimal((-n) as nat)
    } else {
        decimal(n as nat)
    }
}

/// The lower-case character of the hexadecimal digit `d`.
pub open spec fn hex_digit(d: nat) -> char {
    if d < 10 {
        digit(d)
    } else {
        ('a' as nat + (d - 10)) as char
    }
}

/// A byte written in hexadecimal, behind `0x` and without leading zeros.
pub open spec fn hex_byte(b: u8) -> Seq<char> {
    if b < 16 {
        seq!['0', 'x', hex_digit(b as nat)]
    } else {
        seq!['0', 'x', hex_digit(b as nat / 16), hex_digit(b as nat % 16)]
    }
}

/// The character of a decimal digit.
fn digit_char(d: u8) -> (c: char)
    requires
        d < 10,
    ensures
        c == digit(d as nat),
{
    (48u8 + d) as char
}

/// Appends `n` in decimal.
pub fn push_decimal(s: &mut String, n: u64)
    ensures
        final(s)@ == old(s)@ + decimal(n as nat),
    decreases n,
{
    if n >= 10 {
        push_decimal(s, n / 10);
    }
    s.push(digit_char((n % 10) as u8));
    proof {
        assert(decimal(n as nat).last() == digit((n % 10) as nat));
    }
}

/// Appends `n` in decimal, with a minus sign in front of a negative number.
pub fn push_signed(s: &mut String, n: i64)
    ensures
        final(s)@ == old(s)@ + signed_decimal(n as int),
{
    if n < 0 {
        s.push('-');
        let magnitude: i128 = -(n as i128);
        push_decimal(s, magnitude as u64);
    } else {
        push_decimal(s, n as u64);
    }
}

/// The character of a hexadecimal digit.
fn hex_char(d: u8) -> (c: char)
    requires
        d < 16,
    ensures
        c == hex_digit(d as nat),
{
    if d < 10 {
        digit_char(d)
    } else {
        (97u8 + (d - 10)) as char
    }
}

/// Appends `b` in hexadecimal, behind `0x`.
pub fn push_hex_byte(s: &mut String, b: u8)
    ensures
        final(s)@ == old(s)@ + hex_byte(b),
{
    s.push('0');
    s.push('x');
    if b >= 16 {
        s.push(hex_char(b / 16));
    }
    s.push(hex_char(b % 16));
}

/// The characters of a string.
pub fn chars_of(s: &str) -> (v: Vec<char>)
    ensures
        v@ == s@,
{
    let mut v: Vec<char> = Vec::new();
    for c in it: s.chars()
        invariant
            v@ == it.seq().take(it.index() as int),
    {
        v.push(c);
    }
    v
}

/// Whether two strings hold the same characters.
pub fn same_text(a: &str, b: &str) -> (r: bool)
    ensures
        r == (a@ == b@),
{
    same_chars(chars_of(a).as_slice(), chars_of(b).as_slice())
}

/// The string made of `chars`.
pub fn string_of(chars: &[char]) -> (s: String)
    ensures
        s@ == chars@,
{
    let mut s = String::new();
    for i in 0..chars.len()
        invariant
            s@ == chars@.take(i as int),
    {
        s.push(chars[i]);
    }
    s
}

/// Whether two slices hold the same characters.
pub fn same_chars(a: &[char], b: &[char]) -> (r: bool)
    ensures
        r == (a@ == b@),
{
    if a.len() != b.len() {
        return false;
    }
    for i in 0..a.len()
        invariant
            a.len() == b.len(),
            forall|j: int| 0 <= j < i ==> a@[j] == b@[j],
    {
        if a[i] != b[i] {
            return false;
        }
    }
    assert(a@ =~= b@);
    true
}

/// Whether `c` has the Unicode property `White_Space`.
pub open spec fn white_space(c: char) -> bool {
    ||| '\u{9}' <= c <= '\u{d}'
    ||| c == ' '
    ||| c == '\u{85}'
    ||| c == '\u{a0}'
    ||| c == '\u{1680}'
    ||| '\u{2000}' <= c <= '\u{200a}'
    ||| c == '\u{2028}'
    ||| c == '\u{2029}'
    ||| c == '\u{202f}'
    ||| c == '\u{205f}'
    ||| c == '\u{3000}'
}

/// Whether `c` has the Unicode property `White_Space`.
fn is_white_space(c: char) -> (r: bool)
    ensures
        r == white_space(c),
{
    let n: u32 = c as u32;
    (9 <= n && n <= 0xd) || n == 0x20 || n == 0x85 || n == 0xa0 || n == 0x1680 || (0x2000 <= n && n
        <= 0x200a) || n == 0x2028 || n == 0x2029 || n == 0x202f || n == 0x205f || n == 0x3000
}

/// `s` without the white space at its start.
pub open spec fn trim_start(s: Seq<char>) -> Seq<char>
    decreases s.len(),
{
    if s.len() > 0 && white_space(s[0]) {
        trim_start(s.drop_first())
    } else {
        s
    }
}

/// `s` without the white space at its end.
pub open spec fn trim_end(s: Seq<char>) -> Seq<char>
    decreases s.len(),
{
    if s.len() > 0 && white_space(s.last()) {
        trim_end(s.drop_last())
    } else {
        s
    }
}

/// `s` without the white space at its start and at its end.
pub open spec fn trim(s: Seq<char>) -> Seq<char> {
    trim_end(trim_start(s))
}

/// The part of a slice that `trim` keeps.
pub fn trimmed(s: &[char]) -> (r: &[char])
    ensures
        r@ == trim(s@),
{
    let n: usize = s.len();
    let mut i: usize = 0;
    assert(s@.skip(0) =~= s@);
    while i < n && is_white_space(s[i])
        invariant
            n == s@.len(),
            i <= n,
            trim_start(s@) == trim_start(s@.skip(i as int)),
        decreases n - i,
    {
        assert(s@.skip(i as int).drop_first() =~= s@.skip(i + 1));
        i += 1;
    }
    proof {
        if i < n {
            assert(s@.skip(i as int)[0] == s@[i as int]);
        }
    }
    let mut j: usize = n;
    while j > i && is_white_space(s[j - 1])
        invariant
            n == s@.len(),
            i <= j <= n,
            trim_end(s@.skip(i as int)) == trim_end(s@.subrange(i as int, j as int)),
        decreases j,
    {
        assert(s@.subrange(i as int, j as int).drop_last() =~= s@.subrange(i as int, j - 1));
        j -= 1;
    }
    proof {
        assert(s@.subrange(i as int, n as int) =~= s@.skip(i as int));
        if i < j {
            assert(s@.subrange(i as int, j as int).last() == s@[j - 1]);
        }
    }
    vstd::slice::slice_subrange(s, i, j)
}

/// `c` in lower case where it is an ASCII letter.
pub open spec fn lower(c: char) -> char {
    if 'A' <= c <= 'Z' {
        (c as nat + 32) as char
    } else {
        c
    }
}

/// `s` with its ASCII letters in lower case.
pub open spec fn lower_all(s: Seq<char>) -> Seq<char> {
    s.map_values(|c: char| lower(c))
}

/// A slice with its ASCII letters in lower case.
pub fn lowered(s: &[char]) -> (r: Vec<char>)
    ensures
        r@ == lower_all(s@),
{
    let mut r: Vec<char> = Vec::new();
    for i in 0..s.len()
        invariant
            r@ =~= lower_all(s@.take(i as int)),
    {
        let c: char = s[i];
        if 'A' <= c && c <= 'Z' {
            r.push((c as u8 + 32) as char);
        } else {
            r.push(c);
        }
        assert(s@.take(i + 1) =~= s@.take(i as int).push(c));
    }
    assert(s@.take(s@.len() as int) =~= s@);
    r
}

/// The first place of `c` in `s` from `i` on.
pub open spec fn find_from(s: Seq<char>, c: char, i: int) -> Option<int>
    decreases s.len() - i,
{
    if i < 0 || i >= s.len() {
        None
    } else if s[i] == c {
        Some(i)
    } else {
        find_from(s, c, i + 1)
    }
}

/// The first place of `c` in `s`.
pub open spec fn find(s: Seq<char>, c: char) -> Option<int> {
    find_from(s, c, 0)
}

/// The first place of `c` is the one before which it does not occur.
pub proof fn lemma_find(s: Seq<char>, c: char, n: int)
    requires
        0 <= n < s.len(),
        s[n] == c,
        forall|i: int| 0 <= i < n ==> s[i] != c,
    ensures
        find(s, c) == Some(n),
{
    lemma_find_from(s, c, n, 0);
}

proof fn lemma_find_from(s: Seq<char>, c: char, n: int, i: int)
    requires
        0 <= i <= n < s.len(),
        s[n] == c,
        forall|j: int| i <= j < n ==> s[j] != c,
    ensures
        find_from(s, c, i) == Some(n),
    decreases n - i,
{
    if i < n {
        lemma_find_from(s, c, n, i + 1);
    }
}

/// The first place of `c` in a slice.
pub fn position(s: &[char], c: char) -> (r: Option<usize>)
    ensures
        match r {
            Some(i) => find(s@, c) == Some(i as int) && i < s@.len(),
            None => find(s@, c) is None,
        },
{
    for i in 0..s.len()
        invariant
            find(s@, c) == find_from(s@, c, i as int),
    {
        if s[i] == c {
            return Some(i);
        }
    }
    None
}

/// The views of a sequence of vectors.
pub open spec fn views(parts: Seq<Vec<char>>) -> Seq<Seq<char>> {
    parts.map_values(|p: Vec<char>| p@)
}

/// The pieces of `s` between the occurrences of `sep`; one more than these.
pub open spec fn split(s: Seq<char>, sep: char) -> Seq<Seq<char>>
    decreases s.len(),
{
    if s.len() == 0 {
        seq![Seq::empty()]
    } else {
        let before = split(s.drop_last(), sep);
        if s.last() == sep {
            before.push(Seq::empty())
        } else {
            before.drop_last().push(before.last().push(s.last()))
        }
    }
}

/// Whether `c` does not occur in `s`.
pub open spec fn lacks(s: Seq<char>, c: char) -> bool {
    forall|i: int| 0 <= i < s.len() ==> s[i] != c
}

/// A text without the separator is one piece.
pub proof fn lemma_split_one(s: Seq<char>, sep: char)
    requires
        lacks(s, sep),
    ensures
        split(s, sep) == seq![s],
    decreases s.len(),
{
    if s.len() > 0 {
        lemma_split_one(s.drop_last(), sep);
        assert(s.drop_last().push(s.last()) =~= s);
        assert(split(s, sep) =~= seq![s]);
    } else {
        assert(s =~= Seq::empty());
    }
}

/// A text without the separator, behind a separator, is one more piece.
pub proof fn lemma_split_more(a: Seq<char>, b: Seq<char>, sep: char)
    requires
        lacks(b, sep),
    ensures
        split(a + seq![sep] + b, sep) == split(a, sep).push(b),
    decreases b.len(),
{
    let s = a + seq![sep] + b;
    if b.len() == 0 {
        assert(s.drop_last() =~= a);
        assert(b =~= Seq::empty());
    } else {
        assert(s.drop_last() =~= a + seq![sep] + b.drop_last());
        lemma_split_more(a, b.drop_last(), sep);
        assert(b.drop_last().push(b.last()) =~= b);
        let before = split(a, sep).push(b.drop_last());
        assert(before.drop_last() =~= split(a, sep));
    }
}

/// The pieces of a slice between the occurrences of `sep`.
pub fn split_on(s: &[char], sep: char) -> (r: Vec<Vec<char>>)
    ensures
        views(r@) == split(s@, sep),
        r@.len() >= 1,
{
    let mut done: Vec<Vec<char>> = Vec::new();
    let mut cur: Vec<char> = Vec::new();
    for i in 0..s.len()
        invariant
            split(s@.take(i as int), sep) =~= views(done@).push(cur@),
    {
        assert(s@.take(i + 1).drop_last() =~= s@.take(i as int));
        assert(s@.take(i + 1).last() == s@[i as int]);
        if s[i] == sep {
            let ghost before = done@;
            let ghost piece = cur@;
            done.push(cur);
            cur = Vec::new();
            assert(views(done@) =~= views(before).push(piece));
        } else {
            cur.push(s[i]);
        }
    }
    assert(s@.take(s@.len() as int) =~= s@);
    let ghost before = done@;
    let ghost piece = cur@;
    done.push(cur);
    assert(views(done@) =~= views(before).push(piece));
    done
}

/// Why a text is no number of 16 bits.
#[derive(Clone, Copy, Debug, PartialEq, Eq, Structural)]
pub enum NumberError {
    /// There is no text.
    Empty,
    /// The text holds something else than a digit.
    InvalidDigit,
    /// The number is larger than the type holds.
    TooLarge,
}

/// The text of a number error.
pub open spec fn number_error_text(e: NumberError) -> Seq<char> {
    match e {
        NumberError::Empty => "cannot parse integer from empty string"@,
        NumberError::InvalidDigit => "invalid digit found in string"@,
        NumberError::TooLarge => "number too large to fit in target type"@,
    }
}

/// The text of a number error.
pub fn number_error_str(e: NumberError) -> (r: &'static str)
    ensures
        r@ == number_error_text(e),
{
    match e {
        NumberError::Empty => "cannot parse integer from empty string",
        NumberError::InvalidDigit => "invalid digit found in string",
        NumberError::TooLarge => "number too large to fit in target type",
    }
}

/// The number that the digits of `s` write, read from the left up to the first
/// character at which that fails.
pub open spec fn digits_u16(s: Seq<char>) -> Result<u16, NumberError>
    decreases s.len(),
{
    if s.len() == 0 {
        Ok(0)
    } else {
        match digits_u16(s.drop_last()) {
            Err(e) => Err(e),
            Ok(v) => if !('0' <= s.last() <= '9') {
                Err(NumberError::InvalidDigit)
            } else if v * 10 + (s.last() as int - '0' as int) > 65535 {
                Err(NumberError::TooLarge)
            } else {
                Ok((v * 10 + (s.last() as int - '0' as int)) as u16)
            },
        }
    }
}

/// The number that `s` writes in decimal; a plus sign may stand in front of it.
pub open spec fn number_u16(s: Seq<char>) -> Result<u16, NumberError> {
    if s.len() == 0 {
        Err(NumberError::Empty)
    } else if s == seq!['+'] {
        Err(NumberError::InvalidDigit)
    } else if s[0] == '+' {
        digits_u16(s.skip(1))
    } else {
        digits_u16(s)
    }
}

/// Reading stays at the first failure.
proof fn lemma_digits_prefix(s: Seq<char>, n: int)
    requires
        0 <= n <= s.len(),
        digits_u16(s.take(n)) is Err,
    ensures
        digits_u16(s) == digits_u16(s.take(n)),
    decreases s.len(),
{
    if n < s.len() {
        assert(s.drop_last().take(n) =~= s.take(n));
        lemma_digits_prefix(s.drop_last(), n);
    } else {
        assert(s.take(n) =~= s);
    }
}

/// Reads a number of 16 bits in decimal; a plus sign may stand in front of it.
pub fn parse_u16(s: &[char]) -> (r: Result<u16, NumberError>)
    ensures
        r == number_u16(s@),
{
    if s.len() == 0 {
        return Err(NumberError::Empty);
    }
    let mut start: usize = 0;
    if s[0] == '+' {
        if s.len() == 1 {
            assert(s@ =~= seq!['+']);
            return Err(NumberError::InvalidDigit);
        }
        start = 1;
    }
    let ghost digits = s@.skip(start as int);
    proof {
        if start == 0 {
            assert(digits =~= s@);
        }
    }
    let mut v: u16 = 0;
    for i in start..s.len()
        invariant
            start <= i <= s@.len(),
            digits == s@.skip(start as int),
            digits_u16(digits.take(i - start)) == Ok::<u16, NumberError>(v),
            digits_u16(digits) == number_u16(s@),
    {
        let c: char = s[i];
        assert(digits.take(i + 1 - start).drop_last() =~= digits.take(i - start));
        assert(digits.take(i + 1 - start).last() == c);
        if c < '0' || '9' < c {
            proof {
                lemma_digits_prefix(digits, i + 1 - start);
            }
            return Err(NumberError::InvalidDigit);
        }
        let next: u32 = v as u32 * 10 + (c as u32 - 48);
        if next > 65535 {
            proof {
                lemma_digits_prefix(digits, i + 1 - start);
            }
            return Err(NumberError::TooLarge);
        }
        v = next as u16;
    }
    assert(digits.take(digits.len() as int) =~= digits);
    Ok(v)
}

/// A decimal number starts with a digit and holds nothing else.
pub proof fn lemma_decimal_digits(n: nat)
    ensures
        decimal(n).len() >= 1,
        forall|i: int| 0 <= i < decimal(n).len() ==> '0' <= #[trigger] decimal(n)[i] <= '9',
    decreases n,
{
    if n >= 10 {
        lemma_decimal_digits(n / 10);
    }
}

/// Two numbers that are written the same are the same.
pub proof fn lemma_decimal_injective(a: nat, b: nat)
    requires
        decimal(a) == decimal(b),
    ensures
        a == b,
    decreases a,
{
    lemma_decimal_digits(a / 10);
    lemma_decimal_digits(b / 10);
    assert(decimal(a).last() == digit(a % 10));
    assert(decimal(b).last() == digit(b % 10));
    assert(digit(a % 10) as int == '0' as int + a % 10);
    assert(digit(b % 10) as int == '0' as int + b % 10);
    if a >= 10 {
        assert(decimal(a).len() >= 2);
        assert(decimal(a).drop_last() =~= decimal(a / 10));
        assert(decimal(b).drop_last() =~= decimal(b / 10));
        lemma_decimal_injective(a / 10, b / 10);
    } else {
        assert(decimal(a).len() == 1);
    }
}

/// Reading back a number that was written in decimal gives the number.
pub proof fn law_decimal_reads_back(n: u16)
    ensures
        number_u16(decimal(n as nat)) == Ok::<u16, NumberError>(n),
{
    lemma_digits_read_back(n as nat);
    lemma_decimal_digits(n as nat);
    assert(decimal(n as nat)[0] != '+');
}

proof fn lemma_digits_read_back(n: nat)
    requires
        n <= 65535,
    ensures
        digits_u16(decimal(n)) == Ok::<u16, NumberError>(n as u16),
    decreases n,
{
    reveal_with_fuel(digits_u16, 2);
    if n < 10 {
        assert(decimal(n).drop_last() =~= Seq::<char>::empty());
        assert(decimal(n).last() == digit(n));
    } else {
        lemma_digits_read_back(n / 10);
        assert(decimal(n).drop_last() =~= decimal(n / 10));
        assert(decimal(n).last() == digit(n % 10));
    }
}

/// Whether the digits of a text, each at its place, write a number.
pub open spec fn writes(digits: Seq<char>, n: int) -> bool {
    &&& 0 <= n < power::pow(10, digits.len())
    &&& forall|i: nat|
        i < digits.len() ==> (#[trigger] digits[digits.len() - 1 - i]) as int == 48 + (n
            / power::pow(10, i)) % 10
}

/// The digits of a text without its last one write the number without its last digit.
proof fn lemma_writes_last(digits: Seq<char>, n: int)
    requires
        digits.len() > 0,
    ensures
        writes(digits, n) <==> (writes(digits.drop_last(), n / 10) && digits.last() as int == 48 + n
            % 10 && n >= 0),
{
    reveal(power::pow);
    let head = digits.drop_last();
    let len = digits.len();
    assert(power::pow(10, len) == 10 * power::pow(10, head.len()));
    power::lemma_pow_positive(10, head.len());
    assert forall|j: nat| 0 <= n && j < head.len() implies n / #[trigger] power::pow(10, j + 1) == (n
        / 10) / power::pow(10, j) by {
        power::lemma_pow_positive(10, j);
        assert(power::pow(10, j + 1) == 10 * power::pow(10, j));
        div_mod::lemma_div_denominator(n, 10, power::pow(10, j));
    }
    if writes(digits, n) {
        assert(digits[len - 1 - 0nat] as int == 48 + (n / power::pow(10, 0)) % 10);
        assert forall|j: nat| j < head.len() implies (#[trigger] head[head.len() - 1 - j]) as int
            == 48 + ((n / 10) / power::pow(10, j)) % 10 by {
            let i = (j + 1) as nat;
            assert(digits[len - 1 - i] == head[head.len() - 1 - j]);
        }
    }
    if writes(head, n / 10) && digits.last() as int == 48 + n % 10 && n >= 0 {
        assert forall|i: nat| i < len implies (#[trigger] digits[len - 1 - i]) as int == 48 + (n
            / power::pow(10, i)) % 10 by {
            if i > 0 {
                let j = (i - 1) as nat;
                assert(digits[len - 1 - i] == head[head.len() - 1 - j]);
                assert(power::pow(10, j + 1) == power::pow(10, i));
            }
        }
    }
}

/// The digits of a decimal number, each at its place, write the number. A number other
/// than 0 has no zero in front, and 0 is one digit.
pub proof fn law_decimal_by_place(n: nat)
    ensures
        writes(decimal(n), n as int),
        n > 0 ==> decimal(n)[0] as int != 48,
        n == 0 ==> decimal(n).len() == 1,
    decreases n,
{
    reveal(power::pow);
    lemma_decimal_digits(n);
    lemma_writes_last(decimal(n), n as int);
    if n < 10 {
        assert(writes(decimal(n).drop_last(), 0));
    } else {
        law_decimal_by_place(n / 10);
        lemma_decimal_digits(n / 10);
        assert(decimal(n).drop_last() =~= decimal(n / 10));
        assert(decimal(n)[0] == decimal(n / 10)[0]);
    }
}

/// A number that is not negative is written without a sign, and a negative one with a
/// minus sign and what is written for the number without it.
pub proof fn law_sign_stands_in_front(n: int)
    ensures
        n >= 0 ==> signed_decimal(n) == decimal(n as nat),
        n < 0 ==> signed_decimal(n).len() > 0 && signed_decimal(n)[0] as int == 45
            && signed_decimal(n).skip(1) == decimal((-n) as nat),
{
    if n < 0 {
        assert(signed_decimal(n).skip(1) =~= decimal((-n) as nat));
    }
}

/// The value of a hexadecimal digit with the given code.
pub open spec fn hex_value(code: int) -> int {
    if 48 <= code <= 57 {
        code - 48
    } else {
        code - 87
    }
}

/// The digits behind `0x` are hexadecimal digits in lower case, have the value of the
/// byte, and start with no zero but for the byte 0.
pub proof fn law_hex_byte_has_its_value(b: u8)
    ensures
        hex_byte(b).len() == (if b < 16 {
            3int
        } else {
            4int
        }),
        hex_byte(b)[0] as int == 48,
        hex_byte(b)[1] as int == 120,
        forall|i: int|
            2 <= i < hex_byte(b).len() ==> 48 <= (#[trigger] hex_byte(b)[i]) as int <= 57 || 97
                <= hex_byte(b)[i] as int <= 102,
        b < 16 ==> hex_value(hex_byte(b)[2] as int) == b,
        b >= 16 ==> 16 * hex_value(hex_byte(b)[2] as int) + hex_value(hex_byte(b)[3] as int) == b,
{
}

/// The white space characters, by their codes.
pub proof fn law_white_space_codes(c: char)
    ensures
        white_space(c) <==> {
            let n = c as int;
            ||| 9 <= n <= 13
            ||| n == 32
            ||| n == 133
            ||| n == 160
            ||| n == 5760
            ||| 8192 <= n <= 8202
            ||| n == 8232
            ||| n == 8233
            ||| n == 8239
            ||| n == 8287
            ||| n == 12288
        },
{
}

/// Trimming takes white space from the two ends and nothing else: what is left is a
/// range of the text, everything before and behind it is white space, and it neither
/// starts nor ends with white space.
pub proof fn law_trim_takes_white_space_only(s: Seq<char>)
    ensures
        exists|i: int, j: int|
            0 <= i <= j <= s.len() && trim(s) == #[trigger] s.subrange(i, j) && (forall|k: int|
                (0 <= k < i || j <= k < s.len()) ==> white_space(#[trigger] s[k])),
        trim(s).len() > 0 ==> !white_space(trim(s)[0]) && !white_space(trim(s).last()),
{
    let i = lemma_trim_start(s);
    let t = trim_start(s);
    let n = lemma_trim_end(t);
    assert(t.take(n) =~= s.subrange(i, i + n));
    assert forall|k: int| (0 <= k < i || i + n <= k < s.len()) implies white_space(
        #[trigger] s[k],
    ) by {
        if k >= i {
            assert(s[k] == t[k - i]);
        }
    }
    assert(trim(s) == s.subrange(i, i + n));
    if trim(s).len() > 0 {
        assert(trim(s)[0] == t[0]);
    }
}

proof fn lemma_trim_start(s: Seq<char>) -> (i: int)
    ensures
        0 <= i <= s.len(),
        trim_start(s) == s.skip(i),
        forall|k: int| 0 <= k < i ==> white_space(#[trigger] s[k]),
        i < s.len() ==> !white_space(s[i]),
    decreases s.len(),
{
    if s.len() > 0 && white_space(s[0]) {
        let t = s.drop_first();
        let i = lemma_trim_start(t);
        assert(t.skip(i) =~= s.skip(i + 1));
        assert forall|k: int| 0 <= k < i + 1 implies white_space(#[trigger] s[k]) by {
            if k > 0 {
                assert(s[k] == t[k - 1]);
            }
        }
        i + 1
    } else {
        assert(s.skip(0) =~= s);
        0
    }
}

proof fn lemma_trim_end(s: Seq<char>) -> (n: int)
    ensures
        0 <= n <= s.len(),
        trim_end(s) == s.take(n),
        forall|k: int| n <= k < s.len() ==> white_space(#[trigger] s[k]),
        n > 0 ==> !white_space(s[n - 1]),
    decreases s.len(),
{
    if s.len() > 0 && white_space(s.last()) {
        let t = s.drop_last();
        let n = lemma_trim_end(t);
        assert(t.take(n) =~= s.take(n));
        assert forall|k: int| n <= k < s.len() implies white_space(#[trigger] s[k]) by {
            if k < t.len() {
                assert(s[k] == t[k]);
            }
        }
        n
    } else {
        assert(s.take(s.len() as int) =~= s);
        s.len() as int
    }
}

/// Trimming leaves a text alone that has no white space at its ends, and takes white
/// space that is put around it.
pub proof fn law_trim_undoes_padding(before: Seq<char>, s: Seq<char>, after: Seq<char>)
    requires
        forall|k: int| 0 <= k < before.len() ==> white_space(#[trigger] before[k]),
        forall|k: int| 0 <= k < after.len() ==> white_space(#[trigger] after[k]),
        s.len() > 0,
        !white_space(s[0]),
        !white_space(s.last()),
    ensures
        trim(before + s + after) == s,
{
    let all = before + s + after;
    let i = lemma_trim_start(all);
    assert(i == before.len()) by {
        assert(all[before.len() as int] == s[0]);
        if i < before.len() {
            assert(all[i] == before[i]);
        }
    }
    let t = trim_start(all);
    let n = lemma_trim_end(t);
    assert(n == s.len()) by {
        assert(t[s.len() - 1] == s.last());
        if n > s.len() {
            assert(t[n - 1] == after[n - 1 - s.len()]);
        }
    }
    assert(t.take(n) =~= s);
}

/// Lower case changes the ASCII letters in upper case, whose codes go up by 32, and
/// nothing else.
pub proof fn law_lower_case_codes(s: Seq<char>)
    ensures
        lower_all(s).len() == s.len(),
        forall|i: int|
            0 <= i < s.len() ==> (#[trigger] lower_all(s)[i]) as int == (if 65 <= s[i] as int <= 90 {
                s[i] as int + 32
            } else {
                s[i] as int
            }),
{
}

/// A character that is found stands at its place and at none before it; one that is not
/// found stands nowhere.
pub proof fn law_find_is_first(s: Seq<char>, c: char)
    ensures
        match find(s, c) {
            Some(n) => 0 <= n < s.len() && s[n] == c && forall|i: int| 0 <= i < n ==> s[i] != c,
            None => forall|i: int| 0 <= i < s.len() ==> s[i] != c,
        },
{
    lemma_find_from_is_first(s, c, 0);
}

proof fn lemma_find_from_is_first(s: Seq<char>, c: char, from: int)
    requires
        0 <= from,
    ensures
        match find_from(s, c, from) {
            Some(n) => from <= n < s.len() && s[n] == c && forall|i: int|
                from <= i < n ==> s[i] != c,
            None => forall|i: int| from <= i < s.len() ==> s[i] != c,
        },
    decreases s.len() - from,
{
    if from < s.len() && s[from] != c {
        lemma_find_from_is_first(s, c, from + 1);
    }
}

/// Pieces with a separator between any two of them.
pub open spec fn joined(pieces: Seq<Seq<char>>, sep: char) -> Seq<char>
    decreases pieces.len(),
{
    if pieces.len() == 0 {
        Seq::empty()
    } else if pieces.len() == 1 {
        pieces[0]
    } else {
        joined(pieces.drop_last(), sep) + seq![sep] + pieces.last()
    }
}

/// Putting the separator back between the pieces gives the text, and no piece holds
/// the separator.
pub proof fn law_split_loses_nothing(s: Seq<char>, sep: char)
    ensures
        split(s, sep).len() >= 1,
        joined(split(s, sep), sep) == s,
        forall|i: int, j: int|
            0 <= i < split(s, sep).len() && 0 <= j < split(s, sep)[i].len() ==> (#[trigger] split(
                s,
                sep,
            )[i][j]) != sep,
    decreases s.len(),
{
    reveal_with_fuel(joined, 2);
    if s.len() == 0 {
        assert(joined(split(s, sep), sep) =~= s);
    } else {
        let t = s.drop_last();
        law_split_loses_nothing(t, sep);
        let before = split(t, sep);
        let after = split(s, sep);
        assert(t.push(s.last()) =~= s);
        if s.last() == sep {
            assert(after.drop_last() =~= before);
            assert(joined(after, sep) =~= s);
        } else {
            assert(after.drop_last() =~= before.drop_last());
            assert(after.last() == before.last().push(s.last()));
            assert(joined(after, sep) =~= joined(before, sep).push(s.last()));
            assert forall|i: int, j: int|
                0 <= i < after.len() && 0 <= j < after[i].len() implies (#[trigger] after[i][j])
                != sep by {
                if i < before.len() - 1 {
                    assert(after[i] == before[i]);
                    assert(before[i][j] != sep);
                } else if j < before.last().len() {
                    assert(before[before.len() - 1][j] != sep);
                }
            }
        }
    }
}

/// Splitting gives back the pieces that were put together, where none holds the
/// separator.
pub proof fn law_split_undoes_joined(pieces: Seq<Seq<char>>, sep: char)
    requires
        pieces.len() >= 1,
        forall|i: int, j: int|
            0 <= i < pieces.len() && 0 <= j < pieces[i].len() ==> (#[trigger] pieces[i][j]) != sep,
    ensures
        split(joined(pieces, sep), sep) == pieces,
    decreases pieces.len(),
{
    let n = pieces.len() as int;
    assert(lacks(pieces.last(), sep)) by {
        assert forall|j: int| 0 <= j < pieces.last().len() implies pieces.last()[j] != sep by {
            assert(pieces[n - 1][j] != sep);
        }
    }
    if n == 1 {
        lemma_split_one(pieces[0], sep);
        assert(seq![pieces[0]] =~= pieces);
    } else {
        let head = pieces.drop_last();
        assert forall|i: int, j: int|
            0 <= i < head.len() && 0 <= j < head[i].len() implies (#[trigger] head[i][j]) != sep by {
            assert(pieces[i][j] != sep);
        }
        law_split_undoes_joined(head, sep);
        lemma_split_more(joined(head, sep), pieces.last(), sep);
        assert(head.push(pieces.last()) =~= pieces);
    }
}

proof fn lemma_digits_by_place(s: Seq<char>, n: u16)
    ensures
        digits_u16(s) == Ok::<u16, NumberError>(n) <==> writes(s, n as int),
    decreases s.len(),
{
    reveal(power::pow);
    if s.len() > 0 {
        let head = s.drop_last();
        lemma_writes_last(s, n as int);
        lemma_digits_by_place(head, (n / 10) as u16);
        if let Ok(v) = digits_u16(head) {
            lemma_digits_by_place(head, v);
        }
    }
}

/// A text is read as a number exactly where it holds digits that, each at its place,
/// write the number, with or without a plus sign in front.
pub proof fn law_number_by_place(s: Seq<char>, n: u16)
    ensures
        number_u16(s) == Ok::<u16, NumberError>(n) <==> {
            ||| s.len() > 0 && writes(s, n as int)
            ||| s.len() > 1 && s[0] as int == 43 && writes(s.skip(1), n as int)
        },
        number_u16(s) == Err::<u16, NumberError>(NumberError::Empty) <==> s.len() == 0,
{
    lemma_digits_by_place(s, n);
    lemma_digits_by_place(s.skip(1), n);
    lemma_digits_not_empty(s);
    lemma_digits_not_empty(s.skip(1));
    if s.len() > 0 && s[0] == '+' {
        if s.len() == 1 {
            assert(s =~= seq!['+']);
        }
        if writes(s, n as int) {
            let i = (s.len() - 1) as nat;
            assert(s[s.len() - 1 - i] as int == 48 + (n as int / power::pow(10, i)) % 10);
        }
    }
}

proof fn lemma_digits_not_empty(s: Seq<char>)
    ensures
        digits_u16(s) != Err::<u16, NumberError>(NumberError::Empty),
    decreases s.len(),
{
    if s.len() > 0 {
        lemma_digits_not_empty(s.drop_last());
    }
}

/// A text of digits alone that is not read is too large.
pub proof fn law_only_digits_are_too_large(s: Seq<char>)
    requires
        s.len() > 0,
        forall|i: int| 0 <= i < s.len() ==> 48 <= (#[trigger] s[i]) as int <= 57,
    ensures
        number_u16(s) is Ok || number_u16(s) == Err::<u16, NumberError>(NumberError::TooLarge),
    decreases s.len(),
{
    lemma_digits_are_valid(s);
    assert(s[0] != '+');
}

proof fn lemma_digits_are_valid(s: Seq<char>)
    requires
        forall|i: int| 0 <= i < s.len() ==> 48 <= (#[trigger] s[i]) as int <= 57,
    ensures
        digits_u16(s) is Ok || digits_u16(s) == Err::<u16, NumberError>(NumberError::TooLarge),
    decreases s.len(),
{
    if s.len() > 0 {
        assert(48 <= s[s.len() - 1] as int <= 57);
        lemma_digits_are_valid(s.drop_last());
    }
}

/// The first character behind a number that fits, if it is no digit, is what is wrong with a
/// text, whatever follows it.
pub proof fn law_first_bad_digit(digits: Seq<char>, n: u16, c: char, rest: Seq<char>)
    requires
        writes(digits, n as int),
        !(48 <= c as int <= 57),
        digits.len() == 0 ==> c as int != 43,
    ensures
        number_u16(digits + seq![c] + rest) == Err::<u16, NumberError>(NumberError::InvalidDigit),
{
    let s = digits + seq![c] + rest;
    let n_read = digits.len() as int + 1;
    lemma_digits_by_place(digits, n);
    assert(s.take(n_read).drop_last() =~= digits);
    assert(s.take(n_read).last() == c);
    lemma_digits_prefix(s, n_read);
    if digits.len() > 0 {
        let i = (digits.len() - 1) as nat;
        assert(digits[digits.len() - 1 - i] as int == 48 + (n as int / power::pow(10, i)) % 10);
        assert(s[0] == digits[0]);
    }
}

/// A number above 65535 is too large, whatever follows it.
pub proof fn law_larger_numbers_are_too_large(digits: Seq<char>, n: int, rest: Seq<char>)
    requires
        digits.len() > 0,
        writes(digits, n),
        n > 65535,
    ensures
        number_u16(digits + rest) == Err::<u16, NumberError>(NumberError::TooLarge),
{
    let s = digits + rest;
    assert forall|k: int| 0 <= k < digits.len() implies 48 <= (#[trigger] digits[k]) as int <= 57 by {
        let i = (digits.len() - 1 - k) as nat;
        assert(digits[digits.len() - 1 - i] as int == 48 + (n / power::pow(10, i)) % 10);
    }
    lemma_digits_are_valid(digits);
    if let Ok(v) = digits_u16(digits) {
        lemma_digits_by_place(digits, v);
        lemma_writes_one_number(digits, v as int, n);
    }
    assert(s.take(digits.len() as int) =~= digits);
    lemma_digits_prefix(s, digits.len() as int);
    assert(s[0] == digits[0]);
}

proof fn lemma_writes_one_number(digits: Seq<char>, a: int, b: int)
    requires
        writes(digits, a),
        writes(digits, b),
    ensures
        a == b,
    decreases digits.len(),
{
    if digits.len() == 0 {
        reveal(power::pow);
    } else {
        lemma_writes_last(digits, a);
        lemma_writes_last(digits, b);
        lemma_writes_one_number(digits.drop_last(), a / 10, b / 10);
    }
}

/// The words for what is wrong with a number.
pub proof fn law_number_error_words(e: NumberError)
    ensures
        number_error_text(e) == (match e {
            NumberError::Empty => "cannot parse integer from empty string"@,
            NumberError::InvalidDigit => "invalid digit found in string"@,
            NumberError::TooLarge => "number too large to fit in target type"@,
        }),
{
}

} // verus!
