//! Text helpers: every textual result of the library is described as a `Seq<char>`.

use vstd::prelude::*;
use vstd::string::*;

verus! {

broadcast use vstd::string::group_string_axioms;

/// The decimal digit `d`.
pub open spec fn digit_char(d: int) -> char {
    (48 + d) as char
}

/// `n` in decimal, without leading zeros.
pub open spec fn decimal(n: nat) -> Seq<char>
    decreases n,
{
    if n < 10 {
        seq![digit_char(n as int)]
    } else {
        decimal(n / 10).push(digit_char((n % 10) as int))
    }
}

/// `n` in decimal, with a leading minus sign when negative.
pub open spec fn signed_decimal(n: int) -> Seq<char> {
    if n < 0 {
        seq!['-'] + decimal((-n) as nat)
    } else {
        decimal(n as nat)
    }
}

/// The lowercase hexadecimal digit of value `d`.
pub open spec fn hex_digit(d: int) -> char {
    if d < 10 {
        (48 + d) as char
    } else {
        (87 + d) as char
    }
}

/// Two lowercase hexadecimal digits per byte, the high half first.
pub open spec fn hex_text(bytes: Seq<u8>) -> Seq<char> {
    Seq::new(
        2 * bytes.len(),
        |i: int|
            if i % 2 == 0 {
                hex_digit(bytes[i / 2] as int / 16)
            } else {
                hex_digit(bytes[i / 2] as int % 16)
            },
    )
}

/// The four lowercase hexadecimal digits of `v`.
pub open spec fn hex_u16(v: u16) -> Seq<char> {
    seq![
        hex_digit(v as int / 4096),
        hex_digit(v as int / 256 % 16),
        hex_digit(v as int / 16 % 16),
        hex_digit(v as int % 16),
    ]
}

/// Whether `c` is a hexadecimal digit of either case.
pub open spec fn is_hex_char(c: char) -> bool {
    ('0' <= c && c <= '9') || ('a' <= c && c <= 'f') || ('A' <= c && c <= 'F')
}

/// The value of a hexadecimal digit.
pub open spec fn hex_value(c: char) -> int {
    if '0' <= c && c <= '9' {
        c as int - 48
    } else if 'a' <= c && c <= 'f' {
        c as int - 87
    } else {
        c as int - 55
    }
}

/// Whether `s` is an even number of hexadecimal digits.
pub open spec fn is_hex_text(s: Seq<char>) -> bool {
    s.len() % 2 == 0 && forall|i: int| 0 <= i < s.len() ==> is_hex_char(#[trigger] s[i])
}

/// The bytes that a hexadecimal text spells.
pub open spec fn hex_bytes(s: Seq<char>) -> Seq<u8> {
    Seq::new(
        s.len() / 2,
        |i: int| (16 * hex_value(s[2 * i]) + hex_value(s[2 * i + 1])) as u8,
    )
}

/// `c` with an ASCII capital replaced by its small letter.
pub open spec fn ascii_lower_char(c: char) -> char {
    if 'A' <= c && c <= 'Z' {
        (c as int + 32) as char
    } else {
        c
    }
}

/// `s` with every ASCII capital replaced by its small letter.
pub open spec fn ascii_lower(s: Seq<char>) -> Seq<char> {
    s.map_values(|c: char| ascii_lower_char(c))
}

/// The characters of `text`.
pub fn chars_of(text: &str) -> (r: Vec<char>)
    ensures
        r@ == text@,
{
    let mut r: Vec<char> = Vec::new();
    for c in iter: text.chars()
        invariant
            iter.seq() == text@,
            r@ == text@.take(iter.index() as int),
    {
        r.push(c);
    }
    r
}

/// `String::push` of std: appends one character.
#[verifier::external_body]
fn push_char(text: &mut String, c: char)
    ensures
        final(text)@ == old(text)@.push(c),
{
    text.push(c);
}

/// The text made of `chars`.
pub fn text_of(chars: &[char]) -> (r: String)
    ensures
        r@ == chars@,
{
    let mut r: String = String::new();
    let mut i: usize = 0;
    while i < chars.len()
        invariant
            i <= chars.len(),
            r@ == chars@.take(i as int),
        decreases chars.len() - i,
    {
        push_char(&mut r, chars[i]);
        i = i + 1;
    }
    assert(chars@.take(i as int) =~= chars@);
    r
}

/// Whether two texts are the same.
pub fn same_text(a: &str, b: &str) -> (r: bool)
    ensures
        r == (a@ == b@),
{
    let x: String = a.to_owned();
    let y: String = b.to_owned();
    x == y
}

/// `a` followed by `b`.
pub fn joined(a: &str, b: &str) -> (r: String)
    ensures
        r@ == a@ + b@,
{
    let mut r: String = a.to_owned();
    r.append(b);
    r
}

/// `n` in decimal.
pub fn decimal_text(n: u128) -> (r: String)
    ensures
        r@ == decimal(n as nat),
    decreases n,
{
    let d: u8 = (n % 10) as u8;
    let c: char = (48 + d) as char;
    if n < 10 {
        let mut r: String = String::new();
        push_char(&mut r, c);
        assert(r@ =~= decimal(n as nat));
        r
    } else {
        let mut r: String = decimal_text(n / 10);
        push_char(&mut r, c);
        r
    }
}

/// `n` in decimal, with its sign when negative.
pub fn signed_decimal_text(n: i128) -> (r: String)
    requires
        n > i128::MIN,
    ensures
        r@ == signed_decimal(n as int),
{
    if n < 0 {
        let mut r: String = String::new();
        push_char(&mut r, '-');
        let digits: String = decimal_text((-n) as u128);
        r.append(digits.as_str());
        assert(r@ =~= signed_decimal(n as int));
        r
    } else {
        decimal_text(n as u128)
    }
}

fn hex_digit_char(d: u8) -> (r: char)
    requires
        d < 16,
    ensures
        r == hex_digit(d as int),
{
    if d < 10 {
        (48 + d) as char
    } else {
        (87 + d) as char
    }
}

/// The four hexadecimal digits of `v`.
pub fn hex_u16_text(v: u16) -> (r: String)
    ensures
        r@ == hex_u16(v),
{
    let mut r: String = String::new();
    push_char(&mut r, hex_digit_char((v / 4096) as u8));
    push_char(&mut r, hex_digit_char((v / 256 % 16) as u8));
    push_char(&mut r, hex_digit_char((v / 16 % 16) as u8));
    push_char(&mut r, hex_digit_char((v % 16) as u8));
    assert(r@ =~= hex_u16(v));
    r
}

/// `hex::encode`: two lowercase hexadecimal digits per byte, the high half first.
#[verifier::external_body]
pub(crate) fn hex_encode(bytes: &[u8]) -> (r: String)
    ensures
        r@ == hex_text(bytes@),
{
    hex::encode(bytes)
}

/// The error of `hex::decode`; it is carried, never looked into.
#[verifier::external_type_specification]
#[verifier::external_body]
pub struct ExFromHexError(hex::FromHexError);

/// `hex::decode`: succeeds exactly on an even number of hexadecimal digits of either case, and
/// then returns the bytes that they spell.
#[verifier::external_body]
pub(crate) fn hex_decode(text: &str) -> (r: Result<Vec<u8>, hex::FromHexError>)
    ensures
        r is Ok <==> is_hex_text(text@),
        r matches Ok(bytes) ==> bytes@ == hex_bytes(text@),
{
    hex::decode(text)
}

/// `c` with an ASCII capital replaced by its small letter.
pub fn lower_char(c: char) -> (r: char)
    ensures
        r == ascii_lower_char(c),
{
    let code: u32 = c as u32;
    if 65 <= code && code <= 90 {
        ((code + 32) as u8) as char
    } else {
        c
    }
}

/// `text` with every ASCII capital replaced by its small letter.
pub fn ascii_lower_text(text: &str) -> (r: String)
    ensures
        r@ == ascii_lower(text@),
{
    let mut r: String = String::new();
    for c in iter: text.chars()
        invariant
            iter.seq() == text@,
            r@ == ascii_lower(text@.take(iter.index() as int)),
    {
        push_char(&mut r, lower_char(c));
        assert(r@ =~= ascii_lower(text@.take(iter.index() as int + 1)));
    }
    assert(text@.take(text@.len() as int) =~= text@);
    r
}

/// Whether two texts differ at most in the case of ASCII letters.
pub fn same_ignoring_ascii_case(a: &str, b: &str) -> (r: bool)
    ensures
        r == (ascii_lower(a@) == ascii_lower(b@)),
{
    let x: String = ascii_lower_text(a);
    let y: String = ascii_lower_text(b);
    x == y
}

/// Whether a character has the Unicode property White_Space.
pub open spec fn char_is_whitespace(c: char) -> bool {
    let n = c as int;
    ||| 0x9 <= n <= 0xD
    ||| n == 0x20
    ||| n == 0x85
    ||| n == 0xA0
    ||| n == 0x1680
    ||| 0x2000 <= n <= 0x200A
    ||| n == 0x2028
    ||| n == 0x2029
    ||| n == 0x202F
    ||| n == 0x205F
    ||| n == 0x3000
}

fn whitespace(c: char) -> (r: bool)
    ensures
        r == char_is_whitespace(c),
{
    let n: u32 = c as u32;
    (0x9 <= n && n <= 0xD) || n == 0x20 || n == 0x85 || n == 0xA0 || n == 0x1680 || (0x2000 <= n && n
        <= 0x200A) || n == 0x2028 || n == 0x2029 || n == 0x202F || n == 0x205F || n == 0x3000
}

/// Name of the result of std's `char::is_alphanumeric`, outside ASCII.
pub uninterp spec fn unicode_alphanumeric(c: char) -> bool;

/// `char::is_alphanumeric` of std.
#[verifier::external_body]
fn std_alphanumeric(c: char) -> (r: bool)
    ensures
        r == unicode_alphanumeric(c),
{
    c.is_alphanumeric()
}

/// Whether a character is a letter or a digit: what that is in ASCII is spelled out, the rest is
/// left to the Unicode tables of std.
pub open spec fn char_is_alphanumeric(c: char) -> bool {
    if (c as int) < 128 {
        ('0' <= c && c <= '9') || ('A' <= c && c <= 'Z') || ('a' <= c && c <= 'z')
    } else {
        unicode_alphanumeric(c)
    }
}

pub fn alphanumeric(c: char) -> (r: bool)
    ensures
        r == char_is_alphanumeric(c),
{
    let n: u32 = c as u32;
    if n < 128 {
        (48 <= n && n <= 57) || (65 <= n && n <= 90) || (97 <= n && n <= 122)
    } else {
        std_alphanumeric(c)
    }
}

fn code_point(c: char) -> (r: u32)
    ensures
        r == c as int,
{
    c as u32
}

/// Whether a text is ASCII.
pub open spec fn ascii(text: Seq<char>) -> bool {
    forall|i: int| 0 <= i < text.len() ==> (#[trigger] text[i] as int) < 128
}

/// Whether a text is ASCII.
pub fn is_ascii_text(text: &str) -> (r: bool)
    ensures
        r == ascii(text@),
{
    let chars: Vec<char> = chars_of(text);
    let mut i: usize = 0;
    while i < chars.len()
        invariant
            i <= chars.len(),
            chars@ == text@,
            forall|j: int| 0 <= j < i ==> (#[trigger] text@[j] as int) < 128,
        decreases chars.len() - i,
    {
        if code_point(chars[i]) >= 128 {
            assert(text@[i as int] as int >= 128);
            return false;
        }
        i = i + 1;
    }
    true
}

/// Name of the result of std's `str::to_lowercase`, outside ASCII.
pub uninterp spec fn unicode_lowercase(text: Seq<char>) -> Seq<char>;

/// `str::to_lowercase` of std.
#[verifier::external_body]
fn std_lowercase(text: &str) -> (r: String)
    ensures
        r@ == unicode_lowercase(text@),
{
    text.to_lowercase()
}

/// A text in lowercase: what that is in ASCII is spelled out, the rest is left to the Unicode
/// tables of std.
pub open spec fn lowercase(text: Seq<char>) -> Seq<char> {
    if ascii(text) {
        ascii_lower(text)
    } else {
        unicode_lowercase(text)
    }
}

pub fn lowercase_text(text: &str) -> (r: String)
    ensures
        r@ == lowercase(text@),
{
    if is_ascii_text(text) {
        ascii_lower_text(text)
    } else {
        std_lowercase(text)
    }
}

/// Name of the result of formatting a `str` with `{:?}`, where it holds more than plain ASCII.
pub uninterp spec fn debug_form(text: Seq<char>) -> Seq<char>;

/// The `Debug` form of std's `str`.
#[verifier::external_body]
fn std_debug_form(text: &str) -> (r: String)
    ensures
        r@ == debug_form(text@),
{
    format!("{:?}", text)
}

/// Whether a character stands for itself between quotes: printable ASCII but the quote and the
/// backslash.
pub open spec fn plain_char(c: char) -> bool {
    32 <= c as int && (c as int) < 127 && c != '"' && c != '\\'
}

/// Whether a text can be quoted without escapes.
pub open spec fn plain(text: Seq<char>) -> bool {
    forall|i: int| 0 <= i < text.len() ==> plain_char(#[trigger] text[i])
}

/// A text in quotes, with escapes where it needs them.
pub open spec fn quoted(text: Seq<char>) -> Seq<char> {
    if plain(text) {
        seq!['"'] + text + seq!['"']
    } else {
        debug_form(text)
    }
}

fn is_plain_text(text: &str) -> (r: bool)
    ensures
        r == plain(text@),
{
    let chars: Vec<char> = chars_of(text);
    let mut i: usize = 0;
    while i < chars.len()
        invariant
            i <= chars.len(),
            chars@ == text@,
            forall|j: int| 0 <= j < i ==> plain_char(#[trigger] text@[j]),
        decreases chars.len() - i,
    {
        let c: char = chars[i];
        let n: u32 = code_point(c);
        if n < 32 || n >= 127 || c == '"' || c == '\\' {
            assert(!plain_char(text@[i as int]));
            return false;
        }
        i = i + 1;
    }
    true
}

pub fn quoted_text(text: &str) -> (r: String)
    ensures
        r@ == quoted(text@),
{
    if is_plain_text(text) {
        let mut chars: Vec<char> = Vec::new();
        chars.push('"');
        let quote: String = text_of(chars.as_slice());
        let mut r: String = joined(quote.as_str(), text);
        r.append(quote.as_str());
        assert(r@ =~= seq!['"'] + text@ + seq!['"']);
        r
    } else {
        std_debug_form(text)
    }
}

/// `s` without the whitespace at its end.
pub open spec fn trim_end(s: Seq<char>) -> Seq<char>
    decreases s.len(),
{
    if s.len() > 0 && char_is_whitespace(s.last()) {
        trim_end(s.drop_last())
    } else {
        s
    }
}

/// `s` without the whitespace at its beginning.
pub open spec fn trim_start(s: Seq<char>) -> Seq<char>
    decreases s.len(),
{
    if s.len() > 0 && char_is_whitespace(s.first()) {
        trim_start(s.drop_first())
    } else {
        s
    }
}

/// `s` without the whitespace at both ends.
pub open spec fn trimmed(s: Seq<char>) -> Seq<char> {
    trim_end(trim_start(s))
}

/// `text` without the whitespace at both ends.
pub fn trim_text(text: &str) -> (r: String)
    ensures
        r@ == trimmed(text@),
{
    let chars: Vec<char> = chars_of(text);
    let n: usize = chars.len();
    let mut from: usize = 0;
    assert(text@.skip(0) =~= text@);
    while from < n && whitespace(chars[from])
        invariant
            chars@ == text@,
            n == chars.len(),
            from <= n,
            trim_start(text@) == trim_start(text@.skip(from as int)),
        ensures
            from <= n,
            trim_start(text@) == text@.skip(from as int),
        decreases n - from,
    {
        assert(text@.skip(from as int).drop_first() =~= text@.skip(from as int + 1));
        from = from + 1;
    }
    let mut to: usize = n;
    let ghost rest = text@.skip(from as int);
    assert(rest.take(n - from) =~= rest);
    while to > from && whitespace(chars[to - 1])
        invariant
            chars@ == text@,
            n == chars.len(),
            from <= to <= n,
            rest == text@.skip(from as int),
            trim_end(rest) == trim_end(rest.take(to - from)),
        ensures
            from <= to <= n,
            trim_end(rest) == rest.take(to - from),
        decreases to,
    {
        assert(rest.take(to - from).drop_last() =~= rest.take(to - from - 1));
        to = to - 1;
    }
    let kept: &str = text.substring_char(from, to);
    assert(kept@ =~= rest.take(to - from));
    kept.to_owned()
}

/// A text without whitespace is its own trimmed form.
pub proof fn lemma_trimmed_solid(s: Seq<char>)
    requires
        forall|i: int| 0 <= i < s.len() ==> !char_is_whitespace(#[trigger] s[i]),
    ensures
        trimmed(s) == s,
{
    if s.len() > 0 {
        assert(!char_is_whitespace(s[0]));
        assert(!char_is_whitespace(s[s.len() - 1]));
    }
}

/// Whether `text` ends with `suffix`.
pub fn ends_with(text: &str, suffix: &str) -> (r: bool)
    ensures
        r == suffix@.is_suffix_of(text@),
{
    let chars: Vec<char> = chars_of(text);
    let tail: Vec<char> = chars_of(suffix);
    if chars.len() < tail.len() {
        return false;
    }
    let from: usize = chars.len() - tail.len();
    let mut i: usize = 0;
    while i < tail.len()
        invariant
            i <= tail.len(),
            from + tail.len() == chars.len(),
            chars@ == text@,
            tail@ == suffix@,
            forall|j: int| 0 <= j < i ==> chars@[from + j] == tail@[j],
        decreases tail.len() - i,
    {
        if chars[from + i] != tail[i] {
            assert(text@.subrange(from as int, text@.len() as int)[i as int] != suffix@[i as int]);
            return false;
        }
        i = i + 1;
    }
    assert(suffix@ =~= text@.subrange(from as int, text@.len() as int));
    true
}

/// `s` with every `from` replaced by `to`.
pub open spec fn replaced(s: Seq<char>, from: char, to: char) -> Seq<char> {
    s.map_values(|c: char| if c == from { to } else { c })
}

/// `text` with every `from` replaced by `to`.
pub fn replace_char(text: &str, from: char, to: char) -> (r: String)
    ensures
        r@ == replaced(text@, from, to),
{
    let chars: Vec<char> = chars_of(text);
    let mut out: Vec<char> = Vec::new();
    let mut i: usize = 0;
    while i < chars.len()
        invariant
            i <= chars.len(),
            chars@ == text@,
            out@ == replaced(text@.take(i as int), from, to),
        decreases chars.len() - i,
    {
        let c: char = chars[i];
        out.push(if c == from { to } else { c });
        assert(out@ =~= replaced(text@.take(i + 1), from, to));
        i = i + 1;
    }
    assert(text@.take(i as int) =~= text@);
    text_of(out.as_slice())
}

proof fn lemma_trim_start(s: Seq<char>) -> (i: int)
    ensures
        0 <= i <= s.len(),
        trim_start(s) == s.skip(i),
        forall|k: int| 0 <= k < i ==> char_is_whitespace(#[trigger] s[k]),
        i < s.len() ==> !char_is_whitespace(s[i]),
    decreases s.len(),
{
    if s.len() > 0 && char_is_whitespace(s.first()) {
        let rest = s.drop_first();
        let i = lemma_trim_start(rest);
        assert(rest.skip(i) =~= s.skip(i + 1));
        assert forall|k: int| 0 <= k < i + 1 implies char_is_whitespace(#[trigger] s[k]) by {
            if k > 0 {
                assert(s[k] == rest[k - 1]);
            }
        }
        i + 1
    } else {
        assert(s.skip(0) =~= s);
        0
    }
}

proof fn lemma_trim_end(s: Seq<char>) -> (j: int)
    ensures
        0 <= j <= s.len(),
        trim_end(s) == s.take(j),
        forall|k: int| j <= k < s.len() ==> char_is_whitespace(#[trigger] s[k]),
        0 < j ==> !char_is_whitespace(s[j - 1]),
    decreases s.len(),
{
    if s.len() > 0 && char_is_whitespace(s.last()) {
        let rest = s.drop_last();
        let j = lemma_trim_end(rest);
        assert(rest.take(j) =~= s.take(j));
        assert forall|k: int| j <= k < s.len() implies char_is_whitespace(#[trigger] s[k]) by {
            if k < rest.len() {
                assert(s[k] == rest[k]);
            }
        }
        j
    } else {
        assert(s.take(s.len() as int) =~= s);
        s.len() as int
    }
}

/// Trimming takes whitespace off both ends and nothing else: what is left is a stretch of the text
/// around which there is only whitespace, and it neither begins nor ends with any.
pub proof fn law_trim(text: &str, r: String) -> (cut: (int, int))
    requires
        call_ensures(trim_text, (text,), r),
    ensures
        0 <= cut.0 <= cut.1 <= text@.len(),
        r@ == text@.subrange(cut.0, cut.1),
        forall|k: int| 0 <= k < cut.0 || cut.1 <= k < text@.len() ==> char_is_whitespace(#[trigger] text@[k]),
        r@.len() > 0 ==> !char_is_whitespace(r@.first()) && !char_is_whitespace(r@.last()),
{
    let s = text@;
    let i = lemma_trim_start(s);
    let rest = s.skip(i);
    let j = lemma_trim_end(rest);
    assert(rest.take(j) =~= s.subrange(i, i + j));
    assert forall|k: int| 0 <= k < i || i + j <= k < s.len() implies char_is_whitespace(#[trigger] s[k]) by {
        if k >= i + j {
            assert(s[k] == rest[k - i]);
        }
    }
    (i, i + j)
}

/// Nothing is left of a text exactly where it is all whitespace.
pub proof fn law_blank(s: Seq<char>)
    ensures
        trimmed(s).len() == 0 <==> forall|k: int| 0 <= k < s.len() ==> char_is_whitespace(#[trigger] s[k]),
{
    let i = lemma_trim_start(s);
    let rest = s.skip(i);
    let j = lemma_trim_end(rest);
    if trimmed(s).len() == 0 {
        assert forall|k: int| 0 <= k < s.len() implies char_is_whitespace(#[trigger] s[k]) by {
            if k >= i {
                assert(s[k] == rest[k - i]);
            }
        }
    } else {
        assert(j > 0);
        assert(s[i + j - 1] == rest[j - 1]);
    }
}

/// The lowercase of an ASCII text has its length; capitals become their small letters, and every
/// other character stays.
pub proof fn law_lowercase_of_ascii(text: &str, r: String, i: int)
    requires
        call_ensures(lowercase_text, (text,), r),
        forall|k: int| 0 <= k < text@.len() ==> (#[trigger] text@[k] as int) < 128,
        0 <= i < text@.len(),
    ensures
        r@.len() == text@.len(),
        'A' <= text@[i] && text@[i] <= 'Z' ==> r@[i] as int == text@[i] as int + 32,
        !('A' <= text@[i] && text@[i] <= 'Z') ==> r@[i] == text@[i],
{
}

/// A text ends with a suffix exactly where it is something followed by that suffix.
pub proof fn law_ends_with(text: &str, suffix: &str, r: bool)
    requires
        call_ensures(ends_with, (text, suffix), r),
    ensures
        r <==> exists|stem: Seq<char>| text@ == #[trigger] (stem + suffix@),
{
    if r {
        let stem = text@.take(text@.len() - suffix@.len());
        assert(text@ =~= stem + suffix@);
    }
    if exists|stem: Seq<char>| text@ == #[trigger] (stem + suffix@) {
        let stem = choose|stem: Seq<char>| text@ == #[trigger] (stem + suffix@);
        assert(text@.subrange(text@.len() - suffix@.len(), text@.len() as int) =~= suffix@);
    }
}

/// Replacing a character changes it wherever it stands, and nothing else.
pub proof fn law_replace(text: &str, from: char, to: char, r: String, i: int)
    requires
        call_ensures(replace_char, (text, from, to), r),
        0 <= i < text@.len(),
    ensures
        r@.len() == text@.len(),
        r@[i] == if text@[i] == from {
            to
        } else {
            text@[i]
        },
{
}

/// What decimal digits say, read from the left.
pub open spec fn digits_value(digits: Seq<char>) -> int
    decreases digits.len(),
{
    if digits.len() == 0 {
        0
    } else {
        10 * digits_value(digits.drop_last()) + (digits.last() as int - '0' as int)
    }
}

/// The decimal text of a number is read back as that number, is all digits, and has a leading zero
/// only for zero itself.
pub proof fn law_decimal(n: nat)
    ensures
        digits_value(decimal(n)) == n,
        decimal(n).len() > 0,
        forall|i: int| 0 <= i < decimal(n).len() ==> '0' <= #[trigger] decimal(n)[i] && decimal(n)[i] <= '9',
        n > 0 ==> decimal(n)[0] != '0',
    decreases n,
{
    if n < 10 {
        assert(decimal(n).drop_last() =~= Seq::empty());
        assert(digits_value(Seq::<char>::empty()) == 0);
    } else {
        law_decimal(n / 10);
        assert(decimal(n).drop_last() =~= decimal(n / 10));
        assert(decimal(n)[0] == decimal(n / 10)[0]);
        assert forall|i: int| 0 <= i < decimal(n).len() implies '0' <= #[trigger] decimal(n)[i] && decimal(n)[i] <= '9' by {
            if i < decimal(n / 10).len() {
                assert(decimal(n)[i] == decimal(n / 10)[i]);
            }
        }
    }
}

/// What is written in decimal or joined is what was given.
pub proof fn law_written_texts(n: u128, a: &str, b: &str, number: String, both: String)
    requires
        call_ensures(decimal_text, (n,), number),
        call_ensures(joined, (a, b), both),
    ensures
        digits_value(number@) == n,
        both@.len() == a@.len() + b@.len(),
        both@.take(a@.len() as int) == a@ && both@.skip(a@.len() as int) == b@,
{
    law_decimal(n as nat);
    assert(both@.take(a@.len() as int) =~= a@);
    assert(both@.skip(a@.len() as int) =~= b@);
}

/// Four hexadecimal digits are the number they were written for, the most significant first.
pub proof fn law_hex_number(v: u16, r: String)
    requires
        call_ensures(hex_u16_text, (v,), r),
    ensures
        r@.len() == 4,
        is_hex_char(r@[0]) && is_hex_char(r@[1]) && is_hex_char(r@[2]) && is_hex_char(r@[3]),
        4096 * hex_value(r@[0]) + 256 * hex_value(r@[1]) + 16 * hex_value(r@[2]) + hex_value(r@[3]) == v,
{
    let d = v as int;
    assert(hex_value(hex_digit(d / 4096)) == d / 4096);
    assert(hex_value(hex_digit(d / 256 % 16)) == d / 256 % 16);
    assert(hex_value(hex_digit(d / 16 % 16)) == d / 16 % 16);
    assert(hex_value(hex_digit(d % 16)) == d % 16);
    assert(4096 * (d / 4096) + 256 * (d / 256 % 16) + 16 * (d / 16 % 16) + d % 16 == d);
}

/// A negative number is written as a minus sign and the number without it.
pub proof fn law_signed_number(n: i128, r: String)
    requires
        n > i128::MIN,
        call_ensures(signed_decimal_text, (n,), r),
    ensures
        n >= 0 ==> digits_value(r@) == n,
        n < 0 ==> r@[0] == '-' && digits_value(r@.skip(1)) == -n,
{
    if n < 0 {
        let digits = decimal((-n) as nat);
        law_decimal((-n) as nat);
        assert(r@.skip(1) =~= digits);
    } else {
        law_decimal(n as nat);
    }
}

/// Only the capital letters of ASCII change in ASCII lowercase, each to its own small one; two texts
/// are the same but for the case of these letters exactly where their lowercase forms are.
pub proof fn law_ascii_case(a: &str, b: &str, lower_a: String, lower_b: String, same: bool, i: int)
    requires
        call_ensures(ascii_lower_text, (a,), lower_a),
        call_ensures(ascii_lower_text, (b,), lower_b),
        call_ensures(same_ignoring_ascii_case, (a, b), same),
    ensures
        lower_a@.len() == a@.len(),
        0 <= i < a@.len() && 'A' <= a@[i] && a@[i] <= 'Z' ==> lower_a@[i] as int == a@[i] as int + 32,
        0 <= i < a@.len() && !('A' <= a@[i] && a@[i] <= 'Z') ==> lower_a@[i] == a@[i],
        same <==> lower_a@ == lower_b@,
        a@ == b@ ==> same,
        a@.len() != b@.len() ==> !same,
{
    assert(lower_a@.len() == a@.len());
    assert(lower_b@.len() == b@.len());
}

/// Texts are the same where their characters are, and are ASCII where each of these is below 128.
pub proof fn law_texts_compared(a: &str, b: &str, same: bool, ascii_a: bool, i: int)
    requires
        call_ensures(same_text, (a, b), same),
        call_ensures(is_ascii_text, (a,), ascii_a),
    ensures
        same <==> a@ == b@,
        0 <= i < a@.len() && a@[i] as int >= 128 ==> !ascii_a,
        (forall|k: int| 0 <= k < a@.len() ==> (#[trigger] a@[k] as int) < 128) ==> ascii_a,
{
}

/// A text that needs no escapes is quoted by a quotation mark before it and one behind it.
pub proof fn law_quoted(text: &str, r: String)
    requires
        call_ensures(quoted_text, (text,), r),
        forall|i: int| 0 <= i < text@.len() ==> plain_char(#[trigger] text@[i]),
    ensures
        r@.len() == text@.len() + 2,
        r@.first() == '"' && r@.last() == '"',
        r@.subrange(1, text@.len() as int + 1) == text@,
{
    assert(r@.subrange(1, text@.len() as int + 1) =~= text@);
}

} // verus!
