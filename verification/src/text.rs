//! Text building blocks: decimal numbers, concatenation and a few scans over
//! the characters of a string.

use vstd::prelude::*;

verus! {

/// `String::push` from the standard library appends one character.
pub assume_specification[ String::push ](s: &mut String, c: char)
    ensures
        final(s)@ == old(s)@.push(c),
;

/// The decimal digit for `d` (below ten).
pub open spec fn digit(d: nat) -> char {
    ('0' as nat + d) as char
}

/// `n` in decimal, without leading zeros.
pub open spec fn decimal(n: nat) -> Seq<char>
    decreases n,
{
    if n < 10 {
        seq![digit(n)]
    } else {
        decimal(n / 10).push(digit(n % 10))
    }
}

/// `n` in decimal, padded to two places.
pub open spec fn decimal2(n: nat) -> Seq<char> {
    if n < 10 {
        seq!['0', digit(n)]
    } else {
        decimal(n)
    }
}

/// The character of one decimal digit.
pub fn digit_char(d: u8) -> (r: char)
    requires
        d < 10,
    ensures
        r == digit(d as nat),
{
    (48 + d) as char
}

/// `n` in decimal.
pub fn decimal_text(n: u64) -> (r: String)
    ensures
        r@ == decimal(n as nat),
    decreases n,
{
    let mut text = if n < 10 {
        String::new()
    } else {
        decimal_text(n / 10)
    };
    text.push(digit_char((n % 10) as u8));
    text
}

/// `n` in decimal, padded with a zero to two places.
pub fn decimal2_text(n: u64) -> (r: String)
    ensures
        r@ == decimal2(n as nat),
{
    if n < 10 {
        let mut text = String::new();
        text.push('0');
        text.push(digit_char(n as u8));
        text
    } else {
        decimal_text(n)
    }
}

/// The characters of an optional text.
pub open spec fn text_of(text: Option<String>) -> Option<Seq<char>> {
    match text {
        Some(t) => Some(t@),
        None => None,
    }
}

/// A copy of an optional text.
pub fn clone_text(text: &Option<String>) -> (r: Option<String>)
    ensures
        r == *text,
{
    match text {
        Some(t) => Some(t.clone()),
        None => None,
    }
}

/// Two pieces of text joined.
pub fn cat(a: &str, b: &str) -> (r: String)
    ensures
        r@ == a@ + b@,
{
    let mut text = a.to_owned();
    text.append(b);
    text
}

/// Three pieces of text joined.
pub fn cat3(a: &str, b: &str, c: &str) -> (r: String)
    ensures
        r@ == a@ + b@ + c@,
{
    let mut text = a.to_owned();
    text.append(b);
    text.append(c);
    text
}

/// Whether two texts are the same.
pub fn same_text(a: &str, b: &str) -> (r: bool)
    ensures
        r == (a@ == b@),
{
    a.to_owned() == b.to_owned()
}

/// The characters of `text`.
pub fn to_chars(text: &str) -> (r: Vec<char>)
    ensures
        r@ == text@,
{
    let mut out: Vec<char> = Vec::new();
    for c in it: text.chars()
        invariant
            out@ == it.seq().take(it.index() as int),
            it.seq() == text@,
    {
        out.push(c);
    }
    out
}

/// The characters Unicode counts as white space.
pub open spec fn is_white(c: char) -> bool {
    let n = c as u32;
    ||| 9 <= n <= 13
    ||| n == 32
    ||| n == 0x85
    ||| n == 0xa0
    ||| n == 0x1680
    ||| 0x2000 <= n <= 0x200a
    ||| n == 0x2028
    ||| n == 0x2029
    ||| n == 0x202f
    ||| n == 0x205f
    ||| n == 0x3000
}

pub fn white(c: char) -> (r: bool)
    ensures
        r == is_white(c),
{
    let n: u32 = c as u32;
    (9 <= n && n <= 13) || n == 32 || n == 0x85 || n == 0xa0 || n == 0x1680 || (0x2000 <= n && n
        <= 0x200a) || n == 0x2028 || n == 0x2029 || n == 0x202f || n == 0x205f || n == 0x3000
}

/// Unicode's control characters.
pub open spec fn is_control(c: char) -> bool {
    let n = c as u32;
    n < 0x20 || 0x7f <= n <= 0x9f
}

pub fn control(c: char) -> (r: bool)
    ensures
        r == is_control(c),
{
    let n: u32 = c as u32;
    n < 0x20 || (0x7f <= n && n <= 0x9f)
}

/// Only white space, or nothing.
pub open spec fn blank(s: Seq<char>) -> bool {
    forall|i: int| 0 <= i < s.len() ==> is_white(#[trigger] s[i])
}

/// Without leading white space.
pub open spec fn trimmed_start(s: Seq<char>) -> Seq<char>
    decreases s.len(),
{
    if s.len() > 0 && is_white(s[0]) {
        trimmed_start(s.drop_first())
    } else {
        s
    }
}

/// Without trailing white space.
pub open spec fn trimmed_end(s: Seq<char>) -> Seq<char>
    decreases s.len(),
{
    if s.len() > 0 && is_white(s.last()) {
        trimmed_end(s.drop_last())
    } else {
        s
    }
}

/// Without white space at either end.
pub open spec fn trimmed(s: Seq<char>) -> Seq<char> {
    trimmed_end(trimmed_start(s))
}

/// What is blank is exactly what trims to nothing.
pub proof fn lemma_trimmed_blank(s: Seq<char>)
    ensures
        blank(s) == (trimmed(s).len() == 0),
    decreases s.len(),
{
    if s.len() == 0 {
    } else if is_white(s[0]) {
        let rest = s.drop_first();
        lemma_trimmed_blank(rest);
        assert(trimmed(s) == trimmed(rest));
        if blank(rest) {
            assert forall|i: int| 0 <= i < s.len() implies is_white(#[trigger] s[i]) by {
                if i > 0 {
                    assert(s[i] == rest[i - 1]);
                }
            }
        } else {
            let j = choose|j: int| 0 <= j < rest.len() && !is_white(#[trigger] rest[j]);
            assert(s[j + 1] == rest[j]);
        }
    } else {
        assert(!blank(s));
        lemma_trimmed_end_keeps_first(s);
    }
}

proof fn lemma_trimmed_end_keeps_first(s: Seq<char>)
    requires
        s.len() > 0,
        !is_white(s[0]),
    ensures
        trimmed_end(s).len() > 0,
    decreases s.len(),
{
    if is_white(s.last()) {
        assert(s.len() > 1);
        assert(s.drop_last()[0] == s[0]);
        lemma_trimmed_end_keeps_first(s.drop_last());
    }
}

/// `text` without white space at either end.
pub fn trim(text: &str) -> (r: String)
    ensures
        r@ == trimmed(text@),
{
    let chars = to_chars(text);
    let mut from: usize = 0;
    assert(chars@.skip(0) =~= chars@);
    while from < chars.len() && white(chars[from])
        invariant
            from <= chars@.len(),
            trimmed_start(chars@) == trimmed_start(chars@.skip(from as int)),
        decreases chars@.len() - from,
    {
        assert(chars@.skip(from as int).drop_first() =~= chars@.skip(from + 1));
        from += 1;
    }
    assert(trimmed_start(chars@) == chars@.skip(from as int));
    let mut to: usize = chars.len();
    while to > from && white(chars[to - 1])
        invariant
            from <= to <= chars@.len(),
            trimmed_end(chars@.skip(from as int)) == trimmed_end(
                chars@.subrange(from as int, to as int),
            ),
        decreases to,
    {
        assert(chars@.subrange(from as int, to as int).drop_last() =~= chars@.subrange(
            from as int,
            to - 1,
        ));
        to -= 1;
    }
    proof {
        let kept = chars@.subrange(from as int, to as int);
        assert(trimmed_end(kept) == kept);
    }
    sub_text(&chars, from, to)
}

/// The characters from `from` up to `to` as a string.
pub fn sub_text(chars: &Vec<char>, from: usize, to: usize) -> (r: String)
    requires
        from <= to <= chars@.len(),
    ensures
        r@ == chars@.subrange(from as int, to as int),
{
    let mut out = String::new();
    let mut i: usize = from;
    while i < to
        invariant
            from <= i <= to <= chars@.len(),
            out@ == chars@.subrange(from as int, i as int),
        decreases to - i,
    {
        out.push(chars[i]);
        assert(chars@.subrange(from as int, i as int).push(chars@[i as int]) =~= chars@.subrange(
            from as int,
            i + 1,
        ));
        i += 1;
    }
    out
}

/// Whether `text` is nothing but white space.
pub fn is_blank(text: &str) -> (r: bool)
    ensures
        r == blank(text@),
{
    let chars = to_chars(text);
    let mut i: usize = 0;
    while i < chars.len()
        invariant
            i <= chars@.len(),
            chars@ == text@,
            forall|j: int| 0 <= j < i ==> is_white(#[trigger] chars@[j]),
        decreases chars@.len() - i,
    {
        if !white(chars[i]) {
            return false;
        }
        i += 1;
    }
    true
}

/// `needle` stands in `hay` at `at`.
pub open spec fn stands_at(hay: Seq<char>, needle: Seq<char>, at: int) -> bool {
    0 <= at && at + needle.len() <= hay.len() && hay.subrange(at, at + needle.len()) == needle
}

pub open spec fn starts_with(s: Seq<char>, prefix: Seq<char>) -> bool {
    stands_at(s, prefix, 0)
}

pub open spec fn ends_with(s: Seq<char>, suffix: Seq<char>) -> bool {
    stands_at(s, suffix, s.len() - suffix.len())
}

pub open spec fn contains(s: Seq<char>, needle: Seq<char>) -> bool {
    exists|at: int| #[trigger] stands_at(s, needle, at)
}

/// Whether `needle` stands in `hay` at `at`.
fn found_at(hay: &Vec<char>, needle: &Vec<char>, at: usize) -> (r: bool)
    requires
        at + needle@.len() <= hay@.len(),
    ensures
        r == stands_at(hay@, needle@, at as int),
{
    let len: usize = hay.len();
    let mut i: usize = 0;
    while i < needle.len()
        invariant
            i <= needle@.len(),
            len == hay@.len(),
            at + needle@.len() <= hay@.len(),
            forall|j: int| 0 <= j < i ==> hay@[at + j] == #[trigger] needle@[j],
        decreases needle@.len() - i,
    {
        if hay[at + i] != needle[i] {
            assert(hay@.subrange(at as int, at + needle@.len())[i as int] != needle@[i as int]);
            return false;
        }
        i += 1;
    }
    assert(hay@.subrange(at as int, at + needle@.len()) =~= needle@);
    true
}

pub fn has_prefix(text: &str, prefix: &str) -> (r: bool)
    ensures
        r == starts_with(text@, prefix@),
{
    let text = to_chars(text);
    let prefix = to_chars(prefix);
    prefix.len() <= text.len() && found_at(&text, &prefix, 0)
}

pub fn has_suffix(text: &str, suffix: &str) -> (r: bool)
    ensures
        r == ends_with(text@, suffix@),
{
    let text = to_chars(text);
    let suffix = to_chars(suffix);
    suffix.len() <= text.len() && found_at(&text, &suffix, text.len() - suffix.len())
}

pub fn has_text(text: &str, needle: &str) -> (r: bool)
    ensures
        r == contains(text@, needle@),
{
    let hay = to_chars(text);
    let pin = to_chars(needle);
    if pin.len() > hay.len() {
        return false;
    }
    let last: usize = hay.len() - pin.len();
    let mut at: usize = 0;
    while at <= last
        invariant
            hay@ == text@,
            pin@ == needle@,
            last == text@.len() - needle@.len(),
            at <= last + 1,
            forall|k: int| 0 <= k < at ==> !#[trigger] stands_at(text@, needle@, k),
        decreases last + 1 - at,
    {
        if found_at(&hay, &pin, at) {
            return true;
        }
        if at == last {
            assert forall|k: int| !#[trigger] stands_at(text@, needle@, k) by {
                if 0 <= k < at {
                }
            }
            return false;
        }
        at += 1;
    }
    false
}

/// What follows `prefix`, where `text` starts with it.
pub fn strip_prefix(text: &str, prefix: &str) -> (r: Option<String>)
    ensures
        match r {
            Some(rest) => text@ == prefix@ + rest@,
            None => !starts_with(text@, prefix@),
        },
{
    let chars = to_chars(text);
    let head = to_chars(prefix);
    if head.len() <= chars.len() && found_at(&chars, &head, 0) {
        let rest = sub_text(&chars, head.len(), chars.len());
        assert(text@ =~= prefix@ + rest@) by {
            assert(text@.subrange(0, prefix@.len() as int) =~= prefix@);
            assert(text@ =~= text@.subrange(0, prefix@.len() as int) + rest@);
        }
        Some(rest)
    } else {
        None
    }
}

/// One ASCII letter in lower case.
pub open spec fn lower_ascii(c: char) -> char {
    if 'A' <= c <= 'Z' {
        (c as u32 + 32) as char
    } else {
        c
    }
}

/// ASCII letters in lower case, the rest as it is.
pub open spec fn lowered_ascii(s: Seq<char>) -> Seq<char> {
    Seq::new(s.len(), |i: int| lower_ascii(s[i]))
}

/// `text` with its ASCII letters in lower case.
pub fn to_lower_ascii(text: &str) -> (r: String)
    ensures
        r@ == lowered_ascii(text@),
{
    let chars = to_chars(text);
    let mut out = String::new();
    let mut i: usize = 0;
    while i < chars.len()
        invariant
            i <= chars@.len(),
            out@ == lowered_ascii(chars@.take(i as int)),
        decreases chars@.len() - i,
    {
        let c = chars[i];
        let n: u32 = c as u32;
        let lower = if 65 <= n && n <= 90 {
            (n as u8 + 32) as char
        } else {
            c
        };
        out.push(lower);
        assert(out@ =~= lowered_ascii(chars@.take(i + 1)));
        i += 1;
    }
    assert(chars@.take(i as int) =~= chars@);
    out
}

/// What follows the last `mark` in `s`; all of `s` where there is none.
pub open spec fn after_last(s: Seq<char>, mark: char) -> Seq<char>
    decreases s.len(),
{
    if s.len() == 0 || s.last() == mark {
        Seq::empty()
    } else {
        after_last(s.drop_last(), mark).push(s.last())
    }
}

/// What follows the last `mark` in `text`; all of it where there is none.
pub fn tail_after(text: &str, mark: char) -> (r: String)
    ensures
        r@ == after_last(text@, mark),
{
    let chars = to_chars(text);
    let mut from: usize = chars.len();
    assert(chars@.take(from as int) =~= chars@);
    assert(chars@.subrange(from as int, chars@.len() as int) =~= Seq::<char>::empty());
    while from > 0 && chars[from - 1] != mark
        invariant
            from <= chars@.len(),
            after_last(chars@, mark) =~= after_last(chars@.take(from as int), mark)
                + chars@.subrange(from as int, chars@.len() as int),
        decreases from,
    {
        proof {
            let head = chars@.take(from as int);
            assert(head.drop_last() =~= chars@.take(from - 1));
            assert(after_last(head, mark) == after_last(chars@.take(from - 1), mark).push(
                chars@[from - 1],
            ));
        }
        from -= 1;
    }
    proof {
        if from > 0 {
            assert(chars@.take(from as int).last() == mark);
        }
        assert(after_last(chars@.take(from as int), mark) =~= Seq::<char>::empty());
    }
    sub_text(&chars, from, chars.len())
}

/// The position of the first `mark` in `s`, or its length.
pub open spec fn index_of(s: Seq<char>, mark: char) -> int
    decreases s.len(),
{
    if s.len() == 0 || s[0] == mark {
        0
    } else {
        1 + index_of(s.drop_first(), mark)
    }
}

/// The first line of `s`, without the newline (and carriage return) that
/// ends it.
pub open spec fn first_line_of(s: Seq<char>) -> Seq<char> {
    let end = index_of(s, '\n');
    if end < s.len() && end > 0 && s[end - 1] == '\r' {
        s.take(end - 1)
    } else {
        s.take(end)
    }
}

/// The first `mark` stands where one stands and none before.
pub proof fn lemma_index_of(s: Seq<char>, mark: char, k: int)
    requires
        0 <= k <= s.len(),
        forall|j: int| 0 <= j < k ==> #[trigger] s[j] != mark,
        k < s.len() ==> s[k] == mark,
    ensures
        index_of(s, mark) == k,
    decreases k,
{
    if k > 0 {
        let rest = s.drop_first();
        assert forall|j: int| 0 <= j < k - 1 implies #[trigger] rest[j] != mark by {
            assert(rest[j] == s[j + 1]);
        }
        if k < s.len() {
            assert(rest[k - 1] == s[k]);
        }
        assert(s[0] != mark);
        lemma_index_of(rest, mark, k - 1);
    }
}

/// The first line of `text`.
pub fn first_line(text: &str) -> (r: String)
    ensures
        r@ == first_line_of(text@),
{
    let chars = to_chars(text);
    let mut end: usize = 0;
    while end < chars.len() && chars[end] != '\n'
        invariant
            end <= chars@.len(),
            forall|j: int| 0 <= j < end ==> #[trigger] chars@[j] != '\n',
        decreases chars@.len() - end,
    {
        end += 1;
    }
    proof {
        lemma_index_of(chars@, '\n', end as int);
        assert(chars@.subrange(0, end as int) =~= chars@.take(end as int));
        if end > 0 {
            assert(chars@.subrange(0, end - 1) =~= chars@.take(end - 1));
        }
    }
    if end < chars.len() && end > 0 && chars[end - 1] == '\r' {
        sub_text(&chars, 0, end - 1)
    } else {
        sub_text(&chars, 0, end)
    }
}

pub open spec fn is_digit(c: char) -> bool {
    '0' <= c <= '9'
}

pub open spec fn all_digits(s: Seq<char>) -> bool {
    forall|i: int| 0 <= i < s.len() ==> is_digit(#[trigger] s[i])
}

/// The number that decimal digits spell.
pub open spec fn number(s: Seq<char>) -> nat
    decreases s.len(),
{
    if s.len() == 0 {
        0
    } else {
        number(s.drop_last()) * 10 + (s.last() as nat - '0' as nat) as nat
    }
}

/// The digits of a decimal number, behind an optional plus sign.
pub open spec fn unsigned_digits(s: Seq<char>) -> Seq<char> {
    if s.len() > 0 && s[0] == '+' {
        s.drop_first()
    } else {
        s
    }
}

/// The number a text spells in decimal, where it is one and fits.
pub open spec fn parsed_u64(s: Seq<char>) -> Option<u64> {
    let digits = unsigned_digits(s);
    if digits.len() > 0 && all_digits(digits) && number(digits) <= u64::MAX {
        Some(number(digits) as u64)
    } else {
        None
    }
}

proof fn lemma_number_grows(s: Seq<char>, k: int)
    requires
        0 <= k <= s.len(),
    ensures
        number(s.take(k)) <= number(s),
    decreases s.len() - k,
{
    if k < s.len() {
        lemma_number_grows(s, k + 1);
        assert(s.take(k + 1).drop_last() =~= s.take(k));
    } else {
        assert(s.take(k) =~= s);
    }
}

/// The number `text` spells in decimal, where it is one and fits.
pub fn parse_u64(text: &str) -> (r: Option<u64>)
    ensures
        r == parsed_u64(text@),
{
    let all = to_chars(text);
    let from: usize = if all.len() > 0 && all[0] == '+' {
        1
    } else {
        0
    };
    let ghost digits = unsigned_digits(text@);
    assert(digits =~= all@.skip(from as int));
    if from >= all.len() {
        return None;
    }
    let mut value: u64 = 0;
    let mut i: usize = from;
    assert(digits.take(0) =~= Seq::<char>::empty());
    while i < all.len()
        invariant
            from <= i <= all@.len(),
            digits == all@.skip(from as int),
            digits.len() > 0,
            digits == unsigned_digits(text@),
            forall|j: int| 0 <= j < i - from ==> is_digit(#[trigger] digits[j]),
            value == number(digits.take(i - from)),
        decreases all@.len() - i,
    {
        let c = all[i];
        proof {
            let k = i - from;
            assert(digits[k] == c);
            assert(digits.take(k + 1).drop_last() =~= digits.take(k));
            assert(digits.take(k + 1).last() == c);
            lemma_number_grows(digits, k + 1);
        }
        if !('0' <= c && c <= '9') {
            return None;
        }
        let d: u64 = c as u64 - 48;
        if value > u64::MAX / 10 {
            return None;
        }
        let tens: u64 = value * 10;
        if tens > u64::MAX - d {
            return None;
        }
        value = tens + d;
        i += 1;
    }
    assert(digits.take(i - from) =~= digits);
    Some(value)
}

/// `text` in lower case as Unicode defines it.
pub uninterp spec fn lowered(text: Seq<char>) -> Seq<char>;

pub open spec fn all_ascii(s: Seq<char>) -> bool {
    forall|i: int| 0 <= i < s.len() ==> (#[trigger] s[i] as u32) < 128
}

/// `str::to_lowercase` of the standard library: a function of the text alone,
/// which on ASCII text lowers the letters `A` to `Z`.
#[verifier::external_body]
pub(crate) fn to_lower(text: &str) -> (r: String)
    ensures
        r@ == lowered(text@),
        all_ascii(text@) ==> r@ == lowered_ascii(text@),
{
    text.to_lowercase()
}

/// `String::from_utf8` of the standard library: the text that valid UTF-8
/// spells, or nothing.
#[verifier::external_body]
pub(crate) fn utf8_text(bytes: Vec<u8>) -> (r: Option<String>)
    ensures
        match r {
            Some(text) => vstd::utf8::valid_utf8(bytes@) && text@ == vstd::utf8::decode_utf8(
                bytes@,
            ),
            None => !vstd::utf8::valid_utf8(bytes@),
        },
{
    String::from_utf8(bytes).ok()
}

/// The text of `bytes` with invalid sequences replaced.
pub uninterp spec fn lossy_text(bytes: Seq<u8>) -> Seq<char>;

/// `String::from_utf8_lossy` of the standard library: a function of the bytes
/// alone, which on valid UTF-8 is the text it spells.
#[verifier::external_body]
pub(crate) fn utf8_lossy(bytes: &Vec<u8>) -> (r: String)
    ensures
        r@ == lossy_text(bytes@),
        vstd::utf8::valid_utf8(bytes@) ==> r@ == vstd::utf8::decode_utf8(bytes@),
{
    String::from_utf8_lossy(bytes).into_owned()
}

/// Texts as sequences of characters.
pub open spec fn texts(list: Seq<String>) -> Seq<Seq<char>> {
    Seq::new(list.len(), |i: int| list[i]@)
}

/// Append a text to a list.
pub fn add_text(list: &mut Vec<String>, text: &str)
    ensures
        texts(final(list)@) == texts(old(list)@).push(text@),
{
    list.push(text.to_owned());
    assert(texts(list@) =~= texts(old(list)@).push(text@));
}

/// What stands before the first `mark` in `s`; all of `s` where there is none.
pub open spec fn before_first(s: Seq<char>, mark: char) -> Seq<char> {
    s.take(index_of(s, mark))
}

/// What stands before the first `mark` in `text`; all of it where there is
/// none.
pub fn head_before(text: &str, mark: char) -> (r: String)
    ensures
        r@ == before_first(text@, mark),
{
    let chars = to_chars(text);
    let mut end: usize = 0;
    while end < chars.len() && chars[end] != mark
        invariant
            end <= chars@.len(),
            forall|j: int| 0 <= j < end ==> #[trigger] chars@[j] != mark,
        decreases chars@.len() - end,
    {
        end += 1;
    }
    proof {
        lemma_index_of(chars@, mark, end as int);
        assert(chars@.subrange(0, end as int) =~= chars@.take(end as int));
    }
    sub_text(&chars, 0, end)
}

/// The lines of `s`, each without the newline (and carriage return) that ends
/// it; nothing follows a final newline.
pub open spec fn lines_of(s: Seq<char>) -> Seq<Seq<char>>
    decreases s.len(),
{
    if s.len() == 0 {
        Seq::empty()
    } else {
        let end = index_of(s, '\n');
        if 0 <= end < s.len() {
            seq![first_line_of(s)] + lines_of(s.skip(end + 1))
        } else {
            seq![s]
        }
    }
}

/// Where the first `mark` stands: all before it is free of it.
pub proof fn lemma_index_of_bounds(s: Seq<char>, mark: char)
    ensures
        0 <= index_of(s, mark) <= s.len(),
        index_of(s, mark) < s.len() ==> s[index_of(s, mark)] == mark,
        forall|j: int| 0 <= j < index_of(s, mark) ==> #[trigger] s[j] != mark,
    decreases s.len(),
{
    if s.len() > 0 && s[0] != mark {
        let rest = s.drop_first();
        lemma_index_of_bounds(rest, mark);
        assert forall|j: int| 0 <= j < index_of(s, mark) implies #[trigger] s[j] != mark by {
            if j > 0 {
                assert(rest[j - 1] == s[j]);
            }
        }
    }
}

/// The lines of `text`.
pub fn lines(text: &str) -> (r: Vec<String>)
    ensures
        texts(r@) == lines_of(text@),
{
    let chars = to_chars(text);
    let mut out: Vec<String> = Vec::new();
    let mut from: usize = 0;
    proof {
        assert(chars@.skip(0) =~= chars@);
        assert(texts(out@) + lines_of(chars@) =~= lines_of(chars@));
    }
    while from < chars.len()
        invariant
            from <= chars@.len(),
            texts(out@) + lines_of(chars@.skip(from as int)) == lines_of(chars@),
        decreases chars@.len() - from,
    {
        let ghost rest = chars@.skip(from as int);
        let ghost before = texts(out@);
        let mut end: usize = from;
        while end < chars.len() && chars[end] != '\n'
            invariant
                from <= end <= chars@.len(),
                forall|j: int| from <= j < end ==> #[trigger] chars@[j] != '\n',
            decreases chars@.len() - end,
        {
            end += 1;
        }
        proof {
            let k = end - from;
            assert forall|j: int| 0 <= j < k implies #[trigger] rest[j] != '\n' by {
                assert(rest[j] == chars@[from + j]);
            }
            if end < chars@.len() {
                assert(rest[k] == chars@[end as int]);
            }
            lemma_index_of(rest, '\n', k);
            assert(chars@.subrange(from as int, end as int) =~= rest.take(k));
            if k > 0 {
                assert(chars@.subrange(from as int, end - 1) =~= rest.take(k - 1));
                assert(rest[k - 1] == chars@[end - 1]);
            }
        }
        if end == chars.len() {
            let line = sub_text(&chars, from, end);
            add_text(&mut out, line.as_str());
            proof {
                assert(line@ =~= rest);
                assert(chars@.skip(end as int) =~= Seq::<char>::empty());
                assert(texts(out@) + lines_of(chars@.skip(end as int)) =~= before + seq![rest]);
            }
            from = end;
        } else {
            let line = if end > from && chars[end - 1] == '\r' {
                sub_text(&chars, from, end - 1)
            } else {
                sub_text(&chars, from, end)
            };
            add_text(&mut out, line.as_str());
            proof {
                assert(line@ == first_line_of(rest));
                assert(rest.skip(end - from + 1) =~= chars@.skip(end + 1));
                assert(before + (seq![line@] + lines_of(chars@.skip(end + 1))) =~= texts(out@)
                    + lines_of(chars@.skip(end + 1)));
            }
            from = end + 1;
        }
    }
    proof {
        assert(chars@.skip(from as int) =~= Seq::<char>::empty());
        assert(texts(out@) + lines_of(chars@.skip(from as int)) =~= texts(out@));
    }
    out
}

/// Either separator of path components.
pub open spec fn is_slash(c: char) -> bool {
    c == '/' || c == '\\'
}

/// The position of the first separator in `s`, or its length.
pub open spec fn first_slash(s: Seq<char>) -> int
    decreases s.len(),
{
    if s.len() == 0 || is_slash(s[0]) {
        0
    } else {
        1 + first_slash(s.drop_first())
    }
}

/// The parts of `s` between its separators; always at least one.
pub open spec fn path_parts(s: Seq<char>) -> Seq<Seq<char>>
    decreases s.len(),
{
    let end = first_slash(s);
    if 0 <= end < s.len() {
        seq![s.take(end)] + path_parts(s.skip(end + 1))
    } else {
        seq![s]
    }
}

proof fn lemma_first_slash(s: Seq<char>, k: int)
    requires
        0 <= k <= s.len(),
        forall|j: int| 0 <= j < k ==> !is_slash(#[trigger] s[j]),
        k < s.len() ==> is_slash(s[k]),
    ensures
        first_slash(s) == k,
    decreases k,
{
    if k > 0 {
        let rest = s.drop_first();
        assert forall|j: int| 0 <= j < k - 1 implies !is_slash(#[trigger] rest[j]) by {
            assert(rest[j] == s[j + 1]);
        }
        if k < s.len() {
            assert(rest[k - 1] == s[k]);
        }
        assert(!is_slash(s[0]));
        lemma_first_slash(rest, k - 1);
    }
}

/// A text without separators is one part.
pub proof fn lemma_one_part(s: Seq<char>)
    requires
        forall|j: int| 0 <= j < s.len() ==> !is_slash(#[trigger] s[j]),
    ensures
        path_parts(s) == seq![s],
{
    lemma_first_slash(s, s.len() as int);
}

/// A separator divides a text into the parts before it and those behind it.
pub proof fn lemma_parts_at(s: Seq<char>, k: int)
    requires
        0 <= k < s.len(),
        is_slash(s[k]),
    ensures
        path_parts(s) == path_parts(s.take(k)) + path_parts(s.skip(k + 1)),
    decreases s.len(),
{
    lemma_first_slash_bounds(s);
    let end = first_slash(s);
    let front = s.take(k);
    if end >= k {
        assert(end == k);
        assert forall|j: int| 0 <= j < front.len() implies !is_slash(#[trigger] front[j]) by {
            assert(front[j] == s[j]);
        }
        lemma_one_part(front);
    } else {
        let rest = s.skip(end + 1);
        lemma_parts_at(rest, k - end - 1);
        assert(rest.take(k - end - 1) =~= front.skip(end + 1));
        assert(rest.skip(k - end) =~= s.skip(k + 1));
        assert forall|j: int| 0 <= j < end implies !is_slash(#[trigger] front[j]) by {
            assert(front[j] == s[j]);
        }
        assert(front[end] == s[end]);
        lemma_first_slash(front, end);
        assert(front.take(end) =~= s.take(end));
        assert(path_parts(s) =~= path_parts(front) + path_parts(s.skip(k + 1)));
    }
}

proof fn lemma_first_slash_bounds(s: Seq<char>)
    ensures
        0 <= first_slash(s) <= s.len(),
        first_slash(s) < s.len() ==> is_slash(s[first_slash(s)]),
        forall|j: int| 0 <= j < first_slash(s) ==> !is_slash(#[trigger] s[j]),
    decreases s.len(),
{
    if s.len() > 0 && !is_slash(s[0]) {
        let rest = s.drop_first();
        lemma_first_slash_bounds(rest);
        assert forall|j: int| 0 <= j < first_slash(s) implies !is_slash(#[trigger] s[j]) by {
            if j > 0 {
                assert(s[j] == rest[j - 1]);
            }
        }
    }
}

/// The parts of `text` between its separators.
pub fn split_path(text: &str) -> (r: Vec<String>)
    ensures
        texts(r@) == path_parts(text@),
{
    let chars = to_chars(text);
    let mut out: Vec<String> = Vec::new();
    let mut from: usize = 0;
    let mut done = false;
    proof {
        assert(chars@.skip(0) =~= chars@);
        assert(texts(out@) + path_parts(chars@) =~= path_parts(chars@));
    }
    while !done
        invariant
            from <= chars@.len(),
            !done ==> texts(out@) + path_parts(chars@.skip(from as int)) == path_parts(chars@),
            done ==> texts(out@) == path_parts(chars@),
        decreases (if done { 0int } else { 1 + chars@.len() - from }),
    {
        let ghost rest = chars@.skip(from as int);
        let ghost before = texts(out@);
        let mut end: usize = from;
        while end < chars.len() && chars[end] != '/' && chars[end] != '\\'
            invariant
                from <= end <= chars@.len(),
                forall|j: int| from <= j < end ==> !is_slash(#[trigger] chars@[j]),
            decreases chars@.len() - end,
        {
            end += 1;
        }
        proof {
            let k = end - from;
            assert forall|j: int| 0 <= j < k implies !is_slash(#[trigger] rest[j]) by {
                assert(rest[j] == chars@[from + j]);
            }
            if end < chars@.len() {
                assert(rest[k] == chars@[end as int]);
            }
            lemma_first_slash(rest, k);
            assert(chars@.subrange(from as int, end as int) =~= rest.take(k));
        }
        let part = sub_text(&chars, from, end);
        add_text(&mut out, part.as_str());
        if end == chars.len() {
            done = true;
            proof {
                assert(part@ =~= rest);
                assert(texts(out@) =~= before + seq![rest]);
            }
        } else {
            from = end + 1;
            proof {
                assert(rest.skip(first_slash(rest) + 1) =~= chars@.skip(from as int));
                assert(before + (seq![part@] + path_parts(chars@.skip(from as int))) =~= texts(
                    out@,
                ) + path_parts(chars@.skip(from as int)));
            }
        }
    }
    out
}

/// An ASCII letter in upper case; any other character as it is.
pub open spec fn upper_ascii(c: char) -> char {
    if 'a' <= c <= 'z' {
        ((c as u32 - 32) as u8) as char
    } else {
        c
    }
}

/// `s` with its ASCII letters in upper case.
pub open spec fn uppered_ascii(s: Seq<char>) -> Seq<char> {
    s.map_values(|c: char| upper_ascii(c))
}

/// `text` with its ASCII letters in upper case.
pub fn to_upper_ascii(text: &str) -> (r: String)
    ensures
        r@ == uppered_ascii(text@),
{
    let chars = to_chars(text);
    let mut out = String::new();
    let mut i: usize = 0;
    while i < chars.len()
        invariant
            i <= chars@.len(),
            out@ == uppered_ascii(chars@.take(i as int)),
        decreases chars@.len() - i,
    {
        let c = chars[i];
        let up = if 'a' <= c && c <= 'z' {
            ((c as u32 - 32) as u8) as char
        } else {
            c
        };
        out.push(up);
        assert(out@ =~= uppered_ascii(chars@.take(i + 1)));
        i += 1;
    }
    assert(chars@.take(i as int) =~= chars@);
    out
}

/// `s` without the spaces at its start.
pub open spec fn unspaced_start(s: Seq<char>) -> Seq<char>
    decreases s.len(),
{
    if s.len() > 0 && s[0] == ' ' {
        unspaced_start(s.drop_first())
    } else {
        s
    }
}

/// `s` without the spaces at its end.
pub open spec fn unspaced_end(s: Seq<char>) -> Seq<char>
    decreases s.len(),
{
    if s.len() > 0 && s.last() == ' ' {
        unspaced_end(s.drop_last())
    } else {
        s
    }
}

/// `text` without the spaces at its start and its end.
pub fn trim_spaces(text: &str) -> (r: String)
    ensures
        r@ == unspaced_end(unspaced_start(text@)),
{
    let chars = to_chars(text);
    let mut from: usize = 0;
    assert(chars@.skip(0) =~= chars@);
    while from < chars.len() && chars[from] == ' '
        invariant
            from <= chars@.len(),
            unspaced_start(chars@) == unspaced_start(chars@.skip(from as int)),
        decreases chars@.len() - from,
    {
        assert(chars@.skip(from as int).drop_first() =~= chars@.skip(from + 1));
        from += 1;
    }
    let ghost rest = chars@.skip(from as int);
    proof {
        assert(unspaced_start(rest) == rest);
    }
    let mut to: usize = chars.len();
    assert(chars@.subrange(from as int, to as int) =~= rest);
    while to > from && chars[to - 1] == ' '
        invariant
            from <= to <= chars@.len(),
            unspaced_end(rest) == unspaced_end(chars@.subrange(from as int, to as int)),
        decreases to,
    {
        assert(chars@.subrange(from as int, to as int).drop_last() =~= chars@.subrange(
            from as int,
            to - 1,
        ));
        to -= 1;
    }
    sub_text(&chars, from, to)
}

/// At most the first `n` characters of `s`.
pub open spec fn at_most(s: Seq<char>, n: int) -> Seq<char> {
    if s.len() <= n {
        s
    } else {
        s.take(n)
    }
}

/// At most the first `n` characters of `text`.
pub fn shorten(text: String, n: usize) -> (r: String)
    ensures
        r@ == at_most(text@, n as int),
{
    let chars = to_chars(text.as_str());
    if chars.len() <= n {
        text
    } else {
        let out = sub_text(&chars, 0, n);
        assert(out@ =~= chars@.take(n as int));
        out
    }
}

/// Whether `text` is among the first `n` of `list`.
pub open spec fn listed(list: Seq<String>, n: int, text: Seq<char>) -> bool {
    exists|j: int| 0 <= j < n && (#[trigger] list[j])@ == text
}

/// Each text once, in order of first mention.
pub open spec fn distinct(list: Seq<String>) -> Seq<Seq<char>>
    decreases list.len(),
{
    if list.len() == 0 {
        Seq::empty()
    } else {
        let rest = distinct(list.drop_last());
        if listed(list, list.len() - 1, list.last()@) {
            rest
        } else {
            rest.push(list.last()@)
        }
    }
}

/// Each text once, in order of first mention.
pub fn distinct_texts(list: &Vec<String>) -> (r: Vec<String>)
    ensures
        texts(r@) == distinct(list@),
{
    let mut kept: Vec<String> = Vec::new();
    let mut i: usize = 0;
    assert(texts(kept@) =~= Seq::empty());
    while i < list.len()
        invariant
            i <= list@.len(),
            texts(kept@) == distinct(list@.take(i as int)),
        decreases list@.len() - i,
    {
        let ghost seen = list@.take(i + 1);
        let mut repeated = false;
        let mut j: usize = 0;
        while j < i
            invariant
                j <= i < list@.len(),
                seen == list@.take(i + 1),
                repeated == listed(seen, j as int, list@[i as int]@),
            decreases i - j,
        {
            assert(seen[j as int] == list@[j as int]);
            if list[j] == list[i] {
                repeated = true;
            }
            assert(listed(seen, j + 1, list@[i as int]@) == (listed(
                seen,
                j as int,
                list@[i as int]@,
            ) || seen[j as int]@ == list@[i as int]@));
            j += 1;
        }
        assert(seen.drop_last() =~= list@.take(i as int));
        if !repeated {
            add_text(&mut kept, list[i].as_str());
        }
        i += 1;
    }
    assert(list@.take(i as int) =~= list@);
    kept
}

/// `list` with `sep` between its texts.
pub open spec fn separated(list: Seq<Seq<char>>, sep: Seq<char>) -> Seq<char>
    decreases list.len(),
{
    if list.len() == 0 {
        Seq::empty()
    } else if list.len() == 1 {
        list[0]
    } else {
        separated(list.drop_last(), sep) + sep + list.last()
    }
}

/// `list` with `sep` between its texts.
pub fn separate(list: &Vec<String>, sep: &str) -> (r: String)
    ensures
        r@ == separated(texts(list@), sep@),
{
    let mut out = String::new();
    let mut i: usize = 0;
    assert(texts(list@).take(0) =~= Seq::empty());
    while i < list.len()
        invariant
            i <= list@.len(),
            out@ == separated(texts(list@).take(i as int), sep@),
        decreases list@.len() - i,
    {
        proof {
            let next = texts(list@).take(i + 1);
            assert(next.drop_last() =~= texts(list@).take(i as int));
            assert(next.last() == list@[i as int]@);
        }
        if i > 0 {
            out.append(sep);
        }
        out.append(list[i].as_str());
        proof {
            if i == 0 {
                assert(out@ =~= list@[0]@);
            }
        }
        i += 1;
    }
    assert(texts(list@).take(i as int) =~= texts(list@));
    out
}

/// `s` with every `needle`, found from the left, replaced by `with`.
pub open spec fn replaced(s: Seq<char>, needle: Seq<char>, with: Seq<char>) -> Seq<char>
    decreases s.len(),
{
    if needle.len() == 0 || s.len() < needle.len() {
        s
    } else if stands_at(s, needle, 0) {
        with + replaced(s.skip(needle.len() as int), needle, with)
    } else {
        seq![s[0]] + replaced(s.skip(1), needle, with)
    }
}

/// `text` with every `needle` replaced by `with`.
pub fn replace_text(text: &str, needle: &str, with: &str) -> (r: String)
    requires
        needle@.len() > 0,
    ensures
        r@ == replaced(text@, needle@, with@),
{
    let hay = to_chars(text);
    let pin = to_chars(needle);
    let mut out = String::new();
    let mut i: usize = 0;
    assert(hay@.skip(0) =~= hay@);
    while i < hay.len()
        invariant
            i <= hay@.len(),
            hay@ == text@,
            pin@ == needle@,
            needle@.len() > 0,
            replaced(text@, needle@, with@) == out@ + replaced(
                hay@.skip(i as int),
                needle@,
                with@,
            ),
        decreases hay@.len() - i,
    {
        let ghost rest = hay@.skip(i as int);
        if hay.len() - i < pin.len() {
            let tail = sub_text(&hay, i, hay.len());
            assert(tail@ =~= rest);
            out.append(tail.as_str());
            return out;
        }
        proof {
            assert(rest.subrange(0, pin@.len() as int) =~= hay@.subrange(i as int, i + pin@.len()));
        }
        if found_at(&hay, &pin, i) {
            proof {
                assert(stands_at(rest, needle@, 0));
                assert(rest.skip(needle@.len() as int) =~= hay@.skip(i + needle@.len()));
            }
            let ghost before = out@;
            out.append(with);
            proof {
                let more = replaced(hay@.skip(i + needle@.len()), needle@, with@);
                assert(before + (with@ + more) =~= before + with@ + more);
            }
            i += pin.len();
        } else {
            proof {
                assert(!stands_at(rest, needle@, 0));
                assert(rest.skip(1) =~= hay@.skip(i + 1));
            }
            let ghost before = out@;
            out.push(hay[i]);
            proof {
                let more = replaced(hay@.skip(i + 1), needle@, with@);
                assert(before + (seq![hay@[i as int]] + more) =~= before.push(hay@[i as int])
                    + more);
            }
            i += 1;
        }
    }
    proof {
        assert(out@ + hay@.skip(i as int) =~= out@);
    }
    out
}

/// What is written in decimal reads back as the same number.
pub proof fn lemma_decimal_reads_back(n: nat)
    ensures
        decimal(n).len() > 0,
        all_digits(decimal(n)),
        number(decimal(n)) == n,
    decreases n,
{
    if n < 10 {
        let s = decimal(n);
        assert(s.drop_last() =~= Seq::<char>::empty());
        assert(s.last() == digit(n));
        assert(number(s) == number(s.drop_last()) * 10 + (s.last() as nat - '0' as nat));
    } else {
        lemma_decimal_reads_back(n / 10);
        let s = decimal(n);
        assert(s.drop_last() =~= decimal(n / 10));
        assert(s.last() == digit(n % 10));
        assert forall|i: int| 0 <= i < s.len() implies is_digit(#[trigger] s[i]) by {
            if i < s.len() - 1 {
                assert(s[i] == decimal(n / 10)[i]);
            }
        }
    }
}

/// A number that fits reads back from its decimal text.
pub proof fn law_decimal_round_trip(n: u64)
    ensures
        parsed_u64(decimal(n as nat)) == Some(n),
{
    lemma_decimal_reads_back(n as nat);
    assert(is_digit(decimal(n as nat)[0]));
}

/// A text starts with what was put in front of it, ends with what was put
/// behind it, and contains what was put into it.
pub proof fn law_parts_are_found(a: Seq<char>, b: Seq<char>, c: Seq<char>)
    ensures
        starts_with(a + b, a),
        ends_with(a + b, b),
        contains(a + b + c, b),
{
    assert((a + b).subrange(0, a.len() as int) =~= a);
    assert((a + b).subrange(a.len() as int, (a + b).len() as int) =~= b);
    assert((a + b + c).subrange(a.len() as int, (a.len() + b.len()) as int) =~= b);
    assert(stands_at(a + b + c, b, a.len() as int));
}

/// Where a text starts with, ends with or contains another, it is made of that
/// and of something before or behind it.
pub proof fn law_found_parts_are_there(s: Seq<char>, part: Seq<char>)
    ensures
        starts_with(s, part) <==> exists|rest: Seq<char>| s == #[trigger] (part + rest),
        ends_with(s, part) <==> exists|rest: Seq<char>| s == #[trigger] (rest + part),
        contains(s, part) <==> exists|a: Seq<char>, b: Seq<char>| s == #[trigger] (a + part + b),
{
    let n = part.len() as int;
    if starts_with(s, part) {
        assert(s =~= part + s.skip(n));
    }
    assert forall|rest: Seq<char>| s == #[trigger] (part + rest) implies starts_with(s, part) by {
        law_parts_are_found(part, rest, rest);
    }
    if ends_with(s, part) {
        assert(s =~= s.take(s.len() - n) + part);
    }
    assert forall|rest: Seq<char>| s == #[trigger] (rest + part) implies ends_with(s, part) by {
        law_parts_are_found(rest, part, part);
    }
    if contains(s, part) {
        let at = choose|at: int| #[trigger] stands_at(s, part, at);
        assert(s =~= s.take(at) + part + s.skip(at + n));
    }
    assert forall|a: Seq<char>, b: Seq<char>| s == #[trigger] (a + part + b) implies contains(
        s,
        part,
    ) by {
        law_parts_are_found(a, part, b);
    }
}

/// Among the ASCII characters the space, the tab and the line breaks are white;
/// so are Unicode's wide and narrow spaces, and nothing else.
pub proof fn law_white_space(c: char)
    ensures
        (c as u32) < 128 ==> (is_white(c) <==> c == ' ' || c == '\t' || c == '\n' || c == '\r'
            || c as u32 == 11 || c as u32 == 12),
        is_white('\u{85}') && is_white('\u{a0}') && is_white('\u{1680}') && is_white('\u{2000}')
            && is_white('\u{200a}') && is_white('\u{2028}') && is_white('\u{2029}') && is_white(
            '\u{202f}',
        ) && is_white('\u{205f}') && is_white('\u{3000}'),
        c as u32 > 0x3000 ==> !is_white(c),
{
}

/// Control characters are those below the space, the delete character and the
/// block behind it.
pub proof fn law_control_characters(c: char)
    ensures
        c < ' ' ==> is_control(c),
        ' ' <= c <= '~' ==> !is_control(c),
        '\u{7f}' <= c <= '\u{9f}' ==> is_control(c),
        c > '\u{9f}' ==> !is_control(c),
{
}

/// Trimming takes the white space off both ends and nothing else.
pub proof fn law_trimming_takes_white_space_off(a: Seq<char>, s: Seq<char>, b: Seq<char>)
    requires
        forall|i: int| 0 <= i < a.len() ==> is_white(#[trigger] a[i]),
        forall|i: int| 0 <= i < b.len() ==> is_white(#[trigger] b[i]),
        s.len() > 0,
        !is_white(s[0]),
        !is_white(s.last()),
    ensures
        trimmed(a + s + b) == s,
        trimmed(a).len() == 0,
        blank(a),
        !blank(a + s + b),
    decreases a.len() + b.len(),
{
    lemma_trimmed_blank(a);
    let all = a + s + b;
    assert(all[a.len() as int] == s[0]);
    if a.len() > 0 {
        assert(is_white(a[0]));
        assert(all.drop_first() =~= a.drop_first() + s + b);
        law_trimming_takes_white_space_off(a.drop_first(), s, b);
    } else if b.len() > 0 {
        let shorter = b.drop_last();
        assert(all =~= s + b);
        assert(is_white(b[b.len() - 1]));
        assert(all.drop_last() =~= a + s + shorter);
        law_trimming_takes_white_space_off(a, s, shorter);
        assert(trimmed_start(all) == all);
        assert(trimmed_start(all.drop_last()) == all.drop_last());
    } else {
        assert(all =~= s);
    }
}

/// Lower case and upper case change ASCII letters into the same letters, and
/// nothing else.
pub proof fn law_case_changes_letters_only(s: Seq<char>, i: int)
    requires
        0 <= i < s.len(),
    ensures
        lowered_ascii(s).len() == s.len() && uppered_ascii(s).len() == s.len(),
        'A' <= s[i] <= 'Z' ==> lowered_ascii(s)[i] as u32 - 'a' as u32 == s[i] as u32 - 'A' as u32
            && uppered_ascii(s)[i] == s[i],
        'a' <= s[i] <= 'z' ==> uppered_ascii(s)[i] as u32 - 'A' as u32 == s[i] as u32 - 'a' as u32
            && lowered_ascii(s)[i] == s[i],
        !('A' <= s[i] <= 'Z') && !('a' <= s[i] <= 'z') ==> lowered_ascii(s)[i] == s[i]
            && uppered_ascii(s)[i] == s[i],
{
}

/// A number is written digit by digit, the last one behind the others, and with
/// two places where that is asked for.
pub proof fn law_numbers_are_written_digit_by_digit(n: nat, d: nat)
    requires
        d < 10,
    ensures
        decimal(d) =~= seq![(48 + d) as char],
        n > 0 ==> decimal(10 * n + d) =~= decimal(n).push((48 + d) as char),
        n < 10 ==> decimal2(10 * n + d) =~= seq![(48 + n) as char, (48 + d) as char],
{
    assert((10 * n + d) / 10 == n);
    assert((10 * n + d) % 10 == d);
    if 0 < n < 10 {
        assert(decimal(10 * n + d) =~= decimal(n).push(digit(d)));
    }
}

/// Around a mark, what stands behind the last one and what stands before the
/// first one are the parts that hold none.
pub proof fn law_marks_divide_a_text(a: Seq<char>, mark: char, b: Seq<char>)
    requires
        forall|i: int| 0 <= i < b.len() ==> #[trigger] b[i] != mark,
    ensures
        after_last(a.push(mark) + b, mark) == b,
        after_last(b, mark) == b,
        before_first(b + seq![mark] + a, mark) == b,
        before_first(b, mark) == b,
    decreases b.len(),
{
    lemma_index_of(b, mark, b.len() as int);
    assert(b.take(b.len() as int) =~= b);
    let s = b + seq![mark] + a;
    assert forall|j: int| 0 <= j < b.len() implies #[trigger] s[j] != mark by {
        assert(s[j] == b[j]);
    }
    lemma_index_of(s, mark, b.len() as int);
    assert(s.take(b.len() as int) =~= b);
    let t = a.push(mark) + b;
    if b.len() > 0 {
        let shorter = b.drop_last();
        law_marks_divide_a_text(a, mark, shorter);
        assert(t.drop_last() =~= a.push(mark) + shorter);
        assert(b[b.len() - 1] != mark);
        assert(shorter.push(b.last()) =~= b);
    } else {
        assert(t.last() == mark);
        assert(b =~= Seq::<char>::empty());
    }
}

/// A line ends at its line break, with or without a carriage return, and the
/// lines behind it follow; the last one needs none.
pub proof fn law_lines_end_at_line_breaks(line: Seq<char>, rest: Seq<char>)
    requires
        forall|i: int| 0 <= i < line.len() ==> #[trigger] line[i] != '\n',
        line.len() > 0 ==> line.last() != '\r',
    ensures
        lines_of(line.push('\n') + rest) == seq![line] + lines_of(rest),
        lines_of(line + seq!['\r', '\n'] + rest) == seq![line] + lines_of(rest),
        first_line_of(line.push('\n') + rest) == line,
        first_line_of(line) == line,
        line.len() > 0 ==> lines_of(line) == seq![line],
        lines_of(Seq::<char>::empty()).len() == 0,
{
    let n = line.len() as int;
    let s = line.push('\n') + rest;
    assert forall|j: int| 0 <= j < n implies #[trigger] s[j] != '\n' by {
        assert(s[j] == line[j]);
    }
    lemma_index_of(s, '\n', n);
    assert(s.take(n) =~= line);
    assert(s.skip(n + 1) =~= rest);
    if n > 0 {
        assert(s[n - 1] == line.last());
    }
    let t = line + seq!['\r', '\n'] + rest;
    assert forall|j: int| 0 <= j < n + 1 implies #[trigger] t[j] != '\n' by {
        if j < n {
            assert(t[j] == line[j]);
        }
    }
    lemma_index_of(t, '\n', n + 1);
    assert(t[n] == '\r');
    assert(t.take(n) =~= line);
    assert(t.skip(n + 2) =~= rest);
    lemma_index_of(line, '\n', n);
    assert(line.take(n) =~= line);
}

/// A list is written out with the separator between each two of its texts.
pub proof fn law_lists_are_separated(list: Seq<Seq<char>>, last: Seq<char>, sep: Seq<char>)
    ensures
        separated(Seq::<Seq<char>>::empty(), sep).len() == 0,
        separated(seq![last], sep) == last,
        list.len() > 0 ==> separated(list.push(last), sep) == separated(list, sep) + sep + last,
{
    assert(list.push(last).drop_last() =~= list);
}

/// Each text of a list is kept exactly once, in order of first mention.
pub proof fn law_repeats_are_dropped(list: Seq<String>, next: String)
    ensures
        distinct(Seq::<String>::empty()).len() == 0,
        (exists|i: int| 0 <= i < list.len() && (#[trigger] list[i])@ == next@) ==> distinct(
            list.push(next),
        ) == distinct(list),
        (forall|i: int| 0 <= i < list.len() ==> (#[trigger] list[i])@ != next@) ==> distinct(
            list.push(next),
        ) == distinct(list).push(next@),
{
    let all = list.push(next);
    assert(all.drop_last() =~= list);
    assert forall|i: int| 0 <= i < list.len() implies all[i] == #[trigger] list[i] by {}
    if exists|i: int| 0 <= i < list.len() && (#[trigger] list[i])@ == next@ {
        let i = choose|i: int| 0 <= i < list.len() && (#[trigger] list[i])@ == next@;
        assert(all[i]@ == next@);
        assert(listed(all, all.len() - 1, all.last()@));
    } else {
        assert(!listed(all, all.len() - 1, all.last()@));
    }
}

/// Replacing changes every occurrence and leaves what stands between as it is.
pub proof fn law_replacing_changes_occurrences_only(
    before: Seq<char>,
    needle: Seq<char>,
    rest: Seq<char>,
    with: Seq<char>,
)
    requires
        needle.len() > 0,
        forall|i: int| 0 <= i < before.len() ==> #[trigger] before[i] != needle[0],
    ensures
        replaced(before, needle, with) == before,
        replaced(before + needle + rest, needle, with) == before + with + replaced(
            rest,
            needle,
            with,
        ),
    decreases before.len(),
{
    let all = before + needle + rest;
    if before.len() > 0 {
        let shorter = before.skip(1);
        law_replacing_changes_occurrences_only(shorter, needle, rest, with);
        assert(all.skip(1) =~= shorter + needle + rest);
        assert(before[0] != needle[0]);
        if stands_at(all, needle, 0) {
            assert(all.subrange(0, needle.len() as int)[0] == all[0]);
        }
        if stands_at(before, needle, 0) {
            assert(before.subrange(0, needle.len() as int)[0] == before[0]);
        }
        assert(seq![before[0]] + shorter =~= before);
        assert(seq![all[0]] + (shorter + with + replaced(rest, needle, with)) =~= before + with
            + replaced(rest, needle, with));
    } else {
        assert(all.subrange(0, needle.len() as int) =~= needle);
        assert(all.skip(needle.len() as int) =~= rest);
        assert(before + with + replaced(rest, needle, with) =~= with + replaced(
            rest,
            needle,
            with,
        ));
    }
}

/// A number is read from digits alone, behind a plus sign at most.
pub proof fn law_only_digits_are_a_number(s: Seq<char>)
    ensures
        parsed_u64(s) is Some ==> s.len() > 0 && forall|i: int|
            0 <= i < s.len() ==> ('0' <= #[trigger] s[i] <= '9') || (i == 0 && s[i] == '+'
                && s.len() > 1),
        s.len() > 0 && s[0] != '+' ==> parsed_u64(seq!['+'] + s) == parsed_u64(s),
{
    if parsed_u64(s) is Some {
        let digits = unsigned_digits(s);
        assert forall|i: int| 0 <= i < s.len() implies ('0' <= #[trigger] s[i] <= '9') || (i == 0
            && s[i] == '+' && s.len() > 1) by {
            if s[0] == '+' {
                if i > 0 {
                    assert(is_digit(digits[i - 1]));
                }
            } else {
                assert(is_digit(digits[i]));
            }
        }
    }
    assert((seq!['+'] + s).drop_first() =~= s);
}

/// A shortened text is the start of it, and as long as may be.
pub proof fn law_shortening_keeps_the_start(s: Seq<char>, n: nat)
    ensures
        at_most(s, n as int).len() == (if s.len() < n {
            s.len()
        } else {
            n
        }),
        at_most(s, n as int) == s.take(at_most(s, n as int).len() as int),
{
    assert(s.take(s.len() as int) =~= s);
}

/// Spaces at either end are taken off, and nothing else is.
pub proof fn law_spaces_are_taken_off(a: Seq<char>, s: Seq<char>, b: Seq<char>)
    requires
        forall|i: int| 0 <= i < a.len() ==> #[trigger] a[i] == ' ',
        forall|i: int| 0 <= i < b.len() ==> #[trigger] b[i] == ' ',
        s.len() > 0 ==> s[0] != ' ' && s.last() != ' ',
    ensures
        unspaced_end(unspaced_start(a + s + b)) == s,
    decreases a.len() + b.len(),
{
    let all = a + s + b;
    if a.len() > 0 {
        assert(a[0] == ' ');
        assert(all[0] == a[0]);
        assert forall|i: int| 0 <= i < a.drop_first().len() implies #[trigger] a.drop_first()[i]
            == ' ' by {
            assert(a.drop_first()[i] == a[i + 1]);
        }
        assert(all.drop_first() =~= a.drop_first() + s + b);
        law_spaces_are_taken_off(a.drop_first(), s, b);
    } else if s.len() == 0 {
        if b.len() > 0 {
            assert(b[0] == ' ');
            assert(all[0] == b[0]);
            assert(all.drop_first() =~= a + s + b.drop_first());
            assert forall|i: int| 0 <= i < b.drop_first().len() implies #[trigger] b.drop_first()[i]
                == ' ' by {
                assert(b.drop_first()[i] == b[i + 1]);
            }
            law_spaces_are_taken_off(a, s, b.drop_first());
        } else {
            assert(all =~= s);
        }
    } else if b.len() > 0 {
        let shorter = b.drop_last();
        assert(all =~= s + b);
        assert(all[0] == s[0]);
        assert(b[b.len() - 1] == ' ');
        assert(all.last() == ' ');
        assert(all.drop_last() =~= a + s + shorter);
        assert((a + s + shorter)[0] == s[0]);
        law_spaces_are_taken_off(a, s, shorter);
    } else {
        assert(all =~= s);
    }
}

/// Texts are joined in order and compared character by character.
pub proof fn law_calls_that_join_texts(
    a: &str,
    b: &str,
    c: &str,
    two: String,
    three: String,
    same: bool,
    chars: Vec<char>,
    from: usize,
    to: usize,
    part: String,
    text: Option<String>,
    copy: Option<String>,
    list: &mut Vec<String>,
    added: (),
)
    requires
        call_ensures(cat, (a, b), two),
        call_ensures(cat3, (a, b, c), three),
        call_ensures(same_text, (a, b), same),
        call_ensures(to_chars, (a,), chars),
        call_ensures(sub_text, (&chars, from, to), part),
        call_ensures(clone_text, (&text,), copy),
        call_ensures(add_text, (list, a), added),
        from <= to <= chars@.len(),
    ensures
        two@ == a@ + b@,
        three@ == a@ + b@ + c@,
        same <==> a@ == b@,
        chars@ == a@,
        part@ == a@.subrange(from as int, to as int),
        copy == text,
        texts(final(list)@) == texts(old(list)@).push(a@),
{
}

/// Texts are looked through for what they start with, end with and hold.
pub proof fn law_calls_that_look_through_texts(
    text: &str,
    part: &str,
    first: bool,
    last: bool,
    held: bool,
    rest: Option<String>,
    c: char,
    is_space: bool,
    is_control_char: bool,
    empty: bool,
)
    requires
        call_ensures(has_prefix, (text, part), first),
        call_ensures(has_suffix, (text, part), last),
        call_ensures(has_text, (text, part), held),
        call_ensures(strip_prefix, (text, part), rest),
        call_ensures(white, (c,), is_space),
        call_ensures(control, (c,), is_control_char),
        call_ensures(is_blank, (text,), empty),
    ensures
        first == starts_with(text@, part@),
        last == ends_with(text@, part@),
        held == contains(text@, part@),
        rest matches Some(r) ==> text@ == part@ + r@,
        rest is None ==> !first,
        is_space == is_white(c),
        is_control_char == is_control(c),
        empty <==> forall|i: int| 0 <= i < text@.len() ==> is_white(#[trigger] text@[i]),
{
}

/// Texts are cut at their ends, at marks, at line breaks, at slashes and to a
/// length.
pub proof fn law_calls_that_cut_texts(
    text: &str,
    mark: char,
    n: usize,
    long: String,
    bare: String,
    unspaced: String,
    tail: String,
    head: String,
    first: String,
    all: Vec<String>,
    parts: Vec<String>,
    short: String,
)
    requires
        call_ensures(trim, (text,), bare),
        call_ensures(trim_spaces, (text,), unspaced),
        call_ensures(tail_after, (text, mark), tail),
        call_ensures(head_before, (text, mark), head),
        call_ensures(first_line, (text,), first),
        call_ensures(lines, (text,), all),
        call_ensures(split_path, (text,), parts),
        call_ensures(shorten, (long, n), short),
    ensures
        bare@ == trimmed(text@),
        unspaced@ == unspaced_end(unspaced_start(text@)),
        tail@ == after_last(text@, mark),
        head@ == before_first(text@, mark),
        first@ == first_line_of(text@),
        texts(all@) == lines_of(text@),
        texts(parts@) == path_parts(text@),
        short@ == at_most(long@, n as int),
{
}

/// Numbers are written and read in decimal, letters change case, and lists are
/// rid of repeats and written out.
pub proof fn law_calls_that_write_texts(
    n: u64,
    digits: String,
    padded: String,
    text: &str,
    read: Option<u64>,
    low: String,
    up: String,
    list: Vec<String>,
    once: Vec<String>,
    sep: &str,
    line: String,
    needle: &str,
    with: &str,
    changed: String,
    d: u8,
    c: char,
)
    requires
        d < 10,
        call_ensures(decimal_text, (n,), digits),
        call_ensures(decimal2_text, (n,), padded),
        call_ensures(parse_u64, (text,), read),
        call_ensures(to_lower_ascii, (text,), low),
        call_ensures(to_upper_ascii, (text,), up),
        call_ensures(distinct_texts, (&list,), once),
        call_ensures(separate, (&list, sep), line),
        call_ensures(replace_text, (text, needle, with), changed),
        call_ensures(digit_char, (d,), c),
    ensures
        digits@ == decimal(n as nat),
        padded@ == decimal2(n as nat),
        read == parsed_u64(text@),
        low@ == lowered_ascii(text@),
        up@ == uppered_ascii(text@),
        texts(once@) == distinct(list@),
        line@ == separated(texts(list@), sep@),
        changed@ == replaced(text@, needle@, with@),
        c as u32 == 48 + d,
{
}

} // verus!
