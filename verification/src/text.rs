//! Reading the text that the collaborating programs print.

use vstd::prelude::*;
use vstd::string::*;
use vstd::utf8::*;

verus! {

/// The text that lossy UTF-8 decoding makes of `bytes`.
pub uninterp spec fn lossy_text(bytes: Seq<u8>) -> Seq<char>;

/// `c` has the Unicode property White_Space.
pub open spec fn is_white_space(c: char) -> bool {
    let code = c as u32;
    ||| 0x09 <= code <= 0x0D
    ||| code == 0x20
    ||| code == 0x85
    ||| code == 0xA0
    ||| code == 0x1680
    ||| 0x2000 <= code <= 0x200A
    ||| code == 0x2028
    ||| code == 0x2029
    ||| code == 0x202F
    ||| code == 0x205F
    ||| code == 0x3000
}

/// `s` without its leading white space.
pub open spec fn trim_start(s: Seq<char>) -> Seq<char>
    decreases s.len(),
{
    if s.len() > 0 && is_white_space(s.first()) {
        trim_start(s.drop_first())
    } else {
        s
    }
}

/// `s` without its trailing white space.
pub open spec fn trim_end(s: Seq<char>) -> Seq<char>
    decreases s.len(),
{
    if s.len() > 0 && is_white_space(s.last()) {
        trim_end(s.drop_last())
    } else {
        s
    }
}

/// `s` without the white space at either end.
pub open spec fn trim(s: Seq<char>) -> Seq<char> {
    trim_end(trim_start(s))
}

/// `c` is one of the ten ASCII digits.
pub open spec fn is_digit(c: char) -> bool {
    '0' <= c <= '9'
}

/// The number a digit stands for; zero for any other character.
pub open spec fn digit_value(c: char) -> nat {
    if is_digit(c) {
        (c as u32 - '0' as u32) as nat
    } else {
        0
    }
}

/// Every character of `s` is a digit.
pub open spec fn all_digits(s: Seq<char>) -> bool {
    forall|i: int| 0 <= i < s.len() ==> is_digit(#[trigger] s[i])
}

/// The number that the digits of `s` write in base ten.
pub open spec fn decimal_value(s: Seq<char>) -> nat
    decreases s.len(),
{
    if s.len() == 0 {
        0
    } else {
        10 * decimal_value(s.drop_last()) + digit_value(s.last())
    }
}

/// `s` without one leading plus sign.
pub open spec fn unsigned_part(s: Seq<char>) -> Seq<char> {
    if s.len() > 0 && s.first() == '+' {
        s.drop_first()
    } else {
        s
    }
}

/// The byte that `s` writes: an optional plus sign, then one or more digits
/// whose value is at most 255. Anything else writes no byte.
pub open spec fn decimal_byte(s: Seq<char>) -> Option<u8> {
    let digits = unsigned_part(s);
    if digits.len() > 0 && all_digits(digits) && decimal_value(digits) <= u8::MAX {
        Some(decimal_value(digits) as u8)
    } else {
        None
    }
}

/// The volume that a mixer's answer reports, if it reports one.
pub open spec fn volume_of(text: Seq<char>) -> Option<u8> {
    decimal_byte(trim(text))
}

/// Whether a mixer's answer reports a muted source: the answer is the word
/// `true`, white space around it aside.
pub open spec fn mute_of(text: Seq<char>) -> bool {
    trim(text) == seq!['t', 'r', 'u', 'e']
}

/// `word` stands in `text` at position `at`.
pub open spec fn occurs_at(text: Seq<char>, word: Seq<char>, at: int) -> bool {
    &&& 0 <= at
    &&& at + word.len() <= text.len()
    &&& text.subrange(at, at + word.len()) == word
}

/// `word` stands somewhere in `text`.
pub open spec fn mentions(text: Seq<char>, word: Seq<char>) -> bool {
    exists|at: int| occurs_at(text, word, at)
}

/// Calls `String::from_utf8_lossy` and owns the result. The outcome depends
/// on the bytes alone and is named `lossy_text`; as the standard library
/// documents, bytes that are valid UTF-8 give exactly the text they encode.
#[verifier::external_body]
fn decode_lossy(bytes: &[u8]) -> (text: String)
    ensures
        text@ == lossy_text(bytes@),
        valid_utf8(bytes@) ==> text@ == decode_utf8(bytes@),
{
    String::from_utf8_lossy(bytes).into_owned()
}

/// The text of a finished command, given the bytes captured from its
/// standard output. Bytes that are not valid UTF-8 are replaced as lossy
/// decoding replaces them.
pub fn run_cmd_block(stdout: &[u8]) -> (text: String)
    ensures
        text@ == lossy_text(stdout@),
        valid_utf8(stdout@) ==> text@ == decode_utf8(stdout@),
{
    decode_lossy(stdout)
}

/// All characters of `text`, in order.
fn chars_of(text: &str) -> (chars: Vec<char>)
    ensures
        chars@ == text@,
{
    let mut chars: Vec<char> = Vec::new();
    for c in it: text.chars()
        invariant
            it.seq() == text@,
            chars@ == it.seq().take(it.index() as int),
    {
        chars.push(c);
    }
    chars
}

/// Tells whether `c` is white space.
pub fn is_whitespace(c: char) -> (white: bool)
    ensures
        white == is_white_space(c),
{
    let code: u32 = c as u32;
    (0x09 <= code && code <= 0x0D) || code == 0x20 || code == 0x85 || code == 0xA0 || code
        == 0x1680 || (0x2000 <= code && code <= 0x200A) || code == 0x2028 || code == 0x2029 || code
        == 0x202F || code == 0x205F || code == 0x3000
}

/// Dropping leading white space one character at a time reaches the same
/// text as dropping all of it.
proof fn lemma_trim_start_step(s: Seq<char>, i: int)
    requires
        0 <= i < s.len(),
        is_white_space(s[i]),
    ensures
        trim_start(s.subrange(i, s.len() as int)) == trim_start(
            s.subrange(i + 1, s.len() as int),
        ),
{
    let tail = s.subrange(i, s.len() as int);
    assert(tail.first() == s[i]);
    assert(tail.drop_first() =~= s.subrange(i + 1, s.len() as int));
}

/// The mirror image of the step above, for trailing white space.
proof fn lemma_trim_end_step(s: Seq<char>, from: int, j: int)
    requires
        0 <= from < j <= s.len(),
        is_white_space(s[j - 1]),
    ensures
        trim_end(s.subrange(from, j)) == trim_end(s.subrange(from, j - 1)),
{
    let head = s.subrange(from, j);
    assert(head.last() == s[j - 1]);
    assert(head.drop_last() =~= s.subrange(from, j - 1));
}

/// What `trim_start` removes is a run of white space at the front, as long
/// as it can be: the result is the rest of `s` from the returned position.
pub proof fn lemma_trim_start_bound(s: Seq<char>) -> (from: int)
    ensures
        0 <= from <= s.len(),
        trim_start(s) == s.subrange(from, s.len() as int),
        forall|i: int| 0 <= i < from ==> is_white_space(#[trigger] s[i]),
        from < s.len() ==> !is_white_space(s[from]),
    decreases s.len(),
{
    if s.len() > 0 && is_white_space(s.first()) {
        let rest = s.drop_first();
        let inner = lemma_trim_start_bound(rest);
        assert(rest.subrange(inner, rest.len() as int) =~= s.subrange(inner + 1, s.len() as int));
        assert forall|i: int| 0 <= i < inner + 1 implies is_white_space(#[trigger] s[i]) by {
            if i > 0 {
                assert(s[i] == rest[i - 1]);
            }
        }
        assert(inner + 1 < s.len() ==> s[inner + 1] == rest[inner]);
        inner + 1
    } else {
        assert(s.subrange(0, s.len() as int) =~= s);
        0
    }
}

/// What `trim_end` removes is a run of white space at the back, as long as
/// it can be: the result is `s` up to the returned position.
pub proof fn lemma_trim_end_bound(s: Seq<char>) -> (to: int)
    ensures
        0 <= to <= s.len(),
        trim_end(s) == s.subrange(0, to),
        forall|i: int| to <= i < s.len() ==> is_white_space(#[trigger] s[i]),
        0 < to ==> !is_white_space(s[to - 1]),
    decreases s.len(),
{
    if s.len() > 0 && is_white_space(s.last()) {
        let rest = s.drop_last();
        let inner = lemma_trim_end_bound(rest);
        assert(rest.subrange(0, inner) =~= s.subrange(0, inner));
        assert forall|i: int| inner <= i < s.len() implies is_white_space(#[trigger] s[i]) by {
            if i < s.len() - 1 {
                assert(s[i] == rest[i]);
            }
        }
        assert(0 < inner ==> s[inner - 1] == rest[inner - 1]);
        inner
    } else {
        assert(s.subrange(0, s.len() as int) =~= s);
        s.len() as int
    }
}

/// Trimming keeps one stretch of the text: everything before it and
/// everything after it is white space, and it neither begins nor ends with
/// white space.
pub proof fn lemma_trim_is_the_core(s: Seq<char>) -> (bounds: (int, int))
    ensures
        0 <= bounds.0 <= bounds.1 <= s.len(),
        trim(s) == s.subrange(bounds.0, bounds.1),
        forall|i: int| 0 <= i < bounds.0 ==> is_white_space(#[trigger] s[i]),
        forall|i: int| bounds.1 <= i < s.len() ==> is_white_space(#[trigger] s[i]),
        bounds.0 < bounds.1 ==> !is_white_space(s[bounds.0]) && !is_white_space(s[bounds.1 - 1]),
{
    let from = lemma_trim_start_bound(s);
    let tail = s.subrange(from, s.len() as int);
    let kept = lemma_trim_end_bound(tail);
    assert(tail.subrange(0, kept) =~= s.subrange(from, from + kept));
    assert forall|i: int| from + kept <= i < s.len() implies is_white_space(#[trigger] s[i]) by {
        assert(s[i] == tail[i - from]);
    }
    if kept > 0 {
        assert(tail[kept - 1] == s[from + kept - 1]);
    }
    (from, from + kept)
}

/// The bounds of `chars` without the white space at either end.
fn trim_bounds(chars: &Vec<char>) -> (bounds: (usize, usize))
    ensures
        bounds.0 <= bounds.1 <= chars@.len(),
        chars@.subrange(bounds.0 as int, bounds.1 as int) == trim(chars@),
{
    let len = chars.len();
    let mut start: usize = 0;
    assert(chars@.subrange(0, len as int) =~= chars@);
    while start < len && is_whitespace(chars[start])
        invariant
            start <= len == chars@.len(),
            trim_start(chars@) == trim_start(chars@.subrange(start as int, len as int)),
        decreases len - start,
    {
        proof {
            lemma_trim_start_step(chars@, start as int);
        }
        start += 1;
    }
    let ghost rest = chars@.subrange(start as int, len as int);
    assert(trim_start(chars@) == rest) by {
        if start < len {
            assert(rest.first() == chars@[start as int]);
        }
    }
    let mut end: usize = len;
    while start < end && is_whitespace(chars[end - 1])
        invariant
            start <= end <= len == chars@.len(),
            trim_end(rest) == trim_end(chars@.subrange(start as int, end as int)),
            rest == chars@.subrange(start as int, len as int),
        decreases end - start,
    {
        proof {
            lemma_trim_end_step(chars@, start as int, end as int);
        }
        end -= 1;
    }
    proof {
        let kept = chars@.subrange(start as int, end as int);
        if start < end {
            assert(kept.last() == chars@[end - 1]);
        }
        assert(trim_end(kept) == kept);
    }
    (start, end)
}

/// Tells whether a mixer's answer reports a muted source.
pub fn parse_mute(text: &str) -> (muted: bool)
    ensures
        muted == mute_of(text@),
{
    let chars = chars_of(text);
    let (start, end) = trim_bounds(&chars);
    let muted = end - start == 4 && chars[start] == 't' && chars[start + 1] == 'r' && chars[start
        + 2] == 'u' && chars[start + 3] == 'e';
    proof {
        let kept = chars@.subrange(start as int, end as int);
        let word = seq!['t', 'r', 'u', 'e'];
        if muted {
            assert(kept =~= word);
        } else if kept == word {
            assert(kept.len() == 4);
            assert(kept[0] == 't' && kept[1] == 'r' && kept[2] == 'u' && kept[3] == 'e');
        }
    }
    muted
}

/// A prefix of a numeral never writes a larger number than the numeral.
proof fn lemma_prefix_value(s: Seq<char>, k: int)
    requires
        0 <= k <= s.len(),
    ensures
        decimal_value(s.take(k)) <= decimal_value(s),
    decreases s.len(),
{
    if k == s.len() {
        assert(s.take(k) =~= s);
    } else {
        assert(s.drop_last().take(k) =~= s.take(k));
        lemma_prefix_value(s.drop_last(), k);
    }
}

/// One more digit multiplies the value by ten and adds the digit.
proof fn lemma_value_step(s: Seq<char>, k: int)
    requires
        0 <= k < s.len(),
    ensures
        decimal_value(s.take(k + 1)) == 10 * decimal_value(s.take(k)) + digit_value(s[k]),
{
    let next = s.take(k + 1);
    assert(next.drop_last() =~= s.take(k));
    assert(next.last() == s[k]);
}

/// Reads the volume out of a mixer's answer: white space at either end is
/// ignored, and what remains must be a decimal number that fits in a byte.
#[verifier::loop_isolation(false)]
pub fn parse_volume(text: &str) -> (volume: Option<u8>)
    ensures
        volume == volume_of(text@),
{
    let chars = chars_of(text);
    let (start, end) = trim_bounds(&chars);
    let ghost kept = chars@.subrange(start as int, end as int);
    let mut first: usize = start;
    if first < end && chars[first] == '+' {
        first += 1;
    }
    let ghost digits = chars@.subrange(first as int, end as int);
    proof {
        if start < end {
            assert(kept.first() == chars@[start as int]);
        }
        assert(unsigned_part(kept) =~= digits);
    }
    if first == end {
        return None;
    }
    let mut value: u16 = 0;
    let mut i: usize = first;
    while i < end
        invariant
            first <= i <= end <= chars@.len(),
            digits == chars@.subrange(first as int, end as int),
            all_digits(digits.take(i - first)),
            value == decimal_value(digits.take(i - first)),
            value <= u8::MAX,
        decreases end - i,
    {
        let c = chars[i];
        proof {
            assert(digits[i - first] == c);
            lemma_value_step(digits, i - first);
            lemma_prefix_value(digits, i - first + 1);
        }
        if !('0' <= c && c <= '9') {
            return None;
        }
        let digit: u16 = (c as u32 - '0' as u32) as u16;
        value = value * 10 + digit;
        if value > 255 {
            return None;
        }
        i += 1;
    }
    proof {
        assert(digits.take(end - first) =~= digits);
    }
    Some(value as u8)
}

/// Tells whether `word` stands somewhere in `text`.
#[verifier::loop_isolation(false)]
pub fn contains_word(text: &str, word: &str) -> (found: bool)
    ensures
        found == mentions(text@, word@),
{
    let hay = chars_of(text);
    let needle = chars_of(word);
    if needle.len() == 0 {
        assert(occurs_at(hay@, needle@, 0)) by {
            assert(hay@.subrange(0, 0) =~= needle@);
        }
        return true;
    }
    if needle.len() > hay.len() {
        return false;
    }
    let last: usize = hay.len() - needle.len();
    let mut at: usize = 0;
    while at <= last
        invariant
            at <= last + 1,
            last == hay@.len() - needle@.len(),
            forall|p: int| 0 <= p < at ==> !occurs_at(hay@, needle@, p),
        decreases last + 1 - at,
    {
        let mut k: usize = 0;
        while k < needle.len() && hay[at + k] == needle[k]
            invariant
                at <= last,
                last == hay@.len() - needle@.len(),
                k <= needle@.len(),
                forall|j: int| 0 <= j < k ==> hay@[at + j] == needle@[j],
            decreases needle@.len() - k,
        {
            k += 1;
        }
        if k == needle.len() {
            assert(hay@.subrange(at as int, at + needle@.len()) =~= needle@);
            assert(occurs_at(hay@, needle@, at as int));
            return true;
        }
        assert(!occurs_at(hay@, needle@, at as int)) by {
            if occurs_at(hay@, needle@, at as int) {
                assert(hay@.subrange(at as int, at + needle@.len())[k as int] == needle@[k as int]);
            }
        }
        at += 1;
    }
    false
}

} // verus!
