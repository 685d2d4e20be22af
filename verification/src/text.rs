//! Character-level text helpers shared by the whole crate.
//!
//! Text is reasoned about through its `Seq<char>` view. Trimming follows the
//! Unicode `White_Space` property (the definition `str::trim` uses), and the
//! UTF-8 byte length of a `String` is taken from vstd's `str::len`.
use vstd::prelude::*;
use vstd::utf8::{decode_utf8, valid_utf8};

verus! {

/// The Unicode `White_Space` property, which `char::is_whitespace` and
/// `str::trim` use.
pub open spec fn is_white_space(c: char) -> bool {
    let v = c as u32;
    ||| (0x09 <= v <= 0x0D)
    ||| v == 0x20
    ||| v == 0x85
    ||| v == 0xA0
    ||| v == 0x1680
    ||| (0x2000 <= v <= 0x200A)
    ||| v == 0x2028
    ||| v == 0x2029
    ||| v == 0x202F
    ||| v == 0x205F
    ||| v == 0x3000
}

/// Drops leading white space.
pub open spec fn trim_start(s: Seq<char>) -> Seq<char>
    decreases s.len(),
{
    if s.len() > 0 && is_white_space(s[0]) {
        trim_start(s.drop_first())
    } else {
        s
    }
}

/// Drops trailing white space.
pub open spec fn trim_end(s: Seq<char>) -> Seq<char>
    decreases s.len(),
{
    if s.len() > 0 && is_white_space(s.last()) {
        trim_end(s.drop_last())
    } else {
        s
    }
}

/// Drops leading and trailing white space (`str::trim`).
pub open spec fn trimmed(s: Seq<char>) -> Seq<char> {
    trim_end(trim_start(s))
}

/// True when the text holds nothing but white space.
pub open spec fn is_blank(s: Seq<char>) -> bool {
    trimmed(s).len() == 0
}

/// `s` begins with `prefix`.
pub open spec fn has_prefix(s: Seq<char>, prefix: Seq<char>) -> bool {
    prefix.len() <= s.len() && s.subrange(0, prefix.len() as int) == prefix
}

/// `pattern` occurs somewhere inside `s`.
pub open spec fn has_infix(s: Seq<char>, pattern: Seq<char>) -> bool {
    exists|i: int|
        0 <= i && i + pattern.len() <= s.len() && #[trigger] s.subrange(i, i + pattern.len())
            == pattern
}

/// ASCII-only lower-casing of one character (`char::to_ascii_lowercase`).
pub open spec fn ascii_lower(c: char) -> char {
    if 'A' <= c && c <= 'Z' {
        ((c as u32) + 32) as char
    } else {
        c
    }
}

/// The UTF-8 byte length of a piece of text (`str::len`).
pub open spec fn utf8_len(s: Seq<char>) -> usize {
    vstd::utf8::encode_utf8(s).len() as usize
}

/// What `str::to_lowercase` returns for a text: the full Unicode lower-case
/// mapping, which depends on the text alone.
pub uninterp spec fn spec_unicode_lowercase(text: Seq<char>) -> Seq<char>;

/// Unicode lower-casing through `str::to_lowercase`; the mapping is named
/// by `spec_unicode_lowercase`. Every character lower-cases to at least one
/// character, so only the empty text lower-cases to the empty text.
#[verifier::external_body]
pub(crate) fn unicode_lowercase(text: &str) -> (lower: String)
    ensures
        lower@ == spec_unicode_lowercase(text@),
        lower@.len() == 0 <==> text@.len() == 0,
{
    text.to_lowercase()
}

/// The characters of a string slice, in order.
pub fn chars_of(text: &str) -> (chars: Vec<char>)
    ensures
        chars@ == text@,
{
    let mut chars: Vec<char> = Vec::new();
    for c in it: text.chars()
        invariant
            it.seq() == text@,
            chars@ == text@.take(it.index() as int),
    {
        chars.push(c);
    }
    chars
}

/// Appends one character to a string (`String::push`).
#[verifier::external_body]
fn push_char(text: &mut String, c: char)
    ensures
        final(text)@ == old(text)@.push(c),
{
    text.push(c);
}

/// A `String` holding exactly the given characters.
pub fn string_of(chars: &[char]) -> (text: String)
    ensures
        text@ == chars@,
{
    let mut text = String::new();
    let mut i: usize = 0;
    while i < chars.len()
        invariant
            i <= chars.len(),
            text@ == chars@.take(i as int),
        decreases chars.len() - i,
    {
        push_char(&mut text, chars[i]);
        i = i + 1;
    }
    text
}

/// `char::is_whitespace`, decided over the code point.
pub fn is_white_space_char(c: char) -> (r: bool)
    ensures
        r == is_white_space(c),
{
    let v = c as u32;
    (0x09 <= v && v <= 0x0D) || v == 0x20 || v == 0x85 || v == 0xA0 || v == 0x1680 || (0x2000
        <= v && v <= 0x200A) || v == 0x2028 || v == 0x2029 || v == 0x202F || v == 0x205F || v
        == 0x3000
}

proof fn lemma_trim_start_skip(s: Seq<char>, i: int)
    requires
        0 <= i < s.len(),
        is_white_space(s[i]),
    ensures
        trim_start(s.subrange(i, s.len() as int)) == trim_start(s.subrange(i + 1, s.len() as int)),
{
    let t = s.subrange(i, s.len() as int);
    assert(t.drop_first() =~= s.subrange(i + 1, s.len() as int));
}

proof fn lemma_trim_end_skip(s: Seq<char>, j: int)
    requires
        0 < j <= s.len(),
        is_white_space(s[j - 1]),
    ensures
        trim_end(s.subrange(0, j)) == trim_end(s.subrange(0, j - 1)),
{
    let t = s.subrange(0, j);
    assert(t.drop_last() =~= s.subrange(0, j - 1));
}

/// The characters of `chars[from..to]`.
pub fn copy_range(chars: &[char], from: usize, to: usize) -> (r: Vec<char>)
    requires
        from <= to <= chars@.len(),
    ensures
        r@ == chars@.subrange(from as int, to as int),
{
    let mut out: Vec<char> = Vec::new();
    let mut k: usize = from;
    while k < to
        invariant
            from <= k <= to <= chars@.len(),
            out@ == chars@.subrange(from as int, k as int),
        decreases to - k,
    {
        out.push(chars[k]);
        assert(out@ =~= chars@.subrange(from as int, k + 1));
        k = k + 1;
    }
    out
}

/// `str::trim` over characters.
pub fn trim_chars(chars: &[char]) -> (r: Vec<char>)
    ensures
        r@ == trimmed(chars@),
{
    let n = chars.len();
    let ghost s = chars@;
    let mut lo: usize = 0;
    assert(s.subrange(0, n as int) =~= s);
    while lo < n && is_white_space_char(chars[lo])
        invariant
            lo <= n == s.len(),
            s == chars@,
            trim_start(s) == trim_start(s.subrange(lo as int, n as int)),
        decreases n - lo,
    {
        proof {
            lemma_trim_start_skip(s, lo as int);
        }
        lo = lo + 1;
    }
    let ghost front = s.subrange(lo as int, n as int);
    assert(trim_start(front) == front);
    assert(trim_start(s) == front);
    let mut hi: usize = n;
    assert(front.subrange(0, (hi - lo) as int) =~= front);
    while hi > lo && is_white_space_char(chars[hi - 1])
        invariant
            lo <= hi <= n == s.len(),
            s == chars@,
            front == s.subrange(lo as int, n as int),
            trim_end(front) == trim_end(s.subrange(lo as int, hi as int)),
        decreases hi - lo,
    {
        proof {
            let t = s.subrange(lo as int, hi as int);
            assert(t.subrange(0, t.len() as int) =~= t);
            lemma_trim_end_skip(t, t.len() as int);
            assert(t.subrange(0, t.len() - 1) =~= s.subrange(lo as int, hi - 1));
        }
        hi = hi - 1;
    }
    let r = copy_range(chars, lo, hi);
    assert(trim_end(r@) == r@);
    r
}

/// `str::trim`, returning an owned string.
pub fn trim_text(text: &str) -> (r: String)
    ensures
        r@ == trimmed(text@),
{
    let chars = chars_of(text);
    let t = trim_chars(chars.as_slice());
    string_of(t.as_slice())
}

/// Exact text equality.
pub fn same_text(a: &str, b: &str) -> (r: bool)
    ensures
        r == (a@ == b@),
{
    let x = String::from_str(a);
    let y = String::from_str(b);
    x == y
}

/// Whether `chars` begins with `prefix`.
pub fn chars_start_with(chars: &[char], prefix: &[char]) -> (r: bool)
    ensures
        r == has_prefix(chars@, prefix@),
{
    if prefix.len() > chars.len() {
        return false;
    }
    let mut i: usize = 0;
    while i < prefix.len()
        invariant
            prefix@.len() <= chars@.len(),
            i <= prefix@.len(),
            chars@.subrange(0, i as int) == prefix@.subrange(0, i as int),
        decreases prefix.len() - i,
    {
        if chars[i] != prefix[i] {
            assert(chars@.subrange(0, prefix@.len() as int)[i as int] != prefix@[i as int]);
            return false;
        }
        assert(chars@.subrange(0, i + 1) =~= chars@.subrange(0, i as int).push(chars@[i as int]));
        assert(prefix@.subrange(0, i + 1) =~= prefix@.subrange(0, i as int).push(
            prefix@[i as int],
        ));
        i = i + 1;
    }
    assert(prefix@.subrange(0, prefix@.len() as int) =~= prefix@);
    true
}

/// Whether `pattern` occurs inside `chars`.
pub fn chars_contain(chars: &[char], pattern: &[char]) -> (r: bool)
    ensures
        r == has_infix(chars@, pattern@),
{
    if pattern.len() > chars.len() {
        assert forall|i: int|
            0 <= i && i + pattern@.len() <= chars@.len() implies #[trigger] chars@.subrange(
            i,
            i + pattern@.len(),
        ) != pattern@ by {}
        return false;
    }
    if pattern.len() == 0 {
        assert(chars@.subrange(0int, 0int + pattern@.len()) =~= pattern@);
        return true;
    }
    let last = chars.len() - pattern.len();
    let mut start: usize = 0;
    while start <= last
        invariant
            last + pattern@.len() == chars@.len(),
            pattern@.len() > 0,
            start <= last + 1,
            forall|i: int|
                0 <= i < start ==> #[trigger] chars@.subrange(i, i + pattern@.len())
                    != pattern@,
        decreases last + 1 - start,
    {
        let tail = copy_range(chars, start, chars.len());
        if chars_start_with(tail.as_slice(), pattern) {
            assert(tail@.subrange(0, pattern@.len() as int) =~= chars@.subrange(
                start as int,
                start + pattern@.len(),
            ));
            return true;
        }
        assert(tail@.subrange(0, pattern@.len() as int) =~= chars@.subrange(
            start as int,
            start + pattern@.len(),
        ));
        start = start + 1;
    }
    false
}

/// The UTF-8 byte length of a string (`str::len`).
pub fn byte_len(text: &String) -> (n: usize)
    ensures
        n == utf8_len(text@),
{
    text.as_str().len()
}

/// The decimal digit character for a value below 10.
pub open spec fn digit_char(d: nat) -> char {
    ((48 + d) as u8) as char
}

/// The decimal text of a natural number, without leading zeros.
pub open spec fn decimal_text(n: nat) -> Seq<char>
    decreases n,
{
    if n < 10 {
        seq![digit_char(n)]
    } else {
        decimal_text(n / 10).push(digit_char(n % 10))
    }
}

/// The decimal text of an integer, with a leading `-` when negative (what
/// `{}` formatting writes).
pub open spec fn signed_decimal_text(i: int) -> Seq<char> {
    if i < 0 {
        seq!['-'] + decimal_text((-i) as nat)
    } else {
        decimal_text(i as nat)
    }
}

fn push_decimal(n: u64, out: &mut Vec<char>)
    ensures
        final(out)@ == old(out)@ + decimal_text(n as nat),
    decreases n,
{
    if n >= 10 {
        push_decimal(n / 10, out);
    }
    let d = (n % 10) as u8;
    out.push((48u8 + d) as char);
    assert(old(out)@ + decimal_text(n as nat) =~= out@);
}

/// The decimal text of an unsigned number.
pub fn decimal(n: u64) -> (r: String)
    ensures
        r@ == decimal_text(n as nat),
{
    let mut chars: Vec<char> = Vec::new();
    push_decimal(n, &mut chars);
    assert(chars@ =~= decimal_text(n as nat));
    string_of(chars.as_slice())
}

/// The decimal text of a signed number.
pub fn signed_decimal(n: i64) -> (r: String)
    ensures
        r@ == signed_decimal_text(n as int),
{
    let mut chars: Vec<char> = Vec::new();
    if n < 0 {
        chars.push('-');
        let magnitude: u64 = (0i128 - (n as i128)) as u64;
        push_decimal(magnitude, &mut chars);
    } else {
        push_decimal(n as u64, &mut chars);
    }
    assert(chars@ =~= signed_decimal_text(n as int));
    string_of(chars.as_slice())
}

/// `a` followed by `b`.
pub fn joined(a: &str, b: &str) -> (r: String)
    ensures
        r@ == a@ + b@,
{
    let mut s = String::from_str(a);
    s.append(b);
    s
}

/// The non-blank parts, trimmed, in order.
pub open spec fn trimmed_nonblank(parts: Seq<String>) -> Seq<Seq<char>>
    decreases parts.len(),
{
    if parts.len() == 0 {
        Seq::empty()
    } else {
        let rest = trimmed_nonblank(parts.drop_last());
        let part = trimmed(parts.last()@);
        if part.len() == 0 {
            rest
        } else {
            rest.push(part)
        }
    }
}

/// Texts joined with `separator` between each two.
pub open spec fn join_with(texts: Seq<Seq<char>>, separator: Seq<char>) -> Seq<char>
    decreases texts.len(),
{
    if texts.len() == 0 {
        Seq::empty()
    } else if texts.len() == 1 {
        texts[0]
    } else {
        join_with(texts.drop_last(), separator) + separator + texts.last()
    }
}

/// Trims each part, drops the blank ones, and joins the rest with
/// `separator`.
pub fn join_trimmed_nonblank(parts: &Vec<String>, separator: &str) -> (r: String)
    ensures
        r@ == join_with(trimmed_nonblank(parts@), separator@),
{
    let mut out = String::new();
    let mut any = false;
    let mut i: usize = 0;
    while i < parts.len()
        invariant
            i <= parts@.len(),
            out@ == join_with(trimmed_nonblank(parts@.subrange(0, i as int)), separator@),
            any == (trimmed_nonblank(parts@.subrange(0, i as int)).len() > 0),
        decreases parts.len() - i,
    {
        let ghost before = parts@.subrange(0, i as int);
        let ghost after = parts@.subrange(0, i + 1);
        assert(after.drop_last() =~= before);
        assert(after.last() == parts@[i as int]);
        let part = trim_text(parts[i].as_str());
        proof {
            let kept = trimmed_nonblank(before);
            assert(trimmed_nonblank(after) == (if part@.len() == 0 {
                kept
            } else {
                kept.push(part@)
            }));
            assert(kept.push(part@).drop_last() =~= kept);
        }
        if !part.as_str().is_empty() {
            if any {
                let with_separator = joined(out.as_str(), separator);
                out = joined(with_separator.as_str(), part.as_str());
            } else {
                out = part;
            }
            any = true;
        }
        i = i + 1;
    }
    assert(parts@.subrange(0, parts@.len() as int) =~= parts@);
    out
}

/// `std::path::Path::join` of a relative file name onto a directory, with
/// the `/` separator: nothing is inserted after an empty directory or one
/// that already ends in a separator.
pub open spec fn joined_path(dir: Seq<char>, name: Seq<char>) -> Seq<char> {
    if dir.len() == 0 {
        name
    } else if dir.last() == '/' {
        dir + name
    } else {
        dir + ("/"@ + name)
    }
}

/// Joins a relative file name onto a directory path.
pub fn path_join(dir: &str, name: &str) -> (r: String)
    ensures
        r@ == joined_path(dir@, name@),
{
    let chars = chars_of(dir);
    if chars.len() == 0 {
        return String::from_str(name);
    }
    if chars[chars.len() - 1] == '/' {
        return joined(dir, name);
    }
    let tail = joined("/", name);
    joined(dir, tail.as_str())
}

/// The text `std::string::FromUtf8Error` displays for bytes that are not
/// valid UTF-8.
pub uninterp spec fn spec_utf8_error_text(bytes: Seq<u8>) -> Seq<char>;

/// Decodes UTF-8 through `String::from_utf8`: valid bytes give their text,
/// other bytes the error's display text, which `spec_utf8_error_text`
/// names.
#[verifier::external_body]
pub(crate) fn utf8_text(bytes: Vec<u8>) -> (r: Result<String, String>)
    ensures
        r is Ok <==> valid_utf8(bytes@),
        r matches Ok(s) ==> s@ == decode_utf8(bytes@),
        r matches Err(t) ==> t@ == spec_utf8_error_text(bytes@),
{
    String::from_utf8(bytes).map_err(|error| error.to_string())
}

/// Every character of `s` is white space.
pub open spec fn all_white_space(s: Seq<char>) -> bool {
    forall|i: int| 0 <= i < s.len() ==> is_white_space(#[trigger] s[i])
}

/// Text made of white space alone trims from the start to nothing.
proof fn lemma_trim_start_of_white_space(s: Seq<char>)
    requires
        all_white_space(s),
    ensures
        trim_start(s).len() == 0,
    decreases s.len(),
{
    if s.len() > 0 {
        assert(all_white_space(s.drop_first()));
        lemma_trim_start_of_white_space(s.drop_first());
    }
}

/// Leading white space does not survive `trim_start`.
proof fn lemma_trim_start_skips_white_space(w: Seq<char>, s: Seq<char>)
    requires
        all_white_space(w),
    ensures
        trim_start(w + s) == trim_start(s),
    decreases w.len(),
{
    if w.len() > 0 {
        assert((w + s).drop_first() =~= w.drop_first() + s);
        assert(all_white_space(w.drop_first()));
        lemma_trim_start_skips_white_space(w.drop_first(), s);
    } else {
        assert(w + s =~= s);
    }
}

/// Whatever follows a character that is not white space is kept by
/// `trim_start`.
proof fn lemma_trim_start_keeps_tail(s: Seq<char>, w: Seq<char>)
    requires
        !all_white_space(s),
    ensures
        trim_start(s + w) == trim_start(s) + w,
    decreases s.len(),
{
    if is_white_space(s[0]) {
        assert((s + w).drop_first() =~= s.drop_first() + w);
        assert(!all_white_space(s.drop_first())) by {
            let i = choose|i: int| 0 <= i < s.len() && !is_white_space(#[trigger] s[i]);
            assert(s.drop_first()[i - 1] == s[i]);
        }
        lemma_trim_start_keeps_tail(s.drop_first(), w);
        assert(trim_start(s.drop_first()) + w =~= trim_start(s) + w);
    } else {
        assert((s + w)[0] == s[0]);
    }
}

/// Trailing white space does not survive `trim_end`.
proof fn lemma_trim_end_skips_white_space(s: Seq<char>, w: Seq<char>)
    requires
        all_white_space(w),
    ensures
        trim_end(s + w) == trim_end(s),
    decreases w.len(),
{
    if w.len() > 0 {
        assert((s + w).drop_last() =~= s + w.drop_last());
        assert((s + w).last() == w.last());
        assert(all_white_space(w.drop_last()));
        lemma_trim_end_skips_white_space(s, w.drop_last());
    } else {
        assert(s + w =~= s);
    }
}

/// White space around a text changes nothing once it is trimmed.
pub proof fn lemma_trimmed_ignores_surrounding_white_space(
    leading: Seq<char>,
    text: Seq<char>,
    trailing: Seq<char>,
)
    requires
        all_white_space(leading),
        all_white_space(trailing),
    ensures
        trimmed(leading + text + trailing) == trimmed(text),
{
    assert(leading + text + trailing =~= leading + (text + trailing));
    lemma_trim_start_skips_white_space(leading, text + trailing);
    if all_white_space(text) {
        assert(all_white_space(text + trailing));
        lemma_trim_start_of_white_space(text + trailing);
        lemma_trim_start_of_white_space(text);
    } else {
        lemma_trim_start_keeps_tail(text, trailing);
        lemma_trim_end_skips_white_space(trim_start(text), trailing);
    }
}

} // verus!
