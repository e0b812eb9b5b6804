//! UTF-8 text helpers: decoding wire bytes and comparing names.

use vstd::prelude::*;
use vstd::utf8::*;
use vstd::string::*;

verus! {

/// Decode `bytes` as UTF-8 with `std::str::from_utf8`.
///
/// Trusted: `from_utf8` returns `Ok` exactly when the bytes are valid UTF-8,
/// and the resulting string slice holds the characters those bytes encode.
#[verifier::external_body]
pub(crate) fn utf8_str<'a>(bytes: &'a [u8]) -> (r: Option<&'a str>)
    ensures
        r is Some <==> valid_utf8(bytes@),
        r matches Some(s) ==> s@ == decode_utf8(bytes@),
{
    std::str::from_utf8(bytes).ok()
}

/// The UTF-8 bytes of a string slice.
pub fn str_bytes(s: &str) -> (r: &[u8])
    ensures
        r@ == encode_utf8(s@),
{
    s.as_bytes()
}

/// Byte-wise equality of two slices.
pub fn bytes_eq(a: &[u8], b: &[u8]) -> (r: bool)
    ensures
        r == (a@ == b@),
{
    if a.len() != b.len() {
        return false;
    }
    let mut i: usize = 0;
    while i < a.len()
        invariant
            i <= a@.len(),
            a@.len() == b@.len(),
            forall|j: int| 0 <= j < i ==> a@[j] == b@[j],
        decreases a@.len() - i,
    {
        if a[i] != b[i] {
            return false;
        }
        i = i + 1;
    }
    proof {
        assert(a@ =~= b@);
    }
    true
}

/// Equality of two string slices, character by character.
pub fn str_eq(a: &str, b: &str) -> (r: bool)
    ensures
        r == (a@ == b@),
{
    let ab = str_bytes(a);
    let bb = str_bytes(b);
    let r = bytes_eq(ab, bb);
    proof {
        encode_utf8_decode_utf8(a@);
        encode_utf8_decode_utf8(b@);
    }
    r
}

/// What `str::to_lowercase` returns for a text.
pub uninterp spec fn lowercase(s: Seq<char>) -> Seq<char>;

/// A character in the ASCII range.
pub open spec fn is_ascii_char(c: char) -> bool {
    (c as u32) < 128
}

/// The ASCII lowercase form of a character: `A`-`Z` become `a`-`z`, every
/// other character is left as it is.
pub open spec fn ascii_lower_char(c: char) -> char {
    if 'A' <= c && c <= 'Z' {
        ((c as u32) + 32) as char
    } else {
        c
    }
}

/// The lowercase form of a text: on ASCII text, each letter lowered in
/// place; on other text, what `str::to_lowercase` returns.
pub open spec fn spec_to_lowercase(s: Seq<char>) -> Seq<char> {
    if forall|i: int| 0 <= i < s.len() ==> is_ascii_char(#[trigger] s[i]) {
        s.map_values(|c: char| ascii_lower_char(c))
    } else {
        lowercase(s)
    }
}

/// `str::to_lowercase`.
///
/// Trusted: the result is a function of the text alone, and on ASCII text
/// the Unicode lowercase mapping lowers `A`-`Z` to `a`-`z` and leaves every
/// other character unchanged. Nothing else of the Unicode case mapping is
/// stated.
#[verifier::external_body]
pub(crate) fn to_lowercase(s: &str) -> (r: String)
    ensures
        r@ == lowercase(s@),
        r@ == spec_to_lowercase(s@),
{
    s.to_lowercase()
}

/// Whether `needle` occurs in `hay` as a contiguous run.
pub open spec fn contains(hay: Seq<char>, needle: Seq<char>) -> bool {
    exists|i: int| 0 <= i && i + needle.len() <= hay.len() && #[trigger] hay.subrange(i, i + needle.len()) == needle
}

/// Whether `needle` occurs in `hay` as a contiguous run of characters
/// (the empty needle occurs everywhere): a search at every start position.
pub(crate) fn str_contains(hay: &str, needle: &str) -> (r: bool)
    ensures
        r == contains(hay@, needle@),
{
    let n = hay.unicode_len();
    let m = needle.unicode_len();
    if m > n {
        return false;
    }
    let mut i: usize = 0;
    while i <= n - m
        invariant
            m <= n,
            n == hay@.len(),
            m == needle@.len(),
            i <= n - m + 1,
            forall|j: int| 0 <= j < i ==> #[trigger] hay@.subrange(j, j + m) != needle@,
        decreases n - m + 1 - i,
    {
        let mut k: usize = 0;
        while k < m && hay.get_char(i + k) == needle.get_char(k)
            invariant
                m <= n,
                i <= n - m,
                n == hay@.len(),
                m == needle@.len(),
                k <= m,
                forall|q: int| 0 <= q < k ==> hay@[i + q] == needle@[q],
            decreases m - k,
        {
            k = k + 1;
        }
        if k == m {
            proof {
                assert(hay@.subrange(i as int, i + m) =~= needle@);
            }
            return true;
        }
        proof {
            assert(hay@.subrange(i as int, i + m)[k as int] != needle@[k as int]);
        }
        i = i + 1;
    }
    proof {
        assert forall|j: int| 0 <= j && j + needle@.len() <= hay@.len() implies #[trigger] hay@.subrange(
            j,
            j + needle@.len(),
        ) != needle@ by {
            assert(j < i);
        }
    }
    false
}

/// The decimal digit `d` (`0..=9`) as a character.
pub open spec fn digit_char(d: nat) -> char {
    if d == 0 {
        '0'
    } else if d == 1 {
        '1'
    } else if d == 2 {
        '2'
    } else if d == 3 {
        '3'
    } else if d == 4 {
        '4'
    } else if d == 5 {
        '5'
    } else if d == 6 {
        '6'
    } else if d == 7 {
        '7'
    } else if d == 8 {
        '8'
    } else {
        '9'
    }
}

/// The decimal spelling of `n`: no sign, no leading zeros, `"0"` for zero.
pub open spec fn spec_decimal(n: nat) -> Seq<char>
    decreases n,
{
    if n < 10 {
        seq![digit_char(n)]
    } else {
        spec_decimal(n / 10).push(digit_char(n % 10))
    }
}

/// The one-character string of a decimal digit.
fn digit_str(d: u64) -> (r: &'static str)
    requires
        d < 10,
    ensures
        r@ == seq![digit_char(d as nat)],
{
    proof {
        reveal_strlit("0");
        reveal_strlit("1");
        reveal_strlit("2");
        reveal_strlit("3");
        reveal_strlit("4");
        reveal_strlit("5");
        reveal_strlit("6");
        reveal_strlit("7");
        reveal_strlit("8");
        reveal_strlit("9");
    }
    if d == 0 {
        "0"
    } else if d == 1 {
        "1"
    } else if d == 2 {
        "2"
    } else if d == 3 {
        "3"
    } else if d == 4 {
        "4"
    } else if d == 5 {
        "5"
    } else if d == 6 {
        "6"
    } else if d == 7 {
        "7"
    } else if d == 8 {
        "8"
    } else {
        "9"
    }
}

/// Append the decimal spelling of `n` to `out`.
pub fn push_decimal(out: &mut String, n: u64)
    ensures
        final(out)@ == old(out)@ + spec_decimal(n as nat),
    decreases n,
{
    if n < 10 {
        out.append(digit_str(n));
    } else {
        push_decimal(out, n / 10);
        out.append(digit_str(n % 10));
        proof {
            assert(spec_decimal(n as nat) == spec_decimal((n / 10) as nat).push(digit_char((n % 10) as nat)));
        }
    }
}

/// `s` followed by `t`, as a new string.
pub fn concat_str(s: &str, t: &str) -> (r: String)
    ensures
        r@ == s@ + t@,
{
    let mut r = s.to_owned();
    r.append(t);
    r
}

/// The message of a failed name lookup.
pub open spec fn spec_unknown_name(kind: Seq<char>, name: Seq<char>, hint: Seq<char>) -> Seq<char> {
    "unknown "@ + kind + ": "@ + name + " (try: "@ + hint + ")"@
}

/// `unknown {kind}: {name} (try: {hint})`.
pub fn unknown_name_error(kind: &str, name: &str, hint: &str) -> (r: String)
    ensures
        r@ == spec_unknown_name(kind@, name@, hint@),
{
    let mut r = concat_str("unknown ", kind);
    r.append(": ");
    r.append(name);
    r.append(" (try: ");
    r.append(hint);
    r.append(")");
    r
}

/// Whether `cs` ends with a NUL character.
pub open spec fn ends_with_nul(cs: Seq<char>) -> bool {
    cs.len() > 0 && cs.last() == '\0'
}

/// `bytes` with every trailing zero byte removed.
pub open spec fn strip_trailing_zeros(bytes: Seq<u8>) -> Seq<u8>
    decreases bytes.len(),
{
    if bytes.len() > 0 && bytes.last() == 0 {
        strip_trailing_zeros(bytes.drop_last())
    } else {
        bytes
    }
}

/// The text a NUL-padded UTF-8 payload carries: trailing NULs are dropped.
/// `None` when the payload is not valid UTF-8.
pub open spec fn padded_text(bytes: Seq<u8>) -> Option<Seq<char>> {
    if valid_utf8(bytes) {
        Some(decode_utf8(strip_trailing_zeros(bytes)))
    } else {
        None
    }
}

pub proof fn lemma_strip_is_prefix(bytes: Seq<u8>)
    ensures
        strip_trailing_zeros(bytes).len() <= bytes.len(),
        strip_trailing_zeros(bytes) == bytes.subrange(0, strip_trailing_zeros(bytes).len() as int),
        forall|i: int|
            strip_trailing_zeros(bytes).len() <= i < bytes.len() ==> #[trigger] bytes[i] == 0,
        strip_trailing_zeros(bytes).len() > 0 ==> strip_trailing_zeros(bytes).last() != 0,
    decreases bytes.len(),
{
    if bytes.len() > 0 && bytes.last() == 0 {
        lemma_strip_is_prefix(bytes.drop_last());
        let t = strip_trailing_zeros(bytes.drop_last());
        assert(t == bytes.subrange(0, t.len() as int));
        assert forall|i: int| t.len() <= i < bytes.len() implies #[trigger] bytes[i] == 0 by {
            if i < bytes.len() - 1 {
                assert(bytes.drop_last()[i] == bytes[i]);
            }
        }
    } else {
        assert(bytes == bytes.subrange(0, bytes.len() as int));
    }
}

pub proof fn lemma_zeros_valid(z: Seq<u8>)
    requires
        forall|i: int| 0 <= i < z.len() ==> #[trigger] z[i] == 0,
    ensures
        valid_utf8(z),
    decreases z.len(),
{
    if z.len() > 0 {
        reveal_with_fuel(valid_utf8, 2);
        let rest = z.drop_first();
        lemma_zeros_valid(rest);
        assert(valid_utf8(seq![z[0]])) by {
            reveal_with_fuel(valid_utf8, 2);
            assert(pop_first_scalar(seq![z[0]]) =~= Seq::<u8>::empty());
        }
        valid_utf8_concat(seq![z[0]], rest);
        assert(seq![z[0]] + rest =~= z);
    }
}

/// Validity of a NUL-padded payload is decided by its unpadded prefix.
pub proof fn lemma_valid_iff_stripped_valid(bytes: Seq<u8>)
    ensures
        valid_utf8(bytes) <==> valid_utf8(strip_trailing_zeros(bytes)),
{
    lemma_strip_is_prefix(bytes);
    let t = strip_trailing_zeros(bytes);
    let k = t.len() as int;
    let z = bytes.subrange(k, bytes.len() as int);
    assert forall|i: int| 0 <= i < z.len() implies #[trigger] z[i] == 0 by {
        assert(z[i] == bytes[k + i]);
    }
    lemma_zeros_valid(z);
    assert(t + z =~= bytes);
    if valid_utf8(t) {
        valid_utf8_concat(t, z);
    }
    if valid_utf8(bytes) {
        if k < bytes.len() {
            assert(bytes[k] == 0);
            assert(is_leading_byte_width_1(bytes[k]));
            is_char_boundary_iff_is_leading_byte(bytes, k);
        } else {
            is_char_boundary_start_end_of_seq(bytes);
        }
        valid_utf8_split(bytes, k);
    }
}

/// The UTF-8 encoding of a sequence ending in `c` ends with the encoding of `c`.
proof fn lemma_encode_utf8_push(cs: Seq<char>, c: char)
    ensures
        encode_utf8(cs.push(c)) == encode_utf8(cs) + encode_scalar(c as u32),
    decreases cs.len(),
{
    if cs.len() == 0 {
        assert(cs.push(c).drop_first() =~= Seq::<char>::empty());
        assert(encode_utf8(Seq::<char>::empty()) =~= Seq::<u8>::empty());
        assert(encode_utf8(cs.push(c)) =~= encode_scalar(c as u32));
        assert(encode_utf8(cs) + encode_scalar(c as u32) =~= encode_scalar(c as u32));
    } else {
        lemma_encode_utf8_push(cs.drop_first(), c);
        assert(cs.push(c).drop_first() =~= cs.drop_first().push(c));
        assert(encode_utf8(cs.push(c)) =~= encode_scalar(cs[0] as u32) + (encode_utf8(
            cs.drop_first(),
        ) + encode_scalar(c as u32)));
    }
}

proof fn lemma_scalar_encoding_nonzero_end(c: char)
    requires
        c != '\0',
    ensures
        encode_scalar(c as u32).len() > 0,
        encode_scalar(c as u32).last() != 0,
{
    char_is_scalar(c);
    let v = c as u32;
    assert(v != 0);
    if has_width_1_encoding(v) {
        assert((v & 0x7f) as u8 != 0) by (bit_vector)
            requires
                v != 0,
                v <= 0x7f,
        ;
    } else {
        assert((0x80 | (v & 0x3f) as u8) != 0) by (bit_vector);
    }
}

/// Text that does not end in NUL encodes to bytes that do not end in zero.
pub proof fn lemma_encode_no_trailing_zero(cs: Seq<char>)
    requires
        !ends_with_nul(cs),
    ensures
        strip_trailing_zeros(encode_utf8(cs)) == encode_utf8(cs),
        strip_trailing_zeros(encode_utf8(cs) + seq![0u8]) == encode_utf8(cs),
{
    let e = encode_utf8(cs);
    if cs.len() > 0 {
        let init = cs.drop_last();
        assert(init.push(cs.last()) =~= cs);
        lemma_encode_utf8_push(init, cs.last());
        lemma_scalar_encoding_nonzero_end(cs.last());
        assert(e.last() != 0);
    } else {
        assert(e =~= Seq::<u8>::empty());
    }
    let ez = e + seq![0u8];
    assert(ez.drop_last() =~= e);
    assert(ez.len() > 0 && ez.last() == 0);
    assert(strip_trailing_zeros(ez) == strip_trailing_zeros(ez.drop_last()));
}

} // verus!

verus! {

/// Whether `cs` holds no NUL character.
pub open spec fn no_nul(cs: Seq<char>) -> bool {
    forall|i: int| 0 <= i < cs.len() ==> #[trigger] cs[i] != '\0'
}

proof fn lemma_scalar_encoding_nonzero(c: char)
    requires
        c != '\0',
    ensures
        forall|i: int|
            0 <= i < encode_scalar(c as u32).len() ==> #[trigger] encode_scalar(c as u32)[i] != 0,
{
    char_is_scalar(c);
    let v = c as u32;
    assert(v != 0);
    if v <= 0x7f {
        assert((v & 0x7f) as u8 != 0) by (bit_vector)
            requires
                v != 0,
                v <= 0x7f,
        ;
    }
    assert((0xC0 | ((v >> 6) & 0x1F) as u8) != 0) by (bit_vector);
    assert((0xE0 | ((v >> 12) & 0x0F) as u8) != 0) by (bit_vector);
    assert((0xF0 | ((v >> 18) & 0x7) as u8) != 0) by (bit_vector);
    assert((0x80 | (v & 0x3F) as u8) != 0) by (bit_vector);
    assert((0x80 | ((v >> 6) & 0x3F) as u8) != 0) by (bit_vector);
    assert((0x80 | ((v >> 12) & 0x3F) as u8) != 0) by (bit_vector);
}

/// Text without NUL characters encodes to bytes without zero bytes.
pub proof fn lemma_encode_no_zero_byte(cs: Seq<char>)
    requires
        no_nul(cs),
    ensures
        forall|i: int| 0 <= i < encode_utf8(cs).len() ==> #[trigger] encode_utf8(cs)[i] != 0,
    decreases cs.len(),
{
    if cs.len() > 0 {
        let rest = cs.drop_first();
        assert(no_nul(rest)) by {
            assert forall|i: int| 0 <= i < rest.len() implies #[trigger] rest[i] != '\0' by {
                assert(rest[i] == cs[i + 1]);
            }
        }
        lemma_encode_no_zero_byte(rest);
        assert(cs[0] != '\0');
        lemma_scalar_encoding_nonzero(cs[0]);
        let e = encode_utf8(cs);
        let h = encode_scalar(cs[0] as u32);
        assert(e == h + encode_utf8(rest));
        assert forall|i: int| 0 <= i < e.len() implies #[trigger] e[i] != 0 by {
            if i < h.len() {
                assert(e[i] == h[i]);
            } else {
                assert(e[i] == encode_utf8(rest)[i - h.len()]);
            }
        }
    }
}

} // verus!

verus! {

// ---------------------------------------------------------------------------
// `anchor|value` pieces

/// The index of the first `'|'` at or after `from`.
pub open spec fn spec_first_bar(cs: Seq<char>, from: int) -> Option<int>
    decreases cs.len() - from,
{
    if from < 0 || from >= cs.len() {
        None
    } else if cs[from] == '|' {
        Some(from)
    } else {
        spec_first_bar(cs, from + 1)
    }
}

/// The index of the last `'|'` before `upto`.
pub open spec fn spec_last_bar(cs: Seq<char>, upto: int) -> Option<int>
    decreases upto,
{
    if upto <= 0 || upto > cs.len() {
        None
    } else if cs[upto - 1] == '|' {
        Some(upto - 1)
    } else {
        spec_last_bar(cs, upto - 1)
    }
}

/// The text before the first `'|'` (all of it when there is none):
/// `split('|').next()`.
pub open spec fn spec_first_piece(cs: Seq<char>) -> Seq<char> {
    match spec_first_bar(cs, 0) {
        Some(k) => cs.subrange(0, k),
        None => cs,
    }
}

/// The text after the last `'|'` (all of it when there is none):
/// `split('|').next_back()`.
pub open spec fn spec_last_piece(cs: Seq<char>) -> Seq<char> {
    match spec_last_bar(cs, cs.len() as int) {
        Some(k) => cs.subrange(k + 1, cs.len() as int),
        None => cs,
    }
}

proof fn lemma_first_bar(cs: Seq<char>, from: int)
    ensures
        spec_first_bar(cs, from) matches Some(k) ==> from <= k < cs.len(),
    decreases cs.len() - from,
{
    if 0 <= from < cs.len() && cs[from] != '|' {
        lemma_first_bar(cs, from + 1);
    }
}

proof fn lemma_last_bar(cs: Seq<char>, upto: int)
    ensures
        spec_last_bar(cs, upto) matches Some(k) ==> 0 <= k < upto,
    decreases upto,
{
    if 0 < upto <= cs.len() && cs[upto - 1] != '|' {
        lemma_last_bar(cs, upto - 1);
    }
}

/// `s.split('|').next()`.
pub fn first_piece(s: &str) -> (r: &str)
    ensures
        r@ == spec_first_piece(s@),
{
    let n = s.unicode_len();
    let mut i: usize = 0;
    while i < n
        invariant
            i <= n,
            n == s@.len(),
            spec_first_bar(s@, 0) == spec_first_bar(s@, i as int),
        decreases n - i,
    {
        if s.get_char(i) == '|' {
            return s.substring_char(0, i);
        }
        i = i + 1;
    }
    s
}

/// `s.split('|').next_back()`.
pub fn last_piece(s: &str) -> (r: &str)
    ensures
        r@ == spec_last_piece(s@),
{
    let n = s.unicode_len();
    let mut i: usize = n;
    while i > 0
        invariant
            i <= n,
            n == s@.len(),
            spec_last_bar(s@, n as int) == spec_last_bar(s@, i as int),
        decreases i,
    {
        if s.get_char(i - 1) == '|' {
            return s.substring_char(i, n);
        }
        i = i - 1;
    }
    s
}

// ---------------------------------------------------------------------------
// Float syntax

pub open spec fn is_digit(c: char) -> bool {
    '0' <= c && c <= '9'
}

/// The code of `c` with ASCII uppercase folded to lowercase.
pub open spec fn ascii_lower(c: char) -> int {
    if 'A' <= c && c <= 'Z' {
        (c as u32) + 32
    } else {
        c as u32 as int
    }
}

/// Whether `cs` spells `word` (lowercase ASCII) ignoring ASCII case.
pub open spec fn spells(cs: Seq<char>, word: Seq<char>) -> bool {
    cs.len() == word.len() && forall|i: int| 0 <= i < cs.len() ==> #[trigger] ascii_lower(cs[i]) == word[i] as u32
}

/// The end of the run of digits and `'.'` that starts at `from`.
pub open spec fn spec_mantissa_end(cs: Seq<char>, from: int) -> int
    decreases cs.len() - from,
{
    if from < 0 || from >= cs.len() || !(is_digit(cs[from]) || cs[from] == '.') {
        from
    } else {
        spec_mantissa_end(cs, from + 1)
    }
}

/// How many of `cs[from..to]` satisfy `digit` (digits when `true`, dots when
/// `false`).
pub open spec fn spec_count(cs: Seq<char>, from: int, to: int, digit: bool) -> nat
    decreases to - from,
{
    if from >= to || from < 0 || to > cs.len() {
        0
    } else {
        (if (digit && is_digit(cs[from])) || (!digit && cs[from] == '.') {
            1nat
        } else {
            0nat
        }) + spec_count(cs, from + 1, to, digit)
    }
}

/// `Exp ::= ('e' | 'E') Sign? Digit+`, from just after the `e` to the end.
pub open spec fn spec_exponent_ok(cs: Seq<char>, from: int) -> bool {
    let start = if from < cs.len() && (cs[from] == '+' || cs[from] == '-') {
        from + 1
    } else {
        from
    };
    start < cs.len() && forall|i: int| start <= i < cs.len() ==> #[trigger] is_digit(cs[i])
}

/// `Number ::= ( Digit+ | Digit+ '.' Digit* | Digit* '.' Digit+ ) Exp?`
pub open spec fn spec_is_number(cs: Seq<char>) -> bool {
    let m = spec_mantissa_end(cs, 0);
    &&& spec_count(cs, 0, m, true) >= 1
    &&& spec_count(cs, 0, m, false) <= 1
    &&& (m == cs.len() || ((cs[m] == 'e' || cs[m] == 'E') && spec_exponent_ok(cs, m + 1)))
}

/// Rust's float syntax, the text `f32::from_str` accepts:
/// `Sign? ( 'inf' | 'infinity' | 'nan' | Number )`, the words in any ASCII
/// case.
pub open spec fn spec_is_float_text(cs: Seq<char>) -> bool {
    let body = if cs.len() > 0 && (cs[0] == '+' || cs[0] == '-') {
        cs.drop_first()
    } else {
        cs
    };
    spells(body, "inf"@) || spells(body, "infinity"@) || spells(body, "nan"@) || spec_is_number(body)
}

fn lower_eq(c: char, w: char) -> (r: bool)
    ensures
        r == (ascii_lower(c) == w as u32),
{
    if 'A' <= c && c <= 'Z' {
        (c as u32) + 32 == w as u32
    } else {
        c as u32 == w as u32
    }
}

/// Whether `s[from..]` spells `word` (lowercase ASCII) ignoring ASCII case.
fn spells_at(s: &str, from: usize, n: usize, word: &str) -> (r: bool)
    requires
        n == s@.len(),
        from <= n,
    ensures
        r == spells(s@.subrange(from as int, n as int), word@),
{
    let wn = word.unicode_len();
    if n - from != wn {
        return false;
    }
    let mut i: usize = 0;
    while i < wn
        invariant
            i <= wn,
            wn == word@.len(),
            n - from == wn,
            n == s@.len(),
            from <= n,
            forall|k: int| 0 <= k < i ==> #[trigger] ascii_lower(s@.subrange(from as int, n as int)[k]) == word@[k] as u32,
        decreases wn - i,
    {
        if !lower_eq(s.get_char(from + i), word.get_char(i)) {
            proof {
                assert(ascii_lower(s@.subrange(from as int, n as int)[i as int]) != word@[i as int] as u32);
            }
            return false;
        }
        i = i + 1;
    }
    true
}

/// The mantissa run of `s[start..]`: where it ends, and how many digits and
/// dots it holds.
fn scan_mantissa(s: &str, start: usize, n: usize) -> (r: (usize, usize, usize))
    requires
        n == s@.len(),
        start <= n,
    ensures
        start <= r.0 <= n,
        r.0 - start == spec_mantissa_end(s@.subrange(start as int, n as int), 0),
        r.1 == spec_count(s@.subrange(start as int, n as int), 0, r.0 - start, true),
        r.2 == spec_count(s@.subrange(start as int, n as int), 0, r.0 - start, false),
{
    let ghost body = s@.subrange(start as int, n as int);
    let mut i: usize = start;
    let mut digits: usize = 0;
    let mut dots: usize = 0;
    while i < n && (is_digit_char(s.get_char(i)) || s.get_char(i) == '.')
        invariant
            start <= i <= n,
            n == s@.len(),
            body == s@.subrange(start as int, n as int),
            spec_mantissa_end(body, 0) == spec_mantissa_end(body, i - start),
            spec_count(body, 0, i - start, true) == digits,
            spec_count(body, 0, i - start, false) == dots,
            digits + dots == i - start,
        decreases n - i,
    {
        proof {
            lemma_count_step(body, 0, (i - start) as int, true);
            lemma_count_step(body, 0, (i - start) as int, false);
        }
        if is_digit_char(s.get_char(i)) {
            digits = digits + 1;
        } else {
            dots = dots + 1;
        }
        i = i + 1;
    }
    (i, digits, dots)
}

/// Whether `s[p..]` is an exponent's sign and digits.
fn exponent_at(s: &str, start: usize, n: usize, p: usize) -> (r: bool)
    requires
        n == s@.len(),
        start < p <= n,
    ensures
        r == spec_exponent_ok(s@.subrange(start as int, n as int), p - start),
{
    let ghost body = s@.subrange(start as int, n as int);
    let mut j: usize = p;
    if j < n {
        let sign = s.get_char(j);
        if sign == '+' || sign == '-' {
            j = j + 1;
        }
    }
    let ghost estart = j - start;
    proof {
        if p < n {
            assert(body[p - start] == s@[p as int]);
        }
        assert(estart == (if p - start < body.len() && (body[p - start] == '+' || body[p - start] == '-') {
            p - start + 1
        } else {
            p - start
        }));
    }
    if j >= n {
        return false;
    }
    let mut k: usize = j;
    while k < n
        invariant
            start <= j <= k <= n,
            start < p <= n,
            n == s@.len(),
            body == s@.subrange(start as int, n as int),
            estart == j - start,
            estart == (if p - start < body.len() && (body[p - start] == '+' || body[p - start] == '-') {
                p - start + 1
            } else {
                p - start
            }),
            forall|x: int| estart <= x < k - start ==> #[trigger] is_digit(body[x]),
        decreases n - k,
    {
        if !is_digit_char(s.get_char(k)) {
            proof {
                assert(body[k - start] == s@[k as int]);
                assert(!is_digit(body[k - start]));
            }
            return false;
        }
        proof {
            assert(body[k - start] == s@[k as int]);
        }
        k = k + 1;
    }
    true
}

/// Whether `s` is in Rust's float syntax (what `f32::from_str` accepts).
pub fn is_float_text(s: &str) -> (r: bool)
    ensures
        r == spec_is_float_text(s@),
{
    let n = s.unicode_len();
    let mut start: usize = 0;
    if n > 0 {
        let c = s.get_char(0);
        if c == '+' || c == '-' {
            start = 1;
        }
    }
    let ghost body = s@.subrange(start as int, n as int);
    proof {
        if start == 1 {
            assert(body =~= s@.drop_first());
        } else {
            assert(body =~= s@);
        }
    }
    if spells_at(s, start, n, "inf") || spells_at(s, start, n, "infinity") || spells_at(s, start, n, "nan") {
        return true;
    }
    let (i, digits, dots) = scan_mantissa(s, start, n);
    if digits < 1 || dots > 1 {
        return false;
    }
    if i == n {
        return true;
    }
    let e = s.get_char(i);
    proof {
        assert(body[i - start] == e);
    }
    if e != 'e' && e != 'E' {
        return false;
    }
    exponent_at(s, start, n, i + 1)
}

fn is_digit_char(c: char) -> (r: bool)
    ensures
        r == is_digit(c),
{
    '0' <= c && c <= '9'
}

/// Counting one more character extends the count by that character.
proof fn lemma_count_step(cs: Seq<char>, from: int, to: int, digit: bool)
    requires
        0 <= from <= to < cs.len(),
    ensures
        spec_count(cs, from, to + 1, digit) == spec_count(cs, from, to, digit) + (if (digit
            && is_digit(cs[to])) || (!digit && cs[to] == '.') {
            1nat
        } else {
            0nat
        }),
    decreases to - from,
{
    if from < to {
        lemma_count_step(cs, from + 1, to, digit);
    } else {
        assert(spec_count(cs, to + 1, to + 1, digit) == 0);
        assert(spec_count(cs, to, to, digit) == 0);
    }
}

} // verus!
