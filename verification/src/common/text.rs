//! Text helpers over character sequences: searching, prefix and suffix handling,
//! decimal rendering and the conversions between `str`, `Vec<char>` and bytes.
use vstd::prelude::*;
use vstd::utf8::*;

verus! {

broadcast use vstd::utf8::is_ascii_chars_encode_utf8, vstd::utf8::encode_utf8_valid_utf8,
    vstd::utf8::encode_utf8_decode_utf8;

/// `needle` occurs in `hay` starting at index `k`.
pub open spec fn occurs_at(hay: Seq<char>, needle: Seq<char>, k: int) -> bool {
    0 <= k && k + needle.len() <= hay.len() && hay.subrange(k, k + needle.len()) == needle
}

/// Index of the first occurrence of `needle` in `hay` at or after `from`.
pub open spec fn find_from(hay: Seq<char>, needle: Seq<char>, from: int) -> Option<int>
    decreases hay.len() + 1 - from,
{
    if from < 0 || from + needle.len() > hay.len() {
        None
    } else if occurs_at(hay, needle, from) {
        Some(from)
    } else {
        find_from(hay, needle, from + 1)
    }
}

/// Index of the first occurrence of `needle` in `hay` (what `str::find` gives, counted in characters).
pub open spec fn find(hay: Seq<char>, needle: Seq<char>) -> Option<int> {
    find_from(hay, needle, 0)
}

pub open spec fn starts_with(s: Seq<char>, p: Seq<char>) -> bool {
    p.len() <= s.len() && s.subrange(0, p.len() as int) == p
}

pub open spec fn ends_with(s: Seq<char>, p: Seq<char>) -> bool {
    p.len() <= s.len() && s.subrange(s.len() - p.len(), s.len() as int) == p
}

/// What `str::strip_prefix(p).unwrap_or(s)` gives.
pub open spec fn strip_prefix_or_keep(s: Seq<char>, p: Seq<char>) -> Seq<char> {
    if starts_with(s, p) { s.subrange(p.len() as int, s.len() as int) } else { s }
}

/// What `str::strip_suffix(p).unwrap_or(s)` gives.
pub open spec fn strip_suffix_or_keep(s: Seq<char>, p: Seq<char>) -> Seq<char> {
    if ends_with(s, p) { s.subrange(0, s.len() - p.len()) } else { s }
}

/// Decimal rendering of a natural number, most significant digit first.
pub open spec fn decimal(n: nat) -> Seq<char>
    decreases n,
{
    if n < 10 {
        seq![(48 + n) as char]
    } else {
        decimal(n / 10).push((48 + n % 10) as char)
    }
}

/// The ASCII characters that `bytes` stand for, one character per byte.
pub open spec fn ascii_chars_of(bytes: Seq<u8>) -> Seq<char> {
    Seq::new(bytes.len(), |i: int| bytes[i] as char)
}

/// The characters of `s`, in order.
pub fn chars_of(s: &str) -> (r: Vec<char>)
    ensures
        r@ == s@,
{
    let n = s.unicode_len();
    let mut out: Vec<char> = Vec::new();
    let mut i: usize = 0;
    while i < n
        invariant
            n == s@.len(),
            i <= n,
            out@ == s@.subrange(0, i as int),
        decreases n - i,
    {
        out.push(s.get_char(i));
        i = i + 1;
        assert(out@ =~= s@.subrange(0, i as int));
    }
    assert(out@ =~= s@);
    out
}

/// `String::push`.
#[verifier::external_body]
fn push_char(s: &mut String, c: char)
    ensures
        final(s)@ == old(s)@.push(c),
{
    s.push(c);
}

/// A `String` holding `chars`, in order.
pub(crate) fn string_from_chars(chars: &[char]) -> (r: String)
    ensures
        r@ == chars@,
{
    let mut out = String::new();
    let mut i: usize = 0;
    while i < chars.len()
        invariant
            i <= chars@.len(),
            out@ == chars@.subrange(0, i as int),
        decreases chars@.len() - i,
    {
        push_char(&mut out, chars[i]);
        proof {
            assert(chars@.subrange(0, i + 1) =~= chars@.subrange(0, i as int).push(chars@[i as int]));
        }
        i = i + 1;
    }
    proof {
        assert(chars@.subrange(0, chars@.len() as int) =~= chars@);
    }
    out
}

/// A `String` holding the ASCII bytes `bytes`.
pub fn string_from_ascii(bytes: Vec<u8>) -> (r: String)
    requires
        forall|i: int| 0 <= i < bytes@.len() ==> bytes@[i] < 128,
    ensures
        r@ == ascii_chars_of(bytes@),
{
    let ghost chars = ascii_chars_of(bytes@);
    proof {
        assert(is_ascii_chars(chars));
        assert(encode_utf8(chars) =~= bytes@) by {
            assert forall|i: int| 0 <= i < chars.len() implies encode_utf8(chars)[i] == bytes@[i] by {
                assert(chars[i] as u8 == encode_utf8(chars)[i]);
                assert((bytes@[i] as char) as u8 == bytes@[i]);
            }
        }
    }
    let r = crate::common::codec::string_from_utf8(bytes);
    match r {
        Some(s) => s,
        None => {
            proof { assert(false); }
            String::new()
        }
    }
}

/// `needle` occurs in `hay` at index `k`, checked character by character.
fn occurs_at_exec(hay: &Vec<char>, needle: &Vec<char>, k: usize) -> (r: bool)
    requires
        k + needle@.len() <= hay@.len(),
    ensures
        r == occurs_at(hay@, needle@, k as int),
{
    let mut j: usize = 0;
    while j < needle.len()
        invariant
            k + needle@.len() <= hay@.len(),
            hay@.len() == hay.len(),
            needle@.len() == needle.len(),
            j <= needle@.len(),
            forall|t: int| 0 <= t < j ==> hay@[k + t] == needle@[t],
        decreases needle@.len() - j,
    {
        if hay[k + j] != needle[j] {
            proof {
                assert(hay@.subrange(k as int, k + needle@.len())[j as int] != needle@[j as int]);
            }
            return false;
        }
        j = j + 1;
    }
    assert(hay@.subrange(k as int, k + needle@.len()) =~= needle@);
    true
}

/// First index at or after `from` where `needle` occurs in `hay`.
pub fn find_chars_from(hay: &Vec<char>, needle: &Vec<char>, from: usize) -> (r: Option<usize>)
    ensures
        r matches Some(k) ==> find_from(hay@, needle@, from as int) == Some(k as int),
        r is None ==> find_from(hay@, needle@, from as int) is None,
{
    if needle.len() > hay.len() || from > hay.len() - needle.len() {
        return None;
    }
    let last = hay.len() - needle.len();
    let mut k: usize = from;
    while k <= last
        invariant
            last + needle@.len() == hay@.len(),
            from <= k,
            k <= last + 1,
            find_from(hay@, needle@, from as int) == find_from(hay@, needle@, k as int),
        decreases last + 1 - k,
    {
        if occurs_at_exec(hay, needle, k) {
            return Some(k);
        }
        if k == last {
            return None;
        }
        k = k + 1;
    }
    None
}

/// First index where `needle` occurs in `hay`.
pub fn find_chars(hay: &Vec<char>, needle: &Vec<char>) -> (r: Option<usize>)
    ensures
        r matches Some(k) ==> find(hay@, needle@) == Some(k as int),
        r is None ==> find(hay@, needle@) is None,
{
    find_chars_from(hay, needle, 0)
}

/// First index at or after `from` holding `c`.
pub fn find_char_from(hay: &Vec<char>, c: char, from: usize) -> (r: Option<usize>)
    ensures
        r matches Some(k) ==> find_from(hay@, seq![c], from as int) == Some(k as int),
        r is None ==> find_from(hay@, seq![c], from as int) is None,
{
    let needle = vec![c];
    assert(needle@ =~= seq![c]);
    find_chars_from(hay, &needle, from)
}

pub fn starts_with_chars(s: &Vec<char>, p: &Vec<char>) -> (r: bool)
    ensures
        r == starts_with(s@, p@),
{
    if p.len() > s.len() {
        return false;
    }
    occurs_at_exec(s, p, 0)
}

pub fn ends_with_chars(s: &Vec<char>, p: &Vec<char>) -> (r: bool)
    ensures
        r == ends_with(s@, p@),
{
    if p.len() > s.len() {
        return false;
    }
    occurs_at_exec(s, p, s.len() - p.len())
}

/// The characters of `s` from `lo` (inclusive) to `hi` (exclusive).
pub fn sub_chars(s: &Vec<char>, lo: usize, hi: usize) -> (r: Vec<char>)
    requires
        lo <= hi <= s@.len(),
    ensures
        r@ == s@.subrange(lo as int, hi as int),
{
    let mut out: Vec<char> = Vec::new();
    let mut i = lo;
    while i < hi
        invariant
            lo <= i <= hi,
            hi <= s@.len(),
            out@ == s@.subrange(lo as int, i as int),
        decreases hi - i,
    {
        out.push(s[i]);
        i = i + 1;
        assert(out@ =~= s@.subrange(lo as int, i as int));
    }
    out
}

/// Decimal digits of `n` as ASCII bytes.
fn decimal_bytes(n: u64) -> (r: Vec<u8>)
    ensures
        ascii_chars_of(r@) == decimal(n as nat),
        forall|i: int| 0 <= i < r@.len() ==> r@[i] < 128,
    decreases n,
{
    if n < 10 {
        let v = vec![(48 + n) as u8];
        assert(ascii_chars_of(v@) =~= decimal(n as nat));
        v
    } else {
        let mut v = decimal_bytes(n / 10);
        let ghost prev = v@;
        v.push((48 + n % 10) as u8);
        assert(ascii_chars_of(v@) =~= ascii_chars_of(prev).push((48 + n % 10) as char));
        v
    }
}

/// `n.to_string()` for an unsigned number.
pub fn decimal_text(n: u64) -> (r: String)
    ensures
        r@ == decimal(n as nat),
{
    string_from_ascii(decimal_bytes(n))
}

/// `s` followed by `t`.
pub fn concat2(s: &str, t: &str) -> (r: String)
    ensures
        r@ == s@ + t@,
{
    let mut out = s.to_string();
    out.append(t);
    out
}

/// `a`, `b` and `c` one after another.
pub fn concat3(a: &str, b: &str, c: &str) -> (r: String)
    ensures
        r@ == a@ + b@ + c@,
{
    let mut out = a.to_string();
    out.append(b);
    out.append(c);
    out
}


/// Decimal rendering of an integer, with a leading `-` when it is negative.
pub open spec fn signed_decimal(n: int) -> Seq<char> {
    if n < 0 {
        seq!['-'] + decimal((-n) as nat)
    } else {
        decimal(n as nat)
    }
}

/// `n.to_string()` for a signed number.
pub fn signed_decimal_text(n: i64) -> (r: String)
    ensures
        r@ == signed_decimal(n as int),
{
    if n < 0 {
        let magnitude: u64 = (0i128 - (n as i128)) as u64;
        let digits = decimal_text(magnitude);
        let mut out = "-".to_string();
        proof {
            reveal_strlit("-");
        }
        out.append(digits.as_str());
        out
    } else {
        decimal_text(n as u64)
    }
}

/// The lowercase hexadecimal digit for `d` (below 16).
pub open spec fn hex_digit(d: nat) -> char {
    if d < 10 {
        (48 + d) as char
    } else {
        (87 + d) as char
    }
}

/// The last `count` hexadecimal digits of `n`, most significant first.
pub open spec fn hex_digits(n: nat, count: nat) -> Seq<char>
    decreases count,
{
    if count == 0 {
        Seq::empty()
    } else {
        hex_digits(n / 16, (count - 1) as nat).push(hex_digit(n % 16))
    }
}

/// The hyphenated lowercase text of a UUID held as a 128-bit number:
/// 8, 4, 4, 4 and 12 hexadecimal digits joined by `-`.
pub open spec fn uuid_hyphenated(id: u128) -> Seq<char> {
    let d = hex_digits(id as nat, 32);
    d.subrange(0, 8) + seq!['-'] + d.subrange(8, 12) + seq!['-'] + d.subrange(12, 16) + seq!['-']
        + d.subrange(16, 20) + seq!['-'] + d.subrange(20, 32)
}

proof fn lemma_hex_digits_len(n: nat, count: nat)
    ensures
        hex_digits(n, count).len() == count,
    decreases count,
{
    if count > 0 {
        lemma_hex_digits_len(n / 16, (count - 1) as nat);
    }
}

/// The text of a UUID always has 36 characters, with `-` at positions 8, 13, 18 and 23.
pub proof fn law_uuid_text_shape(id: u128)
    ensures
        uuid_hyphenated(id).len() == 36,
        uuid_hyphenated(id)[8] == '-',
        uuid_hyphenated(id)[13] == '-',
        uuid_hyphenated(id)[18] == '-',
        uuid_hyphenated(id)[23] == '-',
{
    lemma_hex_digits_len(id as nat, 32);
}

/// Hexadecimal digits of the low `count` nibbles of `n` as ASCII bytes.
fn hex_bytes(n: u128, count: usize) -> (r: Vec<u8>)
    ensures
        ascii_chars_of(r@) == hex_digits(n as nat, count as nat),
        r@.len() == count,
        forall|i: int| 0 <= i < r@.len() ==> r@[i] < 128,
    decreases count,
{
    if count == 0 {
        let v: Vec<u8> = Vec::new();
        assert(ascii_chars_of(v@) =~= hex_digits(n as nat, 0));
        v
    } else {
        let mut v = hex_bytes(n / 16, count - 1);
        let ghost prev = v@;
        let d: u8 = (n % 16) as u8;
        let b: u8 = if d < 10 { 48 + d } else { 87 + d };
        v.push(b);
        assert(ascii_chars_of(v@) =~= ascii_chars_of(prev).push(hex_digit((n % 16) as nat)));
        v
    }
}

/// The hyphenated lowercase text of a UUID, as `Uuid`'s `Display` writes it.
pub fn uuid_text(id: u128) -> (r: String)
    ensures
        r@ == uuid_hyphenated(id),
{
    let digits = hex_bytes(id, 32);
    let mut out: Vec<u8> = Vec::new();
    let mut i: usize = 0;
    while i < 32
        invariant
            i <= 32,
            digits@.len() == 32,
            forall|k: int| 0 <= k < 32 ==> digits@[k] < 128,
            forall|k: int| 0 <= k < out@.len() ==> out@[k] < 128,
            ascii_chars_of(out@) == uuid_prefix(ascii_chars_of(digits@), i as int),
        decreases 32 - i,
    {
        if i == 8 || i == 12 || i == 16 || i == 20 {
            out.push(45u8);
        }
        out.push(digits[i]);
        i = i + 1;
        proof {
            lemma_uuid_prefix_step(ascii_chars_of(digits@), (i - 1) as int);
        }
        assert(ascii_chars_of(out@) =~= uuid_prefix(ascii_chars_of(digits@), i as int));
    }
    proof {
        let d = ascii_chars_of(digits@);
        lemma_uuid_prefix_full(d);
    }
    string_from_ascii(out)
}

/// The first `i` digits of `d` with the hyphens that come before them.
spec fn uuid_prefix(d: Seq<char>, i: int) -> Seq<char>
    decreases i,
{
    if i <= 0 {
        Seq::empty()
    } else if i == 8 || i == 12 || i == 16 || i == 20 {
        uuid_prefix(d, i - 1).push(d[i - 1])
    } else if i - 1 == 8 || i - 1 == 12 || i - 1 == 16 || i - 1 == 20 {
        uuid_prefix(d, i - 1).push('-').push(d[i - 1])
    } else {
        uuid_prefix(d, i - 1).push(d[i - 1])
    }
}

proof fn lemma_uuid_prefix_step(d: Seq<char>, i: int)
    requires
        0 <= i < 32,
    ensures
        uuid_prefix(d, i + 1) == (if i == 8 || i == 12 || i == 16 || i == 20 {
            uuid_prefix(d, i).push('-').push(d[i])
        } else {
            uuid_prefix(d, i).push(d[i])
        }),
{
}

proof fn lemma_uuid_prefix_full(d: Seq<char>)
    requires
        d.len() == 32,
    ensures
        uuid_prefix(d, 32) == d.subrange(0, 8) + seq!['-'] + d.subrange(8, 12) + seq!['-'] + d.subrange(12, 16)
            + seq!['-'] + d.subrange(16, 20) + seq!['-'] + d.subrange(20, 32),
{
    reveal_with_fuel(uuid_prefix, 33);
    assert(uuid_prefix(d, 32) =~= d.subrange(0, 8) + seq!['-'] + d.subrange(8, 12) + seq!['-'] + d.subrange(12, 16)
            + seq!['-'] + d.subrange(16, 20) + seq!['-'] + d.subrange(20, 32));
}

} // verus!
