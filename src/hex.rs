//! Hex-encoded numeric fields: decoding with a zero fallback, and encoding.
use vstd::prelude::*;

verus! {

broadcast use vstd::string::group_string_axioms, vstd::string::next_postcondition;

/// A digit of base 16, in either case.
pub open spec fn is_hex_digit(c: char) -> bool {
    ('0' <= c && c <= '9') || ('a' <= c && c <= 'f') || ('A' <= c && c <= 'F')
}

/// The value of a base-16 digit.
pub open spec fn digit_value(c: char) -> nat {
    if '0' <= c && c <= '9' {
        (c as nat - '0' as nat) as nat
    } else if 'a' <= c && c <= 'f' {
        (c as nat - 'a' as nat + 10) as nat
    } else {
        (c as nat - 'A' as nat + 10) as nat
    }
}

pub open spec fn all_hex_digits(s: Seq<char>) -> bool {
    forall|i: int| 0 <= i < s.len() ==> is_hex_digit(#[trigger] s[i])
}

/// The value of a sequence of base-16 digits, most significant first.
pub open spec fn digits_value(s: Seq<char>) -> nat
    decreases s.len(),
{
    if s.len() == 0 {
        0
    } else {
        digits_value(s.drop_last()) * 16 + digit_value(s.last())
    }
}

/// The text after an optional `0x` prefix.
pub open spec fn strip_0x(s: Seq<char>) -> Seq<char> {
    if s.len() >= 2 && s[0] == '0' && s[1] == 'x' {
        s.subrange(2, s.len() as int)
    } else {
        s
    }
}

/// A radix-16 numeral that fits in `u64`: at least one digit, nothing else.
pub open spec fn is_u64_numeral(s: Seq<char>) -> bool {
    s.len() > 0 && all_hex_digits(s) && digits_value(s) <= u64::MAX
}

/// The decoded value of a hex field: its number, or zero where it is no numeral.
pub open spec fn decode(s: Seq<char>) -> u64 {
    let t = strip_0x(s);
    if is_u64_numeral(t) {
        digits_value(t) as u64
    } else {
        0
    }
}

/// The decoded flag of a hex field: set exactly when the field decodes to one.
pub open spec fn decode_flag(s: Seq<char>) -> bool {
    decode(s) == 1
}

/// The characters of a string, in order.
fn chars_of(s: &str) -> (v: Vec<char>)
    ensures
        v@ == s@,
{
    let mut v: Vec<char> = Vec::new();
    for c in it: s.chars()
        invariant
            v@ == it.seq().take(it.index() as int),
    {
        v.push(c);
    }
    assert(v@ =~= s@);
    v
}

/// The value of a base-16 digit, or `None` for any other character.
fn hex_digit(c: char) -> (r: Option<u64>)
    ensures
        r is Some <==> is_hex_digit(c),
        r matches Some(v) ==> v as nat == digit_value(c) && v < 16,
{
    if '0' <= c && c <= '9' {
        Some((c as u32 - '0' as u32) as u64)
    } else if 'a' <= c && c <= 'f' {
        Some((c as u32 - 'a' as u32 + 10) as u64)
    } else if 'A' <= c && c <= 'F' {
        Some((c as u32 - 'A' as u32 + 10) as u64)
    } else {
        None
    }
}

/// A prefix of a digit sequence is worth no more than the whole.
proof fn lemma_prefix_value_le(d: Seq<char>, k: int)
    requires
        0 <= k <= d.len(),
    ensures
        digits_value(d.take(k)) <= digits_value(d),
    decreases d.len(),
{
    if k < d.len() {
        lemma_prefix_value_le(d.drop_last(), k);
        assert(d.drop_last().take(k) =~= d.take(k));
    } else {
        assert(d.take(k) =~= d);
    }
}

/// Decodes a hex-encoded unsigned integer. An optional `0x` prefix is removed,
/// then the rest is read as base-16 digits of either case; text that is
/// anything else (empty, a sign, any other character), or whose value exceeds
/// `u64`, gives zero.
pub fn hex_to_u64(hex: &str) -> (r: u64)
    ensures
        r == decode(hex@),
{
    let cs = chars_of(hex);
    let n = cs.len();
    let mut i: usize = 0;
    if n >= 2 && cs[0] == '0' && cs[1] == 'x' {
        i = 2;
    }
    let start = i;
    let ghost d = cs@.subrange(start as int, n as int);
    assert(d =~= strip_0x(hex@));
    if start == n {
        return 0;
    }
    let mut acc: u64 = 0;
    while i < n
        invariant
            start <= i <= n,
            n == cs@.len(),
            d == cs@.subrange(start as int, n as int),
            d == strip_0x(hex@),
            all_hex_digits(d.take(i - start)),
            acc as nat == digits_value(d.take(i - start)),
        decreases n - i,
    {
        let c = cs[i];
        let dv = match hex_digit(c) {
            Some(x) => x,
            None => {
                assert(d[i - start] == c);
                return 0;
            },
        };
        assert(d.take(i + 1 - start).drop_last() =~= d.take(i - start));
        assert(d.take(i + 1 - start).last() == c);
        if acc > (u64::MAX - dv) / 16 {
            assert(acc * 16 + dv > u64::MAX) by (nonlinear_arith)
                requires
                    acc > (u64::MAX - dv) / 16,
                    dv < 16,
            ;
            proof {
                lemma_prefix_value_le(d, i + 1 - start);
            }
            return 0;
        }
        assert(acc * 16 + dv <= u64::MAX) by (nonlinear_arith)
            requires
                acc <= (u64::MAX - dv) / 16,
                dv < 16,
        ;
        acc = acc * 16 + dv;
        i = i + 1;
    }
    assert(d.take(n - start) =~= d);
    acc
}

/// Decodes a hex-encoded flag: `true` exactly when the field decodes to one.
pub fn hex_to_bool(hex: &str) -> (r: bool)
    ensures
        r == decode_flag(hex@),
{
    hex_to_u64(hex) == 1
}

/// The lower-case digit for a value below 16.
pub open spec fn digit_char(d: nat) -> char {
    seq!['0', '1', '2', '3', '4', '5', '6', '7', '8', '9', 'a', 'b', 'c', 'd', 'e', 'f'][d as int]
}

/// The lower-case base-16 digits of `n`, most significant first, without leading zeros.
pub open spec fn hex_digits(n: nat) -> Seq<char>
    decreases n,
{
    if n < 16 {
        seq![digit_char(n)]
    } else {
        hex_digits(n / 16).push(digit_char(n % 16))
    }
}

/// The `0x`-prefixed lower-case hex quantity of `n`.
pub open spec fn encode(n: u64) -> Seq<char> {
    seq!['0', 'x'] + hex_digits(n as nat)
}

/// The one-character string of a digit.
fn digit_str(d: u64) -> (r: &'static str)
    requires
        d < 16,
    ensures
        r@ == seq![digit_char(d as nat)],
{
    let table = "0123456789abcdef";
    proof {
        reveal_strlit("0123456789abcdef");
    }
    let r = table.substring_char(d as usize, d as usize + 1);
    assert(r@ =~= seq![digit_char(d as nat)]);
    r
}

/// Encodes `n` as a `0x`-prefixed lower-case hex quantity, without leading zeros.
pub fn hex_quantity(n: u64) -> (r: String)
    ensures
        r@ == encode(n),
{
    let mut low_first: Vec<u64> = Vec::new();
    let mut m: u64 = n;
    let ghost mut tail: Seq<char> = Seq::empty();
    loop
        invariant_except_break
            hex_digits(n as nat) == hex_digits(m as nat) + tail,
        invariant
            tail.len() == low_first.len(),
            forall|j: int| 0 <= j < low_first.len() ==> low_first[j] < 16,
            forall|j: int|
                0 <= j < tail.len() ==> tail[j] == digit_char(
                    low_first[tail.len() - 1 - j] as nat,
                ),
        ensures
            hex_digits(n as nat) == tail,
        decreases m,
    {
        let ghost before = tail;
        low_first.push(m % 16);
        proof {
            tail = seq![digit_char((m % 16) as nat)] + before;
        }
        if m < 16 {
            break;
        }
        m = m / 16;
    }
    let mut r = String::from_str("0x");
    proof {
        reveal_strlit("0x");
    }
    let mut k: usize = low_first.len();
    while k > 0
        invariant
            k <= low_first.len(),
            tail.len() == low_first.len(),
            forall|j: int| 0 <= j < low_first.len() ==> low_first[j] < 16,
            forall|j: int|
                0 <= j < tail.len() ==> tail[j] == digit_char(
                    low_first[tail.len() - 1 - j] as nat,
                ),
            r@ == seq!['0', 'x'] + tail.take(tail.len() - k),
        decreases k,
    {
        k = k - 1;
        r.append(digit_str(low_first[k]));
        let ghost j = tail.len() - k - 1;
        assert(tail.take(j + 1) =~= tail.take(j).push(tail[j]));
    }
    assert(tail.take(tail.len() as int) =~= tail);
    r
}

proof fn lemma_digit_char(d: nat)
    requires
        d < 16,
    ensures
        is_hex_digit(digit_char(d)),
        digit_value(digit_char(d)) == d,
{
}

proof fn lemma_hex_digits(n: nat)
    ensures
        hex_digits(n).len() > 0,
        all_hex_digits(hex_digits(n)),
        digits_value(hex_digits(n)) == n,
    decreases n,
{
    if n < 16 {
        lemma_digit_char(n);
        assert(hex_digits(n).drop_last() =~= Seq::<char>::empty());
        assert(digits_value(hex_digits(n).drop_last()) == 0);
    } else {
        lemma_hex_digits(n / 16);
        lemma_digit_char(n % 16);
        let s = hex_digits(n);
        assert(s.drop_last() =~= hex_digits(n / 16));
        assert(s.last() == digit_char(n % 16));
        assert(n == (n / 16) * 16 + n % 16);
        assert forall|i: int| 0 <= i < s.len() implies is_hex_digit(#[trigger] s[i]) by {
            if i < s.len() - 1 {
                assert(s[i] == hex_digits(n / 16)[i]);
            }
        }
    }
}

/// A `0x`-prefixed run of lower-case hex digits decodes to the number it
/// denotes, whenever that number fits in `u64`; the empty text decodes to zero.
pub proof fn law_decode_numeral(d: Seq<char>)
    requires
        d.len() > 0,
        forall|i: int| 0 <= i < d.len() ==> ('0' <= #[trigger] d[i] <= '9') || ('a' <= d[i] <= 'f'),
        digits_value(d) <= u64::MAX,
    ensures
        decode(seq!['0', 'x'] + d) == digits_value(d),
        decode(Seq::empty()) == 0,
{
    let s = seq!['0', 'x'] + d;
    assert(strip_0x(s) =~= d);
}

/// Text that is no numeral, after an optional `0x`, decodes to zero.
pub proof fn law_decode_fallback(s: Seq<char>)
    requires
        !is_u64_numeral(strip_0x(s)),
    ensures
        decode(s) == 0,
{
}

/// A flag is set exactly when its field decodes to one.
pub proof fn law_flag_is_decoded_one(s: Seq<char>)
    ensures
        decode_flag(s) <==> decode(s) == 1,
{
}

/// Encoding a number and decoding the text gives the number back.
pub proof fn law_round_trip(n: u64)
    ensures
        decode(encode(n)) == n,
{
    lemma_hex_digits(n as nat);
    assert(strip_0x(encode(n)) =~= hex_digits(n as nat));
}

/// Re-encoding a decoded field and decoding it again gives the same number:
/// only the formatting (case, leading zeros) of the original is lost.
pub proof fn law_reencode(s: Seq<char>)
    ensures
        decode(encode(decode(s))) == decode(s),
{
    law_round_trip(decode(s));
}

} // verus!
