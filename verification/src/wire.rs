//! The Minecraft wire format: VarInts, length-prefixed strings, booleans and UUIDs.

use vstd::prelude::*;
use vstd::string::StringSliceAdditionalSpecFns;
use vstd::utf8::*;

verus! {

/// Errors met while reading or writing wire values.
#[derive(Debug, Clone, Copy, PartialEq, Eq)]
pub enum WireError {
    /// The input ended before the value was complete.
    UnexpectedEnd,
    /// Five bytes were read and the VarInt still had its continuation bit set.
    VarIntTooLong,
    /// A string is longer than its field allows.
    StringTooLong,
    /// A string's length prefix is negative.
    NegativeLength,
    /// A string's bytes are not valid UTF-8.
    InvalidUtf8,
    /// A count does not fit in a VarInt.
    CountTooLarge,
}

/// `128` to the power `n`.
pub open spec fn pow128(n: nat) -> nat
    decreases n,
{
    if n == 0 {
        1
    } else {
        128 * pow128((n - 1) as nat)
    }
}

/// The unsigned 32-bit pattern of a signed 32-bit integer (two's complement).
pub open spec fn as_unsigned(v: i32) -> nat {
    if v < 0 {
        (v + 0x1_0000_0000) as nat
    } else {
        v as nat
    }
}

/// The signed 32-bit integer whose two's complement pattern is `p`.
pub open spec fn as_signed(p: nat) -> int {
    if p >= 0x8000_0000 {
        p - 0x1_0000_0000
    } else {
        p as int
    }
}

/// The VarInt bytes of the pattern `v`: seven bits per byte, the least significant group
/// first, with the high bit set on every byte but the last.
pub open spec fn varint_bytes(v: nat) -> Seq<u8>
    decreases v,
{
    if v < 128 {
        seq![v as u8]
    } else {
        seq![(v % 128 + 128) as u8] + varint_bytes(v / 128)
    }
}

/// The VarInt encoding of a signed 32-bit integer.
pub open spec fn spec_varint(v: i32) -> Seq<u8> {
    varint_bytes(as_unsigned(v))
}

/// Where the first VarInt of `s` ends, looking at no more than `budget` bytes: the index just
/// past the first byte whose high bit is clear.
pub open spec fn varint_end(s: Seq<u8>, budget: nat) -> Option<nat>
    decreases budget,
{
    if budget == 0 || s.len() == 0 {
        None
    } else if s[0] < 128 {
        Some(1)
    } else {
        match varint_end(s.drop_first(), (budget - 1) as nat) {
            Some(n) => Some(n + 1),
            None => None,
        }
    }
}

/// The value held in the low seven bits of the first `n` bytes of `s`, least significant first.
pub open spec fn varint_groups(s: Seq<u8>, n: nat) -> nat
    decreases n,
{
    if n == 0 || s.len() == 0 {
        0
    } else {
        (s[0] % 128) as nat + 128 * varint_groups(s.drop_first(), (n - 1) as nat)
    }
}

/// The first VarInt of `s`, as a 32-bit pattern (bits past the 32nd are dropped), with the number
/// of bytes it takes; `None` when no byte among the first five ends it.
pub open spec fn spec_read_varint_bits(s: Seq<u8>) -> Option<(nat, nat)> {
    match varint_end(s, 5) {
        Some(n) => Some((varint_groups(s, n) % 0x1_0000_0000, n)),
        None => None,
    }
}

/// The first VarInt of `s` as a signed integer, with the number of bytes it takes.
pub open spec fn spec_read_varint(s: Seq<u8>) -> Option<(int, nat)> {
    match spec_read_varint_bits(s) {
        Some((p, n)) => Some((as_signed(p), n)),
        None => None,
    }
}

/// Reading a VarInt fails because it is too long: the first five bytes all carry the
/// continuation bit.
pub open spec fn varint_overlong(s: Seq<u8>) -> bool {
    s.len() >= 5 && forall|i: int| 0 <= i < 5 ==> #[trigger] s[i] >= 128
}

/// Appends the VarInt encoding of `value` to `out`.
pub fn write_varint(out: &mut Vec<u8>, value: i32)
    ensures
        final(out)@ == old(out)@ + spec_varint(value),
{
    let ghost start = out@;
    let mut v: u32 = if value < 0 {
        (value as i64 + 0x1_0000_0000i64) as u32
    } else {
        value as u32
    };
    assert(v == as_unsigned(value));
    while v >= 128
        invariant
            out@ + varint_bytes(v as nat) == start + spec_varint(value),
        decreases v,
    {
        let b: u8 = (v % 128 + 128) as u8;
        let ghost before = out@;
        assert(varint_bytes(v as nat) == seq![b] + varint_bytes((v / 128) as nat));
        out.push(b);
        v = v / 128;
        assert(out@ + varint_bytes(v as nat) == before + (seq![b] + varint_bytes(v as nat)));
    }
    let ghost before = out@;
    out.push(v as u8);
    assert(out@ == before + varint_bytes(v as nat));
}

/// The encoding of `value` as a fresh byte vector.
pub fn encode_varint(value: i32) -> (r: Vec<u8>)
    ensures
        r@ == spec_varint(value),
{
    let mut out: Vec<u8> = Vec::new();
    write_varint(&mut out, value);
    assert(out@ == Seq::<u8>::empty() + spec_varint(value));
    out
}

/// Bytes of `s` from `start` on, as a sequence.
pub open spec fn from(s: Seq<u8>, start: int) -> Seq<u8> {
    s.subrange(start, s.len() as int)
}

proof fn lemma_pow128_positive(n: nat)
    ensures
        pow128(n) >= 1,
    decreases n,
{
    if n > 0 {
        lemma_pow128_positive((n - 1) as nat);
    }
}

proof fn lemma_pow128_monotone(m: nat, n: nat)
    requires
        m <= n,
    ensures
        pow128(m) <= pow128(n),
    decreases n,
{
    if m < n {
        lemma_pow128_monotone(m, (n - 1) as nat);
    }
}

proof fn lemma_groups_bound(s: Seq<u8>, n: nat)
    ensures
        varint_groups(s, n) < pow128(n),
    decreases n,
{
    lemma_pow128_positive(n);
    if n > 0 && s.len() > 0 {
        lemma_groups_bound(s.drop_first(), (n - 1) as nat);
    }
}

proof fn lemma_end_bound(s: Seq<u8>, budget: nat)
    ensures
        varint_end(s, budget) matches Some(n) ==> 1 <= n <= budget && n <= s.len() && s[n - 1] < 128,
    decreases budget,
{
    if budget > 0 && s.len() > 0 && s[0] >= 128 {
        lemma_end_bound(s.drop_first(), (budget - 1) as nat);
    }
}

/// Reads the groups of `s[start..start + n]` front to back.
fn read_groups(s: &[u8], start: usize, n: usize) -> (r: u64)
    requires
        start + n <= s.len(),
        n <= 5,
    ensures
        r == varint_groups(from(s@, start as int), n as nat),
    decreases n,
{
    proof {
        lemma_groups_bound(from(s@, start as int), n as nat);
    }
    if n == 0 {
        0
    } else {
        let rest = read_groups(s, start + 1, n - 1);
        assert(from(s@, start as int).drop_first() == from(s@, start + 1));
        proof {
            lemma_groups_bound(from(s@, start + 1), (n - 1) as nat);
            lemma_pow128_monotone((n - 1) as nat, 4);
            reveal_with_fuel(pow128, 5);
            assert(pow128(4) == 268435456);
        }
        (s[start] % 128) as u64 + 128 * rest
    }
}

/// Finds where the VarInt starting at `start` ends, reading at most `budget` bytes.
fn find_varint_end(s: &[u8], start: usize, budget: usize) -> (r: Option<usize>)
    requires
        start <= s.len(),
        budget <= 5,
    ensures
        r matches Some(n) ==> varint_end(from(s@, start as int), budget as nat) == Some(n as nat),
        r is None ==> varint_end(from(s@, start as int), budget as nat) is None,
    decreases budget,
{
    if budget == 0 || start == s.len() {
        None
    } else if s[start] < 128 {
        Some(1)
    } else {
        assert(from(s@, start as int).drop_first() == from(s@, start + 1));
        match find_varint_end(s, start + 1, budget - 1) {
            Some(n) => {
                proof {
                    lemma_end_bound(from(s@, start + 1), (budget - 1) as nat);
                }
                Some(n + 1)
            },
            None => None,
        }
    }
}

proof fn lemma_end_none_cases(s: Seq<u8>, budget: nat)
    requires
        varint_end(s, budget) is None,
        budget <= 5,
    ensures
        s.len() >= budget ==> forall|i: int| 0 <= i < budget ==> #[trigger] s[i] >= 128,
        s.len() < budget ==> forall|i: int| 0 <= i < s.len() ==> #[trigger] s[i] >= 128,
    decreases budget,
{
    if budget > 0 && s.len() > 0 {
        lemma_end_none_cases(s.drop_first(), (budget - 1) as nat);
        assert forall|i: int| 0 < i < budget && i < s.len() implies #[trigger] s[i] >= 128 by {
            assert(s[i] == s.drop_first()[i - 1]);
        }
    }
}

/// Reads the VarInt at position `start` of `s`, returning its value and the number of bytes it
/// takes.
pub fn read_varint(s: &[u8], start: usize) -> (r: Result<(i32, usize), WireError>)
    requires
        start <= s.len(),
    ensures
        match r {
            Ok((v, n)) => spec_read_varint(from(s@, start as int)) == Some((v as int, n as nat)),
            Err(e) => spec_read_varint(from(s@, start as int)) is None && e == (if varint_overlong(
                from(s@, start as int),
            ) {
                WireError::VarIntTooLong
            } else {
                WireError::UnexpectedEnd
            }),
        },
{
    let ghost rest = from(s@, start as int);
    match find_varint_end(s, start, 5) {
        Some(n) => {
            proof {
                lemma_end_bound(rest, 5);
            }
            let g = read_groups(s, start, n);
            let p: u64 = g % 0x1_0000_0000;
            let v: i32 = if p >= 0x8000_0000 {
                (p as i64 - 0x1_0000_0000i64) as i32
            } else {
                p as i32
            };
            Ok((v, n))
        },
        None => {
            proof {
                lemma_end_none_cases(rest, 5);
            }
            if s.len() - start >= 5 {
                Err(WireError::VarIntTooLong)
            } else {
                proof {
                    if varint_overlong(rest) {
                        assert(false);
                    }
                }
                Err(WireError::UnexpectedEnd)
            }
        },
    }
}

proof fn lemma_varint_bytes_len(u: nat, k: nat)
    requires
        u < pow128(k),
        k >= 1,
    ensures
        1 <= varint_bytes(u).len() <= k,
    decreases u,
{
    lemma_pow128_positive(k);
    if u >= 128 {
        if k == 1 {
            assert(pow128(1) == 128 * pow128(0));
            assert(false);
        }
        assert(u / 128 < pow128((k - 1) as nat));
        lemma_varint_bytes_len(u / 128, (k - 1) as nat);
    }
}

proof fn lemma_varint_bytes_read(u: nat, rest: Seq<u8>, budget: nat)
    requires
        varint_bytes(u).len() <= budget,
    ensures
        varint_end(varint_bytes(u) + rest, budget) == Some(varint_bytes(u).len()),
        varint_groups(varint_bytes(u) + rest, varint_bytes(u).len()) == u,
    decreases u,
{
    let e = varint_bytes(u);
    if u < 128 {
        assert((e + rest)[0] == u as u8);
        assert(varint_groups((e + rest).drop_first(), 0) == 0);
    } else {
        let tail = varint_bytes(u / 128);
        assert(e == seq![(u % 128 + 128) as u8] + tail);
        assert((e + rest).drop_first() == tail + rest);
        assert((e + rest)[0] == (u % 128 + 128) as u8);
        lemma_varint_bytes_read(u / 128, rest, (budget - 1) as nat);
    }
}

/// A VarInt that reads takes between one and five bytes, and no more than the input holds.
pub proof fn lemma_varint_read_len(s: Seq<u8>)
    ensures
        spec_read_varint(s) matches Some((v, n)) ==> 1 <= n <= 5 && n <= s.len() && i32::MIN <= v
            <= i32::MAX,
{
    lemma_end_bound(s, 5);
    if let Some((p, n)) = spec_read_varint_bits(s) {
        assert(p < 0x1_0000_0000);
    }
}

/// Reading back the encoding of any `v`, whatever follows it, gives `v` and the encoding's
/// length, which is between one and five bytes.
pub proof fn lemma_varint_roundtrip(v: i32, rest: Seq<u8>)
    ensures
        1 <= spec_varint(v).len() <= 5,
        spec_read_varint(spec_varint(v) + rest) == Some((v as int, spec_varint(v).len())),
{
    let u = as_unsigned(v);
    reveal_with_fuel(pow128, 6);
    assert(pow128(5) == 34359738368);
    lemma_varint_bytes_len(u, 5);
    lemma_varint_bytes_read(u, rest, 5);
}

/// The UTF-8 bytes of a character sequence.
pub open spec fn utf8(chars: Seq<char>) -> Seq<u8> {
    encode_utf8(chars)
}

/// A Minecraft string on the wire: its UTF-8 byte length as a VarInt, then the bytes.
pub open spec fn spec_string(chars: Seq<char>) -> Seq<u8> {
    spec_varint(utf8(chars).len() as i32) + utf8(chars)
}

/// Writing `chars` into a field of at most `max_chars` characters succeeds.
pub open spec fn string_fits(chars: Seq<char>, max_chars: nat) -> bool {
    chars.len() <= max_chars && utf8(chars).len() <= i32::MAX
}

/// Every character takes between one and four bytes in UTF-8.
pub proof fn lemma_utf8_len(c: Seq<char>)
    ensures
        c.len() <= utf8(c).len() <= 4 * c.len(),
    decreases c.len(),
{
    if c.len() > 0 {
        lemma_utf8_len(c.drop_first());
    }
}

/// The number of characters of `s`.
pub fn char_count(s: &str) -> (r: usize)
    ensures
        r == s@.len(),
{
    broadcast use vstd::string::axiom_spec_iter;

    let total = s.as_bytes().len();
    proof {
        lemma_utf8_len(s@);
        assert(s.spec_bytes() == encode_utf8(s@));
    }
    let mut n: usize = 0;
    for c in it: s.chars()
        invariant
            n == it.index(),
            it.seq() == s@,
            s@.len() <= total,
    {
        n = n + 1;
    }
    n
}

/// Whether `s` can be written into a field of at most `max_chars` characters.
pub fn fits_field(s: &str, max_chars: usize) -> (r: bool)
    ensures
        r == string_fits(s@, max_chars as nat),
{
    let count = char_count(s);
    let bytes = s.as_bytes();
    proof {
        assert(s.spec_bytes() == utf8(s@));
    }
    count <= max_chars && bytes.len() <= 0x7fff_ffff
}

/// Appends `s` as a string field of at most `max_chars` characters; on failure `out` is left
/// as it was.
pub fn write_string(out: &mut Vec<u8>, s: &str, max_chars: usize) -> (r: Result<(), WireError>)
    ensures
        r is Ok <==> string_fits(s@, max_chars as nat),
        r is Ok ==> final(out)@ == old(out)@ + spec_string(s@),
        r is Err ==> final(out)@ == old(out)@ && r == Err::<(), WireError>(WireError::StringTooLong),
{
    let count = char_count(s);
    let bytes = s.as_bytes();
    proof {
        assert(s.spec_bytes() == utf8(s@));
    }
    if count > max_chars || bytes.len() > 0x7fff_ffff {
        return Err(WireError::StringTooLong);
    }
    let ghost start = out@;
    write_varint(out, bytes.len() as i32);
    let ghost mid = out@;
    let mut i: usize = 0;
    while i < bytes.len()
        invariant
            i <= bytes.len(),
            bytes@ == utf8(s@),
            mid == start + spec_varint(bytes@.len() as i32),
            out@ == mid + bytes@.subrange(0, i as int),
        decreases bytes.len() - i,
    {
        out.push(bytes[i]);
        i = i + 1;
        assert(out@ == mid + bytes@.subrange(0, i as int));
    }
    assert(bytes@.subrange(0, i as int) == bytes@);
    Ok(())
}

/// A string field read from the start of `s`, of at most `max_chars` characters: the
/// characters and the number of bytes taken, or why it cannot be read.
pub open spec fn spec_read_string(s: Seq<u8>, max_chars: nat) -> Result<(Seq<char>, nat), WireError> {
    match spec_read_varint(s) {
        None => Err(if varint_overlong(s) { WireError::VarIntTooLong } else { WireError::UnexpectedEnd }),
        Some((len, n)) => {
            if len < 0 {
                Err(WireError::NegativeLength)
            } else if len > 4 * max_chars {
                Err(WireError::StringTooLong)
            } else if n + len > s.len() {
                Err(WireError::UnexpectedEnd)
            } else if !valid_utf8(s.subrange(n as int, n + len)) {
                Err(WireError::InvalidUtf8)
            } else if decode_utf8(s.subrange(n as int, n + len)).len() > max_chars {
                Err(WireError::StringTooLong)
            } else {
                Ok((decode_utf8(s.subrange(n as int, n + len)), (n + len) as nat))
            }
        },
    }
}

/// `String::from_utf8`: the string whose UTF-8 encoding is `bytes`, or `None` where `bytes` is
/// not valid UTF-8 (the standard library's own definition, which vstd's `valid_utf8` and
/// `decode_utf8` state).
#[verifier::external_body]
fn string_from_utf8(bytes: Vec<u8>) -> (r: Option<String>)
    ensures
        r is Some <==> valid_utf8(bytes@),
        r matches Some(t) ==> t@ == decode_utf8(bytes@),
{
    String::from_utf8(bytes).ok()
}

/// Copies `s[lo..hi]` into a fresh vector.
pub fn copy_range(s: &[u8], lo: usize, hi: usize) -> (r: Vec<u8>)
    requires
        lo <= hi <= s.len(),
    ensures
        r@ == s@.subrange(lo as int, hi as int),
{
    let mut r: Vec<u8> = Vec::new();
    let mut i = lo;
    while i < hi
        invariant
            lo <= i <= hi <= s.len(),
            r@ == s@.subrange(lo as int, i as int),
        decreases hi - i,
    {
        r.push(s[i]);
        i = i + 1;
    }
    r
}

/// Reads the string field at position `start` of `s`, of at most `max_chars` characters.
pub fn read_string(s: &[u8], start: usize, max_chars: usize) -> (r: Result<(String, usize), WireError>)
    requires
        start <= s.len(),
    ensures
        match r {
            Ok((t, n)) => spec_read_string(from(s@, start as int), max_chars as nat) == Ok::<(Seq<char>, nat), WireError>((t@, n as nat)),
            Err(e) => spec_read_string(from(s@, start as int), max_chars as nat) == Err::<(Seq<char>, nat), WireError>(e),
        },
{
    let ghost rest = from(s@, start as int);
    let (len, n) = match read_varint(s, start) {
        Ok(p) => p,
        Err(e) => {
            return Err(e);
        },
    };
    if len < 0 {
        return Err(WireError::NegativeLength);
    }
    if len as u128 > 4 * (max_chars as u128) {
        return Err(WireError::StringTooLong);
    }
    let avail = s.len() - start;
    if n as u128 + len as u128 > avail as u128 {
        return Err(WireError::UnexpectedEnd);
    }
    let lo = start + n;
    let hi = lo + len as usize;
    let bytes = copy_range(s, lo, hi);
    assert(bytes@ == rest.subrange(n as int, n + len));
    match string_from_utf8(bytes) {
        None => Err(WireError::InvalidUtf8),
        Some(t) => {
            if char_count(t.as_str()) > max_chars {
                Err(WireError::StringTooLong)
            } else {
                Ok((t, n + len as usize))
            }
        },
    }
}

/// A boolean on the wire: one byte, `1` for true and `0` for false.
pub open spec fn spec_bool(b: bool) -> Seq<u8> {
    seq![if b { 1u8 } else { 0u8 }]
}

/// Appends a boolean.
pub fn write_bool(out: &mut Vec<u8>, b: bool)
    ensures
        final(out)@ == old(out)@ + spec_bool(b),
{
    let ghost start = out@;
    out.push(if b { 1u8 } else { 0u8 });
    assert(out@ == start + spec_bool(b));
}

/// Appends raw bytes, such as the sixteen bytes of a UUID (most significant first).
pub fn write_bytes(out: &mut Vec<u8>, bytes: &[u8])
    ensures
        final(out)@ == old(out)@ + bytes@,
{
    let ghost start = out@;
    let mut i: usize = 0;
    while i < bytes.len()
        invariant
            i <= bytes.len(),
            out@ == start + bytes@.subrange(0, i as int),
        decreases bytes.len() - i,
    {
        out.push(bytes[i]);
        i = i + 1;
        assert(out@ == start + bytes@.subrange(0, i as int));
    }
    assert(bytes@.subrange(0, i as int) == bytes@);
}

/// Reading back a string field that was written, whatever follows it, gives the same
/// characters and the field's length.
pub proof fn lemma_string_roundtrip(chars: Seq<char>, max_chars: nat, rest: Seq<u8>)
    requires
        string_fits(chars, max_chars),
    ensures
        spec_read_string(spec_string(chars) + rest, max_chars) == Ok::<(Seq<char>, nat), WireError>(
            (chars, spec_string(chars).len()),
        ),
{
    broadcast use encode_utf8_valid_utf8, encode_utf8_decode_utf8;

    let b = utf8(chars);
    let v = spec_varint(b.len() as i32);
    lemma_varint_roundtrip(b.len() as i32, b + rest);
    lemma_utf8_len(chars);
    assert(spec_string(chars) + rest == v + (b + rest));
    assert((v + (b + rest)).subrange(v.len() as int, (v.len() + b.len()) as int) == b);
}

} // verus!
