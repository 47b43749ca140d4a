//! Content-addressed identity: the FNV-1a (64-bit) hash of a file's bytes and
//! a platform-independent file identity with `/` separators. The same input
//! always yields the same hash; a different constant would change every hash,
//! so the two FNV constants are fixed here.
use vstd::prelude::*;
use vstd::wrapping::u64_specs;

use crate::text::push_char;

verus! {

/// FNV-1a 64-bit offset basis (the hash of the empty input).
pub const FNV_OFFSET: u64 = 0xcbf2_9ce4_8422_2325;

/// FNV-1a 64-bit prime.
pub const FNV_PRIME: u64 = 0x0000_0100_0000_01b3;

/// One FNV-1a round: xor the byte in, then multiply by the prime modulo 2^64.
pub open spec fn fnv_round(hash: u64, byte: u8) -> u64 {
    u64_specs::wrapping_mul(hash ^ (byte as u64), FNV_PRIME)
}

/// The FNV-1a hash of a byte sequence, folded from the left.
pub open spec fn fnv1a_spec(bytes: Seq<u8>) -> u64
    decreases bytes.len(),
{
    if bytes.len() == 0 {
        FNV_OFFSET
    } else {
        fnv_round(fnv1a_spec(bytes.drop_last()), bytes.last())
    }
}

/// Stable 64-bit FNV-1a hash of a byte slice.
pub fn fnv1a(bytes: &[u8]) -> (hash: u64)
    ensures
        hash == fnv1a_spec(bytes@),
{
    let mut hash: u64 = FNV_OFFSET;
    let mut i: usize = 0;
    while i < bytes.len()
        invariant
            i <= bytes@.len(),
            hash == fnv1a_spec(bytes@.take(i as int)),
        decreases bytes@.len() - i,
    {
        let byte = bytes[i];
        assert(bytes@.take(i + 1).drop_last() =~= bytes@.take(i as int));
        hash = (hash ^ (byte as u64)).wrapping_mul(FNV_PRIME);
        i += 1;
    }
    assert(bytes@.take(bytes@.len() as int) =~= bytes@);
    hash
}

/// The lowercase hexadecimal digit for a value below 16.
pub open spec fn hex_digit(value: int) -> char {
    if value < 10 {
        (('0' as int) + value) as char
    } else {
        (('a' as int) + value - 10) as char
    }
}

/// The `width` lowest hexadecimal digits of `value`, most significant first.
pub open spec fn hex_digits(value: nat, width: nat) -> Seq<char>
    decreases width,
{
    if width == 0 {
        Seq::empty()
    } else {
        hex_digits(value / 16, (width - 1) as nat).push(hex_digit((value % 16) as int))
    }
}

fn hex_char(value: u64) -> (c: char)
    requires
        value < 16,
    ensures
        c == hex_digit(value as int),
{
    if value < 10 {
        let code: u8 = (48 + value) as u8;
        code as char
    } else {
        let code: u8 = (87 + value) as u8;
        code as char
    }
}

/// The content hash of a source file. Equal hashes of two sources follow from
/// equal bytes; an unchanged hash means no re-parse is needed.
#[derive(Debug, Clone, Copy, PartialEq, Eq, Structural, Hash, PartialOrd, Ord)]
pub struct ContentHash(pub u64);

impl ContentHash {
    /// Hash a source string (its UTF-8 bytes).
    pub fn of(source: &str) -> (hash: ContentHash)
        ensures
            hash.0 == fnv1a_spec(vstd::utf8::encode_utf8(source@)),
    {
        ContentHash(fnv1a(source.as_bytes()))
    }

    /// The hash as 16 lowercase hexadecimal digits, zero-padded.
    pub fn to_hex(&self) -> (text: String)
        ensures
            text@ == hex_digits(self.0 as nat, 16),
    {
        let mut digits: Vec<char> = Vec::new();
        let mut rest: u64 = self.0;
        let mut k: usize = 0;
        proof {
            assert(pow16(0) == 1);
            assert((self.0 as nat) / 1 == self.0 as nat);
            assert(digits@.reverse() =~= Seq::<char>::empty());
        }
        while k < 16
            invariant
                k <= 16,
                digits@.len() == k,
                rest as nat == (self.0 as nat) / pow16(k as nat),
                hex_digits(self.0 as nat, 16) =~= hex_digits(rest as nat, (16 - k) as nat)
                    + digits@.reverse(),
            decreases 16 - k,
        {
            proof {
                lemma_pow16_step(k as nat);
                lemma_div_div(self.0 as nat, pow16(k as nat), 16);
                assert(digits@.push(hex_digit((rest % 16) as int)).reverse() =~= seq![
                    hex_digit((rest % 16) as int),
                ] + digits@.reverse());
            }
            digits.push(hex_char(rest % 16));
            rest = rest / 16;
            k += 1;
        }
        let mut text = String::new();
        let mut j: usize = 16;
        while j > 0
            invariant
                j <= 16,
                digits@.len() == 16,
                text@ =~= digits@.reverse().take((16 - j) as int),
            decreases j,
        {
            j -= 1;
            push_char(&mut text, digits[j]);
        }
        assert(hex_digits(rest as nat, 0) =~= Seq::<char>::empty());
        text
    }
}

/// `16^k`.
pub open spec fn pow16(k: nat) -> nat
    decreases k,
{
    if k == 0 {
        1
    } else {
        16 * pow16((k - 1) as nat)
    }
}

proof fn lemma_pow16_step(k: nat)
    ensures
        pow16(k + 1) == pow16(k) * 16,
        pow16(k) > 0,
    decreases k,
{
    if k > 0 {
        lemma_pow16_step((k - 1) as nat);
    }
}

proof fn lemma_div_div(x: nat, a: nat, b: nat)
    requires
        a > 0,
        b > 0,
    ensures
        x / a / b == x / (a * b),
{
    vstd::arithmetic::div_mod::lemma_div_denominator(x as int, a as int, b as int);
}

/// `path` with every backslash turned into a forward slash.
pub open spec fn normalise_separators(path: Seq<char>) -> Seq<char> {
    path.map_values(|c: char| if c == '\\' { '/' } else { c })
}

/// A repo-relative path used as a file's stable identity. Paths are stored
/// with forward slashes so a `FileId` is platform-independent.
#[derive(Debug, Clone, PartialEq, Eq, Hash, PartialOrd, Ord)]
pub struct FileId(pub String);

impl FileId {
    /// Build a `FileId` from a path, normalising separators to `/`.
    pub fn new(path: &str) -> (id: FileId)
        ensures
            id.0@ == normalise_separators(path@),
    {
        let mut out = String::new();
        for c in it: path.chars()
            invariant
                it.seq() == path@,
                out@ == normalise_separators(it.seq().take(it.index() as int)),
        {
            proof {
                assert(normalise_separators(it.seq().take(it.index() + 1)) =~= normalise_separators(
                    it.seq().take(it.index() as int),
                ).push(if c == '\\' { '/' } else { c }));
            }
            if c == '\\' {
                push_char(&mut out, '/');
            } else {
                push_char(&mut out, c);
            }
        }
        FileId(out)
    }

    /// The underlying relative path string.
    pub fn as_str(&self) -> (path: &str)
        ensures
            path@ == self.0@,
    {
        self.0.as_str()
    }
}

} // verus!

verus! {

/// A file identity is platform-independent: it holds no backslash, it keeps
/// the path's length, and normalising it again changes nothing.
pub proof fn lemma_file_id_normal_form(path: Seq<char>)
    ensures
        !normalise_separators(path).contains('\\'),
        normalise_separators(path).len() == path.len(),
        normalise_separators(normalise_separators(path)) == normalise_separators(path),
{
    let once = normalise_separators(path);
    assert(normalise_separators(once) =~= once);
}

/// Hashing is a function of the bytes alone: the same source gives the same
/// content hash.
pub proof fn lemma_content_hash_deterministic(a: Seq<char>, b: Seq<char>)
    requires
        a == b,
    ensures
        fnv1a_spec(vstd::utf8::encode_utf8(a)) == fnv1a_spec(vstd::utf8::encode_utf8(b)),
{
}

} // verus!
