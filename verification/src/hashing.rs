//! The 32-bit FNV-1a hash over UTF-16 code units, and its hexadecimal form.

use vstd::prelude::*;

verus! {

pub const FNV_OFFSET_BASIS: u32 = 2166136261;

pub const FNV_PRIME: u32 = 16777619;

/// The UTF-16 code units of one character.
pub open spec fn utf16_of(c: char) -> Seq<u32> {
    let cp = c as u32;
    if cp < 0x10000 {
        seq![cp]
    } else {
        seq![(0xD800 + (cp - 0x10000) / 0x400) as u32, (0xDC00 + (cp - 0x10000) % 0x400) as u32]
    }
}

/// The UTF-16 code units of a string, as `str::encode_utf16` yields them.
pub open spec fn utf16_units(s: Seq<char>) -> Seq<u32>
    decreases s.len(),
{
    if s.len() == 0 {
        Seq::empty()
    } else {
        utf16_units(s.drop_last()) + utf16_of(s.last())
    }
}

/// One FNV-1a step.
pub open spec fn fnv_step(h: u32, unit: u32) -> u32 {
    vstd::wrapping::u32_specs::wrapping_mul(h ^ unit, FNV_PRIME)
}

/// FNV-1a over a sequence of units, from `h`.
pub open spec fn fnv_fold(h: u32, units: Seq<u32>) -> u32
    decreases units.len(),
{
    if units.len() == 0 {
        h
    } else {
        fnv_step(fnv_fold(h, units.drop_last()), units.last())
    }
}

/// The hash of a string: FNV-1a over its UTF-16 code units.
pub open spec fn fnv1a_utf16(s: Seq<char>) -> u32 {
    fnv_fold(FNV_OFFSET_BASIS, utf16_units(s))
}

proof fn lemma_fnv_fold_append(h: u32, a: Seq<u32>, b: Seq<u32>)
    ensures
        fnv_fold(h, a + b) == fnv_fold(fnv_fold(h, a), b),
    decreases b.len(),
{
    if b.len() == 0 {
        assert(a + b =~= a);
    } else {
        lemma_fnv_fold_append(h, a, b.drop_last());
        assert((a + b).drop_last() =~= a + b.drop_last());
    }
}

/// FNV-1a over the UTF-16 code units of `value`.
pub fn fnv1a_utf16_hash(value: &str) -> (r: u32)
    ensures
        r == fnv1a_utf16(value@),
{
    let chars = crate::text::chars_of(value);
    let mut hash: u32 = FNV_OFFSET_BASIS;
    let mut i: usize = 0;
    while i < chars.len()
        invariant
            i <= chars.len(),
            hash == fnv_fold(FNV_OFFSET_BASIS, utf16_units(chars@.take(i as int))),
        decreases chars.len() - i,
    {
        let ghost prefix = chars@.take(i as int);
        assert(chars@.take(i + 1).drop_last() =~= prefix);
        assert(chars@.take(i + 1).last() == chars@[i as int]);
        let c = chars[i];
        let cp = c as u32;
        let ghost old_hash = hash;
        assert(utf16_units(chars@.take(i + 1)) == utf16_units(prefix) + utf16_of(c));
        proof {
            lemma_fnv_fold_append(FNV_OFFSET_BASIS, utf16_units(prefix), utf16_of(c));
        }
        if cp < 0x10000 {
            assert(utf16_of(c) =~= seq![cp]);
            assert(seq![cp].drop_last() =~= Seq::<u32>::empty());
            hash = (hash ^ cp).wrapping_mul(FNV_PRIME);
            assert(fnv_fold(old_hash, seq![cp]) == fnv_step(fnv_fold(old_hash, Seq::<u32>::empty()), cp));
        } else {
            let high = 0xD800 + (cp - 0x10000) / 0x400;
            let low = 0xDC00 + (cp - 0x10000) % 0x400;
            assert(utf16_of(c) =~= seq![high, low]);
            assert(seq![high, low].drop_last() =~= seq![high]);
            assert(seq![high].drop_last() =~= Seq::<u32>::empty());
            hash = (hash ^ high).wrapping_mul(FNV_PRIME);
            hash = (hash ^ low).wrapping_mul(FNV_PRIME);
            assert(fnv_fold(old_hash, seq![high]) == fnv_step(fnv_fold(old_hash, Seq::<u32>::empty()), high));
            assert(fnv_fold(old_hash, seq![high, low]) == fnv_step(fnv_fold(old_hash, seq![high]), low));
        }
        i += 1;
    }
    assert(chars@.take(chars.len() as int) =~= chars@);
    hash
}

/// The lowercase hexadecimal digit of `d`.
pub open spec fn hex_digit(d: int) -> char {
    if d < 10 {
        (('0' as int) + d) as char
    } else {
        (('a' as int) + d - 10) as char
    }
}

/// The eight lowercase hexadecimal digits of `h`, most significant first,
/// as `format!("{h:08x}")` prints them.
pub open spec fn hex8(h: u32) -> Seq<char> {
    Seq::new(8, |i: int| hex_digit((h as int / pow16(7 - i)) % 16))
}

pub open spec fn pow16(k: int) -> int
    decreases k,
{
    if k <= 0 {
        1
    } else {
        16 * pow16(k - 1)
    }
}

pub fn to_hex8(h: u32) -> (r: String)
    ensures
        r@ == hex8(h),
{
    let mut digits: Vec<char> = Vec::new();
    let mut k: u32 = 0;
    let divisors: [u32; 8] = [0x1000_0000, 0x100_0000, 0x10_0000, 0x1_0000, 0x1000, 0x100, 0x10, 0x1];
    assert(pow16(0) == 1 && pow16(1) == 16 && pow16(2) == 256 && pow16(3) == 4096 && pow16(4)
        == 65536 && pow16(5) == 1048576 && pow16(6) == 16777216 && pow16(7) == 268435456) by {
        reveal_with_fuel(pow16, 8);
    }
    while k < 8
        invariant
            k <= 8,
            digits.len() == k,
            divisors@ == seq![0x1000_0000u32, 0x100_0000, 0x10_0000, 0x1_0000, 0x1000, 0x100, 0x10, 0x1],
            pow16(0) == 1 && pow16(1) == 16 && pow16(2) == 256 && pow16(3) == 4096 && pow16(4)
                == 65536 && pow16(5) == 1048576 && pow16(6) == 16777216 && pow16(7) == 268435456,
            forall|i: int| 0 <= i < k ==> digits@[i] == hex8(h)[i],
        decreases 8 - k,
    {
        let d = (h / divisors[k as usize]) % 16;
        assert(divisors@[k as int] == pow16(7 - k));
        let c = if d < 10 {
            (('0' as u32) + d) as u8 as char
        } else {
            (('a' as u32) + d - 10) as u8 as char
        };
        assert(c == hex_digit(d as int));
        digits.push(c);
        k += 1;
    }
    assert(digits@ =~= hex8(h));
    crate::text::string_from_chars(digits.as_slice())
}

} // verus!
