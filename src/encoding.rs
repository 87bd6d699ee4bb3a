use vstd::prelude::*;
use vstd::arithmetic::div_mod::{lemma_div_denominator, lemma_fundamental_div_mod, lemma_multiply_divide_lt};
use vstd::arithmetic::power::{lemma_pow_positive, pow};

verus! {

/// The `n` low bytes of `x`, least significant first.
pub open spec fn le_bytes(x: nat, n: nat) -> Seq<u8> {
    Seq::new(n, |i: int| ((x as int / pow(256, i as nat)) % 256) as u8)
}

pub open spec fn le_u16(x: u16) -> Seq<u8> {
    le_bytes(x as nat, 2)
}

pub open spec fn le_u64(x: u64) -> Seq<u8> {
    le_bytes(x as nat, 8)
}

pub open spec fn le_u128(x: u128) -> Seq<u8> {
    le_bytes(x as nat, 16)
}

/// Two's complement, least significant byte first.
pub open spec fn le_i32(x: i32) -> Seq<u8> {
    if x < 0 {
        le_bytes((x + 0x1_0000_0000) as nat, 4)
    } else {
        le_bytes(x as nat, 4)
    }
}

pub open spec fn bool_byte(b: bool) -> Seq<u8> {
    if b {
        seq![1u8]
    } else {
        seq![0u8]
    }
}

/// The number that little-endian bytes spell.
pub open spec fn le_value(s: Seq<u8>) -> nat
    decreases s.len(),
{
    if s.len() == 0 {
        0
    } else {
        s[0] as nat + 256 * le_value(s.drop_first())
    }
}

/// The number that four little-endian bytes spell in two's complement.
pub open spec fn le_signed32(s: Seq<u8>) -> int {
    if le_value(s) >= 0x8000_0000 {
        le_value(s) - 0x1_0000_0000
    } else {
        le_value(s) as int
    }
}

/// Reading back the `n` low bytes of a number below `256^n` gives the number.
pub proof fn lemma_le_bytes_read_back(x: nat, n: nat)
    requires
        x < pow(256, n),
    ensures
        le_bytes(x, n).len() == n,
        le_value(le_bytes(x, n)) == x,
    decreases n,
{
    let s = le_bytes(x, n);
    if n == 0 {
        reveal_with_fuel(pow, 1);
    } else {
        let m = (n - 1) as nat;
        let t = le_bytes(x / 256, m);
        lemma_pow_positive(256, m);
        reveal(pow);
        assert(pow(256, n) == 256 * pow(256, m));
        lemma_multiply_divide_lt(x as int, 256, pow(256, m));
        lemma_le_bytes_read_back(x / 256, m);
        assert forall|i: int| 0 <= i < m implies s.drop_first()[i] == t[i] by {
            lemma_pow_positive(256, i as nat);
            lemma_div_denominator(x as int, 256, pow(256, i as nat));
            reveal(pow);
            assert(pow(256, (i + 1) as nat) == 256 * pow(256, i as nat));
        }
        assert(s.drop_first() =~= t);
        reveal_with_fuel(pow, 1);
        assert(s[0] == x % 256);
        lemma_fundamental_div_mod(x as int, 256);
    }
}

pub proof fn lemma_le_u16_read_back(x: u16)
    ensures
        le_u16(x).len() == 2,
        le_value(le_u16(x)) == x,
{
    reveal_with_fuel(pow, 3);
    assert(pow(256, 2) == 0x1_0000);
    lemma_le_bytes_read_back(x as nat, 2);
}

pub proof fn lemma_le_u64_read_back(x: u64)
    ensures
        le_u64(x).len() == 8,
        le_value(le_u64(x)) == x,
{
    reveal_with_fuel(pow, 9);
    assert(pow(256, 8) == 0x1_0000_0000_0000_0000);
    lemma_le_bytes_read_back(x as nat, 8);
}

pub proof fn lemma_le_u128_read_back(x: u128)
    ensures
        le_u128(x).len() == 16,
        le_value(le_u128(x)) == x,
{
    reveal_with_fuel(pow, 17);
    assert(pow(256, 16) == 0x1_0000_0000_0000_0000_0000_0000_0000_0000);
    lemma_le_bytes_read_back(x as nat, 16);
}

pub proof fn lemma_le_i32_read_back(x: i32)
    ensures
        le_i32(x).len() == 4,
        le_signed32(le_i32(x)) == x,
{
    reveal_with_fuel(pow, 5);
    assert(pow(256, 4) == 0x1_0000_0000);
    if x < 0 {
        lemma_le_bytes_read_back((x + 0x1_0000_0000) as nat, 4);
    } else {
        lemma_le_bytes_read_back(x as nat, 4);
    }
}

} // verus!
