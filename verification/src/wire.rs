//! The wire formats that the connection reads itself: variable-length integers, and
//! the fixed prefix of a container click.

use vstd::arithmetic::power2::{lemma2_to64, lemma_pow2_adds, lemma_pow2_pos, pow2};
use vstd::prelude::*;

verus! {

/// The most bytes that a variable-length integer takes.
pub const MAX_VAR_INT_BYTES: usize = 5;

/// Whether the first `n` bytes are a variable-length integer: every byte but the last
/// has its high bit set.
pub open spec fn is_var_int(bytes: Seq<u8>, n: int) -> bool {
    &&& 1 <= n <= MAX_VAR_INT_BYTES
    &&& n <= bytes.len()
    &&& forall|i: int| 0 <= i < n - 1 ==> #[trigger] bytes[i] >= 128
    &&& bytes[n - 1] < 128
}

/// The sum of the seven-bit groups of the first `n` bytes, the first group lowest.
pub open spec fn groups(bytes: Seq<u8>, n: int) -> nat
    decreases n,
{
    if n <= 0 {
        0
    } else {
        groups(bytes, n - 1) + (bytes[n - 1] as nat % 128) * pow2((7 * (n - 1)) as nat)
    }
}

/// A number read as a 32-bit integer in two's complement.
pub open spec fn as_signed(n: nat) -> int {
    let low = n % 0x1_0000_0000;
    if low >= 0x8000_0000 {
        low - 0x1_0000_0000
    } else {
        low as int
    }
}

/// Reads the variable-length integer at the start of some bytes: its value and its
/// length. `None` where the bytes end too soon or the integer is too long.
pub fn read_var_int(bytes: &[u8]) -> (r: Option<(i32, usize)>)
    ensures
        match r {
            Some((value, n)) => is_var_int(bytes@, n as int) && value == as_signed(
                groups(bytes@, n as int),
            ),
            None => forall|n: int| !#[trigger] is_var_int(bytes@, n),
        },
{
    let mut sum: u64 = 0;
    let mut factor: u64 = 1;
    let mut i: usize = 0;
    proof {
        lemma2_to64();
    }
    while i < MAX_VAR_INT_BYTES && i < bytes.len()
        invariant
            i <= MAX_VAR_INT_BYTES,
            i <= bytes@.len(),
            forall|k: int| 0 <= k < i ==> #[trigger] bytes@[k] >= 128,
            sum == groups(bytes@, i as int),
            factor == pow2((7 * i) as nat),
            i < 5 ==> factor <= 0x1000_0000,
            factor <= 0x8_0000_0000,
            sum < factor,
        decreases MAX_VAR_INT_BYTES - i,
    {
        let byte: u8 = bytes[i];
        let group: u64 = (byte % 128) as u64;
        proof {
            assert(group * factor <= 127 * factor) by (nonlinear_arith)
                requires
                    group <= 127,
                    factor >= 0,
            ;
            lemma_pow2_adds((7 * i) as nat, 7);
            lemma2_to64();
            assert(128 * factor == pow2((7 * (i + 1)) as nat));
            if i < 4 {
                power_bound((7 * (i + 1)) as nat);
            }
        }
        let next: u64 = sum + group * factor;
        proof {
            assert(groups(bytes@, i + 1) == next);
        }
        if byte < 128 {
            assert(is_var_int(bytes@, i + 1));
            let low: u64 = next % 0x1_0000_0000;
            let value: i32 = if low >= 0x8000_0000 {
                (low as i64 - 0x1_0000_0000) as i32
            } else {
                low as i32
            };
            return Some((value, i + 1));
        }
        sum = next;
        factor = factor * 128;
        i = i + 1;
    }
    assert forall|n: int| !#[trigger] is_var_int(bytes@, n) by {
        if is_var_int(bytes@, n) {
            assert(bytes@[n - 1] < 128);
        }
    }
    None
}

proof fn power_bound(e: nat)
    requires
        e <= 28,
    ensures
        pow2(e) <= 0x1000_0000,
{
    lemma2_to64();
    if e < 28 {
        vstd::arithmetic::power2::lemma_pow2_strictly_increases(e, 28);
    }
}

/// A variable-length integer has one length only, so its value is unique.
pub proof fn var_int_length_is_unique(bytes: Seq<u8>, a: int, b: int)
    requires
        is_var_int(bytes, a),
        is_var_int(bytes, b),
    ensures
        a == b,
{
    if a < b {
        assert(bytes[a - 1] >= 128);
    }
    if b < a {
        assert(bytes[b - 1] >= 128);
    }
}

/// Two bytes read as a 16-bit integer, the first one highest.
pub open spec fn big_endian_i16(high: u8, low: u8) -> int {
    let n = high * 256 + low;
    if n >= 0x8000 {
        n - 0x1_0000
    } else {
        n
    }
}

/// A byte read as a signed integer.
pub open spec fn signed_byte(byte: u8) -> int {
    if byte >= 128 {
        byte - 256
    } else {
        byte as int
    }
}

/// Decodes the fixed prefix of a container click: slot, button and mode.
///
/// `None` for a truncated or malformed prefix. What follows the prefix is what the
/// client claims the click did, and is not read.
pub fn decode_click_prefix(rest: &[u8]) -> (r: Option<(i16, i8, i32)>)
    ensures
        match r {
            Some((slot, button, mode)) => {
                &&& rest@.len() >= 3
                &&& slot == big_endian_i16(rest@[0], rest@[1])
                &&& button == signed_byte(rest@[2])
                &&& exists|n: int| #[trigger]
                    is_var_int(rest@.skip(3), n) && mode == as_signed(groups(rest@.skip(3), n))
            },
            None => rest@.len() < 3 || forall|n: int| !#[trigger] is_var_int(rest@.skip(3), n),
        },
{
    if rest.len() < 3 {
        return None;
    }
    let unsigned: i32 = rest[0] as i32 * 256 + rest[1] as i32;
    let slot: i16 = if unsigned >= 0x8000 {
        (unsigned - 0x1_0000) as i16
    } else {
        unsigned as i16
    };
    let button: i8 = if rest[2] >= 128 {
        (rest[2] as i16 - 256) as i8
    } else {
        rest[2] as i8
    };
    let tail = vstd::slice::slice_subrange(rest, 3, rest.len());
    assert(tail@ =~= rest@.skip(3));
    match read_var_int(tail) {
        Some((mode, _)) => Some((slot, button, mode)),
        None => None,
    }
}

/// A number below 128 is one byte, and a number of more groups is its lowest seven bits and
/// then the rest: the value of a variable-length integer is that of its first group, and 128
/// times that of what follows.
pub proof fn var_ints_read_lowest_group_first(bytes: Seq<u8>, n: int)
    requires
        is_var_int(bytes, n),
    ensures
        n == 1 ==> groups(bytes, n) == bytes[0],
        n > 1 ==> is_var_int(bytes.drop_first(), n - 1) && groups(bytes, n) == (bytes[0] - 128)
            + 128 * groups(bytes.drop_first(), n - 1),
{
    lemma2_to64();
    if n == 1 {
        reveal_with_fuel(groups, 2);
        assert((bytes[0] as nat % 128) * pow2(0) == bytes[0]);
    } else {
        let rest = bytes.drop_first();
        assert forall|i: int| 0 <= i < n - 2 implies #[trigger] rest[i] >= 128 by {
            assert(rest[i] == bytes[i + 1]);
        }
        first_group_is_lowest(bytes, n);
        assert(bytes[0] >= 128);
    }
}

proof fn first_group_is_lowest(bytes: Seq<u8>, n: int)
    requires
        1 <= n <= bytes.len(),
    ensures
        groups(bytes, n) == bytes[0] as nat % 128 + 128 * groups(bytes.drop_first(), n - 1),
    decreases n,
{
    lemma2_to64();
    let rest = bytes.drop_first();
    if n == 1 {
        reveal_with_fuel(groups, 2);
        assert((bytes[0] as nat % 128) * pow2(0) == bytes[0] as nat % 128);
    } else {
        first_group_is_lowest(bytes, n - 1);
        let group = (bytes[n - 1] as nat % 128) as int;
        assert(rest[n - 2] == bytes[n - 1]);
        lemma_pow2_adds(7, (7 * (n - 2)) as nat);
        let power = pow2((7 * (n - 2)) as nat) as int;
        assert(group * (128 * power) == 128 * (group * power)) by (nonlinear_arith);
        assert(groups(rest, n - 1) == groups(rest, n - 2) + group * power);
    }
}

/// Signed readings: the two halves of a 16-bit number, a byte and a 32-bit number are read
/// in two's complement, so that each has its own value in its own range.
pub proof fn readings_are_two_s_complement(high: u8, low: u8, byte: u8, n: nat)
    ensures
        -0x8000 <= big_endian_i16(high, low) < 0x8000,
        (big_endian_i16(high, low) - (high * 256 + low)) % 0x1_0000 == 0,
        -128 <= signed_byte(byte) < 128,
        (signed_byte(byte) - byte) % 256 == 0,
        -0x8000_0000 <= as_signed(n) < 0x8000_0000,
        (as_signed(n) - n) % 0x1_0000_0000 == 0,
{
    let low_part = n % 0x1_0000_0000;
    vstd::arithmetic::div_mod::lemma_fundamental_div_mod(n as int, 0x1_0000_0000);
    let q = n as int / 0x1_0000_0000;
    assert(as_signed(n) - n == 0x1_0000_0000 * (-q) || as_signed(n) - n == 0x1_0000_0000 * (-q - 1));
    vstd::arithmetic::div_mod::lemma_mod_multiples_basic(-q, 0x1_0000_0000);
    vstd::arithmetic::div_mod::lemma_mod_multiples_basic(-q - 1, 0x1_0000_0000);
}

} // verus!
