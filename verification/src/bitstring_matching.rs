use vstd::prelude::*;
use vstd::arithmetic::div_mod::lemma_basic_div;
use vstd::arithmetic::div_mod::lemma_div_multiples_vanish_fancy;
use vstd::arithmetic::div_mod::lemma_fundamental_div_mod;
use vstd::arithmetic::div_mod::lemma_mod_multiples_vanish;
use crate::errors::EmulatorError;

verus! {

/// 2 to the power `k`.
pub open spec fn two_pow(k: nat) -> nat
    decreases k,
{
    if k == 0 {
        1
    } else {
        2 * two_pow((k - 1) as nat)
    }
}

/// Bit `k` of a byte, bit 0 being the least significant.
pub open spec fn byte_bit(b: u8, k: nat) -> nat {
    ((b as nat) / two_pow(k)) % 2
}

/// The three symbols a pattern may contain: a fixed zero bit, a fixed one
/// bit, or a wildcard.
pub open spec fn is_pattern_symbol(c: char) -> bool {
    c == '0' || c == '1' || c == '_'
}

/// A well-formed pattern: exactly 8 symbols drawn from '0', '1' and '_'.
pub open spec fn valid_pattern(p: Seq<char>) -> bool {
    p.len() == 8 && forall|i: int| 0 <= i < 8 ==> is_pattern_symbol(#[trigger] p[i])
}

/// Whether the symbol at textual position `i` agrees with the byte. The
/// pattern is read bit 7 to bit 0 in textual order, so position `i`
/// constrains bit `7 - i`; a wildcard agrees with any byte.
pub open spec fn symbol_agrees(c: char, b: u8, i: int) -> bool {
    ||| c == '_'
    ||| (c == '0' && byte_bit(b, (7 - i) as nat) == 0)
    ||| (c == '1' && byte_bit(b, (7 - i) as nat) == 1)
}

/// The symbols at textual positions `i..8` all agree with the byte.
pub open spec fn suffix_agrees(p: Seq<char>, b: u8, i: int) -> bool {
    forall|j: int| i <= j < 8 ==> symbol_agrees(#[trigger] p[j], b, j)
}

/// A byte matches a pattern iff every non-wildcard symbol equals the
/// corresponding bit of the byte.
pub open spec fn pattern_matches(p: Seq<char>, b: u8) -> bool {
    valid_pattern(p) && suffix_agrees(p, b, 0)
}

/// The number of wildcard symbols at textual positions `i..8`.
pub open spec fn wildcards_from(p: Seq<char>, i: int) -> nat
    decreases 8 - i,
{
    if i < 0 || i >= 8 {
        0
    } else {
        (if p[i] == '_' {
            1nat
        } else {
            0nat
        }) + wildcards_from(p, i + 1)
    }
}

/// The number of wildcard symbols in the whole pattern.
pub open spec fn wildcard_count(p: Seq<char>) -> nat {
    wildcards_from(p, 0)
}

proof fn lemma_two_pow_values()
    ensures
        two_pow(0) == 1,
        two_pow(1) == 2,
        two_pow(2) == 4,
        two_pow(3) == 8,
        two_pow(4) == 16,
        two_pow(5) == 32,
        two_pow(6) == 64,
        two_pow(7) == 128,
        two_pow(8) == 256,
{
    reveal_with_fuel(two_pow, 9);
}

proof fn lemma_two_pow_pos(k: nat)
    ensures
        two_pow(k) >= 1,
    decreases k,
{
    if k > 0 {
        lemma_two_pow_pos((k - 1) as nat);
    }
}

proof fn lemma_two_pow_increases(a: nat, b: nat)
    requires
        a <= b,
    ensures
        two_pow(a) <= two_pow(b),
    decreases b,
{
    lemma_two_pow_pos(a);
    if a < b {
        lemma_two_pow_increases(a, (b - 1) as nat);
    }
}

proof fn lemma_two_pow_adds(a: nat, b: nat)
    ensures
        two_pow(a + b) == two_pow(a) * two_pow(b),
    decreases a,
{
    if a == 0 {
        assert(two_pow(a) == 1);
        assert(two_pow(a) * two_pow(b) == two_pow(b)) by (nonlinear_arith)
            requires
                two_pow(a) == 1,
        ;
    } else {
        let a1 = (a - 1) as nat;
        lemma_two_pow_adds(a1, b);
        let x = two_pow(a1);
        let y = two_pow(b);
        assert(two_pow(a1 + b) == x * y);
        assert(two_pow(a + b) == 2 * two_pow((a + b - 1) as nat));
        assert((a + b - 1) as nat == a1 + b);
        assert(two_pow(a + b) == 2 * (x * y));
        assert(2 * (x * y) == (2 * x) * y) by (nonlinear_arith);
        assert(two_pow(a) == 2 * x);
        assert(two_pow(a + b) == two_pow(a) * y);
    }
}

/// A value below `two_pow(k)` has bit `j` clear for every `j` at or above
/// `k`.
proof fn lemma_bit_of_small(v: u8, k: nat, j: nat)
    requires
        k <= j,
        (v as nat) < two_pow(k),
    ensures
        byte_bit(v, j) == 0,
{
    lemma_two_pow_increases(k, j);
    lemma_two_pow_pos(j);
    lemma_basic_div(v as int, two_pow(j) as int);
}

/// For a value below `two_pow(k + 1)`, bit `k` says whether the value
/// reaches `two_pow(k)`.
proof fn lemma_bit_decides(b: u8, k: nat)
    requires
        (b as nat) < two_pow(k + 1),
    ensures
        byte_bit(b, k) == if (b as nat) < two_pow(k) {
            0nat
        } else {
            1nat
        },
{
    lemma_two_pow_pos(k);
    let p = two_pow(k) as int;
    if (b as nat) < two_pow(k) {
        lemma_basic_div(b as int, p);
    } else {
        assert(two_pow(k + 1) == 2 * two_pow(k));
        lemma_div_multiples_vanish_fancy(1, b - p, p);
        assert(p * 1 + (b - p) == b as int);
        assert((b as int) / p == 1);
    }
}

/// Adding `two_pow(k)` to a value below `two_pow(k)` leaves every bit
/// below `k` unchanged.
proof fn lemma_bit_of_sum_below(v: u8, w: u8, k: nat, j: nat)
    requires
        j < k,
        k < 8,
        (v as nat) < two_pow(k),
        (w as nat) == v + two_pow(k),
    ensures
        byte_bit(w, j) == byte_bit(v, j),
{
    lemma_two_pow_pos(j);
    let q = two_pow(j) as int;
    let e = two_pow((k - j) as nat) as int;
    lemma_two_pow_adds(j, (k - j) as nat);
    assert(two_pow(k) == q * e);
    lemma_fundamental_div_mod(v as int, q);
    let vq = (v as int) / q;
    let vr = (v as int) % q;
    assert(v as int == q * vq + vr);
    assert(w as int == q * (vq + e) + vr) by (nonlinear_arith)
        requires
            v as int == q * vq + vr,
            w as int == v + q * e,
    ;
    lemma_div_multiples_vanish_fancy(vq + e, vr, q);
    assert((w as int) / q == vq + e);
    assert(e == 2 * two_pow((k - j - 1) as nat));
    lemma_mod_multiples_vanish(two_pow((k - j - 1) as nat) as int, vq, 2);
    assert((vq + e) % 2 == vq % 2);
}

/// Adding `two_pow(k)` to a value below `two_pow(k)` sets bit `k` and
/// keeps the sum below `two_pow(k + 1)`.
proof fn lemma_bit_of_sum_at(v: u8, w: u8, k: nat)
    requires
        k < 8,
        (v as nat) < two_pow(k),
        (w as nat) == v + two_pow(k),
    ensures
        (w as nat) < two_pow(k + 1),
        byte_bit(w, k) == 1,
{
    lemma_two_pow_pos(k);
    let p = two_pow(k) as int;
    assert(two_pow(k + 1) == 2 * two_pow(k));
    lemma_div_multiples_vanish_fancy(1, v as int, p);
    assert(p * 1 + v == w as int);
    assert((w as int) / p == 1);
}

/// Agreement with the already-processed tail of the pattern transfers
/// between a value and that value with bit `k` newly set, because the two
/// differ only in bit `k`.
proof fn lemma_suffix_transfer(p: Seq<char>, v: u8, w: u8, k: nat)
    requires
        k < 8,
        (v as nat) < two_pow(k),
        (w as nat) == v + two_pow(k),
    ensures
        suffix_agrees(p, v, 8 - k) <==> suffix_agrees(p, w, 8 - k),
        byte_bit(w, k) == 1,
        (w as nat) < two_pow(k + 1),
{
    lemma_bit_of_sum_at(v, w, k);
    assert forall|j: int| 8 - k <= j < 8 implies (symbol_agrees(#[trigger] p[j], v, j)
        <==> symbol_agrees(p[j], w, j)) by {
        lemma_bit_of_sum_below(v, w, k, (7 - j) as nat);
    }
    if suffix_agrees(p, v, 8 - k) {
        assert forall|j: int| 8 - k <= j < 8 implies symbol_agrees(#[trigger] p[j], w, j) by {
            assert(symbol_agrees(p[j], v, j));
        }
    }
    if suffix_agrees(p, w, 8 - k) {
        assert forall|j: int| 8 - k <= j < 8 implies symbol_agrees(#[trigger] p[j], v, j) by {
            assert(symbol_agrees(p[j], w, j));
        }
    }
}

/// Check that a pattern is exactly 8 symbols drawn from '0', '1' and '_',
/// and hand the symbols back as a vector.
fn validate_pattern(pattern: &str) -> (r: Result<Vec<char>, EmulatorError>)
    ensures
        match r {
            Ok(symbols) => symbols@ == pattern@ && valid_pattern(pattern@),
            Err(e) => e == EmulatorError::InvalidPattern && !valid_pattern(pattern@),
        },
{
    let length = pattern.unicode_len();
    if length != 8 {
        return Err(EmulatorError::InvalidPattern);
    }
    let mut symbols: Vec<char> = Vec::new();
    let mut i: usize = 0;
    while i < 8
        invariant
            pattern@.len() == 8,
            i <= 8,
            symbols@.len() == i,
            forall|j: int| 0 <= j < i ==> symbols@[j] == pattern@[j],
            forall|j: int| 0 <= j < i ==> is_pattern_symbol(#[trigger] pattern@[j]),
        decreases 8 - i,
    {
        let c = pattern.get_char(i);
        if !(c == '0' || c == '1' || c == '_') {
            assert(!is_pattern_symbol(pattern@[i as int]));
            return Err(EmulatorError::InvalidPattern);
        }
        symbols.push(c);
        i += 1;
    }
    assert(symbols@ =~= pattern@);
    Ok(symbols)
}

/// Decide whether a byte matches an 8-symbol pattern: true iff every
/// non-wildcard symbol equals the corresponding bit of the byte, scanning
/// bit 7 to bit 0 in textual order. A malformed pattern is an authoring
/// error and is rejected.
pub fn matches_byte(pattern: &str, byte: u8) -> (r: Result<bool, EmulatorError>)
    ensures
        match r {
            Ok(is_match) => valid_pattern(pattern@) && is_match == pattern_matches(
                pattern@,
                byte,
            ),
            Err(e) => e == EmulatorError::InvalidPattern && !valid_pattern(pattern@),
        },
{
    let symbols = match validate_pattern(pattern) {
        Ok(symbols) => symbols,
        Err(e) => {
            return Err(e);
        },
    };
    let mut agree = true;
    let mut divisor: u8 = 128;
    proof {
        lemma_two_pow_values();
    }
    let mut i: usize = 0;
    while i < 8
        invariant
            valid_pattern(pattern@),
            symbols@ == pattern@,
            i <= 8,
            i < 8 ==> divisor as nat == two_pow((7 - i) as nat),
            agree == (forall|j: int| 0 <= j < i ==> symbol_agrees(#[trigger] pattern@[j], byte, j)),
        decreases 8 - i,
    {
        let c = symbols[i];
        proof {
            lemma_two_pow_pos((7 - i) as nat);
        }
        let bit = (byte / divisor) % 2;
        assert(bit == byte_bit(byte, (7 - i as int) as nat));
        let sym_ok = if c == '0' {
            bit == 0
        } else if c == '1' {
            bit == 1
        } else {
            true
        };
        assert(sym_ok == symbol_agrees(pattern@[i as int], byte, i as int));
        agree = agree && sym_ok;
        if i < 7 {
            assert(two_pow((7 - i) as nat) == 2 * two_pow((6 - i) as nat));
            divisor = divisor / 2;
        }
        i += 1;
    }
    assert(agree == suffix_agrees(pattern@, byte, 0));
    Ok(agree)
}

/// Expand an 8-symbol pattern to the complete set of byte values matching
/// it. The result holds exactly `2^k` distinct values for a pattern with
/// `k` wildcard symbols, and a byte is in the set if and only if it agrees
/// with every fixed symbol of the pattern.
#[verifier::loop_isolation(false)]
pub fn generate_all_bitstrings(pattern: &str) -> (r: Result<Vec<u8>, EmulatorError>)
    ensures
        match r {
            Ok(values) => {
                &&& valid_pattern(pattern@)
                &&& values@.len() == two_pow(wildcard_count(pattern@))
                &&& values@.no_duplicates()
                &&& forall|b: u8| #[trigger] values@.contains(b) <==> pattern_matches(pattern@, b)
            },
            Err(e) => e == EmulatorError::InvalidPattern && !valid_pattern(pattern@),
        },
{
    let symbols = match validate_pattern(pattern) {
        Ok(symbols) => symbols,
        Err(e) => {
            return Err(e);
        },
    };
    let ghost p = pattern@;
    let mut values: Vec<u8> = Vec::new();
    values.push(0);
    assert(values@[0] == 0);
    assert(forall|b: u8| #[trigger] values@.contains(b) ==> b == 0);
    assert(values@.contains(0));
    let mut bitval: u8 = 1;
    let mut k: usize = 0;
    while k < 8
        invariant
            k <= 8,
            k < 8 ==> bitval as nat == two_pow(k as nat),
            values@.no_duplicates(),
            values@.len() == two_pow(wildcards_from(p, 8 - k as int)),
            forall|b: u8| #[trigger]
                values@.contains(b) <==> ((b as nat) < two_pow(k as nat) && suffix_agrees(
                    p,
                    b,
                    8 - k as int,
                )),
        decreases 8 - k,
    {
        let ghost pos = 7 - k as int;
        let c = symbols[7 - k];
        proof {
            lemma_two_pow_pos(k as nat);
            assert(two_pow((k + 1) as nat) == 2 * two_pow(k as nat));
            lemma_two_pow_increases((k + 1) as nat, 8);
            lemma_two_pow_values();
        }
        if c == '0' {
            // A fixed zero bit: every present value already has bit k
            // clear, and no new value appears.
            assert forall|b: u8| #[trigger]
                values@.contains(b) <==> ((b as nat) < two_pow((k + 1) as nat) && suffix_agrees(
                    p,
                    b,
                    pos,
                )) by {
                if values@.contains(b) {
                    lemma_bit_of_small(b, k as nat, k as nat);
                    assert(symbol_agrees(p[pos], b, pos));
                    assert(suffix_agrees(p, b, pos));
                }
                if (b as nat) < two_pow((k + 1) as nat) && suffix_agrees(p, b, pos) {
                    assert(symbol_agrees(p[pos], b, pos));
                    lemma_bit_decides(b, k as nat);
                    assert((b as nat) < two_pow(k as nat));
                    assert(suffix_agrees(p, b, 8 - k as int));
                }
            }
        } else if c == '1' {
            // A fixed one bit: every value gains bit k.
            let ghost old_values = values@;
            let mut next: Vec<u8> = Vec::new();
            let mut idx: usize = 0;
            while idx < values.len()
                invariant
                    idx <= values@.len(),
                    next@.len() == idx,
                    forall|j: int| 0 <= j < idx ==> next@[j] == old_values[j] + bitval,
                decreases values@.len() - idx,
            {
                let v = values[idx];
                proof {
                    assert(old_values.contains(v));
                }
                next.push(v + bitval);
                idx += 1;
            }
            values = next;
            proof {
                assert forall|b: u8| #[trigger]
                    values@.contains(b) <==> ((b as nat) < two_pow((k + 1) as nat)
                        && suffix_agrees(p, b, pos)) by {
                    if values@.contains(b) {
                        let j = choose|j: int|
                            0 <= j < values@.len() && values@[j] == b;
                        let v = old_values[j];
                        assert(old_values.contains(v));
                        lemma_suffix_transfer(p, v, b, k as nat);
                        assert(symbol_agrees(p[pos], b, pos));
                        assert(suffix_agrees(p, b, pos));
                    }
                    if (b as nat) < two_pow((k + 1) as nat) && suffix_agrees(p, b, pos) {
                        assert(symbol_agrees(p[pos], b, pos));
                        lemma_bit_decides(b, k as nat);
                        assert((b as nat) >= two_pow(k as nat));
                        let v = (b - bitval) as u8;
                        lemma_suffix_transfer(p, v, b, k as nat);
                        assert(suffix_agrees(p, v, 8 - k as int));
                        assert(old_values.contains(v));
                        let j = choose|j: int|
                            0 <= j < old_values.len() && old_values[j] == v;
                        assert(values@[j] == b);
                        assert(values@.contains(b));
                    }
                }
                assert forall|j1: int, j2: int|
                    0 <= j1 < j2 < values@.len() implies values@[j1] != values@[j2] by {
                    assert(old_values[j1] != old_values[j2]);
                }
            }
        } else {
            // A wildcard: every value appears both with bit k clear and
            // with bit k set, doubling the set.
            assert(c == '_');
            let ghost old_values = values@;
            let count = values.len();
            let mut next: Vec<u8> = Vec::new();
            let mut idx: usize = 0;
            while idx < count
                invariant
                    idx <= count,
                    next@.len() == idx,
                    forall|j: int| 0 <= j < idx ==> next@[j] == old_values[j],
                decreases count - idx,
            {
                let v = values[idx];
                next.push(v);
                idx += 1;
            }
            let mut idx2: usize = 0;
            while idx2 < count
                invariant
                    idx2 <= count,
                    next@.len() == count + idx2,
                    forall|j: int| 0 <= j < count ==> next@[j] == old_values[j],
                    forall|j: int|
                        count <= j < count + idx2 ==> next@[j] == old_values[j - count] + bitval,
                decreases count - idx2,
            {
                let v = values[idx2];
                proof {
                    assert(old_values.contains(v));
                }
                next.push(v + bitval);
                idx2 += 1;
            }
            values = next;
            proof {
                let half = count as int;
                assert forall|b: u8| #[trigger]
                    values@.contains(b) <==> ((b as nat) < two_pow((k + 1) as nat)
                        && suffix_agrees(p, b, pos)) by {
                    assert(symbol_agrees(p[pos], b, pos));
                    if values@.contains(b) {
                        let j = choose|j: int|
                            0 <= j < values@.len() && values@[j] == b;
                        if j < half {
                            assert(values@[j] == old_values[j]);
                            assert(old_values[j] == b);
                            assert(old_values.contains(b));
                            lemma_bit_of_small(b, k as nat, k as nat);
                        } else {
                            let v = old_values[j - half];
                            assert(old_values.contains(v));
                            lemma_suffix_transfer(p, v, b, k as nat);
                        }
                        assert(suffix_agrees(p, b, pos));
                    }
                    if (b as nat) < two_pow((k + 1) as nat) && suffix_agrees(p, b, pos) {
                        assert(suffix_agrees(p, b, 8 - k as int));
                        lemma_bit_decides(b, k as nat);
                        if (b as nat) < two_pow(k as nat) {
                            assert(old_values.contains(b) <==> ((b as nat) < two_pow(k as nat)
                                && suffix_agrees(p, b, 8 - k as int)));
                            assert(old_values.contains(b));
                            let j = choose|j: int|
                                0 <= j < old_values.len() && old_values[j] == b;
                            assert(values@[j] == b);
                        } else {
                            let v = (b - bitval) as u8;
                            lemma_suffix_transfer(p, v, b, k as nat);
                            assert(suffix_agrees(p, v, 8 - k as int));
                            assert(old_values.contains(v));
                            let j = choose|j: int|
                                0 <= j < old_values.len() && old_values[j] == v;
                            assert(values@[j + half] == b);
                        }
                        assert(values@.contains(b));
                    }
                }
                assert forall|j1: int, j2: int|
                    0 <= j1 < j2 < values@.len() implies values@[j1] != values@[j2] by {
                    if j1 < half && j2 < half {
                        assert(old_values[j1] != old_values[j2]);
                    } else if j1 >= half && j2 >= half {
                        assert(old_values[j1 - half] != old_values[j2 - half]);
                    } else {
                        assert(old_values.contains(old_values[j1]));
                        let v = old_values[j2 - half];
                        assert(old_values.contains(v));
                        assert(values@[j2] == v + bitval);
                    }
                }
                assert(values@.len() == 2 * old_values.len());
            }
        }
        proof {
            assert(wildcards_from(p, pos) == (if p[pos] == '_' {
                1nat
            } else {
                0nat
            }) + wildcards_from(p, pos + 1));
        }
        if k < 7 {
            proof {
                lemma_two_pow_increases(k as nat, 6);
                lemma_two_pow_values();
            }
            bitval = bitval * 2;
        }
        k += 1;
    }
    proof {
        lemma_two_pow_values();
        assert forall|b: u8| #[trigger]
            values@.contains(b) <==> pattern_matches(p, b) by {
            assert((b as nat) < 256);
        }
    }
    Ok(values)
}

} // verus!
