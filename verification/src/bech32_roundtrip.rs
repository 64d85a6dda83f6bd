//! The decoding theory of the bech32 codec: a specification-level reference
//! decoder, and the proof that it accepts every encoder output and recovers
//! the prefix and the data exactly.
//!
//! The decoder here is a mathematical model, not executable code: the codec
//! itself has no decoding duty, but the round trip pins the encoder down.

use vstd::prelude::*;

use crate::bech32::bech32_chars;
use crate::bech32::charset;
use crate::bech32::checksum_groups;
use crate::bech32::data_bit;
use crate::bech32::data_part_chars;
use crate::bech32::expanded_hrp;
use crate::bech32::group_val;
use crate::bech32::lemma_group_val_bound;
use crate::bech32::num_groups;
use crate::bech32::polymod_of;
use crate::bech32::polymod_prefix;
use crate::bech32::polymod_step;
use crate::bech32::regrouped;
use crate::bech32::valid_hrp;

verus! {

// ---------------------------------------------------------------------------
// Reading five-bit groups back as bytes
// ---------------------------------------------------------------------------

/// Bit `j` of the bit string formed by 5-bit groups, most significant bit
/// of each group first.  Bits past the end read as zero.
pub open spec fn group_bit(groups: Seq<u8>, j: int) -> bool
    recommends
        0 <= j,
{
    if j < 5 * groups.len() {
        (groups[j / 5] >> ((4 - (j % 5)) as u8)) & 1 == 1
    } else {
        false
    }
}

/// The value of the first `t` bits of byte `k` of the regathered byte
/// string, i.e. of group bits `8k .. 8k+t-1`.
pub open spec fn byte_val(groups: Seq<u8>, k: int, t: int) -> int
    decreases t,
{
    if t <= 0 {
        0
    } else {
        2 * byte_val(groups, k, t - 1) + if group_bit(groups, 8 * k + (t - 1)) {
            1int
        } else {
            0int
        }
    }
}

/// The groups read back as bytes; a trailing partial byte is dropped.
pub open spec fn ungrouped(groups: Seq<u8>) -> Seq<u8> {
    Seq::new((5 * groups.len() / 8) as nat, |k: int| byte_val(groups, k, 8) as u8)
}

// ---------------------------------------------------------------------------
// Bits of the regrouping
// ---------------------------------------------------------------------------

proof fn lemma_u8_five_bits(g: u8, b0: u8, b1: u8, b2: u8, b3: u8, b4: u8)
    by (bit_vector)
    requires
        b0 <= 1,
        b1 <= 1,
        b2 <= 1,
        b3 <= 1,
        b4 <= 1,
        g == 16 * b0 + 8 * b1 + 4 * b2 + 2 * b3 + b4,
    ensures
        (g >> 4u8) & 1 == b0,
        (g >> 3u8) & 1 == b1,
        (g >> 2u8) & 1 == b2,
        (g >> 1u8) & 1 == b3,
        (g >> 0u8) & 1 == b4,
{
}

/// Each bit of the regrouped sequence is the corresponding bit of the
/// original byte string, with zero padding past its end.
proof fn lemma_regroup_bit(data: Seq<u8>, j: int)
    requires
        0 <= j < 5 * num_groups(data.len()),
    ensures
        group_bit(regrouped(data), j) == data_bit(data, j),
{
    let groups = regrouped(data);
    let i = j / 5;
    let t = j % 5;
    assert(0 <= t < 5);
    assert(j == 5 * i + t);
    assert(0 <= i < groups.len());
    let g = group_val(data, i, 5);
    reveal_with_fuel(group_val, 6);
    lemma_group_val_bound(data, i, 5);
    let b0: u8 = if data_bit(data, 5 * i + 0) { 1u8 } else { 0u8 };
    let b1: u8 = if data_bit(data, 5 * i + 1) { 1u8 } else { 0u8 };
    let b2: u8 = if data_bit(data, 5 * i + 2) { 1u8 } else { 0u8 };
    let b3: u8 = if data_bit(data, 5 * i + 3) { 1u8 } else { 0u8 };
    let b4: u8 = if data_bit(data, 5 * i + 4) { 1u8 } else { 0u8 };
    assert(g == 16 * b0 + 8 * b1 + 4 * b2 + 2 * b3 + b4);
    let gu = g as u8;
    assert(groups[i] == gu);
    lemma_u8_five_bits(gu, b0, b1, b2, b3, b4);
    if t == 0 {
        assert((gu >> ((4 - t) as u8)) & 1 == (gu >> 4u8) & 1);
    } else if t == 1 {
        assert((gu >> ((4 - t) as u8)) & 1 == (gu >> 3u8) & 1);
    } else if t == 2 {
        assert((gu >> ((4 - t) as u8)) & 1 == (gu >> 2u8) & 1);
    } else if t == 3 {
        assert((gu >> ((4 - t) as u8)) & 1 == (gu >> 1u8) & 1);
    } else {
        assert((gu >> ((4 - t) as u8)) & 1 == (gu >> 0u8) & 1);
    }
}

proof fn lemma_u8_from_bits(x: u8)
    by (bit_vector)
    ensures
        x == 128 * ((x >> 7u8) & 1) + 64 * ((x >> 6u8) & 1) + 32 * ((x >> 5u8) & 1) + 16 * ((x
            >> 4u8) & 1) + 8 * ((x >> 3u8) & 1) + 4 * ((x >> 2u8) & 1) + 2 * ((x >> 1u8) & 1) + ((
        x >> 0u8) & 1),
{
}

/// The group count of an `n`-byte regrouping covers all data bits and at
/// most four padding bits.
proof fn lemma_group_count(n: nat)
    ensures
        8 * n <= 5 * num_groups(n) <= 8 * n + 4,
        5 * num_groups(n) / 8 == n,
{
    let m = num_groups(n) as int;
    assert(m == (8 * n + 4) / 5);
    assert(5 * m <= 8 * n + 4 < 5 * (m + 1)) by {
        vstd::arithmetic::div_mod::lemma_fundamental_div_mod(8 * (n as int) + 4, 5);
    }
    assert(8 * n <= 5 * m <= 8 * n + 4);
    let e = 5 * m - 8 * n;
    assert(0 <= e <= 4);
    assert(5 * m == 8 * n + e);
    vstd::arithmetic::div_mod::lemma_fundamental_div_mod_converse(5 * m, 8, n as int, e);
}

/// Reading the regrouped form back yields the original bytes, exactly.
pub proof fn lemma_ungroup_regroup(data: Seq<u8>)
    ensures
        ungrouped(regrouped(data)) == data,
{
    let n = data.len();
    let groups = regrouped(data);
    lemma_group_count(n);
    assert(ungrouped(groups).len() == n);
    assert forall|k: int| 0 <= k < n implies ungrouped(groups)[k] == data[k] by {
        reveal_with_fuel(byte_val, 9);
        let x = data[k];
        lemma_u8_from_bits(x);
        assert forall|j: int| 8 * k <= j < 8 * k + 8 implies #[trigger] group_bit(groups, j)
            == ((x >> ((7 - (j - 8 * k)) as u8)) & 1 == 1) by {
            let t = j - 8 * k;
            assert(j < 8 * n);
            lemma_regroup_bit(data, j);
            assert(j / 8 == k && j % 8 == t) by {
                vstd::arithmetic::div_mod::lemma_fundamental_div_mod_converse(j, 8, k, t);
            }
            assert(data_bit(data, j) == ((x >> ((7 - t) as u8)) & 1 == 1));
        }
        let c0: u8 = (x >> 7u8) & 1;
        let c1: u8 = (x >> 6u8) & 1;
        let c2: u8 = (x >> 5u8) & 1;
        let c3: u8 = (x >> 4u8) & 1;
        let c4: u8 = (x >> 3u8) & 1;
        let c5: u8 = (x >> 2u8) & 1;
        let c6: u8 = (x >> 1u8) & 1;
        let c7: u8 = (x >> 0u8) & 1;
        assert(c0 <= 1 && c1 <= 1 && c2 <= 1 && c3 <= 1 && c4 <= 1 && c5 <= 1 && c6 <= 1 && c7
            <= 1) by (bit_vector)
            requires
                c0 == (x >> 7u8) & 1,
                c1 == (x >> 6u8) & 1,
                c2 == (x >> 5u8) & 1,
                c3 == (x >> 4u8) & 1,
                c4 == (x >> 3u8) & 1,
                c5 == (x >> 2u8) & 1,
                c6 == (x >> 1u8) & 1,
                c7 == (x >> 0u8) & 1,
        ;
        assert(byte_val(groups, k, 8) == 128 * c0 + 64 * c1 + 32 * c2 + 16 * c3 + 8 * c4 + 4 * c5
            + 2 * c6 + c7);
    }
    assert(ungrouped(groups) =~= data);
}

/// Every padding bit of the regrouped form is zero.
pub proof fn lemma_padding_zero(data: Seq<u8>)
    ensures
        forall|j: int|
            8 * data.len() <= j < 5 * regrouped(data).len() ==> !group_bit(regrouped(data), j),
{
    lemma_group_count(data.len());
    assert forall|j: int|
        8 * data.len() <= j < 5 * regrouped(data).len() implies !group_bit(
        regrouped(data),
        j,
    ) by {
        lemma_regroup_bit(data, j);
    }
}

// ---------------------------------------------------------------------------
// Checksum acceptance
// ---------------------------------------------------------------------------

proof fn lemma_polymod_prefix_agrees(a: Seq<u8>, b: Seq<u8>, n: int)
    requires
        0 <= n <= a.len(),
        n <= b.len(),
        forall|i: int| 0 <= i < n ==> a[i] == b[i],
    ensures
        polymod_prefix(a, n) == polymod_prefix(b, n),
    decreases n,
{
    if n > 0 {
        lemma_polymod_prefix_agrees(a, b, n - 1);
    }
}

proof fn lemma_step_bound(chk: u32, v: u8)
    by (bit_vector)
    ensures
        polymod_step(chk, v) < 0x40000000u32,
{
}

proof fn lemma_polymod_bound(values: Seq<u8>, n: int)
    ensures
        polymod_prefix(values, n) < 0x40000000u32,
    decreases n,
{
    if n <= 0 {
        assert(polymod_prefix(values, n) == 1u32);
    } else {
        lemma_polymod_bound(values, n - 1);
        lemma_step_bound(polymod_prefix(values, n - 1), values[n - 1]);
    }
}

proof fn lemma_step_linear(chk: u32, d: u32, v: u8)
    by (bit_vector)
    requires
        d < 0x2000000u32,
    ensures
        polymod_step(chk ^ d, v) == polymod_step(chk, 0u8) ^ (d << 5u32) ^ (v as u32),
{
}

proof fn lemma_mask_31(x: u32, sh: u32)
    by (bit_vector)
    ensures
        ((x >> sh) & 31) < 32,
{
}

/// Appending the six checksum groups makes the reduction accept: over the
/// seed, the data groups and the checksum groups together it yields one.
pub proof fn lemma_checksum_accepts(s: Seq<u8>)
    ensures
        ({
            let pm = polymod_of(s + seq![0u8, 0u8, 0u8, 0u8, 0u8, 0u8]) ^ 1u32;
            polymod_of(s + checksum_groups(pm)) == 1u32
        }),
{
    let zs = seq![0u8, 0u8, 0u8, 0u8, 0u8, 0u8];
    let n = s.len() as int;
    let a = s + zs;
    let pm0 = polymod_of(a);
    let pm = pm0 ^ 1u32;
    let cs = checksum_groups(pm);
    let b = s + cs;
    assert(a.len() == n + 6);
    assert(cs.len() == 6);
    assert(b.len() == n + 6);
    lemma_polymod_prefix_agrees(a, b, n);
    lemma_polymod_bound(a, n + 6);

    let e0: u32 = (pm >> 25u32) & 31;
    let e1: u32 = (pm >> 20u32) & 31;
    let e2: u32 = (pm >> 15u32) & 31;
    let e3: u32 = (pm >> 10u32) & 31;
    let e4: u32 = (pm >> 5u32) & 31;
    let e5: u32 = (pm >> 0u32) & 31;
    assert(e0 < 32 && e1 < 32 && e2 < 32 && e3 < 32 && e4 < 32 && e5 < 32) by (bit_vector)
        requires
            e0 == (pm >> 25u32) & 31,
            e1 == (pm >> 20u32) & 31,
            e2 == (pm >> 15u32) & 31,
            e3 == (pm >> 10u32) & 31,
            e4 == (pm >> 5u32) & 31,
            e5 == (pm >> 0u32) & 31,
    ;
    let cs0: u8 = cs[0];
    let cs1: u8 = cs[1];
    let cs2: u8 = cs[2];
    let cs3: u8 = cs[3];
    let cs4: u8 = cs[4];
    let cs5: u8 = cs[5];
    assert(cs0 == e0 as u8 && cs1 == e1 as u8 && cs2 == e2 as u8 && cs3 == e3 as u8 && cs4
        == e4 as u8 && cs5 == e5 as u8);
    assert((cs0 as u32) == e0 && (cs1 as u32) == e1 && (cs2 as u32) == e2 && (cs3 as u32) == e3
        && (cs4 as u32) == e4 && (cs5 as u32) == e5);

    let z0 = polymod_prefix(a, n);
    let z1 = polymod_prefix(a, n + 1);
    let z2 = polymod_prefix(a, n + 2);
    let z3 = polymod_prefix(a, n + 3);
    let z4 = polymod_prefix(a, n + 4);
    let z5 = polymod_prefix(a, n + 5);
    let z6 = polymod_prefix(a, n + 6);
    assert(a[n] == 0u8 && a[n + 1] == 0u8 && a[n + 2] == 0u8 && a[n + 3] == 0u8 && a[n + 4] == 0u8
        && a[n + 5] == 0u8);
    assert(z1 == polymod_step(z0, 0u8));
    assert(z2 == polymod_step(z1, 0u8));
    assert(z3 == polymod_step(z2, 0u8));
    assert(z4 == polymod_step(z3, 0u8));
    assert(z5 == polymod_step(z4, 0u8));
    assert(z6 == polymod_step(z5, 0u8));
    assert(z6 == pm0);

    let d1: u32 = e0;
    let d2: u32 = (d1 << 5u32) ^ e1;
    let d3: u32 = (d2 << 5u32) ^ e2;
    let d4: u32 = (d3 << 5u32) ^ e3;
    let d5: u32 = (d4 << 5u32) ^ e4;
    let d6: u32 = (d5 << 5u32) ^ e5;
    assert(d1 < 0x2000000u32 && d2 < 0x2000000u32 && d3 < 0x2000000u32 && d4 < 0x2000000u32 && d5
        < 0x2000000u32) by (bit_vector)
        requires
            e0 < 32u32 && e1 < 32u32 && e2 < 32u32 && e3 < 32u32 && e4 < 32u32,
            d1 == e0,
            d2 == (d1 << 5u32) ^ e1,
            d3 == (d2 << 5u32) ^ e2,
            d4 == (d3 << 5u32) ^ e3,
            d5 == (d4 << 5u32) ^ e4,
    ;

    let c0 = polymod_prefix(b, n);
    let c1 = polymod_prefix(b, n + 1);
    let c2 = polymod_prefix(b, n + 2);
    let c3 = polymod_prefix(b, n + 3);
    let c4 = polymod_prefix(b, n + 4);
    let c5 = polymod_prefix(b, n + 5);
    let c6 = polymod_prefix(b, n + 6);
    assert(b[n] == cs0 && b[n + 1] == cs1 && b[n + 2] == cs2 && b[n + 3] == cs3 && b[n + 4] == cs4
        && b[n + 5] == cs5);
    assert(c0 == z0);
    assert(c1 == polymod_step(c0, cs0));
    assert(c2 == polymod_step(c1, cs1));
    assert(c3 == polymod_step(c2, cs2));
    assert(c4 == polymod_step(c3, cs3));
    assert(c5 == polymod_step(c4, cs4));
    assert(c6 == polymod_step(c5, cs5));

    assert(z0 ^ 0u32 == z0) by (bit_vector);
    lemma_step_linear(z0, 0u32, cs0);
    assert(c1 == z1 ^ d1) by (bit_vector)
        requires
            c1 == polymod_step(z0 ^ 0u32, cs0),
            polymod_step(z0 ^ 0u32, cs0) == polymod_step(z0, 0u8) ^ (0u32 << 5u32) ^ (cs0 as u32),
            z1 == polymod_step(z0, 0u8),
            (cs0 as u32) == e0,
            d1 == e0,
    ;
    lemma_step_linear(z1, d1, cs1);
    assert(c2 == z2 ^ d2) by (bit_vector)
        requires
            c2 == polymod_step(z1 ^ d1, cs1),
            polymod_step(z1 ^ d1, cs1) == polymod_step(z1, 0u8) ^ (d1 << 5u32) ^ (cs1 as u32),
            z2 == polymod_step(z1, 0u8),
            (cs1 as u32) == e1,
            d2 == (d1 << 5u32) ^ e1,
    ;
    lemma_step_linear(z2, d2, cs2);
    assert(c3 == z3 ^ d3) by (bit_vector)
        requires
            c3 == polymod_step(z2 ^ d2, cs2),
            polymod_step(z2 ^ d2, cs2) == polymod_step(z2, 0u8) ^ (d2 << 5u32) ^ (cs2 as u32),
            z3 == polymod_step(z2, 0u8),
            (cs2 as u32) == e2,
            d3 == (d2 << 5u32) ^ e2,
    ;
    lemma_step_linear(z3, d3, cs3);
    assert(c4 == z4 ^ d4) by (bit_vector)
        requires
            c4 == polymod_step(z3 ^ d3, cs3),
            polymod_step(z3 ^ d3, cs3) == polymod_step(z3, 0u8) ^ (d3 << 5u32) ^ (cs3 as u32),
            z4 == polymod_step(z3, 0u8),
            (cs3 as u32) == e3,
            d4 == (d3 << 5u32) ^ e3,
    ;
    lemma_step_linear(z4, d4, cs4);
    assert(c5 == z5 ^ d5) by (bit_vector)
        requires
            c5 == polymod_step(z4 ^ d4, cs4),
            polymod_step(z4 ^ d4, cs4) == polymod_step(z4, 0u8) ^ (d4 << 5u32) ^ (cs4 as u32),
            z5 == polymod_step(z4, 0u8),
            (cs4 as u32) == e4,
            d5 == (d4 << 5u32) ^ e4,
    ;
    lemma_step_linear(z5, d5, cs5);
    assert(c6 == z6 ^ d6) by (bit_vector)
        requires
            c6 == polymod_step(z5 ^ d5, cs5),
            polymod_step(z5 ^ d5, cs5) == polymod_step(z5, 0u8) ^ (d5 << 5u32) ^ (cs5 as u32),
            z6 == polymod_step(z5, 0u8),
            (cs5 as u32) == e5,
            d6 == (d5 << 5u32) ^ e5,
    ;
    assert(c6 == 1u32) by (bit_vector)
        requires
            c6 == z6 ^ d6,
            z6 == pm0,
            pm == pm0 ^ 1u32,
            pm0 < 0x40000000u32,
            d1 == e0,
            d2 == (d1 << 5u32) ^ e1,
            d3 == (d2 << 5u32) ^ e2,
            d4 == (d3 << 5u32) ^ e3,
            d5 == (d4 << 5u32) ^ e4,
            d6 == (d5 << 5u32) ^ e5,
            e0 == (pm >> 25u32) & 31,
            e1 == (pm >> 20u32) & 31,
            e2 == (pm >> 15u32) & 31,
            e3 == (pm >> 10u32) & 31,
            e4 == (pm >> 5u32) & 31,
            e5 == (pm >> 0u32) & 31,
    ;
    assert(polymod_of(b) == c6);
}

// ---------------------------------------------------------------------------
// The reference decoder
// ---------------------------------------------------------------------------

/// The position of a character in the bech32 alphabet, where it has one.
pub open spec fn charset_index(c: char) -> Option<u8> {
    if c == 'q' {
        Some(0u8)
    } else if c == 'p' {
        Some(1u8)
    } else if c == 'z' {
        Some(2u8)
    } else if c == 'r' {
        Some(3u8)
    } else if c == 'y' {
        Some(4u8)
    } else if c == '9' {
        Some(5u8)
    } else if c == 'x' {
        Some(6u8)
    } else if c == '8' {
        Some(7u8)
    } else if c == 'g' {
        Some(8u8)
    } else if c == 'f' {
        Some(9u8)
    } else if c == '2' {
        Some(10u8)
    } else if c == 't' {
        Some(11u8)
    } else if c == 'v' {
        Some(12u8)
    } else if c == 'd' {
        Some(13u8)
    } else if c == 'w' {
        Some(14u8)
    } else if c == '0' {
        Some(15u8)
    } else if c == 's' {
        Some(16u8)
    } else if c == '3' {
        Some(17u8)
    } else if c == 'j' {
        Some(18u8)
    } else if c == 'n' {
        Some(19u8)
    } else if c == '5' {
        Some(20u8)
    } else if c == '4' {
        Some(21u8)
    } else if c == 'k' {
        Some(22u8)
    } else if c == 'h' {
        Some(23u8)
    } else if c == 'c' {
        Some(24u8)
    } else if c == 'e' {
        Some(25u8)
    } else if c == '6' {
        Some(26u8)
    } else if c == 'm' {
        Some(27u8)
    } else if c == 'u' {
        Some(28u8)
    } else if c == 'a' {
        Some(29u8)
    } else if c == '7' {
        Some(30u8)
    } else if c == 'l' {
        Some(31u8)
    } else {
        None
    }
}

proof fn lemma_charset_inverse(v: u8)
    requires
        v < 32,
    ensures
        charset_index(charset()[v as int]) == Some(v),
        charset()[v as int] != '1',
{
    if v == 0 {
        assert(charset()[0] == 'q');
    } else if v == 1 {
        assert(charset()[1] == 'p');
    } else if v == 2 {
        assert(charset()[2] == 'z');
    } else if v == 3 {
        assert(charset()[3] == 'r');
    } else if v == 4 {
        assert(charset()[4] == 'y');
    } else if v == 5 {
        assert(charset()[5] == '9');
    } else if v == 6 {
        assert(charset()[6] == 'x');
    } else if v == 7 {
        assert(charset()[7] == '8');
    } else if v == 8 {
        assert(charset()[8] == 'g');
    } else if v == 9 {
        assert(charset()[9] == 'f');
    } else if v == 10 {
        assert(charset()[10] == '2');
    } else if v == 11 {
        assert(charset()[11] == 't');
    } else if v == 12 {
        assert(charset()[12] == 'v');
    } else if v == 13 {
        assert(charset()[13] == 'd');
    } else if v == 14 {
        assert(charset()[14] == 'w');
    } else if v == 15 {
        assert(charset()[15] == '0');
    } else if v == 16 {
        assert(charset()[16] == 's');
    } else if v == 17 {
        assert(charset()[17] == '3');
    } else if v == 18 {
        assert(charset()[18] == 'j');
    } else if v == 19 {
        assert(charset()[19] == 'n');
    } else if v == 20 {
        assert(charset()[20] == '5');
    } else if v == 21 {
        assert(charset()[21] == '4');
    } else if v == 22 {
        assert(charset()[22] == 'k');
    } else if v == 23 {
        assert(charset()[23] == 'h');
    } else if v == 24 {
        assert(charset()[24] == 'c');
    } else if v == 25 {
        assert(charset()[25] == 'e');
    } else if v == 26 {
        assert(charset()[26] == '6');
    } else if v == 27 {
        assert(charset()[27] == 'm');
    } else if v == 28 {
        assert(charset()[28] == 'u');
    } else if v == 29 {
        assert(charset()[29] == 'a');
    } else if v == 30 {
        assert(charset()[30] == '7');
    } else if v == 31 {
        assert(charset()[31] == 'l');
    } else {
        assert(false);
    }
}

/// The values of a run of data characters, where every character is in the
/// alphabet.
pub open spec fn parse_data_chars(s: Seq<char>) -> Option<Seq<u8>> {
    if forall|i: int| 0 <= i < s.len() ==> charset_index(#[trigger] s[i]) is Some {
        Some(Seq::new(s.len(), |i: int| charset_index(s[i]).unwrap()))
    } else {
        None
    }
}

/// Position `p` holds the separator: the last `'1'` of the text.
pub open spec fn is_separator_pos(s: Seq<char>, p: int) -> bool {
    &&& 0 <= p < s.len()
    &&& s[p] == '1'
    &&& forall|j: int| p < j < s.len() ==> s[j] != '1'
}

/// What a strict reference decoder accepts and recovers: it splits at the
/// last `'1'`, maps the data characters back through the alphabet, demands
/// that the checksum reduction accept, reads the five-bit groups back as
/// bytes, and demands that the group count fit the byte count with every
/// padding bit zero.
pub open spec fn bech32_decode(s: Seq<char>) -> Option<(Seq<char>, Seq<u8>)> {
    if exists|p: int| is_separator_pos(s, p) {
        let p = choose|p: int| is_separator_pos(s, p);
        let hrp = s.take(p);
        let rest = s.subrange(p + 1, s.len() as int);
        if rest.len() < 6 {
            None
        } else {
            match parse_data_chars(rest) {
                Some(groups) => {
                    if polymod_of(expanded_hrp(hrp) + groups) == 1u32 {
                        let dgroups = groups.take(groups.len() - 6);
                        let bytes = ungrouped(dgroups);
                        if dgroups.len() == num_groups(bytes.len()) && (forall|j: int|
                            8 * bytes.len() <= j < 5 * dgroups.len() ==> !group_bit(dgroups, j)) {
                            Some((hrp, bytes))
                        } else {
                            None
                        }
                    } else {
                        None
                    }
                },
                None => None,
            }
        }
    } else {
        None
    }
}

/// Bech32 round trip: for every byte sequence and every valid prefix, the
/// reference decoder accepts the encoder's output and recovers the prefix
/// and the bytes exactly.
pub proof fn lemma_bech32_roundtrip(hrp: Seq<char>, data: Seq<u8>)
    requires
        valid_hrp(hrp),
    ensures
        bech32_decode(bech32_chars(hrp, data)) == Some((hrp, data)),
{
    let groups = regrouped(data);
    let zs = seq![0u8, 0u8, 0u8, 0u8, 0u8, 0u8];
    let seed = expanded_hrp(hrp) + groups;
    let pm = polymod_of(expanded_hrp(hrp) + groups + zs) ^ 1u32;
    let cs = checksum_groups(pm);
    let enc = bech32_chars(hrp, data);
    let dpart = data_part_chars(groups) + data_part_chars(cs);
    let p = hrp.len() as int;
    assert(enc == hrp + seq!['1'] + data_part_chars(groups) + data_part_chars(cs));
    assert(enc.len() == p + 1 + groups.len() + 6);
    assert forall|j: int| 0 <= j < enc.len() implies enc[j] == (if j < p {
        hrp[j]
    } else if j == p {
        '1'
    } else {
        dpart[j - p - 1]
    }) by {
        assert(enc =~= hrp + seq!['1'] + dpart);
    }

    assert forall|i: int| 0 <= i < groups.len() implies groups[i] < 32 by {
        lemma_group_val_bound(data, i, 5);
    }
    assert forall|i: int| 0 <= i < 6 implies cs[i] < 32 by {
        lemma_mask_31(pm, (5 * (5 - i)) as u32);
    }
    assert forall|i: int| 0 <= i < dpart.len() implies (charset_index(#[trigger] dpart[i]) is Some
        && dpart[i] != '1' && charset_index(dpart[i]) == Some(
        if i < groups.len() {
            groups[i]
        } else {
            cs[i - groups.len()]
        },
    )) by {
        if i < groups.len() {
            assert(dpart[i] == charset()[groups[i] as int]);
            lemma_charset_inverse(groups[i]);
        } else {
            assert(dpart[i] == charset()[cs[i - groups.len()] as int]);
            lemma_charset_inverse(cs[i - groups.len()]);
        }
    }

    // the separator of the encoding is exactly at the end of the prefix
    assert(is_separator_pos(enc, p));
    let q = choose|q: int| is_separator_pos(enc, q);
    assert(is_separator_pos(enc, q));
    if q < p {
        assert(enc[p] == '1');
        assert(false);
    }
    if q > p {
        assert(enc[q] == dpart[q - p - 1]);
        assert(false);
    }
    assert(q == p);

    assert(enc.take(p) =~= hrp);
    let rest = enc.subrange(p + 1, enc.len() as int);
    assert(rest =~= dpart);
    assert(rest.len() == groups.len() + 6);

    // the data characters parse back to the groups and the checksum
    let parsed = groups + cs;
    assert(parse_data_chars(rest) is Some);
    assert(parse_data_chars(rest).unwrap() =~= parsed);

    // the checksum reduction accepts
    lemma_checksum_accepts(seed);
    assert(seed + zs =~= expanded_hrp(hrp) + groups + zs);
    assert(seed + cs =~= expanded_hrp(hrp) + parsed);
    assert(polymod_of(expanded_hrp(hrp) + parsed) == 1u32);

    // the recovered groups are the regrouped data, and the bytes come back
    assert(parsed.take(parsed.len() - 6) =~= groups);
    lemma_ungroup_regroup(data);
    lemma_padding_zero(data);
    assert(ungrouped(groups) == data);
    assert(groups.len() == num_groups(data.len()));
    assert(bech32_decode(enc) == Some((hrp, data)));
}

} // verus!
