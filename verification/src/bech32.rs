//! Bech32 encoding: regrouping of bytes into 5-bit values, the BCH checksum
//! over an expanded human-readable prefix, and the final character mapping.
//!
//! The specification model works at the level of individual bits: a byte
//! sequence is read as a bit string, most significant bit first, and the
//! 5-bit groups are windows over that bit string.  The executable encoder is
//! proved to produce exactly the characters of [`bech32_chars`].

use vstd::prelude::*;
use vstd::string::*;

use crate::error::BanhBaoRingError;

verus! {

broadcast use vstd::string::group_string_axioms;

// ---------------------------------------------------------------------------
// Specification model: bits and 5-bit groups
// ---------------------------------------------------------------------------

/// Bit `j` of the bit string formed by `data`, most significant bit of each
/// byte first.  Bits past the end of the data read as zero (the padding rule).
pub open spec fn data_bit(data: Seq<u8>, j: int) -> bool
    recommends
        0 <= j,
{
    if j < 8 * data.len() {
        (data[j / 8] >> ((7 - (j % 8)) as u8)) & 1 == 1
    } else {
        false
    }
}

/// How many 5-bit groups a regrouped `n`-byte sequence has: `ceil(8n / 5)`.
pub open spec fn num_groups(n: nat) -> nat {
    ((8 * n + 4) / 5) as nat
}

/// The value of the first `k` bits of group `i`, i.e. of bits
/// `5i .. 5i+k-1` of `data`, read as a big-endian binary number.
pub open spec fn group_val(data: Seq<u8>, i: int, k: int) -> int
    decreases k,
{
    if k <= 0 {
        0
    } else {
        2 * group_val(data, i, k - 1) + if data_bit(data, 5 * i + (k - 1)) {
            1int
        } else {
            0int
        }
    }
}

/// `data` regrouped into 5-bit values, most significant bit first, the final
/// group padded with zero bits.
pub open spec fn regrouped(data: Seq<u8>) -> Seq<u8> {
    Seq::new(num_groups(data.len()), |i: int| group_val(data, i, 5) as u8)
}

pub(crate) proof fn lemma_group_val_bound(data: Seq<u8>, i: int, k: int)
    requires
        0 <= k <= 5,
    ensures
        0 <= group_val(data, i, k),
        k == 0 ==> group_val(data, i, k) == 0,
        k == 1 ==> group_val(data, i, k) < 2,
        k == 2 ==> group_val(data, i, k) < 4,
        k == 3 ==> group_val(data, i, k) < 8,
        k == 4 ==> group_val(data, i, k) < 16,
        k == 5 ==> group_val(data, i, k) < 32,
    decreases k,
{
    if k > 0 {
        lemma_group_val_bound(data, i, k - 1);
    }
}

// ---------------------------------------------------------------------------
// Specification model: checksum
// ---------------------------------------------------------------------------

/// One step of the checksum polynomial reduction: shift the 30-bit state left
/// by five bits, fold in the next 5-bit value, and reduce by the generator
/// constants selected by the bits shifted out.
pub open spec fn polymod_step(chk: u32, v: u8) -> u32 {
    let b = chk >> 25u32;
    let c = ((chk & 0x1ffffffu32) << 5u32) ^ (v as u32);
    let c = if b & 1u32 == 1u32 {
        c ^ 0x3b6a57b2u32
    } else {
        c
    };
    let c = if (b >> 1u32) & 1u32 == 1u32 {
        c ^ 0x26508e6du32
    } else {
        c
    };
    let c = if (b >> 2u32) & 1u32 == 1u32 {
        c ^ 0x1ea119fau32
    } else {
        c
    };
    let c = if (b >> 3u32) & 1u32 == 1u32 {
        c ^ 0x3d4233ddu32
    } else {
        c
    };
    if (b >> 4u32) & 1u32 == 1u32 {
        c ^ 0x2a1462b3u32
    } else {
        c
    }
}

/// The checksum state after the first `n` values.
pub open spec fn polymod_prefix(values: Seq<u8>, n: int) -> u32
    decreases n,
{
    if n <= 0 {
        1u32
    } else {
        polymod_step(polymod_prefix(values, n - 1), values[n - 1])
    }
}

/// The checksum state after all of `values`.
pub open spec fn polymod_of(values: Seq<u8>) -> u32 {
    polymod_prefix(values, values.len() as int)
}

/// The checksum seed derived from the prefix: the high 3 bits of each
/// character, a zero separator, then the low 5 bits of each character.
pub open spec fn expanded_hrp(hrp: Seq<char>) -> Seq<u8> {
    Seq::new(hrp.len(), |i: int| (hrp[i] as u8) >> 5u8) + seq![0u8] + Seq::new(
        hrp.len(),
        |i: int| (hrp[i] as u8) & 31u8,
    )
}

/// The six 5-bit groups of the final checksum value, most significant first.
pub open spec fn checksum_groups(pm: u32) -> Seq<u8> {
    Seq::new(6, |i: int| ((pm >> ((5 * (5 - i)) as u32)) & 31u32) as u8)
}

// ---------------------------------------------------------------------------
// Specification model: the character set and the whole encoding
// ---------------------------------------------------------------------------

/// The 32-character bech32 alphabet.
pub open spec fn charset() -> Seq<char> {
    seq![
        'q', 'p', 'z', 'r', 'y', '9', 'x', '8', 'g', 'f', '2', 't', 'v', 'd', 'w', '0', 's', '3',
        'j', 'n', '5', '4', 'k', 'h', 'c', 'e', '6', 'm', 'u', 'a', '7', 'l',
    ]
}

/// 5-bit values mapped through the alphabet.
pub open spec fn data_part_chars(groups: Seq<u8>) -> Seq<char> {
    groups.map(|i: int, g: u8| charset()[g as int])
}

/// A character acceptable in a human-readable prefix (printable ASCII).
pub open spec fn valid_hrp_char(c: char) -> bool {
    33 <= c as int <= 126
}

/// A human-readable prefix made only of printable ASCII characters.
pub open spec fn valid_hrp(hrp: Seq<char>) -> bool {
    forall|i: int| 0 <= i < hrp.len() ==> valid_hrp_char(#[trigger] hrp[i])
}

/// The complete bech32 encoding of `data` under the prefix `hrp`:
/// prefix, separator `'1'`, the regrouped data, and six checksum characters.
pub open spec fn bech32_chars(hrp: Seq<char>, data: Seq<u8>) -> Seq<char> {
    let groups = regrouped(data);
    let pm = polymod_of(expanded_hrp(hrp) + groups + seq![0u8, 0u8, 0u8, 0u8, 0u8, 0u8]) ^ 1u32;
    hrp + seq!['1'] + data_part_chars(groups) + data_part_chars(checksum_groups(pm))
}

/// The shape of every encoding: its length is the prefix, the separator,
/// one character per 5-bit group and six checksum characters; and it opens
/// with the prefix and the separator.
pub proof fn lemma_bech32_shape(hrp: Seq<char>, data: Seq<u8>)
    ensures
        bech32_chars(hrp, data).len() == hrp.len() + 7 + num_groups(data.len()),
        bech32_chars(hrp, data).take(hrp.len() as int + 1) == hrp + seq!['1'],
{
    assert(bech32_chars(hrp, data).take(hrp.len() as int + 1) =~= hrp + seq!['1']);
}

// ---------------------------------------------------------------------------
// Executable encoder
// ---------------------------------------------------------------------------

/// Expands a human-readable prefix into the checksum seed sequence.
pub fn expand_hrp(hrp: &str) -> (r: Vec<u8>)
    requires
        valid_hrp(hrp@),
    ensures
        r@ == expanded_hrp(hrp@),
{
    proof {
        assert forall|i: int| 0 <= i < hrp@.len() implies '\0' <= #[trigger] hrp@[i]
            <= '\u{7f}' by {
            assert(valid_hrp_char(hrp@[i]));
            assert(33 <= hrp@[i] as int <= 126);
        }
        assert(vstd::utf8::is_ascii_chars(hrp@));
    }
    let n = hrp.unicode_len();
    let mut r: Vec<u8> = Vec::new();
    let mut i: usize = 0;
    while i < n
        invariant
            vstd::string::is_ascii(hrp),
            n == hrp@.len(),
            i <= n,
            r@.len() == i,
            forall|t: int| 0 <= t < i ==> r@[t] == (hrp@[t] as u8) >> 5u8,
        decreases n - i,
    {
        r.push(hrp.get_ascii(i) >> 5);
        i += 1;
    }
    r.push(0);
    let mut i: usize = 0;
    while i < n
        invariant
            vstd::string::is_ascii(hrp),
            n == hrp@.len(),
            i <= n,
            r@.len() == n + 1 + i,
            forall|t: int| 0 <= t < n ==> r@[t] == (hrp@[t] as u8) >> 5u8,
            r@[n as int] == 0u8,
            forall|t: int| 0 <= t < i ==> r@[n + 1 + t] == (hrp@[t] as u8) & 31u8,
        decreases n - i,
    {
        r.push(hrp.get_ascii(i) & 31);
        i += 1;
    }
    proof {
        assert(r@ =~= expanded_hrp(hrp@));
    }
    r
}

/// Computes the checksum polynomial reduction over a sequence of values.
pub fn bech32_polymod(values: &[u8]) -> (chk: u32)
    ensures
        chk == polymod_of(values@),
{
    let mut chk: u32 = 1;
    let mut i: usize = 0;
    while i < values.len()
        invariant
            i <= values@.len(),
            chk == polymod_prefix(values@, i as int),
        decreases values@.len() - i,
    {
        let v = values[i];
        let b = chk >> 25u32;
        let mut c: u32 = ((chk & 0x1ffffffu32) << 5u32) ^ (v as u32);
        if b & 1u32 == 1u32 {
            c = c ^ 0x3b6a57b2u32;
        }
        if (b >> 1u32) & 1u32 == 1u32 {
            c = c ^ 0x26508e6du32;
        }
        if (b >> 2u32) & 1u32 == 1u32 {
            c = c ^ 0x1ea119fau32;
        }
        if (b >> 3u32) & 1u32 == 1u32 {
            c = c ^ 0x3d4233ddu32;
        }
        if (b >> 4u32) & 1u32 == 1u32 {
            c = c ^ 0x2a1462b3u32;
        }
        chk = c;
        assert(chk == polymod_step(polymod_prefix(values@, i as int), values@[i as int]));
        i += 1;
    }
    chk
}

/// Regroups 8-bit bytes into 5-bit values, most significant bit first,
/// left-justifying the final partial group with zero padding.
pub fn to_five_bit_groups(data: &[u8]) -> (g: Vec<u8>)
    requires
        8 * data@.len() + 4 <= usize::MAX,
    ensures
        g@ == regrouped(data@),
        forall|t: int| 0 <= t < g@.len() ==> g@[t] < 32,
{
    let n = data.len();
    let m = (8 * n + 4) / 5;
    let mut g: Vec<u8> = Vec::new();
    let mut i: usize = 0;
    while i < m
        invariant
            8 * data@.len() + 4 <= usize::MAX,
            n == data@.len(),
            m == num_groups(data@.len()),
            i <= m,
            g@.len() == i,
            forall|t: int| 0 <= t < i ==> g@[t] == group_val(data@, t, 5) && g@[t] < 32,
        decreases m - i,
    {
        let mut v: u8 = 0;
        let mut k: usize = 0;
        while k < 5
            invariant
                8 * data@.len() + 4 <= usize::MAX,
                n == data@.len(),
                m == num_groups(data@.len()),
                i < m,
                k <= 5,
                v as int == group_val(data@, i as int, k as int),
            decreases 5 - k,
        {
            let j = 5 * i + k;
            let bit: u8 = if j < 8 * n {
                let byte = data[j / 8];
                let sh = (7 - (j % 8)) as u8;
                assert((byte >> sh) & 1 == 0 || (byte >> sh) & 1 == 1) by (bit_vector);
                (byte >> sh) & 1
            } else {
                0
            };
            proof {
                lemma_group_val_bound(data@, i as int, k as int);
                assert(bit as int == if data_bit(data@, 5 * (i as int) + (k as int)) {
                    1int
                } else {
                    0int
                });
            }
            v = 2 * v + bit;
            k += 1;
        }
        proof {
            lemma_group_val_bound(data@, i as int, 5);
        }
        g.push(v);
        i += 1;
    }
    proof {
        assert(g@ =~= regrouped(data@));
    }
    g
}

fn charset_str(v: u8) -> (s: &'static str)
    requires
        v < 32,
    ensures
        s@ == seq![charset()[v as int]],
{
    proof {
        reveal_strlit("q");
        reveal_strlit("p");
        reveal_strlit("z");
        reveal_strlit("r");
        reveal_strlit("y");
        reveal_strlit("9");
        reveal_strlit("x");
        reveal_strlit("8");
        reveal_strlit("g");
        reveal_strlit("f");
        reveal_strlit("2");
        reveal_strlit("t");
        reveal_strlit("v");
        reveal_strlit("d");
        reveal_strlit("w");
        reveal_strlit("0");
        reveal_strlit("s");
        reveal_strlit("3");
        reveal_strlit("j");
        reveal_strlit("n");
        reveal_strlit("5");
        reveal_strlit("4");
        reveal_strlit("k");
        reveal_strlit("h");
        reveal_strlit("c");
        reveal_strlit("e");
        reveal_strlit("6");
        reveal_strlit("m");
        reveal_strlit("u");
        reveal_strlit("a");
        reveal_strlit("7");
        reveal_strlit("l");
    }
    let s = match v {
        0 => "q",
        1 => "p",
        2 => "z",
        3 => "r",
        4 => "y",
        5 => "9",
        6 => "x",
        7 => "8",
        8 => "g",
        9 => "f",
        10 => "2",
        11 => "t",
        12 => "v",
        13 => "d",
        14 => "w",
        15 => "0",
        16 => "s",
        17 => "3",
        18 => "j",
        19 => "n",
        20 => "5",
        21 => "4",
        22 => "k",
        23 => "h",
        24 => "c",
        25 => "e",
        26 => "6",
        27 => "m",
        28 => "u",
        29 => "a",
        30 => "7",
        _ => "l",
    };
    proof {
        assert(s@ =~= seq![charset()[v as int]]);
    }
    s
}

/// Encodes `data` under the human-readable prefix `hrp`: the prefix, the
/// separator `'1'`, the regrouped data and six checksum characters, all
/// data characters drawn from the bech32 alphabet.
pub fn bech32_encode(hrp: &str, data: &[u8]) -> (r: Result<String, BanhBaoRingError>)
    requires
        valid_hrp(hrp@),
        8 * data@.len() + 4 <= usize::MAX,
    ensures
        r matches Ok(s) && s@ == bech32_chars(hrp@, data@),
{
    let converted = to_five_bit_groups(data);
    let mut values = expand_hrp(hrp);
    let mut i: usize = 0;
    while i < converted.len()
        invariant
            i <= converted@.len(),
            values@ == expanded_hrp(hrp@) + converted@.take(i as int),
        decreases converted@.len() - i,
    {
        values.push(converted[i]);
        proof {
            assert(expanded_hrp(hrp@) + converted@.take(i as int) + seq![converted@[i as int]]
                =~= expanded_hrp(hrp@) + converted@.take(i + 1));
        }
        i += 1;
    }
    proof {
        assert(converted@.take(converted@.len() as int) =~= converted@);
    }
    values.push(0);
    values.push(0);
    values.push(0);
    values.push(0);
    values.push(0);
    values.push(0);
    proof {
        assert(values@ =~= expanded_hrp(hrp@) + regrouped(data@) + seq![
            0u8,
            0u8,
            0u8,
            0u8,
            0u8,
            0u8,
        ]);
    }
    let pm = bech32_polymod(values.as_slice()) ^ 1;
    let ghost groups = regrouped(data@);
    let mut s = String::new();
    s.append(hrp);
    s.append("1");
    proof {
        reveal_strlit("1");
        assert(s@ =~= hrp@ + seq!['1']);
    }
    let mut i: usize = 0;
    while i < converted.len()
        invariant
            i <= converted@.len(),
            converted@ == groups,
            forall|t: int| 0 <= t < converted@.len() ==> converted@[t] < 32,
            s@ == hrp@ + seq!['1'] + data_part_chars(groups.take(i as int)),
        decreases converted@.len() - i,
    {
        s.append(charset_str(converted[i]));
        proof {
            assert(data_part_chars(groups.take(i as int)) + seq![charset()[groups[i as int] as int]]
                =~= data_part_chars(groups.take(i + 1)));
        }
        i += 1;
    }
    proof {
        assert(groups.take(groups.len() as int) =~= groups);
    }
    let mut k: usize = 0;
    while k < 6
        invariant
            k <= 6,
            s@ == hrp@ + seq!['1'] + data_part_chars(groups) + data_part_chars(
                checksum_groups(pm).take(k as int),
            ),
        decreases 6 - k,
    {
        let sh = (5 * (5 - k)) as u32;
        assert((pm >> sh) & 31 < 32) by (bit_vector);
        let c = ((pm >> sh) & 31) as u8;
        assert(c < 32) by (bit_vector)
            requires
                c == ((pm >> sh) & 31) as u8,
        ;
        s.append(charset_str(c));
        proof {
            assert(c == checksum_groups(pm)[k as int]);
            assert(data_part_chars(checksum_groups(pm).take(k as int)) + seq![
                charset()[c as int],
            ] =~= data_part_chars(checksum_groups(pm).take(k + 1)));
        }
        k += 1;
    }
    proof {
        assert(checksum_groups(pm).take(6) =~= checksum_groups(pm));
        assert(s@ =~= bech32_chars(hrp@, data@));
    }
    Ok(s)
}

} // verus!
