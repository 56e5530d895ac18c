//! Lowercase, unpadded RFC 4648 base32.

use vstd::prelude::*;

verus! {

/// The symbols of the 5-bit values 0 to 31, in order.
pub const ALPHABET: &'static str = "abcdefghijklmnopqrstuvwxyz234567";

/// Bit `k` of `bytes`, counted from the most significant bit of the first byte.
/// Past the end every bit is zero.
pub open spec fn bit(bytes: Seq<u8>, k: int) -> u8 {
    if 0 <= k / 8 < bytes.len() {
        (bytes[k / 8] >> ((7 - k % 8) as u8)) & 1
    } else {
        0
    }
}

/// The number that bits `5i` to `5i + 4` of `bytes` spell.
pub open spec fn quintet(bytes: Seq<u8>, i: int) -> int {
    16 * bit(bytes, 5 * i) + 8 * bit(bytes, 5 * i + 1) + 4 * bit(bytes, 5 * i + 2) + 2 * bit(
        bytes,
        5 * i + 3,
    ) + bit(bytes, 5 * i + 4)
}

/// How many symbols encode `len` bytes: five bits each, the last one padded.
pub open spec fn encoded_len(len: nat) -> nat {
    ((8 * len + 4) / 5) as nat
}

/// The base32 text of `bytes`.
pub open spec fn encoded(bytes: Seq<u8>) -> Seq<char> {
    Seq::new(encoded_len(bytes.len()), |i: int| ALPHABET@[quintet(bytes, i)])
}

/// The five bits that start at bit `off` of the byte `hi` and run on into `lo`.
proof fn lemma_window(hi: u8, lo: u8, off: u16)
    by (bit_vector)
    requires
        off < 8,
    ensures
        ((((hi as u16) << 8) | (lo as u16)) >> ((11 - off) as u16)) & 31 == 16 * (if off < 8 {
            (hi >> ((7 - off) as u8)) & 1
        } else {
            (lo >> ((15 - off) as u8)) & 1
        }) + 8 * (if off < 7 {
            (hi >> ((6 - off) as u8)) & 1
        } else {
            (lo >> ((14 - off) as u8)) & 1
        }) + 4 * (if off < 6 {
            (hi >> ((5 - off) as u8)) & 1
        } else {
            (lo >> ((13 - off) as u8)) & 1
        }) + 2 * (if off < 5 {
            (hi >> ((4 - off) as u8)) & 1
        } else {
            (lo >> ((12 - off) as u8)) & 1
        }) + (if off < 4 {
            (hi >> ((3 - off) as u8)) & 1
        } else {
            (lo >> ((11 - off) as u8)) & 1
        }),
{
}

/// The alphabet as arithmetic: 26 letters, then the digits from 2.
proof fn lemma_alphabet()
    ensures
        ALPHABET@.len() == 32,
        ALPHABET.is_ascii(),
        forall|v: int|
            0 <= v < 32 ==> #[trigger] ALPHABET@[v] as int == if v < 26 {
                97 + v
            } else {
                24 + v
            },
{
    reveal_strlit("abcdefghijklmnopqrstuvwxyz234567");
    assert(ALPHABET@.len() == 32);
    assert forall|v: int| 0 <= v < 32 implies #[trigger] ALPHABET@[v] as int == if v < 26 {
        97 + v
    } else {
        24 + v
    } by {
        assert(ALPHABET@[0] == 'a' && ALPHABET@[1] == 'b' && ALPHABET@[2] == 'c');
    }
}

/// `bytes` in base32, without padding.
pub fn base32_encode(bytes: &[u8]) -> (text: String)
    ensures
        text@ == encoded(bytes@),
{
    proof {
        lemma_alphabet();
    }
    let mut text = String::new();
    let mut at: usize = 0;
    let mut off: u16 = 0;
    while at < bytes.len()
        invariant
            at <= bytes.len(),
            off < 8,
            at == bytes.len() ==> off < 5,
            8 * at + off == 5 * text@.len(),
            forall|i: int| 0 <= i < text@.len() ==> text@[i] == ALPHABET@[quintet(bytes@, i)],
            ALPHABET@.len() == 32,
            ALPHABET.is_ascii(),
        decreases bytes.len() - at, 8 - off,
    {
        let hi: u8 = bytes[at];
        let lo: u8 = if bytes.len() - at > 1 {
            bytes[at + 1]
        } else {
            0
        };
        let window: u16 = ((hi as u16) << 8) | lo as u16;
        let value: u16 = (window >> (11 - off)) & 31;
        proof {
            lemma_window(hi, lo, off);
            assert(value < 32) by (bit_vector)
                requires
                    value == (window >> ((11 - off) as u16)) & 31,
            ;
            let first = 5 * text@.len() as int;
            assert forall|t: int| 0 <= t < 5 implies #[trigger] bit(bytes@, first + t) == if off + t
                < 8 {
                (hi >> ((7 - (off + t)) as u8)) & 1
            } else {
                (lo >> ((15 - (off + t)) as u8)) & 1
            } by {
                assert(first + t == 8 * at + (off + t));
                if off + t < 8 {
                    assert((first + t) / 8 == at && (first + t) % 8 == off + t);
                } else {
                    assert((first + t) / 8 == at + 1 && (first + t) % 8 == off + t - 8);
                    assert(0u8 >> ((15 - (off + t)) as u8) & 1 == 0) by {
                        let s = (15 - (off + t)) as u8;
                        assert((0u8 >> s) & 1 == 0) by (bit_vector);
                    }
                }
            }
            assert(bit(bytes@, first) == bit(bytes@, first + 0));
            assert(value == quintet(bytes@, text@.len() as int));
        }
        text.append(ALPHABET.substring_ascii(value as usize, value as usize + 1));
        if off < 3 {
            off = off + 5;
        } else {
            off = off - 3;
            at = at + 1;
        }
    }
    assert(text@ =~= encoded(bytes@));
    text
}

/// Every bit is zero or one, so every quintet lies in the alphabet.
proof fn lemma_bit_range(bytes: Seq<u8>, k: int)
    ensures
        bit(bytes, k) <= 1,
{
    if 0 <= k / 8 < bytes.len() {
        let byte = bytes[k / 8];
        let shift = (7 - k % 8) as u8;
        assert((byte >> shift) & 1 <= 1) by (bit_vector);
    }
}

/// Two bytes with the same eight bits are the same byte.
proof fn lemma_byte_from_bits(x: u8, y: u8)
    by (bit_vector)
    requires
        (x >> 0u8) & 1 == (y >> 0u8) & 1,
        (x >> 1u8) & 1 == (y >> 1u8) & 1,
        (x >> 2u8) & 1 == (y >> 2u8) & 1,
        (x >> 3u8) & 1 == (y >> 3u8) & 1,
        (x >> 4u8) & 1 == (y >> 4u8) & 1,
        (x >> 5u8) & 1 == (y >> 5u8) & 1,
        (x >> 6u8) & 1 == (y >> 6u8) & 1,
        (x >> 7u8) & 1 == (y >> 7u8) & 1,
    ensures
        x == y,
{
}

/// Equal texts carry equal bits.
proof fn lemma_same_bit(a: Seq<u8>, b: Seq<u8>, k: int)
    requires
        encoded(a) == encoded(b),
        a.len() == b.len(),
        0 <= k < 8 * a.len(),
    ensures
        bit(a, k) == bit(b, k),
{
    lemma_alphabet();
    let i = k / 5;
    assert(0 <= i < encoded_len(a.len()));
    assert(encoded(a)[i] == encoded(b)[i]);
    assert forall|j: int| bit(a, j) <= 1 && bit(b, j) <= 1 by {
        lemma_bit_range(a, j);
        lemma_bit_range(b, j);
    }
    let p = quintet(a, i);
    let q = quintet(b, i);
    assert(0 <= p < 32 && 0 <= q < 32);
    assert(encoded(a)[i] == ALPHABET@[p]);
    assert(encoded(b)[i] == ALPHABET@[q]);
    assert(p == q);
    assert(k == 5 * i + k % 5);
}

/// Base32 text determines the bytes: no two byte strings, of the same length or
/// not, are encoded alike.
pub proof fn law_encoding_is_injective(a: Seq<u8>, b: Seq<u8>)
    requires
        encoded(a) == encoded(b),
    ensures
        a == b,
{
    let symbols = encoded(a).len() as int;
    assert(5 * symbols <= 8 * a.len() + 4 < 5 * symbols + 5);
    assert(symbols == encoded(b).len());
    assert(5 * symbols <= 8 * b.len() + 4 < 5 * symbols + 5);
    assert forall|j: int| 0 <= j < a.len() implies a[j] == b[j] by {
        assert forall|t: int| 0 <= t < 8 implies #[trigger] ((a[j] >> (t as u8)) & 1) == ((b[j] >> (
        t as u8)) & 1) by {
            let k = 8 * j + (7 - t);
            lemma_same_bit(a, b, k);
            assert(k / 8 == j && k % 8 == 7 - t);
        }
        assert((a[j] >> (0int as u8)) & 1 == (b[j] >> (0int as u8)) & 1);
        assert((a[j] >> (1int as u8)) & 1 == (b[j] >> (1int as u8)) & 1);
        assert((a[j] >> (2int as u8)) & 1 == (b[j] >> (2int as u8)) & 1);
        assert((a[j] >> (3int as u8)) & 1 == (b[j] >> (3int as u8)) & 1);
        assert((a[j] >> (4int as u8)) & 1 == (b[j] >> (4int as u8)) & 1);
        assert((a[j] >> (5int as u8)) & 1 == (b[j] >> (5int as u8)) & 1);
        assert((a[j] >> (6int as u8)) & 1 == (b[j] >> (6int as u8)) & 1);
        assert((a[j] >> (7int as u8)) & 1 == (b[j] >> (7int as u8)) & 1);
        lemma_byte_from_bits(a[j], b[j]);
    }
    assert(a =~= b);
}

/// The 5-bit value that a symbol stands for: letters first, then the digits from
/// 2.
pub open spec fn symbol_value(symbol: char) -> int {
    if 'a' <= symbol <= 'z' {
        symbol as int - 'a' as int
    } else {
        symbol as int - '2' as int + 26
    }
}

/// The text spells the bits of the bytes in order, five to a symbol and most
/// significant first, and pads the last symbol with zeros. It is as short as
/// that allows.
pub proof fn law_text_spells_the_bits(bytes: Seq<u8>, i: int)
    requires
        0 <= i < encoded(bytes).len(),
    ensures
        5 * encoded(bytes).len() >= 8 * bytes.len() > 5 * (encoded(bytes).len() - 1),
        ({
            let value = symbol_value(encoded(bytes)[i]);
            &&& 0 <= value < 32
            &&& value / 16 == bit(bytes, 5 * i)
            &&& value / 8 % 2 == bit(bytes, 5 * i + 1)
            &&& value / 4 % 2 == bit(bytes, 5 * i + 2)
            &&& value / 2 % 2 == bit(bytes, 5 * i + 3)
            &&& value % 2 == bit(bytes, 5 * i + 4)
        }),
{
    lemma_alphabet();
    lemma_bit_range(bytes, 5 * i);
    lemma_bit_range(bytes, 5 * i + 1);
    lemma_bit_range(bytes, 5 * i + 2);
    lemma_bit_range(bytes, 5 * i + 3);
    lemma_bit_range(bytes, 5 * i + 4);
    let q = quintet(bytes, i);
    assert(0 <= q < 32);
    assert(encoded(bytes)[i] == ALPHABET@[q]);
    assert(symbol_value(ALPHABET@[q]) == q);
}

/// Bit `8 j + t` of a byte string is the bit of weight `2^(7 - t)` of byte `j`,
/// and bits past the end are zero: the bits of each byte add up to the byte.
pub proof fn law_bits_add_up_to_the_byte(bytes: Seq<u8>, j: int)
    ensures
        0 <= j < bytes.len() ==> bytes[j] == 128 * bit(bytes, 8 * j) + 64 * bit(bytes, 8 * j + 1)
            + 32 * bit(bytes, 8 * j + 2) + 16 * bit(bytes, 8 * j + 3) + 8 * bit(bytes, 8 * j + 4)
            + 4 * bit(bytes, 8 * j + 5) + 2 * bit(bytes, 8 * j + 6) + bit(bytes, 8 * j + 7),
        j >= 8 * bytes.len() ==> bit(bytes, j) == 0,
{
    if 0 <= j < bytes.len() {
        let x = bytes[j];
        assert forall|t: int| 0 <= t < 8 implies #[trigger] bit(bytes, 8 * j + t) == (x >> ((7
            - t) as u8)) & 1 by {
            assert((8 * j + t) / 8 == j && (8 * j + t) % 8 == t);
        }
        assert(bit(bytes, 8 * j) == bit(bytes, 8 * j + 0));
        assert(x == 128 * ((x >> 7u8) & 1) + 64 * ((x >> 6u8) & 1) + 32 * ((x >> 5u8) & 1) + 16 * ((
        x >> 4u8) & 1) + 8 * ((x >> 3u8) & 1) + 4 * ((x >> 2u8) & 1) + 2 * ((x >> 1u8) & 1) + ((x
            >> 0u8) & 1)) by (bit_vector);
    }
}

} // verus!
