//! Embedding vectors as they are stored: the bit patterns of single-precision numbers, packed
//! little-endian.

use crate::order::{
    arrange, arranged, arranged_by_agreeing, arranged_is_in_order, arranged_is_permutation,
    arranged_is_stable, is_permutation, is_strict_order, positions, ScoresDown, Sortable,
};
use crate::text::texts;
use vstd::prelude::*;

verus! {

/// Byte `i` of four that hold `word`, the lowest first.
pub open spec fn byte_of(word: u32, i: int) -> u8 {
    if i == 0 {
        (word & 0xFF) as u8
    } else if i == 1 {
        ((word >> 8u32) & 0xFF) as u8
    } else if i == 2 {
        ((word >> 16u32) & 0xFF) as u8
    } else {
        ((word >> 24u32) & 0xFF) as u8
    }
}

/// The word that four bytes hold, the lowest first.
pub open spec fn word_of(a: u8, b: u8, c: u8, d: u8) -> u32 {
    (a as u32) | ((b as u32) << 8u32) | ((c as u32) << 16u32) | ((d as u32) << 24u32)
}

/// The bytes of a list of words.
pub open spec fn packed(words: Seq<u32>) -> Seq<u8> {
    Seq::new(words.len() * 4, |i: int| byte_of(words[i / 4], i % 4))
}

/// The words that are held in bytes; up to three bytes at the end that make no word are left
/// out.
pub open spec fn unpacked(bytes: Seq<u8>) -> Seq<u32> {
    Seq::new(
        bytes.len() / 4,
        |i: int| word_of(bytes[4 * i], bytes[4 * i + 1], bytes[4 * i + 2], bytes[4 * i + 3]),
    )
}

/// Pack the bit patterns of a vector to little-endian bytes.
pub fn pack_embedding(v: &[u32]) -> (r: Vec<u8>)
    ensures
        r@ == packed(v@),
{
    let mut out: Vec<u8> = Vec::new();
    let mut i: usize = 0;
    while i < v.len()
        invariant
            i <= v.len(),
            out@ == packed(v@.take(i as int)),
        decreases v.len() - i,
    {
        let x: u32 = v[i];
        let ghost before = out@;
        out.push((x & 0xFF) as u8);
        out.push(((x >> 8u32) & 0xFF) as u8);
        out.push(((x >> 16u32) & 0xFF) as u8);
        out.push(((x >> 24u32) & 0xFF) as u8);
        assert(out@ =~= packed(v@.take(i + 1))) by {
            let now = packed(v@.take(i + 1));
            assert(out@.len() == now.len());
            assert forall|k: int| 0 <= k < now.len() implies out@[k] == now[k] by {
                if k < before.len() {
                    assert(out@[k] == before[k]);
                    assert(before[k] == byte_of(v@.take(i as int)[k / 4], k % 4));
                    assert(v@.take(i as int)[k / 4] == v@[k / 4]);
                    assert(v@.take(i + 1)[k / 4] == v@[k / 4]);
                } else {
                    assert(k / 4 == i);
                    assert(v@.take(i + 1)[k / 4] == x);
                }
            }
        }
        i = i + 1;
    }
    assert(v@.take(i as int) =~= v@);
    out
}

/// Unpack little-endian bytes to the bit patterns of a vector.
pub fn unpack_embedding(bytes: &[u8]) -> (r: Vec<u32>)
    ensures
        r@ == unpacked(bytes@),
{
    let n: usize = bytes.len() / 4;
    let mut out: Vec<u32> = Vec::new();
    assert(4 * n <= bytes.len());
    while out.len() < n
        invariant
            n == bytes@.len() / 4,
            4 * n <= usize::MAX,
            out@.len() <= n,
            forall|i: int| 0 <= i < out@.len() ==> #[trigger] out@[i] == unpacked(bytes@)[i],
        decreases n - out@.len(),
    {
        let at: usize = out.len() * 4;
        let word: u32 = (bytes[at] as u32) | ((bytes[at + 1] as u32) << 8u32) | ((bytes[at
            + 2] as u32) << 16u32) | ((bytes[at + 3] as u32) << 24u32);
        out.push(word);
    }
    assert(out@ =~= unpacked(bytes@));
    out
}

/// Unpacking gives back what was packed.
pub proof fn unpack_undoes_pack(words: Seq<u32>)
    ensures
        unpacked(packed(words)) == words,
{
    let bytes = packed(words);
    assert(bytes.len() == 4 * words.len());
    let back = unpacked(bytes);
    assert(back.len() == words.len());
    assert forall|i: int| 0 <= i < words.len() implies back[i] == words[i] by {
        let w = words[i];
        assert(bytes[4 * i] == byte_of(w, 0)) by {
            assert((4 * i) / 4 == i && (4 * i) % 4 == 0);
        }
        assert(bytes[4 * i + 1] == byte_of(w, 1)) by {
            assert((4 * i + 1) / 4 == i && (4 * i + 1) % 4 == 1);
        }
        assert(bytes[4 * i + 2] == byte_of(w, 2)) by {
            assert((4 * i + 2) / 4 == i && (4 * i + 2) % 4 == 2);
        }
        assert(bytes[4 * i + 3] == byte_of(w, 3)) by {
            assert((4 * i + 3) / 4 == i && (4 * i + 3) % 4 == 3);
        }
        let a = (w & 0xFF) as u8;
        let b = ((w >> 8u32) & 0xFF) as u8;
        let c = ((w >> 16u32) & 0xFF) as u8;
        let d = ((w >> 24u32) & 0xFF) as u8;
        assert((a as u32) | ((b as u32) << 8u32) | ((c as u32) << 16u32) | ((d as u32) << 24u32)
            == w) by (bit_vector)
            requires
                a == (w & 0xFF) as u8,
                b == ((w >> 8u32) & 0xFF) as u8,
                c == ((w >> 16u32) & 0xFF) as u8,
                d == ((w >> 24u32) & 0xFF) as u8,
        ;
    }
    assert(back =~= words);
}

/// Packing gives back what was unpacked, if no bytes were left out.
pub proof fn pack_undoes_unpack(bytes: Seq<u8>)
    requires
        bytes.len() % 4 == 0,
    ensures
        packed(unpacked(bytes)) == bytes,
{
    let words = unpacked(bytes);
    let back = packed(words);
    assert(back.len() == bytes.len());
    assert forall|k: int| 0 <= k < bytes.len() implies back[k] == bytes[k] by {
        let i = k / 4;
        let a = bytes[4 * i];
        let b = bytes[4 * i + 1];
        let c = bytes[4 * i + 2];
        let d = bytes[4 * i + 3];
        let w = word_of(a, b, c, d);
        assert(words[i] == w);
        assert((w & 0xFF) as u8 == a && ((w >> 8u32) & 0xFF) as u8 == b && ((w >> 16u32)
            & 0xFF) as u8 == c && ((w >> 24u32) & 0xFF) as u8 == d) by (bit_vector)
            requires
                w == (a as u32) | ((b as u32) << 8u32) | ((c as u32) << 16u32) | ((d as u32)
                    << 24u32),
        ;
        assert(k == 4 * i + k % 4);
    }
    assert(back =~= bytes);
}

/// The first `top_k` names, the highest score first; of equal scores the earlier name comes
/// first.
pub open spec fn ranked(names: Seq<Seq<char>>, scores: Seq<i64>, top_k: nat) -> Seq<Seq<char>> {
    let order = arranged(names.len(), |i: int, j: int| scores[i] > scores[j]);
    let n = if top_k < order.len() {
        top_k
    } else {
        order.len()
    };
    Seq::new(n, |k: int| names[order[k]])
}

/// The names with the best scores, the best first, at most `top_k` of them.
pub fn rank_by_score(names: &Vec<String>, scores: &Vec<i64>, top_k: usize) -> (r: Vec<String>)
    requires
        names@.len() == scores@.len(),
    ensures
        texts(r@) == ranked(texts(names@), scores@, top_k as nat),
{
    let things = ScoresDown(scores);
    let order: Vec<usize> = arrange(&things);
    let ghost by_score = |i: int, j: int| scores@[i] > scores@[j];
    proof {
        let precedes = |i: int, j: int| things.precedes(i, j);
        arranged_by_agreeing(names@.len(), precedes, by_score);
        arranged_is_permutation(names@.len(), by_score);
    }
    let ghost sorted = arranged(names@.len(), by_score);
    assert(positions(order@) == sorted);
    assert(order@.len() == names@.len());
    let mut out: Vec<String> = Vec::new();
    let mut k: usize = 0;
    while k < order.len() && k < top_k
        invariant
            k <= order.len(),
            k <= top_k,
            out@.len() == k,
            order@.len() == names@.len(),
            positions(order@) == sorted,
            forall|i: int| 0 <= i < order@.len() ==> (#[trigger] order@[i]) < names@.len(),
            forall|i: int| 0 <= i < k ==> (#[trigger] out@[i])@ == names@[sorted[i]]@,
        decreases order.len() - k,
    {
        assert(positions(order@)[k as int] == order@[k as int]);
        out.push(names[order[k]].clone());
        k = k + 1;
    }
    let ghost best = ranked(texts(names@), scores@, top_k as nat);
    assert(texts(out@) =~= best);
    out
}

/// Numbers are packed with their lowest byte first: the four bytes of a number are its digits to
/// the base 256.
pub proof fn packing_is_little_endian(words: Seq<u32>, i: int)
    requires
        0 <= i < words.len(),
    ensures
        packed(words).len() == 4 * words.len(),
        packed(words)[4 * i] as int == words[i] as int % 256,
        packed(words)[4 * i + 1] as int == (words[i] as int / 256) % 256,
        packed(words)[4 * i + 2] as int == (words[i] as int / 65536) % 256,
        packed(words)[4 * i + 3] as int == (words[i] as int / 16777216) % 256,
{
    let w = words[i];
    assert((4 * i) / 4 == i && (4 * i) % 4 == 0);
    assert((4 * i + 1) / 4 == i && (4 * i + 1) % 4 == 1);
    assert((4 * i + 2) / 4 == i && (4 * i + 2) % 4 == 2);
    assert((4 * i + 3) / 4 == i && (4 * i + 3) % 4 == 3);
    assert((w & 0xFF) as u8 == w % 256) by (bit_vector);
    assert(((w >> 8u32) & 0xFF) as u8 == (w / 256) % 256) by (bit_vector);
    assert(((w >> 16u32) & 0xFF) as u8 == (w / 65536) % 256) by (bit_vector);
    assert(((w >> 24u32) & 0xFF) as u8 == (w / 16777216) % 256) by (bit_vector);
}

/// Four bytes are unpacked to the number of which they are the digits to the base 256, the lowest
/// first.
pub proof fn unpacking_is_little_endian(bytes: Seq<u8>, i: int)
    requires
        0 <= i < bytes.len() / 4,
    ensures
        unpacked(bytes).len() == bytes.len() / 4,
        unpacked(bytes)[i] as int == bytes[4 * i] as int + 256 * bytes[4 * i + 1] as int + 65536
            * bytes[4 * i + 2] as int + 16777216 * bytes[4 * i + 3] as int,
{
    let a = bytes[4 * i];
    let b = bytes[4 * i + 1];
    let c = bytes[4 * i + 2];
    let d = bytes[4 * i + 3];
    assert((a as u32) | ((b as u32) << 8u32) | ((c as u32) << 16u32) | ((d as u32) << 24u32) == a
        + 256 * b + 65536 * c + 16777216 * d) by (bit_vector);
}

/// A ranking tells the names of the best scores: as many as are asked for, or all; each of
/// another place; none with a lower score before one with a higher, and of equal ones the earlier
/// first; and nothing that is left out has a better score than what is told.
pub proof fn ranking_tells_the_best(names: Seq<Seq<char>>, scores: Seq<i64>, top_k: nat)
    requires
        names.len() == scores.len(),
    ensures
        ranked(names, scores, top_k).len() == if top_k < names.len() {
            top_k
        } else {
            names.len()
        },
        exists|at: Seq<int>|
            {
                let told = ranked(names, scores, top_k);
                &&& #[trigger] is_permutation(at, names.len())
                &&& forall|k: int| 0 <= k < told.len() ==> #[trigger] told[k] == names[at[k]]
                &&& forall|a: int, b: int|
                    0 <= a < b < names.len() ==> scores[#[trigger] at[a]] > scores[#[trigger] at[b]]
                        || (scores[at[a]] == scores[at[b]] && at[a] < at[b])
            },
{
    let better = |i: int, j: int| scores[i] > scores[j];
    let order = arranged(names.len(), better);
    arranged_is_permutation(names.len(), better);
    arranged_is_stable(names.len(), better);
    assert(is_strict_order(better));
    arranged_is_in_order(names.len(), better);
    assert(is_permutation(order, names.len()));
    assert forall|a: int, b: int| 0 <= a < b < names.len() implies scores[#[trigger] order[a]]
        > scores[#[trigger] order[b]] || (scores[order[a]] == scores[order[b]] && order[a]
        < order[b]) by {
        assert(!better(order[b], order[a]));
        assert(order[a] < order[b] || better(order[a], order[b]));
    }
}

} // verus!
