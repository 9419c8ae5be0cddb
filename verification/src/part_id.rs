//! Fixed-width part identifiers for multipart emulation on blob-style
//! backends.
//!
//! A blob-style backend orders the committed block list by the lexical
//! order of block identifiers, so identifiers must be fixed-width for
//! that order to agree with numeric part order. Each identifier is the
//! upload identifier, a `-` separator, and the part number zero-padded
//! to four decimal digits.

use vstd::prelude::*;

verus! {

use vstd::arithmetic::div_mod::{
    lemma_fundamental_div_mod,
    lemma_div_is_ordered,
    lemma_div_denominator,
};

/// The four zero-padded decimal digit bytes of a part number
/// `0 <= n < 10000`.
pub open spec fn part_digits(n: int) -> Seq<u8> {
    seq![
        (48 + n / 1000) as u8,
        (48 + (n / 100) % 10) as u8,
        (48 + (n / 10) % 10) as u8,
        (48 + n % 10) as u8,
    ]
}

/// The full block identifier: `<upload_id>-<part zero-padded to 4 digits>`.
pub open spec fn block_id_spec(upload_id: Seq<u8>, n: int) -> Seq<u8> {
    upload_id + seq![45u8] + part_digits(n)
}

/// Strict lexicographic order on byte sequences; on equal-length
/// sequences this is the usual dictionary order a backend applies to
/// block identifiers.
pub open spec fn lex_lt(a: Seq<u8>, b: Seq<u8>) -> bool
    decreases a.len(),
{
    if a.len() == 0 || b.len() == 0 {
        false
    } else if a[0] < b[0] {
        true
    } else if a[0] > b[0] {
        false
    } else {
        lex_lt(a.skip(1), b.skip(1))
    }
}

/// Formats a part number as exactly four zero-padded decimal digits.
pub fn format_part_number(part_number: i32) -> (r: Vec<u8>)
    requires
        1 <= part_number < 10000,
    ensures
        r@ == part_digits(part_number as int),
        r@.len() == 4,
{
    let n = part_number as u32;
    let mut r: Vec<u8> = Vec::new();
    r.push((48 + n / 1000) as u8);
    r.push((48 + (n / 100) % 10) as u8);
    r.push((48 + (n / 10) % 10) as u8);
    r.push((48 + n % 10) as u8);
    proof {
        assert(r@ =~= part_digits(part_number as int));
    }
    r
}

/// Builds the block identifier `<upload_id>-<part zero-padded to 4 digits>`
/// for one part of one upload.
pub fn make_block_id(upload_id: &Vec<u8>, part_number: i32) -> (r: Vec<u8>)
    requires
        1 <= part_number < 10000,
        upload_id@.len() + 5 <= usize::MAX,
    ensures
        r@ == block_id_spec(upload_id@, part_number as int),
{
    let mut r: Vec<u8> = Vec::new();
    let mut i: usize = 0;
    while i < upload_id.len()
        invariant
            i <= upload_id@.len(),
            r@ =~= upload_id@.take(i as int),
        decreases upload_id@.len() - i,
    {
        r.push(upload_id[i]);
        i = i + 1;
    }
    assert(r@ =~= upload_id@);
    r.push(45);
    let digits = format_part_number(part_number);
    let mut j: usize = 0;
    while j < digits.len()
        invariant
            j <= digits@.len(),
            digits@ == part_digits(part_number as int),
            r@ =~= upload_id@ + seq![45u8] + digits@.take(j as int),
        decreases digits@.len() - j,
    {
        r.push(digits[j]);
        j = j + 1;
    }
    proof {
        assert(r@ =~= block_id_spec(upload_id@, part_number as int));
    }
    r
}

/// A four-digit rendering determines the part number: the digits of
/// `0 <= n < 10000` reconstruct `n` by place value.
proof fn lemma_digits_reconstruct(n: int)
    requires
        0 <= n < 10000,
    ensures
        n == (n / 1000) * 1000 + ((n / 100) % 10) * 100 + ((n / 10) % 10) * 10 + n % 10,
{
    lemma_fundamental_div_mod(n, 10);
    lemma_fundamental_div_mod(n / 10, 10);
    lemma_fundamental_div_mod(n / 100, 10);
    lemma_div_denominator(n, 10, 10);
    lemma_div_denominator(n, 100, 10);
    lemma_div_denominator(n / 10, 10, 10);
    assert((n / 10) / 10 == n / 100);
    assert((n / 100) / 10 == n / 1000);
    assert(n == 10 * (n / 10) + n % 10);
    assert(n / 10 == 10 * (n / 100) + (n / 10) % 10);
    assert(n / 100 == 10 * (n / 1000) + (n / 100) % 10);
    assert(n / 1000 == (n / 100) / 10);
    assert(n / 1000 < 10) by {
        lemma_div_is_ordered(n, 9999, 1000);
    }
}

/// Distinct part numbers of the same upload render to distinct digit
/// strings: the zero-padded rendering is injective on `[1, 9999]`.
pub proof fn lemma_part_digits_injective(m: int, n: int)
    requires
        1 <= m < 10000,
        1 <= n < 10000,
        m != n,
    ensures
        part_digits(m) != part_digits(n),
{
    if part_digits(m) == part_digits(n) {
        assert(part_digits(m)[0] == part_digits(n)[0]);
        assert(part_digits(m)[1] == part_digits(n)[1]);
        assert(part_digits(m)[2] == part_digits(n)[2]);
        assert(part_digits(m)[3] == part_digits(n)[3]);
        assert(m / 1000 == n / 1000);
        assert((m / 100) % 10 == (n / 100) % 10);
        assert((m / 10) % 10 == (n / 10) % 10);
        assert(m % 10 == n % 10);
        lemma_digits_reconstruct(m);
        lemma_digits_reconstruct(n);
        assert(m == n);
    }
}

/// Numeric order of part numbers matches lexicographic order of their
/// fixed-width digit strings.
pub proof fn lemma_part_digits_ordered(m: int, n: int)
    requires
        0 <= m < n < 10000,
    ensures
        lex_lt(part_digits(m), part_digits(n)),
{
    let a = part_digits(m);
    let b = part_digits(n);
    lemma_div_is_ordered(m, n, 1000);
    lemma_div_is_ordered(m, n, 100);
    lemma_div_is_ordered(m, n, 10);
    assert(a.skip(1) =~= seq![a[1], a[2], a[3]]);
    assert(b.skip(1) =~= seq![b[1], b[2], b[3]]);
    assert(a.skip(1).skip(1) =~= seq![a[2], a[3]]);
    assert(b.skip(1).skip(1) =~= seq![b[2], b[3]]);
    assert(a.skip(1).skip(1).skip(1) =~= seq![a[3]]);
    assert(b.skip(1).skip(1).skip(1) =~= seq![b[3]]);
    assert(seq![a[1], a[2], a[3]].skip(1) =~= seq![a[2], a[3]]);
    assert(seq![b[1], b[2], b[3]].skip(1) =~= seq![b[2], b[3]]);
    assert(seq![a[2], a[3]].skip(1) =~= seq![a[3]]);
    assert(seq![b[2], b[3]].skip(1) =~= seq![b[3]]);
    if m / 1000 < n / 1000 {
        assert(a[0] < b[0]);
        assert(lex_lt(a, b));
    } else {
        assert(m / 1000 == n / 1000);
        lemma_fundamental_div_mod(m / 100, 10);
        lemma_fundamental_div_mod(n / 100, 10);
        lemma_div_denominator(m, 100, 10);
        lemma_div_denominator(n, 100, 10);
        assert(m / 100 == 10 * (m / 1000) + (m / 100) % 10);
        assert(n / 100 == 10 * (n / 1000) + (n / 100) % 10);
        if (m / 100) % 10 < (n / 100) % 10 {
            assert(a[0] == b[0] && a[1] < b[1]);
            assert(lex_lt(seq![a[1], a[2], a[3]], seq![b[1], b[2], b[3]]));
            assert(lex_lt(a.skip(1), b.skip(1)));
            assert(lex_lt(a, b));
        } else {
            assert((m / 100) % 10 == (n / 100) % 10);
            assert(m / 100 == n / 100);
            lemma_fundamental_div_mod(m / 10, 10);
            lemma_fundamental_div_mod(n / 10, 10);
            lemma_div_denominator(m, 10, 10);
            lemma_div_denominator(n, 10, 10);
            assert(m / 10 == 10 * (m / 100) + (m / 10) % 10);
            assert(n / 10 == 10 * (n / 100) + (n / 10) % 10);
            if (m / 10) % 10 < (n / 10) % 10 {
                assert(a[1] == b[1] && a[2] < b[2]);
                assert(lex_lt(seq![a[2], a[3]], seq![b[2], b[3]]));
                assert(lex_lt(seq![a[1], a[2], a[3]], seq![b[1], b[2], b[3]]));
                assert(lex_lt(a.skip(1), b.skip(1)));
                assert(lex_lt(a, b));
            } else {
                assert((m / 10) % 10 == (n / 10) % 10);
                assert(m / 10 == n / 10);
                lemma_fundamental_div_mod(m, 10);
                lemma_fundamental_div_mod(n, 10);
                assert(m % 10 < n % 10);
                assert(a[2] == b[2] && a[3] < b[3]);
                assert(lex_lt(seq![a[3]], seq![b[3]]));
                assert(lex_lt(seq![a[2], a[3]], seq![b[2], b[3]]));
                assert(lex_lt(seq![a[1], a[2], a[3]], seq![b[1], b[2], b[3]]));
                assert(lex_lt(a.skip(1), b.skip(1)));
                assert(lex_lt(a, b));
            }
        }
    }
}

/// A shared prefix never disturbs lexicographic order: if `a < b`
/// lexically then `p ++ a < p ++ b` lexically.
proof fn lemma_lex_lt_common_prefix(p: Seq<u8>, a: Seq<u8>, b: Seq<u8>)
    requires
        lex_lt(a, b),
    ensures
        lex_lt(p + a, p + b),
    decreases p.len(),
{
    if p.len() == 0 {
        assert(p + a =~= a);
        assert(p + b =~= b);
    } else {
        lemma_lex_lt_common_prefix(p.skip(1), a, b);
        assert((p + a).skip(1) =~= p.skip(1) + a);
        assert((p + b).skip(1) =~= p.skip(1) + b);
        assert((p + a)[0] == (p + b)[0]);
    }
}

/// Part-number round trip, uniqueness half: for one upload identifier,
/// distinct part numbers in `[1, 9999]` yield distinct block
/// identifiers.
pub proof fn lemma_block_ids_unique(upload_id: Seq<u8>, m: int, n: int)
    requires
        1 <= m < 10000,
        1 <= n < 10000,
        m != n,
    ensures
        block_id_spec(upload_id, m) != block_id_spec(upload_id, n),
{
    lemma_part_digits_injective(m, n);
    let im = block_id_spec(upload_id, m);
    let inn = block_id_spec(upload_id, n);
    if im == inn {
        let base = upload_id.len() + 1;
        assert(im.skip(base as int) =~= part_digits(m));
        assert(inn.skip(base as int) =~= part_digits(n));
        assert(part_digits(m) == part_digits(n));
    }
}

/// Part-number round trip, ordering half: for one upload identifier,
/// numeric order of part numbers matches lexicographic order of the
/// full block identifiers, so a backend that sorts identifiers
/// lexically commits parts in numeric order.
pub proof fn lemma_block_id_order_matches_part_order(upload_id: Seq<u8>, m: int, n: int)
    requires
        1 <= m < n < 10000,
    ensures
        lex_lt(block_id_spec(upload_id, m), block_id_spec(upload_id, n)),
{
    lemma_part_digits_ordered(m, n);
    lemma_lex_lt_common_prefix(upload_id + seq![45u8], part_digits(m), part_digits(n));
    assert(block_id_spec(upload_id, m) =~= (upload_id + seq![45u8]) + part_digits(m));
    assert(block_id_spec(upload_id, n) =~= (upload_id + seq![45u8]) + part_digits(n));
}

} // verus!
