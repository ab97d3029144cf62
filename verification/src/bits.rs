use vstd::prelude::*;

verus! {

/// Whether bit `p` of `m` is set.
pub open spec fn bit64(m: u64, p: u64) -> bool {
    (m >> p) & 1u64 == 1u64
}

/// Whether bit `p` of `m` is set.
pub open spec fn bit16(m: u16, p: u16) -> bool {
    (m >> p) & 1u16 == 1u16
}

pub proof fn lemma_bit64_zero(p: u64)
    requires
        p < 64,
    ensures
        !bit64(0u64, p),
{
    assert(((0u64 >> p) & 1u64) == 0u64) by (bit_vector);
}

pub proof fn lemma_bit64_set(m: u64, p: u64, q: u64)
    requires
        p < 64,
        q < 64,
    ensures
        bit64(m | (1u64 << p), q) <==> (q == p || bit64(m, q)),
{
    assert(((((m | (1u64 << p)) >> q) & 1u64) == 1u64) <==> (q == p || ((m >> q) & 1u64) == 1u64))
        by (bit_vector)
        requires
            p < 64,
            q < 64,
    ;
}

pub proof fn lemma_bit64_clear(m: u64, p: u64, q: u64)
    requires
        p < 64,
        q < 64,
    ensures
        bit64(m & !(1u64 << p), q) <==> (q != p && bit64(m, q)),
{
    assert(((((m & !(1u64 << p)) >> q) & 1u64) == 1u64) <==> (q != p && ((m >> q) & 1u64)
        == 1u64)) by (bit_vector)
        requires
            p < 64,
            q < 64,
    ;
}

pub proof fn lemma_bit64_mask(m: u64, p: u64)
    requires
        p < 64,
    ensures
        (m & (1u64 << p)) != 0u64 <==> bit64(m, p),
{
    assert(((m & (1u64 << p)) != 0u64) <==> (((m >> p) & 1u64) == 1u64)) by (bit_vector)
        requires
            p < 64,
    ;
}

pub proof fn lemma_bit16_zero(p: u16)
    requires
        p < 16,
    ensures
        !bit16(0u16, p),
{
    assert(((0u16 >> p) & 1u16) == 0u16) by (bit_vector);
}

pub proof fn lemma_bit16_set(m: u16, p: u16, q: u16)
    requires
        p < 16,
        q < 16,
    ensures
        bit16(m | (1u16 << p), q) <==> (q == p || bit16(m, q)),
{
    assert(((((m | (1u16 << p)) >> q) & 1u16) == 1u16) <==> (q == p || ((m >> q) & 1u16) == 1u16))
        by (bit_vector)
        requires
            p < 16,
            q < 16,
    ;
}

pub proof fn lemma_bit16_mask(m: u16, p: u16)
    requires
        p < 16,
    ensures
        (m & (1u16 << p)) != 0u16 <==> bit16(m, p),
{
    assert(((m & (1u16 << p)) != 0u16) <==> (((m >> p) & 1u16) == 1u16)) by (bit_vector)
        requires
            p < 16,
    ;
}

} // verus!
