//! Little-endian byte encoding of unsigned integers, as fields hold them.
use vstd::prelude::*;

verus! {

/// `256` to the power `n`.
pub open spec fn pow256(n: nat) -> nat
    decreases n,
{
    if n == 0 {
        1
    } else {
        256 * pow256((n - 1) as nat)
    }
}

/// The number whose little-endian bytes are `bytes`.
pub open spec fn le_value(bytes: Seq<u8>) -> nat
    decreases bytes.len(),
{
    if bytes.len() == 0 {
        0
    } else {
        bytes[0] as nat + 256 * le_value(bytes.drop_first())
    }
}

proof fn lemma_pow256_bounds(n: nat)
    ensures
        pow256(n) >= 1,
        n <= 8 ==> pow256(n) <= 0x1_0000_0000_0000_0000,
    decreases n,
{
    if n > 0 {
        lemma_pow256_bounds((n - 1) as nat);
        if n <= 8 {
            lemma_pow256_mono(n, 8);
            reveal_with_fuel(pow256, 9);
            assert(pow256(8) == 0x1_0000_0000_0000_0000);
        }
    }
}

proof fn lemma_pow256_mono(a: nat, b: nat)
    requires
        a <= b,
    ensures
        pow256(a) <= pow256(b),
    decreases b,
{
    if a < b {
        lemma_pow256_mono(a, (b - 1) as nat);
        lemma_pow256_pos((b - 1) as nat);
    }
}

proof fn lemma_pow256_pos(n: nat)
    ensures
        pow256(n) >= 1,
    decreases n,
{
    if n > 0 {
        lemma_pow256_pos((n - 1) as nat);
    }
}

proof fn lemma_le_value_bound(bytes: Seq<u8>)
    ensures
        le_value(bytes) < pow256(bytes.len()),
    decreases bytes.len(),
{
    if bytes.len() > 0 {
        let rest = bytes.drop_first();
        lemma_le_value_bound(rest);
        let a = bytes[0] as int;
        let b = le_value(rest) as int;
        let p = pow256(rest.len()) as int;
        assert(a + 256 * b < 256 * p) by (nonlinear_arith)
            requires
                0 <= a < 256,
                0 <= b < p,
        ;
    }
}

/// The `width` little-endian bytes of `v`.
pub fn encode_le(v: u64, width: usize) -> (r: Vec<u8>)
    requires
        width <= 8,
        v < pow256(width as nat),
    ensures
        r@.len() == width,
        le_value(r@) == v,
{
    let mut out: Vec<u8> = Vec::new();
    let mut rest: u64 = v;
    let mut k: usize = 0;
    proof {
        assert(pow256(0) == 1);
        assert(le_value(out@) == 0);
    }
    while k < width
        invariant
            k <= width <= 8,
            out@.len() == k,
            rest < pow256((width - k) as nat),
            le_value(out@) + pow256(k as nat) * rest == v,
        decreases width - k,
    {
        let byte = (rest % 256) as u8;
        let next = rest / 256;
        proof {
            let o = out@;
            let o2 = o.push(byte);
            lemma_le_push(o, byte);
            let p = pow256(k as nat) as int;
            let r = rest as int;
            let n = next as int;
            assert(r == byte as int + 256 * n);
            assert(p * r == p * byte as int + p * 256 * n) by (nonlinear_arith)
                requires
                    r == byte as int + 256 * n,
            ;
            assert(pow256((k + 1) as nat) == 256 * pow256(k as nat));
            assert(n < pow256((width - k - 1) as nat)) by (nonlinear_arith)
                requires
                    r == byte as int + 256 * n,
                    r < pow256((width - k) as nat),
                    pow256((width - k) as nat) == 256 * pow256((width - k - 1) as nat),
                    0 <= byte,
            ;
        }
        out.push(byte);
        rest = next;
        k = k + 1;
    }
    proof {
        assert(pow256(0) == 1);
    }
    out
}

proof fn lemma_le_push(o: Seq<u8>, b: u8)
    ensures
        le_value(o.push(b)) == le_value(o) + pow256(o.len()) * b,
    decreases o.len(),
{
    if o.len() == 0 {
        assert(o.push(b).drop_first() =~= Seq::<u8>::empty());
        assert(le_value(Seq::<u8>::empty()) == 0);
        assert(pow256(0) == 1);
        assert(o.push(b)[0] == b);
    } else {
        assert(o.push(b).drop_first() =~= o.drop_first().push(b));
        assert(o.push(b)[0] == o[0]);
        assert(pow256(o.len()) == 256 * pow256(o.drop_first().len()));
        lemma_le_push(o.drop_first(), b);
        let x = le_value(o.drop_first()) as int;
        let p = pow256(o.drop_first().len()) as int;
        assert(256 * (x + p * b) == 256 * x + 256 * p * b) by (nonlinear_arith);
    }
}

/// The number whose little-endian bytes are `bytes`.
pub fn decode_le(bytes: &Vec<u8>) -> (r: u64)
    requires
        bytes@.len() <= 8,
    ensures
        r == le_value(bytes@),
{
    let n = bytes.len();
    let mut acc: u64 = 0;
    let mut k: usize = n;
    while k > 0
        invariant
            n == bytes@.len() <= 8,
            k <= n,
            acc == le_value(bytes@.subrange(k as int, n as int)),
        decreases k,
    {
        let ghost tail = bytes@.subrange(k as int, n as int);
        let ghost longer = bytes@.subrange(k - 1, n as int);
        proof {
            assert(longer.drop_first() =~= tail);
            lemma_le_value_bound(longer);
            lemma_pow256_bounds(longer.len());
        }
        acc = bytes[k - 1] as u64 + 256 * acc;
        k = k - 1;
    }
    proof {
        assert(bytes@.subrange(0, n as int) =~= bytes@);
    }
    acc
}

} // verus!
