use vstd::prelude::*;

verus! {

/// The base of one limb: 2^64.
pub open spec fn limb_base() -> nat {
    0x1_0000_0000_0000_0000
}

/// The weight of the limb at position `i`: `limb_base()` to the `i`th power.
pub open spec fn limb_weight(i: nat) -> nat
    decreases i,
{
    if i == 0 {
        1
    } else {
        limb_weight((i - 1) as nat) * limb_base()
    }
}

/// The value of a little-endian limb sequence.
pub open spec fn limbs_val(s: Seq<u64>) -> nat
    decreases s.len(),
{
    if s.len() == 0 {
        0
    } else {
        (s[0] + limbs_val(s.skip(1)) * limb_base()) as nat
    }
}

/// Appending a limb adds its weighted value.
pub proof fn lemma_val_push(s: Seq<u64>, x: u64)
    ensures
        limbs_val(s.push(x)) == limbs_val(s) + (x as nat) * limb_weight(s.len()),
    decreases s.len(),
{
    if s.len() == 0 {
        let p = s.push(x);
        assert(p.skip(1) =~= Seq::<u64>::empty());
        assert(p[0] == x);
        assert(limbs_val(p) == (p[0] + limbs_val(p.skip(1)) * limb_base()) as nat);
        assert(limbs_val(p.skip(1)) == 0);
        assert(limb_weight(s.len()) == 1);
        assert(limbs_val(s) == 0);
        assert(limbs_val(p) == x);
    } else {
        let t = s.skip(1);
        assert(s.push(x).skip(1) =~= t.push(x));
        assert(s.push(x)[0] == s[0]);
        assert(limbs_val(s.push(x)) == (s[0] + limbs_val(t.push(x)) * limb_base()) as nat);
        assert(limbs_val(s) == (s[0] + limbs_val(t) * limb_base()) as nat);
        lemma_val_push(t, x);
        let w = limb_weight(t.len());
        assert(limbs_val(t.push(x)) == limbs_val(t) + (x as nat) * w);
        assert((limbs_val(t) + (x as nat) * w) * limb_base() == limbs_val(t) * limb_base() + (
        x as nat) * w * limb_base()) by (nonlinear_arith);
        assert((x as nat) * w * limb_base() == (x as nat) * (w * limb_base()))
            by (nonlinear_arith);
        assert(limb_weight(s.len()) == w * limb_base());
    }
}

/// The value of the first `i` limbs of `s`, reading limbs beyond the end
/// as zero.
pub open spec fn val_prefix(s: Seq<u64>, i: int) -> nat {
    if i <= s.len() {
        limbs_val(s.take(i))
    } else {
        limbs_val(s)
    }
}

/// Extending a prefix by one position adds the limb at that position,
/// weighted, with limbs beyond the end reading as zero.
pub proof fn lemma_val_prefix_step(s: Seq<u64>, i: int)
    requires
        0 <= i,
    ensures
        val_prefix(s, i + 1) == val_prefix(s, i) + (if i < s.len() {
            s[i] as nat
        } else {
            0
        }) * limb_weight(i as nat),
{
    if i < s.len() {
        assert(s.take(i + 1) =~= s.take(i).push(s[i]));
        lemma_val_push(s.take(i), s[i]);
    } else {
        if i == s.len() {
            assert(s.take(i) =~= s);
        }
        assert(val_prefix(s, i + 1) == limbs_val(s));
        assert(val_prefix(s, i) == limbs_val(s));
        assert(0 * limb_weight(i as nat) == 0);
    }
}

/// Whether a limb sequence is canonical: no leading zero limb.
pub open spec fn canonical(s: Seq<u64>) -> bool {
    s.len() == 0 || s.last() != 0
}

/// A canonical sequence with value zero is empty.
proof fn lemma_canonical_zero(s: Seq<u64>)
    requires
        canonical(s),
        limbs_val(s) == 0,
    ensures
        s.len() == 0,
    decreases s.len(),
{
    if s.len() > 0 {
        let t = s.skip(1);
        assert(limbs_val(s) == (s[0] + limbs_val(t) * limb_base()) as nat);
        assert(limbs_val(t) * limb_base() == 0 ==> limbs_val(t) == 0) by (nonlinear_arith);
        if t.len() > 0 {
            assert(t.last() == s.last());
        }
        lemma_canonical_zero(t);
        assert(s.last() == s[0]);
        assert(false);
    }
}

/// Law: the canonical representation is unique — two canonical limb
/// sequences with the same value are the same sequence.
pub proof fn lemma_canonical_unique(a: Seq<u64>, b: Seq<u64>)
    requires
        canonical(a),
        canonical(b),
        limbs_val(a) == limbs_val(b),
    ensures
        a == b,
    decreases a.len(),
{
    if a.len() == 0 {
        lemma_canonical_zero(b);
        assert(a =~= b);
    } else if b.len() == 0 {
        lemma_canonical_zero(a);
        assert(a =~= b);
    } else {
        let v = limbs_val(a) as int;
        let base = limb_base() as int;
        let ta = a.skip(1);
        let tb = b.skip(1);
        assert(limbs_val(a) == (a[0] + limbs_val(ta) * limb_base()) as nat);
        assert(limbs_val(b) == (b[0] + limbs_val(tb) * limb_base()) as nat);
        vstd::arithmetic::div_mod::lemma_fundamental_div_mod_converse(
            v,
            base,
            limbs_val(ta) as int,
            a[0] as int,
        );
        vstd::arithmetic::div_mod::lemma_fundamental_div_mod_converse(
            v,
            base,
            limbs_val(tb) as int,
            b[0] as int,
        );
        assert(a[0] == b[0]);
        assert(limbs_val(ta) == limbs_val(tb));
        if ta.len() > 0 {
            assert(ta.last() == a.last());
        }
        if tb.len() > 0 {
            assert(tb.last() == b.last());
        }
        lemma_canonical_unique(ta, tb);
        assert(a.len() == b.len());
        assert forall|i: int| 0 <= i < a.len() implies a[i] == b[i] by {
            if i > 0 {
                assert(ta[i - 1] == a[i]);
                assert(tb[i - 1] == b[i]);
            }
        }
        assert(a =~= b);
    }
}

/// An arbitrary-precision unsigned integer: little-endian 64-bit limbs
/// with no leading zero limb, so each value has one representation.
#[derive(Debug, Clone, PartialEq, Eq)]
pub struct BigUint {
    limbs: Vec<u64>,
}

impl View for BigUint {
    type V = nat;

    closed spec fn view(&self) -> nat {
        limbs_val(self.limbs@)
    }
}

impl BigUint {
    /// The little-endian limb sequence of the value.
    pub closed spec fn spec_limbs(&self) -> Seq<u64> {
        self.limbs@
    }

    /// No leading zero limb.
    pub closed spec fn wf(&self) -> bool {
        canonical(self.limbs@)
    }

    /// Law: two well-formed values that are numerically equal have the
    /// same limbs — the representation is unique.
    pub proof fn lemma_unique_repr(a: &BigUint, b: &BigUint)
        requires
            a.wf(),
            b.wf(),
            a@ == b@,
        ensures
            a.spec_limbs() == b.spec_limbs(),
    {
        lemma_canonical_unique(a.limbs@, b.limbs@);
    }

    /// The value zero.
    pub fn zero() -> (r: BigUint)
        ensures
            r.wf(),
            r@ == 0,
    {
        BigUint { limbs: Vec::new() }
    }

    /// The value of one machine word.
    pub fn from_u64(x: u64) -> (r: BigUint)
        ensures
            r.wf(),
            r@ == x,
    {
        let mut limbs: Vec<u64> = Vec::new();
        if x > 0 {
            limbs.push(x);
            proof {
                assert(limbs@.skip(1) =~= Seq::<u64>::empty());
                assert(limbs@[0] == x);
                assert(limbs_val(limbs@) == (limbs@[0] + limbs_val(limbs@.skip(1)) * limb_base())
                    as nat);
                assert(limbs_val(limbs@.skip(1)) == 0);
            }
        }
        BigUint { limbs }
    }

    /// Drop leading zero limbs; the value is unchanged.
    fn trim(v: &mut Vec<u64>)
        ensures
            final(v)@.len() == 0 || final(v)@.last() != 0,
            limbs_val(final(v)@) == limbs_val(old(v)@),
    {
        while v.len() > 0 && v[v.len() - 1] == 0
            invariant
                limbs_val(v@) == limbs_val(old(v)@),
            decreases v.len(),
        {
            proof {
                let s = v@;
                assert(s =~= s.drop_last().push(s.last()));
                lemma_val_push(s.drop_last(), s.last());
            }
            v.pop();
        }
    }

    /// Build a value from little-endian limbs; leading zero limbs are
    /// dropped.
    pub fn from_limbs(limbs: Vec<u64>) -> (r: BigUint)
        ensures
            r.wf(),
            r@ == limbs_val(limbs@),
    {
        let mut v = limbs;
        Self::trim(&mut v);
        BigUint { limbs: v }
    }

    /// The little-endian limbs of the value.
    pub fn limbs(&self) -> (r: &Vec<u64>)
        ensures
            r@ == self.spec_limbs(),
            limbs_val(r@) == self@,
    {
        &self.limbs
    }

    /// A copy with the same value.
    pub fn clone_value(&self) -> (r: BigUint)
        ensures
            r@ == self@,
            r.wf() == self.wf(),
    {
        let limbs = self.limbs.clone();
        proof {
            assert(limbs@ =~= self.limbs@);
        }
        BigUint { limbs }
    }

    /// Exact sum: the result never overflows, it grows by a limb where
    /// needed.
    pub fn add(&self, other: &BigUint) -> (r: BigUint)
        ensures
            r.wf(),
            r@ == self@ + other@,
    {
        let a = &self.limbs;
        let b = &other.limbs;
        let n: usize = if a.len() > b.len() {
            a.len()
        } else {
            b.len()
        };
        let mut res: Vec<u64> = Vec::new();
        let mut carry: u64 = 0;
        let mut i: usize = 0;
        while i < n
            invariant
                i <= n,
                a@.len() <= n,
                b@.len() <= n,
                carry <= 1,
                res@.len() == i,
                limbs_val(res@) + (carry as nat) * limb_weight(i as nat) == val_prefix(a@, i as int)
                    + val_prefix(b@, i as int),
            decreases n - i,
        {
            let ai: u64 = if i < a.len() {
                a[i]
            } else {
                0
            };
            let bi: u64 = if i < b.len() {
                b[i]
            } else {
                0
            };
            let s: u128 = ai as u128 + bi as u128 + carry as u128;
            let limb: u64 = (s % 0x1_0000_0000_0000_0000u128) as u64;
            let c: u64 = (s / 0x1_0000_0000_0000_0000u128) as u64;
            proof {
                let w = limb_weight(i as nat);
                let base = limb_base();
                assert(s == ai + bi + carry);
                assert(s < 2 * base);
                assert(limb == s % (base as u128));
                assert(c == s / (base as u128));
                assert(s as nat == (c as nat) * base + (limb as nat)) by (nonlinear_arith)
                    requires
                        limb == s % 0x1_0000_0000_0000_0000u128,
                        c == s / 0x1_0000_0000_0000_0000u128,
                        base == 0x1_0000_0000_0000_0000,
                ;
                lemma_val_push(res@, limb);
                lemma_val_prefix_step(a@, i as int);
                lemma_val_prefix_step(b@, i as int);
                assert(limb_weight((i + 1) as nat) == w * base);
                assert((c as nat) * (w * base) == ((c as nat) * base) * w) by (nonlinear_arith);
                assert(((c as nat) * base + (limb as nat)) * w == ((c as nat) * base) * w + (
                limb as nat) * w) by (nonlinear_arith);
                assert(((ai as nat) + (bi as nat) + (carry as nat)) * w == (ai as nat) * w + (
                bi as nat) * w + (carry as nat) * w) by (nonlinear_arith);
                assert(limbs_val(res@.push(limb)) + (c as nat) * limb_weight((i + 1) as nat)
                    == limbs_val(res@) + (carry as nat) * w + (ai as nat) * w + (bi as nat) * w);
            }
            res.push(limb);
            carry = c;
            i = i + 1;
        }
        proof {
            assert(a@.take(a@.len() as int) =~= a@);
            assert(b@.take(b@.len() as int) =~= b@);
            assert(val_prefix(a@, i as int) == limbs_val(a@));
            assert(val_prefix(b@, i as int) == limbs_val(b@));
        }
        if carry > 0 {
            proof {
                lemma_val_push(res@, carry);
            }
            res.push(carry);
        }
        Self::trim(&mut res);
        BigUint { limbs: res }
    }
}

} // verus!
