use vstd::prelude::*;

verus! {

broadcast use vstd::group_vstd_default;

/// An unsigned 256-bit integer, stored as four 64-bit words with `w0`
/// the least significant.
#[derive(Clone, Copy, Debug, PartialEq, Eq, Hash, Structural)]
pub struct U256 {
    pub w0: u64,
    pub w1: u64,
    pub w2: u64,
    pub w3: u64,
}

/// 2 to the 64th power.
pub open spec fn pow64() -> int {
    0x1_0000_0000_0000_0000
}

/// 2 to the 128th power.
pub open spec fn pow128() -> int {
    pow64() * pow64()
}

/// The mathematical value of a `U256`.
pub open spec fn u256_int(v: U256) -> int {
    v.w0 + pow64() * (v.w1 + pow64() * (v.w2 + pow64() * v.w3))
}

/// The largest value a `U256` can hold.
pub open spec fn u256_max() -> int {
    u256_int(
        U256 { w0: 0xffff_ffff_ffff_ffff, w1: 0xffff_ffff_ffff_ffff, w2: 0xffff_ffff_ffff_ffff, w3: 0xffff_ffff_ffff_ffff },
    )
}

impl U256 {
    /// The value zero.
    pub fn zero() -> (r: U256)
        ensures
            u256_int(r) == 0,
    {
        U256 { w0: 0, w1: 0, w2: 0, w3: 0 }
    }

    /// Builds the 256-bit value of a 64-bit one.
    pub fn from_u64(n: u64) -> (r: U256)
        ensures
            u256_int(r) == n,
    {
        U256 { w0: n, w1: 0, w2: 0, w3: 0 }
    }

    /// Builds the 256-bit value of a 128-bit one.
    pub fn from_u128(n: u128) -> (r: U256)
        ensures
            u256_int(r) == n,
    {
        let w0 = (n % 0x1_0000_0000_0000_0000) as u64;
        let w1 = (n / 0x1_0000_0000_0000_0000) as u64;
        let r = U256 { w0, w1, w2: 0, w3: 0 };
        proof {
            assert(n == pow64() * (n as int / pow64()) + n as int % pow64()) by (nonlinear_arith);
        }
        r
    }

    /// The low 64 bits, when the value fits them.
    pub fn to_u64(&self) -> (r: Option<u64>)
        ensures
            match r {
                Some(n) => n == u256_int(*self),
                None => u256_int(*self) > u64::MAX,
            },
    {
        if self.w1 == 0 && self.w2 == 0 && self.w3 == 0 {
            Some(self.w0)
        } else {
            proof {
                lemma_words_bound(*self);
            }
            None
        }
    }

    /// The low 128 bits, when the value fits them.
    pub fn to_u128(&self) -> (r: Option<u128>)
        ensures
            match r {
                Some(n) => n == u256_int(*self),
                None => u256_int(*self) > u128::MAX,
            },
    {
        if self.w2 == 0 && self.w3 == 0 {
            let n = self.w0 as u128 + (self.w1 as u128) * 0x1_0000_0000_0000_0000;
            Some(n)
        } else {
            proof {
                lemma_words_bound(*self);
            }
            None
        }
    }

    /// Whether this value is numerically smaller than `other`.
    pub fn lt(&self, other: &U256) -> (r: bool)
        ensures
            r == (u256_int(*self) < u256_int(*other)),
    {
        proof {
            lemma_order(*self, *other);
        }
        if self.w3 != other.w3 {
            self.w3 < other.w3
        } else if self.w2 != other.w2 {
            self.w2 < other.w2
        } else if self.w1 != other.w1 {
            self.w1 < other.w1
        } else {
            self.w0 < other.w0
        }
    }

    /// Whether this value is numerically greater than or equal to `other`.
    pub fn ge(&self, other: &U256) -> (r: bool)
        ensures
            r == (u256_int(*self) >= u256_int(*other)),
    {
        let r = self.lt(other);
        !r
    }

    /// The value plus one; nothing on the largest value.
    pub fn increment(&self) -> (r: Option<U256>)
        ensures
            match r {
                Some(v) => u256_int(v) == u256_int(*self) + 1,
                None => u256_int(*self) == u256_max(),
            },
    {
        if self.w0 < 0xffff_ffff_ffff_ffff {
            Some(U256 { w0: self.w0 + 1, ..*self })
        } else if self.w1 < 0xffff_ffff_ffff_ffff {
            Some(U256 { w0: 0, w1: self.w1 + 1, ..*self })
        } else if self.w2 < 0xffff_ffff_ffff_ffff {
            Some(U256 { w0: 0, w1: 0, w2: self.w2 + 1, ..*self })
        } else if self.w3 < 0xffff_ffff_ffff_ffff {
            Some(U256 { w0: 0, w1: 0, w2: 0, w3: self.w3 + 1 })
        } else {
            None
        }
    }

    /// Divides by ten: the quotient and the remainder.
    pub fn divmod10(&self) -> (r: (U256, u8))
        ensures
            u256_int(r.0) * 10 + r.1 == u256_int(*self),
            r.1 < 10,
    {
        let (q3, r3) = divstep(0, self.w3);
        let (q2, r2) = divstep(r3, self.w2);
        let (q1, r1) = divstep(r2, self.w1);
        let (q0, r0) = divstep(r1, self.w0);
        let q = U256 { w0: q0, w1: q1, w2: q2, w3: q3 };
        proof {
            lemma_divmod_chain(*self, q, r3, r2, r1, r0);
        }
        (q, r0 as u8)
    }

    /// Whether the value is zero.
    pub fn is_zero(&self) -> (r: bool)
        ensures
            r == (u256_int(*self) == 0),
    {
        proof {
            lemma_words_bound(*self);
        }
        self.w0 == 0 && self.w1 == 0 && self.w2 == 0 && self.w3 == 0
    }
}

/// One step of long division by ten: divides `carry * 2^64 + w` where
/// the carry is below ten.
fn divstep(carry: u64, w: u64) -> (r: (u64, u64))
    requires
        carry < 10,
    ensures
        r.0 * 10 + r.1 == carry * pow64() + w,
        r.1 < 10,
{
    let cur: u128 = (carry as u128) * 0x1_0000_0000_0000_0000 + (w as u128);
    let q = cur / 10;
    let r = cur % 10;
    proof {
        assert(cur == (cur / 10) * 10 + cur % 10) by (nonlinear_arith);
        assert(cur / 10 <= u64::MAX) by (nonlinear_arith)
            requires
                cur <= 10 * 0x1_0000_0000_0000_0000u128 - 1,
        ;
    }
    (q as u64, r as u64)
}

/// Each word contributes a nonnegative share bounded by the word width,
/// so a value is zero, or beyond a smaller width, exactly when the
/// corresponding words say so.
proof fn lemma_words_bound(v: U256)
    ensures
        u256_int(v) >= v.w0,
        u256_int(v) >= 0,
        v.w1 > 0 || v.w2 > 0 || v.w3 > 0 ==> u256_int(v) > u64::MAX,
        v.w2 > 0 || v.w3 > 0 ==> u256_int(v) > u128::MAX,
        v.w1 == 0 && v.w2 == 0 && v.w3 == 0 ==> u256_int(v) == v.w0,
{
    assert(u256_int(v) >= v.w0 && u256_int(v) >= 0 && (v.w1 > 0 || v.w2 > 0 || v.w3 > 0
        ==> u256_int(v) > u64::MAX) && (v.w2 > 0 || v.w3 > 0 ==> u256_int(v) > u128::MAX) && (v.w1
        == 0 && v.w2 == 0 && v.w3 == 0 ==> u256_int(v) == v.w0)) by (nonlinear_arith)
        requires
            0 <= v.w0 < pow64(),
            0 <= v.w1 < pow64(),
            0 <= v.w2 < pow64(),
            0 <= v.w3 < pow64(),
    ;
}

/// Word-by-word lexicographic comparison decides numeric order.
proof fn lemma_order(a: U256, b: U256)
    ensures
        (u256_int(a) < u256_int(b)) == if a.w3 != b.w3 {
            a.w3 < b.w3
        } else if a.w2 != b.w2 {
            a.w2 < b.w2
        } else if a.w1 != b.w1 {
            a.w1 < b.w1
        } else {
            a.w0 < b.w0
        },
{
    assert((u256_int(a) < u256_int(b)) == if a.w3 != b.w3 {
        a.w3 < b.w3
    } else if a.w2 != b.w2 {
        a.w2 < b.w2
    } else if a.w1 != b.w1 {
        a.w1 < b.w1
    } else {
        a.w0 < b.w0
    }) by (nonlinear_arith)
        requires
            0 <= a.w0 < pow64(),
            0 <= a.w1 < pow64(),
            0 <= a.w2 < pow64(),
            0 <= a.w3 < pow64(),
            0 <= b.w0 < pow64(),
            0 <= b.w1 < pow64(),
            0 <= b.w2 < pow64(),
            0 <= b.w3 < pow64(),
    ;
}

/// Chaining the four division steps divides the whole value.
proof fn lemma_divmod_chain(v: U256, q: U256, r3: u64, r2: u64, r1: u64, r0: u64)
    requires
        q.w3 * 10 + r3 == v.w3,
        q.w2 * 10 + r2 == r3 * pow64() + v.w2,
        q.w1 * 10 + r1 == r2 * pow64() + v.w1,
        q.w0 * 10 + r0 == r1 * pow64() + v.w0,
    ensures
        u256_int(q) * 10 + r0 == u256_int(v),
{
    assert(u256_int(q) * 10 + r0 == u256_int(v)) by (nonlinear_arith)
        requires
            q.w3 * 10 + r3 == v.w3,
            q.w2 * 10 + r2 == r3 * pow64() + v.w2,
            q.w1 * 10 + r1 == r2 * pow64() + v.w1,
            q.w0 * 10 + r0 == r1 * pow64() + v.w0,
    ;
}

/// Two words-level values are equal exactly when their mathematical
/// values are equal.
pub proof fn lemma_value_injective(a: U256, b: U256)
    ensures
        (u256_int(a) == u256_int(b)) <==> (a == b),
{
    lemma_order(a, b);
    lemma_order(b, a);
}

/// The low words carry the value's residues by the small powers of two,
/// because every higher word is a multiple of each such power.
pub proof fn lemma_truncate(v: U256)
    ensures
        u256_int(v) % 0x100 == v.w0 as int % 0x100,
        u256_int(v) % 0x1_0000 == v.w0 as int % 0x1_0000,
        u256_int(v) % 0x1_0000_0000 == v.w0 as int % 0x1_0000_0000,
        u256_int(v) % 0x1_0000_0000_0000_0000 == v.w0 as int,
        u256_int(v) % pow128() == v.w0 + pow64() * v.w1,
        0 <= v.w0 + pow64() * v.w1 <= u128::MAX,
{
    assert(u256_int(v) % 0x100 == v.w0 as int % 0x100 && u256_int(v) % 0x1_0000 == v.w0 as int
        % 0x1_0000 && u256_int(v) % 0x1_0000_0000 == v.w0 as int % 0x1_0000_0000 && u256_int(v)
        % 0x1_0000_0000_0000_0000 == v.w0 as int && u256_int(v)
        % pow128() == v.w0 + pow64() * v.w1 && 0 <= v.w0
        + pow64() * v.w1 <= u128::MAX) by (nonlinear_arith)
        requires
            0 <= v.w0 < pow64(),
            0 <= v.w1 < pow64(),
            0 <= v.w2 < pow64(),
            0 <= v.w3 < pow64(),
    ;
}

} // verus!
