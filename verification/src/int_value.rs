//! Integer literal values of any size, as a sign and base-2^32 digits, and their
//! comparison.
use vstd::prelude::*;

verus! {

/// An integer: a sign and its magnitude as base-2^32 digits, least significant first.
#[derive(Debug)]
pub struct IntValue {
    pub negative: bool,
    pub magnitude: Vec<u32>,
}

/// The result of comparing two integers.
#[derive(Clone, Copy, Debug, PartialEq, Eq, Structural)]
pub enum Order {
    Less,
    Equal,
    Greater,
}

/// The value of base-2^32 digits, least significant first.
pub open spec fn digits_value(d: Seq<u32>) -> int
    decreases d.len(),
{
    if d.len() == 0 {
        0
    } else {
        d[0] + 0x1_0000_0000 * digits_value(d.drop_first())
    }
}

/// The order of two integers.
pub open spec fn order_of(a: int, b: int) -> Order {
    if a < b {
        Order::Less
    } else if a == b {
        Order::Equal
    } else {
        Order::Greater
    }
}

impl IntValue {
    /// The integer that the value stands for.
    pub open spec fn value(&self) -> int {
        if self.negative {
            -digits_value(self.magnitude@)
        } else {
            digits_value(self.magnitude@)
        }
    }

    /// The value `v`.
    pub fn from_u32(v: u32) -> (r: IntValue)
        ensures
            r.value() == v,
    {
        let mut magnitude: Vec<u32> = Vec::new();
        magnitude.push(v);
        proof {
            assert(magnitude@.drop_first() =~= Seq::<u32>::empty());
            assert(digits_value(magnitude@.drop_first()) == 0);
        }
        IntValue { negative: false, magnitude }
    }
}

proof fn lemma_digits_nonneg(d: Seq<u32>)
    ensures
        digits_value(d) >= 0,
    decreases d.len(),
{
    if d.len() > 0 {
        lemma_digits_nonneg(d.drop_first());
    }
}

proof fn lemma_digits_zero(d: Seq<u32>)
    ensures
        digits_value(d) == 0 <==> forall|k: int| 0 <= k < d.len() ==> d[k] == 0,
    decreases d.len(),
{
    if d.len() > 0 {
        lemma_digits_zero(d.drop_first());
        lemma_digits_nonneg(d.drop_first());
        if forall|k: int| 0 <= k < d.len() ==> d[k] == 0 {
            assert forall|k: int| 0 <= k < d.drop_first().len() implies d.drop_first()[k] == 0 by {
                assert(d.drop_first()[k] == d[k + 1]);
            }
        }
        if digits_value(d) == 0 {
            assert forall|k: int| 0 <= k < d.len() implies d[k] == 0 by {
                if k > 0 {
                    assert(d.drop_first()[k - 1] == d[k]);
                }
            }
        }
    }
}

proof fn lemma_digits_pad(d: Seq<u32>)
    ensures
        digits_value(d.push(0)) == digits_value(d),
    decreases d.len(),
{
    if d.len() == 0 {
        assert(d.push(0).drop_first() =~= Seq::<u32>::empty());
        assert(digits_value(d.push(0).drop_first()) == 0);
    } else {
        assert(d.push(0).drop_first() =~= d.drop_first().push(0));
        assert(d.push(0)[0] == d[0]);
        lemma_digits_pad(d.drop_first());
    }
}

/// Two digit sequences of one length that agree above position `k` and differ
/// at `k`: the one with the larger digit there has the larger value.
proof fn lemma_digits_top_decides(x: Seq<u32>, y: Seq<u32>, k: int)
    requires
        x.len() == y.len(),
        0 <= k < x.len(),
        x.skip(k + 1) == y.skip(k + 1),
        x[k] > y[k],
    ensures
        digits_value(x) > digits_value(y),
    decreases k,
{
    if k == 0 {
        assert(x.drop_first() =~= x.skip(1));
        assert(y.drop_first() =~= y.skip(1));
    } else {
        assert(x.drop_first().skip(k) =~= x.skip(k + 1));
        assert(y.drop_first().skip(k) =~= y.skip(k + 1));
        lemma_digits_top_decides(x.drop_first(), y.drop_first(), k - 1);
    }
}

/// `d` padded with zero digits to length `n`.
fn pad(d: &Vec<u32>, n: usize) -> (r: Vec<u32>)
    requires
        d.len() <= n,
    ensures
        r.len() == n,
        digits_value(r@) == digits_value(d@),
{
    let mut r: Vec<u32> = Vec::new();
    let mut i: usize = 0;
    while i < d.len()
        invariant
            i <= d.len(),
            r@ == d@.take(i as int),
        decreases d.len() - i,
    {
        r.push(d[i]);
        i = i + 1;
        assert(r@ =~= d@.take(i as int));
    }
    assert(d@.take(d.len() as int) =~= d@);
    while r.len() < n
        invariant
            d.len() <= r.len() <= n,
            digits_value(r@) == digits_value(d@),
        decreases n - r.len(),
    {
        proof {
            lemma_digits_pad(r@);
        }
        r.push(0);
    }
    r
}

/// The order of the values of two digit sequences.
fn compare_magnitudes(x: &Vec<u32>, y: &Vec<u32>) -> (r: Order)
    ensures
        r == order_of(digits_value(x@), digits_value(y@)),
{
    let n = if x.len() < y.len() {
        y.len()
    } else {
        x.len()
    };
    let a = pad(x, n);
    let b = pad(y, n);
    let mut i: usize = n;
    while i > 0
        invariant
            a.len() == n && b.len() == n,
            digits_value(a@) == digits_value(x@),
            digits_value(b@) == digits_value(y@),
            i <= n,
            a@.skip(i as int) == b@.skip(i as int),
        decreases i,
    {
        let k = i - 1;
        if a[k] > b[k] {
            proof {
                assert(a@.skip(k + 1) == a@.skip(i as int));
                lemma_digits_top_decides(a@, b@, k as int);
            }
            return Order::Greater;
        } else if a[k] < b[k] {
            proof {
                lemma_digits_top_decides(b@, a@, k as int);
            }
            return Order::Less;
        }
        assert(a@.skip(k as int) =~= seq![a@[k as int]] + a@.skip(i as int));
        assert(b@.skip(k as int) =~= seq![b@[k as int]] + b@.skip(i as int));
        i = k;
    }
    assert(a@ =~= a@.skip(0));
    assert(b@ =~= b@.skip(0));
    Order::Equal
}

/// Whether all digits are zero.
fn is_zero_magnitude(x: &Vec<u32>) -> (r: bool)
    ensures
        r == (digits_value(x@) == 0),
{
    proof {
        lemma_digits_zero(x@);
    }
    let mut i: usize = 0;
    while i < x.len()
        invariant
            i <= x.len(),
            forall|k: int| 0 <= k < i ==> x@[k] == 0,
        decreases x.len() - i,
    {
        if x[i] != 0 {
            proof {
                lemma_digits_zero(x@);
            }
            return false;
        }
        i = i + 1;
    }
    true
}

/// The order of two integers.
pub fn compare(a: &IntValue, b: &IntValue) -> (r: Order)
    ensures
        r == order_of(a.value(), b.value()),
{
    proof {
        lemma_digits_nonneg(a.magnitude@);
        lemma_digits_nonneg(b.magnitude@);
    }
    let m = compare_magnitudes(&a.magnitude, &b.magnitude);
    if !a.negative && !b.negative {
        m
    } else if a.negative && b.negative {
        match m {
            Order::Less => Order::Greater,
            Order::Equal => Order::Equal,
            Order::Greater => Order::Less,
        }
    } else {
        let both_zero = is_zero_magnitude(&a.magnitude) && is_zero_magnitude(&b.magnitude);
        if both_zero {
            Order::Equal
        } else if a.negative {
            Order::Less
        } else {
            Order::Greater
        }
    }
}

/// Whether `a` is less than `b`.
pub fn lt(a: &IntValue, b: &IntValue) -> (r: bool)
    ensures
        r == (a.value() < b.value()),
{
    compare(a, b) == Order::Less
}

/// Whether `a` is at most `b`.
pub fn le(a: &IntValue, b: &IntValue) -> (r: bool)
    ensures
        r == (a.value() <= b.value()),
{
    compare(a, b) != Order::Greater
}

/// Whether `a` equals `b`.
pub fn eq(a: &IntValue, b: &IntValue) -> (r: bool)
    ensures
        r == (a.value() == b.value()),
{
    compare(a, b) == Order::Equal
}

} // verus!
