//! Logic of the deployed test contracts.
//!
//! The benchmark calls target two small contracts: one stores a number
//! and a string and offers arithmetic workloads, the other stores just a
//! number and is driven through a cross-contract call. Their message
//! semantics are modeled here as plain verified types, so the selector
//! table in the builders points at behavior that is pinned down, not
//! guessed.

use vstd::prelude::*;

verus! {

/// The sample event the benchmark contract emits on request.
#[derive(Clone, Copy, Debug, PartialEq, Eq, Structural)]
pub struct SampleEvent;

/// The `n`-th fibonacci number.
pub open spec fn spec_fib(n: nat) -> nat
    decreases n,
{
    if n < 2 {
        n
    } else {
        spec_fib((n - 1) as nat) + spec_fib((n - 2) as nat)
    }
}

/// The product of the first `n` odd numbers.
pub open spec fn spec_odd_product(n: nat) -> nat
    decreases n,
{
    if n == 0 {
        1
    } else {
        (spec_odd_product((n - 1) as nat) * (2 * n - 1)) as nat
    }
}

/// The sum of the first `n` numbers.
pub open spec fn spec_triangle(n: nat) -> nat
    decreases n,
{
    if n == 0 {
        0
    } else {
        spec_triangle((n - 1) as nat) + n
    }
}

/// The odd product never shrinks as `n` grows: every factor is at least
/// one.
proof fn lemma_odd_product_mono(a: nat, b: nat)
    requires
        a <= b,
    ensures
        spec_odd_product(a) <= spec_odd_product(b),
    decreases b,
{
    if a < b {
        lemma_odd_product_mono(a, (b - 1) as nat);
        assert(spec_odd_product(b) == spec_odd_product((b - 1) as nat) * (2 * b - 1));
        assert(spec_odd_product((b - 1) as nat) * (2 * b - 1) >= spec_odd_product(
            (b - 1) as nat,
        ) * 1) by (nonlinear_arith)
            requires
                b >= 1,
                spec_odd_product((b - 1) as nat) >= 0,
        ;
    }
}

/// The triangle number is at most the square.
proof fn lemma_triangle_bound(n: nat)
    ensures
        spec_triangle(n) <= n * n,
    decreases n,
{
    if n > 0 {
        lemma_triangle_bound((n - 1) as nat);
        assert((n - 1) * (n - 1) + n <= n * n) by (nonlinear_arith)
            requires
                n >= 1,
        ;
    }
}

/// The richer benchmark contract: a stored number, a stored string, and
/// arithmetic workload messages.
pub struct Test {
    /// The stored number.
    pub num: i64,
    /// The stored string.
    pub s: String,
}

impl Test {
    /// Creates the contract state with the given number and string.
    pub fn new(init_num: i64, init_s: String) -> (r: Self)
        ensures
            r.num == init_num,
            r.s@ == init_s@,
    {
        Test { num: init_num, s: init_s }
    }

    /// Creates the contract state with number zero and the empty string.
    pub fn default() -> (r: Self)
        ensures
            r.num == 0,
            r.s@ == Seq::<char>::empty(),
    {
        let s = String::new();
        Test::new(0, s)
    }

    /// Replaces the stored number.
    pub fn update_num(&mut self, new_num: i64)
        ensures
            final(self).num == new_num,
            final(self).s@ == old(self).s@,
    {
        self.num = new_num;
    }

    /// Reads the stored number.
    pub fn get_num(&self) -> (r: i64)
        ensures
            r == self.num,
    {
        self.num
    }

    /// Replaces the stored string.
    pub fn update_s(&mut self, new_s: String)
        ensures
            final(self).s@ == new_s@,
            final(self).num == old(self).num,
    {
        self.s = new_s;
    }

    /// Reads the stored string.
    pub fn get_s(&self) -> (r: String)
        ensures
            r@ == self.s@,
    {
        self.s.as_str().to_owned()
    }

    /// The `n`-th fibonacci number; the input must not overflow the
    /// result type.
    pub fn fibonacci(&self, n: u32) -> (r: u128)
        requires
            spec_fib(n as nat) <= u128::MAX,
        ensures
            r == spec_fib(n as nat),
        decreases n,
    {
        if n < 2 {
            n as u128
        } else {
            let a = self.fibonacci(n - 1);
            let b = self.fibonacci(n - 2);
            a + b
        }
    }

    /// The product of the first `n` odd numbers; the input must not
    /// overflow the result type.
    pub fn odd_product(&self, n: u32) -> (r: u128)
        requires
            spec_odd_product(n as nat) <= u128::MAX,
        ensures
            r == spec_odd_product(n as nat),
    {
        let mut prod: u128 = 1;
        let mut i: u32 = 0;
        while i < n
            invariant
                i <= n,
                prod == spec_odd_product(i as nat),
                spec_odd_product(n as nat) <= u128::MAX,
            decreases n - i,
        {
            proof {
                lemma_odd_product_mono((i + 1) as nat, n as nat);
                assert(spec_odd_product((i + 1) as nat) == spec_odd_product(i as nat) * (2 * (i
                    + 1) - 1));
            }
            i = i + 1;
            proof {
                assert(prod * (2 * (i as u128) - 1) == spec_odd_product(i as nat));
                assert(spec_odd_product(i as nat) <= u128::MAX);
            }
            prod = prod * (2 * (i as u128) - 1);
        }
        prod
    }

    /// The sum of the first `n` numbers.
    pub fn triangle_number(&self, n: u32) -> (r: u128)
        ensures
            r == spec_triangle(n as nat),
    {
        let mut sum: u128 = 0;
        let mut i: u32 = 0;
        while i < n
            invariant
                i <= n,
                sum == spec_triangle(i as nat),
            decreases n - i,
        {
            proof {
                lemma_triangle_bound((i + 1) as nat);
                assert(((i + 1) as nat) * ((i + 1) as nat) <= 0x10000000000000000)
                    by (nonlinear_arith)
                    requires
                        i <= 0xffffffffu32,
                ;
            }
            i = i + 1;
            sum = sum + (i as u128);
        }
        sum
    }

    /// Emits the sample event: yields the event value for the
    /// environment to publish.
    pub fn emit_sample_event(&self) -> (r: SampleEvent)
        ensures
            r == (SampleEvent {  }),
    {
        SampleEvent {  }
    }
}

/// The callee contract: a single stored number.
pub struct Inner {
    /// The stored number.
    pub value: i64,
}

impl Inner {
    /// Creates the contract state with the given number.
    pub fn new(init_value: i64) -> (r: Self)
        ensures
            r.value == init_value,
    {
        Inner { value: init_value }
    }

    /// Creates the contract state with number zero.
    pub fn default() -> (r: Self)
        ensures
            r.value == 0,
    {
        Inner::new(0)
    }

    /// Replaces the stored number; reports success.
    pub fn update(&mut self, new_value: i64) -> (r: bool)
        ensures
            final(self).value == new_value,
            r == true,
    {
        self.value = new_value;
        true
    }

    /// Reads the stored number.
    pub fn get(&self) -> (r: i64)
        ensures
            r == self.value,
    {
        self.value
    }
}

} // verus!
