use vstd::prelude::*;

verus! {

/// The Fibonacci numbers, extended to every integer the way the recursive
/// definition reads: an index of at most one is its own value.
pub open spec fn fib(n: int) -> int
    decreases n,
{
    if n <= 1 {
        n
    } else {
        fib(n - 1) + fib(n - 2)
    }
}

/// The largest index whose Fibonacci number fits in an `i32`.
pub const MAX_INDEX: i32 = 46;

/// `k` steps of the pair walk `(a, b) -> (b, a + b)`, read off at its first
/// component.
spec fn fib_walk(a: int, b: int, k: nat) -> int
    decreases k,
{
    if k == 0 {
        a
    } else {
        fib_walk(b, a + b, (k - 1) as nat)
    }
}

/// Walking `k` steps from two consecutive Fibonacci numbers lands `k` places on.
proof fn lemma_fib_walk(n: int, k: nat)
    requires
        0 <= n,
    ensures
        fib(n + k) == fib_walk(fib(n), fib(n + 1), k),
    decreases k,
{
    if k > 0 {
        lemma_fib_walk(n + 1, (k - 1) as nat);
        assert(fib(n + 2) == fib(n + 1) + fib(n));
        assert(n + 1 + (k - 1) == n + k);
    }
}

/// Every Fibonacci number from index 0 to 46 lies in `[0, 1836311903]`.
proof fn lemma_fib_fits(n: int)
    requires
        0 <= n <= MAX_INDEX,
    ensures
        0 <= fib(n) <= fib(MAX_INDEX as int),
        fib(MAX_INDEX as int) == 1836311903,
{
    lemma_fib_walk(0, 46);
    assert(fib_walk(0, 1, 46) == 1836311903) by {
        reveal_with_fuel(fib_walk, 47);
    }
    lemma_fib_monotonic(n, MAX_INDEX as int);
    lemma_fib_nonnegative(n);
}

proof fn lemma_fib_nonnegative(n: int)
    requires
        0 <= n,
    ensures
        0 <= fib(n),
    decreases n,
{
    if n > 1 {
        lemma_fib_nonnegative(n - 1);
        lemma_fib_nonnegative(n - 2);
    }
}

proof fn lemma_fib_monotonic(i: int, j: int)
    requires
        0 <= i <= j,
    ensures
        fib(i) <= fib(j),
    decreases j - i,
{
    if i < j {
        lemma_fib_monotonic(i, j - 1);
        if j >= 2 {
            lemma_fib_nonnegative(j - 2);
        }
    }
}

/// The `n`-th Fibonacci number, by plain binary recursion. An index of at
/// most one, negative ones included, is returned as it is.
pub fn fibonacci(n: i32) -> (r: i32)
    requires
        n <= MAX_INDEX,
    ensures
        r == fib(n as int),
        n <= 1 ==> r == n,
    decreases n,
{
    if n <= 1 {
        n
    } else {
        proof {
            lemma_fib_fits(n as int);
        }
        fibonacci(n - 1) + fibonacci(n - 2)
    }
}

/// The first `count` Fibonacci numbers, in order of index.
pub open spec fn fib_prefix(count: nat) -> Seq<int> {
    Seq::new(count, |i: int| fib(i))
}

/// How many values the report lists.
pub const SEQUENCE_LEN: i32 = 10;

/// The line that heads the report.
pub fn header() -> (r: &'static str)
    ensures
        r@ == "Fibonacci sequence:"@,
{
    proof {
        reveal_strlit("Fibonacci sequence:");
    }
    "Fibonacci sequence:"
}

/// `fibonacci(i)` for each index `i` from 0 up to `count - 1`, in that order.
/// The result depends on `count` alone.
pub fn fibonacci_sequence(count: i32) -> (r: Vec<i32>)
    requires
        0 <= count <= MAX_INDEX + 1,
    ensures
        r@.len() == count,
        forall|i: int| 0 <= i < count ==> r@[i] as int == fib_prefix(count as nat)[i],
{
    let mut r: Vec<i32> = Vec::new();
    let mut i: i32 = 0;
    while i < count
        invariant
            0 <= i <= count <= MAX_INDEX + 1,
            r@.len() == i,
            forall|j: int| 0 <= j < i ==> r@[j] as int == fib(j),
        decreases count - i,
    {
        r.push(fibonacci(i));
        i = i + 1;
    }
    r
}

/// The first ten Fibonacci numbers are 0, 1, 1, 2, 3, 5, 8, 13, 21, 34.
pub proof fn lemma_first_ten()
    ensures
        fib_prefix(10) == seq![0int, 1, 1, 2, 3, 5, 8, 13, 21, 34],
{
    reveal_with_fuel(fib, 3);
    assert(fib(2) == 1);
    assert(fib(3) == 2);
    assert(fib(4) == 3);
    assert(fib(5) == 5);
    assert(fib(6) == 8);
    assert(fib(7) == 13);
    assert(fib(8) == 21);
    assert(fib(9) == 34);
    assert(fib_prefix(10) =~= seq![0int, 1, 1, 2, 3, 5, 8, 13, 21, 34]);
}

/// The sequence starts from 0 at index 0 and 1 at index 1.
pub proof fn lemma_base_cases()
    ensures
        fib(0) == 0,
        fib(1) == 1,
{
}

/// From index 2 on, each Fibonacci number is the sum of the two before it.
pub proof fn lemma_recurrence(n: int)
    requires
        n >= 2,
    ensures
        fib(n) == fib(n - 1) + fib(n - 2),
{
}

/// Two computations of the sequence with the same length agree value for value:
/// nothing carries over from one to the next.
pub proof fn lemma_sequence_repeatable(count: nat, a: Seq<i32>, b: Seq<i32>)
    requires
        a.len() == count,
        b.len() == count,
        forall|i: int| 0 <= i < count ==> a[i] as int == fib_prefix(count)[i],
        forall|i: int| 0 <= i < count ==> b[i] as int == fib_prefix(count)[i],
    ensures
        a == b,
{
    assert(a =~= b);
}

} // verus!
