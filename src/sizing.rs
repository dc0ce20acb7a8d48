use vstd::prelude::*;

use crate::error::PipelineError;

verus! {

/// Two to the power `k`.
pub open spec fn pow2(k: nat) -> nat
    decreases k,
{
    if k == 0 {
        1
    } else {
        2 * pow2((k - 1) as nat)
    }
}

/// `x` is a power of two.
pub open spec fn is_pow2(x: nat) -> bool {
    exists|k: nat| pow2(k) == x
}

/// The least power of two that is at least `x`.
pub open spec fn next_pow2(x: nat) -> nat
    decreases x,
{
    if x <= 1 {
        1
    } else {
        2 * next_pow2(((x + 1) / 2) as nat)
    }
}

/// `pow2` grows with its exponent.
pub proof fn lemma_pow2_monotonic(a: nat, b: nat)
    requires
        a <= b,
    ensures
        1 <= pow2(a) <= pow2(b),
    decreases b,
{
    if b > 0 {
        if a < b {
            lemma_pow2_monotonic(a, (b - 1) as nat);
        } else {
            lemma_pow2_monotonic((a - 1) as nat, (b - 1) as nat);
        }
    }
}

/// `next_pow2(x)` is a power of two, at least `x`, and less than `2 * x`
/// (so no smaller power of two reaches `x`).
pub proof fn lemma_next_pow2_bounds(x: nat)
    ensures
        is_pow2(next_pow2(x)),
        x <= next_pow2(x),
        x >= 1 ==> next_pow2(x) < 2 * x,
    decreases x,
{
    if x <= 1 {
        assert(pow2(0) == 1);
    } else {
        let h = ((x + 1) / 2) as nat;
        lemma_next_pow2_bounds(h);
        let k = choose|k: nat| pow2(k) == next_pow2(h);
        assert(pow2(k + 1) == next_pow2(x));
    }
}

/// The least power of two at or above a power of two is that number.
proof fn lemma_next_pow2_of_pow2(k: nat)
    ensures
        next_pow2(pow2(k)) == pow2(k),
    decreases k,
{
    if k > 0 {
        lemma_next_pow2_of_pow2((k - 1) as nat);
        lemma_pow2_monotonic(0, (k - 1) as nat);
        assert((pow2(k) + 1) / 2 == pow2((k - 1) as nat));
    }
}

/// The least power of two that is at least `x`, or `None` where it does not
/// fit in a `usize`.
pub fn next_power_of_two(x: usize) -> (r: Option<usize>)
    ensures
        r == (if next_pow2(x as nat) <= usize::MAX {
            Some(next_pow2(x as nat) as usize)
        } else {
            None::<usize>
        }),
    decreases x,
{
    if x <= 1 {
        Some(1)
    } else {
        let h: usize = x / 2 + x % 2;
        assert(h as nat == (x as nat + 1) / 2);
        match next_power_of_two(h) {
            Some(p) => {
                if p <= usize::MAX / 2 {
                    Some(2 * p)
                } else {
                    None
                }
            },
            None => None,
        }
    }
}

/// Whether `x` is a power of two.
pub fn is_power_of_two(x: usize) -> (r: bool)
    ensures
        r == is_pow2(x as nat),
{
    proof {
        lemma_next_pow2_bounds(x as nat);
        if is_pow2(x as nat) {
            let k = choose|k: nat| pow2(k) == x as nat;
            lemma_next_pow2_of_pow2(k);
        }
    }
    match next_power_of_two(x) {
        Some(p) => p == x,
        None => false,
    }
}

/// Two to the power `k`, or `None` where it does not fit in a `usize`.
pub fn pow2_checked(k: usize) -> (r: Option<usize>)
    ensures
        r == (if pow2(k as nat) <= usize::MAX {
            Some(pow2(k as nat) as usize)
        } else {
            None::<usize>
        }),
{
    let mut p: usize = 1;
    let mut i: usize = 0;
    while i < k
        invariant
            i <= k,
            p as nat == pow2(i as nat),
        decreases k - i,
    {
        if p > usize::MAX / 2 {
            proof {
                lemma_pow2_monotonic((i + 1) as nat, k as nat);
            }
            return None;
        }
        p = 2 * p;
        i = i + 1;
    }
    Some(p)
}

/// The size a circuit needs before padding: its gates, or the entries of
/// its lookup tables, whichever is more.
pub open spec fn natural_size(gates: usize, table_entries: usize) -> usize {
    if gates >= table_entries {
        gates
    } else {
        table_entries
    }
}

/// What `padded_gate_count` returns.
pub open spec fn padding(gates: usize, table_entries: usize, size_log_2: Option<usize>) -> Result<
    usize,
    PipelineError,
> {
    let natural = natural_size(gates, table_entries);
    match size_log_2 {
        None => if next_pow2((natural + 1) as nat) <= usize::MAX {
            Ok((next_pow2((natural + 1) as nat) - 1) as usize)
        } else {
            Err(PipelineError::SizeTooLarge)
        },
        Some(s) => if pow2(s as nat) > usize::MAX {
            Err(PipelineError::SizeTooLarge)
        } else if natural + 1 > pow2(s as nat) {
            Err(PipelineError::SizeMismatch)
        } else {
            Ok((pow2(s as nat) - 1) as usize)
        },
    }
}

/// What `trusted_setup_size` returns.
pub open spec fn setup_size(n: usize, size_log_2: Option<usize>) -> Result<usize, PipelineError> {
    if n == usize::MAX {
        Err(PipelineError::SizeTooLarge)
    } else {
        match size_log_2 {
            None => if is_pow2((n + 1) as nat) {
                Ok((n + 1) as usize)
            } else {
                Err(PipelineError::SizeNotPowerOfTwo)
            },
            Some(s) => if pow2(s as nat) == n + 1 {
                Ok((n + 1) as usize)
            } else {
                Err(PipelineError::SizeMismatch)
            },
        }
    }
}

/// The padded size of a circuit with `gates` gates and `table_entries`
/// lookup table entries: a count whose successor is a power of two and that
/// holds both. With no explicit size the
/// least such count is taken; with `size_log_2` the count plus one is
/// `2^size_log_2`, which must leave room for the circuit.
pub fn padded_gate_count(gates: usize, table_entries: usize, size_log_2: Option<usize>) -> (r:
    Result<usize, PipelineError>)
    ensures
        r == padding(gates, table_entries, size_log_2),
{
    let natural: usize = if gates >= table_entries {
        gates
    } else {
        table_entries
    };
    match size_log_2 {
        None => {
            if natural == usize::MAX {
                proof {
                    lemma_next_pow2_bounds((natural + 1) as nat);
                }
                return Err(PipelineError::SizeTooLarge);
            }
            proof {
                lemma_next_pow2_bounds((natural + 1) as nat);
            }
            match next_power_of_two(natural + 1) {
                Some(p) => Ok(p - 1),
                None => Err(PipelineError::SizeTooLarge),
            }
        },
        Some(s) => {
            match pow2_checked(s) {
                None => Err(PipelineError::SizeTooLarge),
                Some(p) => {
                    if natural >= p {
                        Err(PipelineError::SizeMismatch)
                    } else {
                        Ok(p - 1)
                    }
                },
            }
        },
    }
}

/// The size of the trusted-setup basis for a setup of `n` gates: `n + 1`,
/// which must be a power of two, and must be `2^size_log_2` where the setup
/// was padded to an explicit size.
pub fn trusted_setup_size(n: usize, size_log_2: Option<usize>) -> (r: Result<usize, PipelineError>)
    ensures
        r == setup_size(n, size_log_2),
{
    if n == usize::MAX {
        return Err(PipelineError::SizeTooLarge);
    }
    let size = n + 1;
    match size_log_2 {
        None => {
            if is_power_of_two(size) {
                Ok(size)
            } else {
                Err(PipelineError::SizeNotPowerOfTwo)
            }
        },
        Some(s) => {
            match pow2_checked(s) {
                Some(p) => {
                    if p == size {
                        Ok(size)
                    } else {
                        Err(PipelineError::SizeMismatch)
                    }
                },
                None => Err(PipelineError::SizeMismatch),
            }
        },
    }
}

} // verus!

verus! {

/// Padding to an explicit `2^size_log_2` that the circuit does not fit
/// fails with `SizeMismatch`; padding with no explicit size, where it
/// succeeds, gives a count `n` with `n + 1` a power of two and `n` at least
/// the circuit's gates and table entries.
pub proof fn lemma_padding_policy(gates: usize, table_entries: usize, size_log_2: Option<usize>)
    ensures
        size_log_2 matches Some(s) ==> (pow2(s as nat) <= usize::MAX && natural_size(
            gates,
            table_entries,
        ) + 1 > pow2(s as nat) ==> padding(gates, table_entries, size_log_2) == Err::<
            usize,
            PipelineError,
        >(PipelineError::SizeMismatch)),
        size_log_2 is None ==> (padding(gates, table_entries, size_log_2) matches Ok(n) ==> is_pow2(
            (n + 1) as nat,
        ) && gates <= n && table_entries <= n),
{
    lemma_next_pow2_bounds((natural_size(gates, table_entries) + 1) as nat);
}

/// A gate count produced by padding is accepted as the size of a setup under
/// the same policy, and the trusted setup is then one element longer.
pub proof fn lemma_padding_fits_setup_size(
    gates: usize,
    table_entries: usize,
    size_log_2: Option<usize>,
)
    ensures
        padding(gates, table_entries, size_log_2) matches Ok(n) ==> setup_size(n, size_log_2)
            == Ok::<usize, PipelineError>((n + 1) as usize),
{
    lemma_next_pow2_bounds((natural_size(gates, table_entries) + 1) as nat);
}

} // verus!
