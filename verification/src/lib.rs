//! The navigation core of a terminal viewer for a remote key-value database:
//! a stack of screens with push/pop control flow, scrollable list, table and
//! text viewports with wrap-aware page arithmetic, and an incremental
//! substring filter over the rows on show. Every state transition is stated
//! in a contract and machine-checked; the terminal, the remote client and the
//! rendering live outside, handing plain values in and taking plain values
//! out.

pub mod app;
pub mod config;
pub mod data;
pub mod error;
pub mod event;
pub mod filter;
pub mod scroll_lines;
pub mod scroll_list;
pub mod table_state;
pub mod view_stack;
pub mod views;

use vstd::prelude::*;

verus! {

/// Number of decimal digits needed to print `n`; zero still takes one digit.
pub open spec fn spec_digits(n: nat) -> nat
    decreases n,
{
    if n < 10 {
        1
    } else {
        1 + spec_digits(n / 10)
    }
}

proof fn lemma_digits_le(n: nat)
    requires
        n >= 1,
    ensures
        spec_digits(n) <= n,
    decreases n,
{
    if n >= 10 {
        lemma_digits_le(n / 10);
    }
}

/// Width of the line-number gutter for a content of `n` lines.
pub fn digits(n: usize) -> (r: usize)
    ensures
        r == spec_digits(n as nat),
{
    if n == 0 {
        return 1;
    }
    proof {
        lemma_digits_le(n as nat);
    }
    let ghost orig: nat = n as nat;
    let mut m: usize = n;
    let mut c: usize = 0;
    while m > 0
        invariant
            spec_digits(orig) <= orig,
            orig <= usize::MAX,
            m > 0 ==> c + spec_digits(m as nat) == spec_digits(orig),
            m == 0 ==> c == spec_digits(orig),
        decreases m,
    {
        m = m / 10;
        c = c + 1;
    }
    c
}

} // verus!
