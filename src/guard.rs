//! The one-shot gate that hands out the board's peripherals at most once
//! per process.
use vstd::prelude::*;

verus! {

/// The peripherals were handed out before.
#[derive(Clone, Copy, Debug, PartialEq, Eq, Structural)]
pub struct AlreadyTaken;

/// Exclusive right to the board's peripherals. It cannot be cloned or built
/// outside this module: the only way to get one is a successful
/// `PeripheralGuard::take`.
#[derive(Debug)]
pub struct Claim {
    private: (),
}

/// Remembers whether the peripherals were handed out.
pub struct PeripheralGuard {
    taken: bool,
}

impl PeripheralGuard {
    /// Whether a claim was handed out.
    pub closed spec fn is_taken(&self) -> bool {
        self.taken
    }

    /// Whether the next `take` succeeds.
    pub open spec fn take_succeeds(&self) -> bool {
        !self.is_taken()
    }

    /// The state after a `take`, whatever it returned.
    pub closed spec fn after_take(self) -> PeripheralGuard {
        PeripheralGuard { taken: true }
    }

    /// Number of claims that `n` successive takes from this state hand out.
    pub open spec fn claims_in(self, n: nat) -> nat
        decreases n,
    {
        if n == 0 {
            0
        } else {
            (if self.take_succeeds() {
                1nat
            } else {
                0nat
            }) + self.after_take().claims_in((n - 1) as nat)
        }
    }

    /// A gate that has handed out nothing yet.
    pub fn new() -> (r: PeripheralGuard)
        ensures
            !r.is_taken(),
    {
        PeripheralGuard { taken: false }
    }

    /// Hands out the claim the first time; fails with `AlreadyTaken` on every
    /// later call.
    pub fn take(&mut self) -> (r: Result<Claim, AlreadyTaken>)
        ensures
            r is Ok <==> old(self).take_succeeds(),
            *final(self) == old(self).after_take(),
            final(self).is_taken(),
    {
        if self.taken {
            Err(AlreadyTaken)
        } else {
            self.taken = true;
            Ok(Claim { private: () })
        }
    }

    /// Whether a claim was handed out.
    pub fn taken(&self) -> (r: bool)
        ensures
            r == self.is_taken(),
    {
        self.taken
    }
}

/// After a first `take`, whatever it returned, every later `take` fails; so
/// any number of takes hands out at most one claim, and exactly one when the
/// gate was fresh.
pub proof fn lemma_single_claim(g: PeripheralGuard, n: nat)
    ensures
        !g.after_take().take_succeeds(),
        g.claims_in(n) <= 1,
        n > 0 ==> (g.claims_in(n) == 1 <==> g.take_succeeds()),
    decreases n,
{
    if n > 0 {
        lemma_after_take_gives_nothing(g.after_take(), (n - 1) as nat);
    }
}

proof fn lemma_after_take_gives_nothing(g: PeripheralGuard, n: nat)
    requires
        g.is_taken(),
    ensures
        g.claims_in(n) == 0,
    decreases n,
{
    if n > 0 {
        lemma_after_take_gives_nothing(g.after_take(), (n - 1) as nat);
    }
}

} // verus!
