//! The smallest case of capability indirection: a single behavior contract
//! standing in for one external check, so a test double can replace the real
//! call without the consumer noticing.
//!
//! The real check (a long-running external call) lives outside this library;
//! here the consumer only sees the `LifeService` contract, and its result is
//! pinned to the outcome the supplied service reports.

use vstd::prelude::*;

verus! {

/// The behavior contract for the check. An implementation announces, per
/// input, the outcome its `check` reports, and `check` is bound to return
/// exactly that outcome — whether the implementation wraps the real external
/// call or is a test double with a fixed answer.
pub trait LifeService {
    /// The outcome this service reports for `n`.
    spec fn outcome(&self, n: i32) -> bool;

    fn check(&self, n: i32) -> (r: bool)
        ensures
            r == self.outcome(n),
    ;
}

/// The message the consumer maps a check outcome to.
pub open spec fn life_message(success: bool) -> Seq<char> {
    if success {
        "yay!"@
    } else {
        ":frown:"@
    }
}

/// Maps a check outcome to the user-visible message. Code that obtains an
/// outcome outside any service contract — say, straight from the external
/// call — can still reach the same mapping through here.
pub fn meaning_message(success: bool) -> (r: String)
    ensures
        r@ == life_message(success),
{
    if success {
        String::from_str("yay!")
    } else {
        String::from_str(":frown:")
    }
}

/// The entry point for the check. It never names a concrete service, only
/// the contract, and its result is the message for whatever outcome the
/// supplied service reports on `n`.
pub fn run_meaning_of_life<L>(life: L, n: i32) -> (r: String) where L: LifeService
    ensures
        r@ == life_message(life.outcome(n)),
{
    meaning_message(life.check(n))
}

/// A test double for `LifeService` with a fixed answer. It ignores its input
/// entirely, so a consumer fed this double reflects the double's answer, and
/// never the real check's.
pub struct StubLife {
    meaning: bool,
}

impl StubLife {
    /// The fixed answer this double gives.
    pub closed spec fn meaning_val(&self) -> bool {
        self.meaning
    }

    /// Fixes the double to report success.
    pub fn always_correct(self) -> (r: Self)
        ensures
            r.meaning_val(),
    {
        StubLife { meaning: true }
    }

    /// Fixes the double to report failure.
    pub fn always_wrong(self) -> (r: Self)
        ensures
            !r.meaning_val(),
    {
        StubLife { meaning: false }
    }
}

impl Default for StubLife {
    fn default() -> (r: Self)
        ensures
            !r.meaning_val(),
    {
        StubLife { meaning: false }
    }
}

impl LifeService for StubLife {
    closed spec fn outcome(&self, n: i32) -> bool {
        self.meaning
    }

    #[allow(unused_variables)]
    fn check(&self, n: i32) -> (r: bool) {
        self.meaning
    }
}

/// Substitutability: the consumer's result is fixed by the contract-level
/// outcome alone. Two services that report the same outcome on an input — a
/// real one and a double, say — lead every consumer to the same message.
pub proof fn lemma_substitutable_service<L1: LifeService, L2: LifeService>(
    l1: L1,
    l2: L2,
    n: i32,
)
    requires
        l1.outcome(n) == l2.outcome(n),
    ensures
        life_message(l1.outcome(n)) == life_message(l2.outcome(n)),
{
}

} // verus!
