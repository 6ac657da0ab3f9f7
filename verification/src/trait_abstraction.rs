//! The nested shape of capability indirection: trait bounds on a structure
//! are infectious — they must be repeated on every use of the structure —
//! yet they are hard to avoid when composing larger structures whose parts
//! should be replaceable by test versions.
//!
//! To stop the bounds from spreading, a "handle" trait encapsulates all of
//! the required contracts behind a single accessor that borrows the concrete
//! structure. Compared with one getter per capability, this keeps the
//! interface small as slots grow, at the price of coarser bounds per
//! function.

use vstd::prelude::*;

verus! {

/// The first contract required by the structure.
pub trait TraitOne {

}

/// The second contract. It also demands default-constructibility of its
/// implementers, so a slot bound by it can be filled without a caller
/// supplying a value.
pub trait TraitTwo: Default {

}

/// The production implementation of `TraitOne`.
pub struct FooOne;

/// The production implementation of `TraitTwo`, and the documented default
/// for the second slot.
pub struct FooTwo;

impl TraitOne for FooOne {

}

impl Default for FooTwo {
    fn default() -> (r: Self)
        ensures
            r == FooTwo,
    {
        FooTwo
    }
}

impl TraitTwo for FooTwo {

}

/// An alternate implementation of `TraitOne` (for example, a test version).
pub struct BarOne;

/// An alternate implementation of `TraitTwo` (for example, a test version).
pub struct BarTwo;

impl TraitOne for BarOne {

}

impl Default for BarTwo {
    fn default() -> (r: Self)
        ensures
            r == BarTwo,
    {
        BarTwo
    }
}

impl TraitTwo for BarTwo {

}

/// The composite value: one slot per required capability, each generic over
/// its contract alone. The second slot defaults to `FooTwo` when a caller
/// does not pick an implementation. The slots are never reassigned after
/// construction.
pub struct MyStruct<One, Two = FooTwo> where One: TraitOne, Two: TraitTwo {
    one: One,
    two: Two,
}

impl<One: TraitOne, Two: TraitTwo> MyStruct<One, Two> {
    /// The implementation held in the first slot.
    pub closed spec fn one_val(&self) -> One {
        self.one
    }

    /// The implementation held in the second slot.
    pub closed spec fn two_val(&self) -> Two {
        self.two
    }

    /// The fully general constructor: every slot is supplied explicitly.
    pub fn with_two(one: One, two: Two) -> (r: Self)
        ensures
            r.one_val() == one,
            r.two_val() == two,
    {
        MyStruct { one, two }
    }
}

impl<One: TraitOne> MyStruct<One, FooTwo> {
    /// The convenience constructor: the second slot is fixed to the default
    /// implementation, and only the first must be supplied.
    pub fn new(one: One) -> (r: Self)
        ensures
            r.one_val() == one,
            r.two_val() == FooTwo,
    {
        MyStruct { one, two: FooTwo::default() }
    }
}

/// The handle trait. It provides a handle to the concrete structure: the
/// associated types repeat the structure's bounds once, here, and every
/// user of the handle stays unchanged when those bounds change.
pub trait MyStructHandle {
    type OneImpl: TraitOne;

    type TwoImpl: TraitTwo;

    /// The structure this handle reaches.
    spec fn my_struct(&self) -> MyStruct<Self::OneImpl, Self::TwoImpl>;

    /// Borrows the concrete structure using whichever implementations it
    /// happens to contain.
    fn get(&self) -> (r: &MyStruct<Self::OneImpl, Self::TwoImpl>)
        ensures
            *r == self.my_struct(),
    ;
}

impl<One: TraitOne, Two: TraitTwo> MyStructHandle for MyStruct<One, Two> {
    type OneImpl = One;

    type TwoImpl = Two;

    closed spec fn my_struct(&self) -> MyStruct<One, Two> {
        *self
    }

    fn get(&self) -> (r: &MyStruct<One, Two>) {
        self
    }
}

/// Using `MyStruct` as-is forces these bounds onto every call site and onto
/// every structure containing a `MyStruct`; adding a capability would change
/// this signature and likely all of its callers, even though the body would
/// not change.
#[allow(unused_variables)]
pub fn use_my_struct<One, Two>(my_struct: MyStruct<One, Two>) where
    One: TraitOne,
    Two: TraitTwo,
{
}

/// The handle bound replaces the structure's own bounds. Narrowing through
/// `get` recovers the structure with whatever implementations it contains —
/// the one ensured here is exactly the handle's — and the borrow can be
/// passed straight on to another handle-bound function, since the structure
/// is itself a handle.
pub fn use_my_struct_with_handle<M>(handle: &M) where M: MyStructHandle {
    let my_struct = handle.get();
    use_my_struct_with_handle_again(my_struct);
}

/// A second handle-bound layer, reached from the first without re-deriving
/// any narrow bound.
#[allow(unused_variables)]
pub fn use_my_struct_with_handle_again<M>(handle: &M) where M: MyStructHandle {
    let my_struct = handle.get();
}

/// Handle-to-structure narrowing: whatever a handle's `get` may return is
/// the composite the handle stands for, so both construction paths — the
/// defaulted and the fully general one — are observationally identical
/// through the handle once they hold equal slots.
pub proof fn lemma_handle_narrowing<One: TraitOne, Two: TraitTwo>(
    defaulted: MyStruct<One, Two>,
    explicit: MyStruct<One, Two>,
)
    requires
        defaulted.one_val() == explicit.one_val(),
        defaulted.two_val() == explicit.two_val(),
    ensures
        defaulted.my_struct() == explicit.my_struct(),
{
}

} // verus!
