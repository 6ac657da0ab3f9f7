//! The flat shape of capability indirection: a dependency container that
//! aggregates one implementation per capability slot and hands each one out
//! through its own accessor.
//!
//! Benefits:
//! - All dependencies are assembled in one place, so they are easy to manage.
//! - Only one extra trait is needed, the accessor trait for the container.
//! - Dependent structures only need trait bounds on methods, so adding a
//!   capability to the container never touches consumers that ignore it.
//! - Only the required dependencies need to be replaced for a test.
//!
//! Drawbacks:
//! - The container must be behind a shared pointer to be shared across a
//!   larger application, which may cost an indirection.
//! - The container itself can be used as a trait bound, which obscures what a
//!   function actually requires; prefer the narrow contract bound wherever a
//!   function needs exactly one capability.

use std::sync::Arc;
use vstd::prelude::*;

verus! {

/// A capability contract. Each implementation announces the observable
/// message its operation produces, and `foo` is bound to return exactly that
/// message, so a consumer's result is fixed by the contract alone.
pub trait Foo {
    /// The message this implementation's `foo` produces.
    spec fn foo_effect(&self) -> Seq<char>;

    fn foo(&self) -> (r: String)
        ensures
            r@ == self.foo_effect(),
    ;
}

/// A second, independent capability contract of the same shape as `Foo`.
pub trait Bar {
    /// The message this implementation's `bar` produces.
    spec fn bar_effect(&self) -> Seq<char>;

    fn bar(&self) -> (r: String)
        ensures
            r@ == self.bar_effect(),
    ;
}

/// The production implementation of `Foo`.
pub struct FooImplA;

/// An alternate implementation of `Foo` (for example, a test version).
pub struct FooImplB;

impl Foo for FooImplA {
    open spec fn foo_effect(&self) -> Seq<char> {
        "foo A"@
    }

    fn foo(&self) -> (r: String) {
        String::from_str("foo A")
    }
}

impl Foo for FooImplB {
    open spec fn foo_effect(&self) -> Seq<char> {
        "foo B"@
    }

    fn foo(&self) -> (r: String) {
        String::from_str("foo B")
    }
}

/// The production implementation of `Bar`.
pub struct BarImplA;

/// An alternate implementation of `Bar` (for example, a test version).
pub struct BarImplB;

impl Bar for BarImplA {
    open spec fn bar_effect(&self) -> Seq<char> {
        "bar A"@
    }

    fn bar(&self) -> (r: String) {
        String::from_str("bar A")
    }
}

impl Bar for BarImplB {
    open spec fn bar_effect(&self) -> Seq<char> {
        "bar B"@
    }

    fn bar(&self) -> (r: String) {
        String::from_str("bar B")
    }
}

/// The accessor trait for the container. The name is intentionally short
/// because it is likely to appear as a trait bound across a code base.
///
/// Each required capability is listed as an associated type, with a getter
/// and a spec-level view of the stored implementation, so a caller can reason
/// about what a getter returns without naming the concrete type.
pub trait Deps {
    type FooImpl: Foo;

    type BarImpl: Bar;

    /// The `Foo` implementation this aggregate holds.
    spec fn foo_dep(&self) -> Self::FooImpl;

    /// The `Bar` implementation this aggregate holds.
    spec fn bar_dep(&self) -> Self::BarImpl;

    fn foo(&self) -> (r: &Self::FooImpl)
        ensures
            *r == self.foo_dep(),
    ;

    fn bar(&self) -> (r: &Self::BarImpl)
        ensures
            *r == self.bar_dep(),
    ;
}

/// The container for all of the dependencies. Each slot is generic over its
/// contract, never over a fixed concrete type, and is held under shared
/// ownership so the whole aggregate can be duplicated cheaply and handed to
/// many consumers. The slots are never reassigned after construction; any
/// internal mutation belongs to the implementations themselves.
pub struct DependencyContainer<F, B> where F: Foo, B: Bar {
    foo: Arc<F>,
    bar: Arc<B>,
}

/// Relies on std::sync::Arc::clone: the duplicate points at the same
/// allocation as the original, so it carries the same value.
#[verifier::external_body]
fn arc_share<T>(a: &Arc<T>) -> (r: Arc<T>)
    ensures
        r == *a,
{
    Arc::clone(a)
}

impl<F: Foo, B: Bar> DependencyContainer<F, B> {
    /// Assembles the container. Every slot must be supplied; there is no
    /// partial construction.
    pub fn new(foo: F, bar: B) -> (r: Self)
        ensures
            r.foo_dep() == foo,
            r.bar_dep() == bar,
    {
        DependencyContainer { foo: Arc::new(foo), bar: Arc::new(bar) }
    }
}

impl<F: Foo, B: Bar> Deps for DependencyContainer<F, B> {
    type FooImpl = F;

    type BarImpl = B;

    closed spec fn foo_dep(&self) -> F {
        *self.foo
    }

    closed spec fn bar_dep(&self) -> B {
        *self.bar
    }

    fn foo(&self) -> (r: &F) {
        &self.foo
    }

    fn bar(&self) -> (r: &B) {
        &self.bar
    }
}

impl<F: Foo, B: Bar> Clone for DependencyContainer<F, B> {
    /// Duplication is a shallow, reference-counted copy: the duplicate is a
    /// second handle to the very implementation instances the original was
    /// assembled from, not a set of new instances.
    fn clone(&self) -> (res: Self)
        ensures
            res == *self,
    {
        DependencyContainer { foo: arc_share(&self.foo), bar: arc_share(&self.bar) }
    }
}

/// A structure that needs capabilities. The contract bounds are not placed
/// on the structure itself, because they would be propagated to every user;
/// they are placed on the methods that actually require a capability.
pub struct MyStruct;

impl Default for MyStruct {
    fn default() -> (r: Self)
        ensures
            r == MyStruct,
    {
        MyStruct
    }
}

impl MyStruct {
    /// The narrow consumer of `Foo`. The bound is as specific as possible:
    /// it names one contract, not the whole `Deps` container, so a test only
    /// has to provide a `Foo` to exercise it. The result is exactly the
    /// supplied implementation's observable message.
    pub fn do_foo<F: Foo>(&self, foo: &F) -> (r: String)
        ensures
            r@ == foo.foo_effect(),
    {
        foo.foo()
    }

    /// The narrow consumer of `Bar`, shaped like `do_foo`.
    pub fn do_bar<B: Bar>(&self, bar: &B) -> (r: String)
        ensures
            r@ == bar.bar_effect(),
    {
        bar.bar()
    }
}

/// A consumer bound on the whole accessor trait, for call chains where the
/// aggregate is passed through several layers. It narrows the aggregate back
/// down through a getter and invokes the narrow consumer with the recovered
/// capability: the result is the message of the `Foo` slot the aggregate was
/// assembled with.
pub fn use_my_struct_with_deps<D: Deps>(my_struct: &MyStruct, deps: &D) -> (r: String)
    ensures
        r@ == deps.foo_dep().foo_effect(),
{
    my_struct.do_foo(deps.foo())
}

/// A consumer bound directly on one contract. This cannot be widened back to
/// a `Deps`, so it suits the very end of a chain of calls.
pub fn use_my_struct_with_foo<F: Foo>(my_struct: &MyStruct, foo: &F) -> (r: String)
    ensures
        r@ == foo.foo_effect(),
{
    my_struct.do_foo(foo)
}

/// Substitutability: a consumer's result is fixed by the contract-level
/// effect alone. Whenever two `Foo` implementations announce the same
/// effect, every value that `do_foo` may return for one is exactly the value
/// it may return for the other, so swapping them at assembly time cannot
/// change what any consumer observes.
pub proof fn lemma_substitutable_foo<F1: Foo, F2: Foo>(f1: F1, f2: F2, r1: Seq<char>, r2: Seq<char>)
    requires
        f1.foo_effect() == f2.foo_effect(),
        r1 == f1.foo_effect(),
        r2 == f2.foo_effect(),
    ensures
        r1 == r2,
{
}

/// Substitutability for the second contract, shaped like the first: equal
/// contract-level effects admit exactly the same consumer results.
pub proof fn lemma_substitutable_bar<B1: Bar, B2: Bar>(b1: B1, b2: B2, r1: Seq<char>, r2: Seq<char>)
    requires
        b1.bar_effect() == b2.bar_effect(),
        r1 == b1.bar_effect(),
        r2 == b2.bar_effect(),
    ensures
        r1 == r2,
{
}

/// Sharing fidelity: a duplicate of the container reaches the very
/// implementation values the original was assembled from, so reading the
/// same accessor on both copies yields implementations with identical
/// observable effects. The premise is exactly what `clone` ensures.
pub proof fn lemma_sharing_fidelity<F: Foo, B: Bar>(
    original: DependencyContainer<F, B>,
    duplicate: DependencyContainer<F, B>,
)
    requires
        duplicate == original,
    ensures
        duplicate.foo_dep() == original.foo_dep(),
        duplicate.bar_dep() == original.bar_dep(),
        duplicate.foo_dep().foo_effect() == original.foo_dep().foo_effect(),
        duplicate.bar_dep().bar_effect() == original.bar_dep().bar_effect(),
{
}

} // verus!
