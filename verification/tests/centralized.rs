use capability_handles::centralized_dependencies::Bar;
use capability_handles::centralized_dependencies::BarImplA;
use capability_handles::centralized_dependencies::BarImplB;
use capability_handles::centralized_dependencies::DependencyContainer;
use capability_handles::centralized_dependencies::Deps;
use capability_handles::centralized_dependencies::Foo;
use capability_handles::centralized_dependencies::FooImplA;
use capability_handles::centralized_dependencies::FooImplB;
use capability_handles::centralized_dependencies::MyStruct;
use capability_handles::centralized_dependencies::use_my_struct_with_deps;
use capability_handles::centralized_dependencies::use_my_struct_with_foo;

#[test]
fn centralized_dependencies_example() {
    let deps = DependencyContainer::new(FooImplA, BarImplB);

    let my_struct = MyStruct::default();
    use_my_struct_with_deps(&my_struct, &deps);
    use_my_struct_with_foo(&my_struct, deps.foo());
}

#[test]
fn production_foo_and_alternate_bar_keep_their_own_effects() {
    // Assemble with the production `Foo` and the alternate `Bar`.
    let deps = DependencyContainer::new(FooImplA, BarImplB);
    let my_struct = MyStruct::default();

    // The narrow `Foo` consumer observes the production effect.
    assert_eq!(my_struct.do_foo(deps.foo()), "foo A");
    // The narrow `Bar` consumer observes the alternate effect.
    assert_eq!(my_struct.do_bar(deps.bar()), "bar B");
}

#[test]
fn substituting_implementations_keeps_every_call_site() {
    // The very same consumer call sites, fed from the swapped assembly.
    let deps = DependencyContainer::new(FooImplB, BarImplA);
    let my_struct = MyStruct::default();

    assert_eq!(my_struct.do_foo(deps.foo()), "foo B");
    assert_eq!(my_struct.do_bar(deps.bar()), "bar A");
    assert_eq!(use_my_struct_with_deps(&my_struct, &deps), "foo B");
    assert_eq!(use_my_struct_with_foo(&my_struct, deps.foo()), "foo B");
}

#[test]
fn duplicating_the_container_preserves_behavior() {
    let deps = DependencyContainer::new(FooImplA, BarImplB);
    let duplicate = deps.clone();
    let my_struct = MyStruct::default();

    // Both copies behave exactly like the originally supplied instances.
    assert_eq!(FooImplA.foo(), "foo A");
    assert_eq!(my_struct.do_foo(deps.foo()), "foo A");
    assert_eq!(my_struct.do_foo(duplicate.foo()), "foo A");
    assert_eq!(BarImplB.bar(), "bar B");
    assert_eq!(my_struct.do_bar(deps.bar()), "bar B");
    assert_eq!(my_struct.do_bar(duplicate.bar()), "bar B");
}

#[test]
fn foo_consumer_ignores_the_other_slots() {
    // The same `Foo`-bound consumer, fed through containers whose other
    // slot differs in type: its result never depends on that slot.
    let with_bar_a = DependencyContainer::new(FooImplA, BarImplA);
    let with_bar_b = DependencyContainer::new(FooImplA, BarImplB);
    let my_struct = MyStruct::default();

    assert_eq!(use_my_struct_with_foo(&my_struct, with_bar_a.foo()), "foo A");
    assert_eq!(use_my_struct_with_foo(&my_struct, with_bar_b.foo()), "foo A");
}
