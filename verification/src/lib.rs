//! A capability-indirection layer: consumers depend on narrow behavior
//! contracts, never on the concrete types that provide them.
//!
//! Two shapes of the same idea are provided. `centralized_dependencies`
//! aggregates independent capabilities behind one accessor trait with a
//! getter per slot (the flat shape). `trait_abstraction` aggregates them
//! behind a single accessor that borrows the whole composite value (the
//! nested shape). `function_as_service` shows the smallest case: one
//! behavior contract standing in for an external check, so a test double
//! can replace the real call without touching the consumer.

pub mod centralized_dependencies;
pub mod function_as_service;
pub mod trait_abstraction;
