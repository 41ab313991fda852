//! Running the tests that a test file asks for.
//!
//! A test file holds functions in their textual form, and commands that
//! name the tests to run on every one of them. Reading the file and running
//! a test are not part of this crate. What is here is the plan: in which
//! order the tests run, for which targets, with which settings, when the
//! verifier runs first, and what is reported when there is nothing to do.

pub mod runone;
pub mod subtest;
