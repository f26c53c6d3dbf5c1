//! A bunch of general helpers for building things: the builder
//! abstraction and its error type.

use vstd::prelude::*;

verus! {

/// Anything using the Builder trait should be a builder object used to
/// build another object of type product.
pub trait Builder: Sized {
    /// The type you would like to build an instance of.
    #[allow(non_camel_case_types)]
    type product;

    /// What a fresh builder looks like: the state `new` leaves it in.
    spec fn spec_is_new(self) -> bool;

    /// Whether a build attempt from this builder succeeds.
    spec fn spec_build_ok(self) -> bool;

    /// The object a successful build attempt produces.
    spec fn spec_built(self) -> Self::product;

    /// Creates an instance of the builder.
    fn new() -> (r: Self)
        ensures
            r.spec_is_new(),
    ;

    /// Builds an object of type product from the builder.
    ///
    /// Mostly errors from a value not being set that has no proper
    /// default.
    fn build(self) -> (r: Result<Self::product, BuilderError>)
        ensures
            r is Ok <==> self.spec_build_ok(),
            r is Ok ==> r->Ok_0 == self.spec_built(),
    ;
}

/// BuilderError is an error for the Builder trait when a build attempt
/// fails.
#[derive(Debug)]
pub struct BuilderError {
    /// What went wrong, for a human reader.
    pub error_message: &'static str,
}

impl BuilderError {
    /// Returns an instance of BuilderError.
    pub fn new(error_message: &'static str) -> (r: BuilderError)
        ensures
            r.error_message == error_message,
    {
        BuilderError { error_message }
    }

    /// The message describing the failed build attempt.
    pub fn message(&self) -> (r: &'static str)
        ensures
            r == self.error_message,
    {
        self.error_message
    }
}

} // verus!
