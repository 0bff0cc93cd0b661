//! Building an operation from the arguments that follow its keyword.

use vstd::prelude::*;

verus! {

/// Whether `r` is the outcome `model`: the same error, or a value whose
/// view `model` holds.
pub open spec fn built_as<T: View, E>(r: Result<T, E>, model: Result<T::V, E>) -> bool {
    match r {
        Ok(op) => model == Ok::<T::V, E>(op@),
        Err(e) => model == Err::<T::V, E>(e),
    }
}

/// An operation that is built from the arguments that follow its keyword.
pub trait FromArgumentBuilder: Sized + View {
    type Err;

    /// What the arguments `args` build: the view of the operation, or the
    /// error.
    spec fn built_from(args: Seq<Seq<char>>) -> Result<Self::V, Self::Err>;

    /// The number of arguments that the operation takes.
    spec fn arity() -> nat;

    /// Builds the operation from `args`. Arguments beyond those that the
    /// operation reads are ignored.
    fn init_from_arg(args: Vec<String>) -> (r: Result<Self, Self::Err>)
        ensures
            built_as(r, Self::built_from(args.deep_view())),
    ;

    /// The number of arguments that the operation takes.
    fn expected_arguments_count() -> (n: usize)
        ensures
            n == Self::arity(),
    ;
}

} // verus!
