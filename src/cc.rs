//! Calling-convention tags and the dispatch contract that ties a piece of
//! code to the argument list it is called with.
//!
//! Code that crosses a foreign boundary is always called with its arguments
//! first and its context last. [`AsExtern`] states what such code accepts and
//! what it yields for a packed argument tuple and a context; [`IntoExtern`]
//! does the same for a native closure that takes the arguments alone. The
//! [`Trampoline`] bridges the two: it treats its context as a captured native
//! closure and forwards the arguments to it. A [`Destructor`] consumes a
//! context once its owner is done with it; [`Release`] is the one made for
//! captured closures, and frees the captured state.
use vstd::prelude::*;

verus! {

/// Restricts [`CallingConvention`] to the conventions this crate defines.
pub trait Sealed {}

/// A calling convention, chosen at compile time as a type.
///
/// A convention never changes how a call is dispatched at run time; it only
/// keeps closures of different conventions apart in the type system.
pub trait CallingConvention: Sealed {}

/// The "C" calling convention.
#[derive(Debug, Clone, Copy, PartialEq, Eq, PartialOrd, Ord, Hash, Default)]
pub struct C;

/// The "Rust" calling convention.
#[derive(Debug, Clone, Copy, PartialEq, Eq, PartialOrd, Ord, Hash, Default)]
pub struct Rust;

/// The "system" calling convention.
#[derive(Debug, Clone, Copy, PartialEq, Eq, PartialOrd, Ord, Hash, Default)]
pub struct System;

/// The "cdecl" calling convention.
#[derive(Debug, Clone, Copy, PartialEq, Eq, PartialOrd, Ord, Hash, Default)]
pub struct Cdecl;

impl Sealed for C {}

impl Sealed for Rust {}

impl Sealed for System {}

impl Sealed for Cdecl {}

impl CallingConvention for C {}

impl CallingConvention for Rust {}

impl CallingConvention for System {}

impl CallingConvention for Cdecl {}

/// Code called with the packed arguments `Args` followed by a context of
/// type `U`, returning `O`.
///
/// Every arity from none to fourteen arguments is covered for closures and
/// functions of the shape `Fn(A, B, .., &U) -> O`: the arguments are handed
/// on left to right and the context comes last.
pub trait AsExtern<Args, U, O>: Sized {
    /// Whether the code may be called with these arguments and context.
    spec fn accepts(&self, args: Args, user_data: U) -> bool;

    /// Whether `out` is a result that such a call may return.
    spec fn yields(&self, args: Args, user_data: U, out: O) -> bool;

    /// Calls the code with the arguments and then the context.
    fn invoke(&self, args: Args, user_data: &U) -> (r: O)
        requires
            self.accepts(args, *user_data),
        ensures
            self.yields(args, *user_data, r),
    ;
}

/// A native closure called with the packed arguments `Args`, returning `O`.
///
/// Covered for closures of the shape `Fn(A, B, ..) -> O` with up to fourteen
/// arguments; these are the closures that [`crate::Closure::new`] captures.
pub trait IntoExtern<Args, O>: Sized {
    /// Whether the closure may be called with these arguments.
    spec fn accepts(&self, args: Args) -> bool;

    /// Whether `out` is a result that such a call may return.
    spec fn yields(&self, args: Args, out: O) -> bool;

    /// Calls the closure with the arguments unpacked, left to right.
    fn call_packed(&self, args: Args) -> (r: O)
        requires
            self.accepts(args),
        ensures
            self.yields(args, r),
    ;
}

/// The code of a captured closure: it reads its context as the captured
/// native closure and calls it.
#[derive(Debug, Clone, Copy, PartialEq, Eq, Hash, Default)]
pub struct Trampoline;

impl<Args, O, G: IntoExtern<Args, O>> AsExtern<Args, G, O> for Trampoline {
    open spec fn accepts(&self, args: Args, user_data: G) -> bool {
        user_data.accepts(args)
    }

    open spec fn yields(&self, args: Args, user_data: G, out: O) -> bool {
        user_data.yields(args, out)
    }

    fn invoke(&self, args: Args, user_data: &G) -> (r: O) {
        user_data.call_packed(args)
    }
}

/// Disposes of a context of type `U` once its owner is done with it.
pub trait Destructor<U>: Sized {
    /// Whether this destructor may be run on the context.
    spec fn accepts(&self, user_data: U) -> bool;

    /// What holds once this destructor has run on the context.
    spec fn released(&self, user_data: U) -> bool;

    /// Runs the destructor, consuming the context.
    fn release(self, user_data: U)
        requires
            self.accepts(user_data),
        ensures
            self.released(user_data),
    ;
}

impl<U, D: FnOnce(U)> Destructor<U> for D {
    open spec fn accepts(&self, user_data: U) -> bool {
        self.requires((user_data,))
    }

    open spec fn released(&self, user_data: U) -> bool {
        self.ensures((user_data,), ())
    }

    fn release(self, user_data: U) {
        (self)(user_data)
    }
}

/// The destructor of a captured closure: it takes the captured state and
/// frees it.
#[derive(Debug, Clone, Copy, PartialEq, Eq, Hash, Default)]
pub struct Release;

impl<U> Destructor<U> for Release {
    open spec fn accepts(&self, user_data: U) -> bool {
        true
    }

    open spec fn released(&self, user_data: U) -> bool {
        true
    }

    fn release(self, user_data: U) {
    }
}

} // verus!
