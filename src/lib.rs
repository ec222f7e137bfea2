//! Closures that cross a foreign-function boundary as a piece of code, an
//! opaque context and an optional destructor for that context.
//!
//! A [`Closure`] is built either by capturing a native closure
//! ([`Closure::new`]), which makes the closure its own context and pairs it
//! with a [`cc::Trampoline`] and a [`cc::Release`], or by adopting code, a
//! context and a destructor as they are ([`Closure::from_extern`]). It is
//! called any number of times, always with its arguments first and its
//! context last, and its destructor runs at most once: when the value is
//! destroyed or goes out of scope.
use core::marker::PhantomData;
use vstd::prelude::*;

pub mod arity;
pub mod cc;

use crate::cc::{AsExtern, CallingConvention, Destructor, IntoExtern, Release, Trampoline, C};

verus! {

/// A closure that can be sent through a foreign-function boundary: code `F`
/// called with its arguments and then a context `U`, and a destructor `D`
/// that disposes of the context, if the closure owns it.
///
/// The calling convention `Cc` exists only in the type. Whether the value may
/// be sent to or shared with another thread follows from its three parts: a
/// closure is `Send` or `Sync` exactly when its code, context and destructor
/// are.
pub struct Closure<F, U, D: Destructor<U>, Cc: CallingConvention = C> {
    f: F,
    user_data: Option<U>,
    destructor: Option<D>,
    _cc: PhantomData<Cc>,
}

impl<F, U, D: Destructor<U>, Cc: CallingConvention> Closure<F, U, D, Cc> {
    /// A destructor that is still held may always run on the context it was
    /// given with.
    #[verifier::type_invariant]
    spec fn inv(self) -> bool {
        self.destructor matches Some(d) ==> (self.user_data matches Some(u) && d.accepts(u))
    }

    /// The code that every call goes through.
    pub closed spec fn code(&self) -> F {
        self.f
    }

    /// The context handed to the code on every call; `None` once a destructor
    /// has consumed it.
    pub closed spec fn context(&self) -> Option<U> {
        self.user_data
    }

    /// The destructor that has yet to run, if any.
    pub closed spec fn destructor(&self) -> Option<D> {
        self.destructor
    }

    /// Whether the closure can still be called: its context has not been
    /// consumed.
    pub open spec fn is_live(&self) -> bool {
        self.context() is Some
    }

    /// What a call of [`Closure::destroy`] on `self` leaves behind in `next`,
    /// with `fired` telling whether a destructor ran.
    ///
    /// A held destructor runs on the context, which it consumes, and is
    /// dropped; without one nothing happens. Either way the code stays.
    pub open spec fn destroy_step(self, next: Self, fired: bool) -> bool {
        &&& next.code() == self.code()
        &&& next.destructor() is None
        &&& fired == self.destructor() is Some
        &&& match self.destructor() {
            Some(d) => next.context() is None && d.released(self.context()->0),
            None => next.context() == self.context(),
        }
    }

    /// Returns the context of this closure.
    pub fn user_data(&self) -> (r: &U)
        requires
            self.is_live(),
        ensures
            *r == self.context()->0,
    {
        self.user_data.as_ref().unwrap()
    }

    /// Returns `true` if this closure has a destructor that has yet to run,
    /// `false` otherwise.
    pub fn has_destructor(&self) -> (r: bool)
        ensures
            r == self.destructor() is Some,
    {
        self.destructor.is_some()
    }

    /// Creates a closure from code, the context to call it with and, if the
    /// closure is to own that context, the destructor that disposes of it.
    ///
    /// The three are kept as they are: the code is called with exactly this
    /// context, and the destructor runs on it at most once.
    pub fn from_extern(f: F, user_data: U, destructor: Option<D>) -> (r: Self)
        requires
            destructor matches Some(d) ==> d.accepts(user_data),
        ensures
            r.code() == f,
            r.context() == Some(user_data),
            r.destructor() == destructor,
    {
        Closure { f, user_data: Some(user_data), destructor, _cc: PhantomData }
    }

    /// Returns the code of this closure.
    pub fn fn_ptr(&self) -> (r: &F)
        ensures
            *r == self.code(),
    {
        &self.f
    }

    /// Returns the code and the context of this closure, which a caller on
    /// the other side of the boundary calls as `code(args.., context)`.
    pub fn as_extern_parts(&self) -> (r: (&F, &U))
        requires
            self.is_live(),
        ensures
            *r.0 == self.code(),
            *r.1 == self.context()->0,
    {
        (&self.f, self.user_data.as_ref().unwrap())
    }

    /// Calls the closure's code with the arguments and then its context.
    pub fn call<Args, O>(&mut self, args: Args) -> (r: O) where F: AsExtern<Args, U, O>
        requires
            old(self).is_live(),
            old(self).code().accepts(args, old(self).context()->0),
        ensures
            *final(self) == *old(self),
            old(self).code().yields(args, old(self).context()->0, r),
    {
        let u = self.user_data.as_ref().unwrap();
        self.f.invoke(args, u)
    }

    /// Runs the destructor on the context, if a destructor is still held, and
    /// drops it, so that it never runs again; returns whether it ran.
    ///
    /// Without a destructor this does nothing: the context is left as it was.
    /// Dropping the closure calls this too.
    pub fn destroy(&mut self) -> (fired: bool)
        ensures
            old(self).destroy_step(*final(self), fired),
    {
        proof {
            use_type_invariant(&*self);
        }
        if self.destructor.is_none() {
            return false;
        }
        let mut d: Option<D> = None;
        let mut u: Option<U> = None;
        core::mem::swap(&mut d, &mut self.destructor);
        core::mem::swap(&mut u, &mut self.user_data);
        match (d, u) {
            (Some(d), Some(u)) => {
                d.release(u);
                true
            },
            _ => false,
        }
    }
}

impl<G, Cc: CallingConvention> Closure<Trampoline, G, Release, Cc> {
    /// Creates a closure from a native closure: the native closure becomes
    /// the context, owned by the new value alone, the code is the
    /// [`Trampoline`] that calls it, and the destructor is the [`Release`]
    /// that frees it.
    pub fn new(f: G) -> (r: Self)
        ensures
            r.code() == Trampoline,
            r.context() == Some(f),
            r.destructor() == Some(Release),
    {
        Closure::from_extern(Trampoline, f, Some(Release))
    }
}

impl<F, U, D: Destructor<U>, Cc: CallingConvention> Drop for Closure<F, U, D, Cc> {
    // Verus cannot yet verify a `drop` that makes a call, so this body is
    // taken on trust; it only hands over to `destroy`, which is verified.
    #[verifier::external_body]
    fn drop(&mut self)
        opens_invariants none
        no_unwind
    {
        self.destroy();
    }
}

/// Calling a captured closure is calling the native closure: the closure
/// that [`Closure::new`] builds from `g` is live, and a call of it accepts
/// exactly the arguments that `g` accepts and yields exactly what `g` yields
/// on them.
pub proof fn lemma_capture_round_trip<Args, O, G: IntoExtern<Args, O>, Cc: CallingConvention>(
    g: G,
    c: Closure<Trampoline, G, Release, Cc>,
    args: Args,
    out: O,
)
    requires
        c.code() == Trampoline,
        c.context() == Some(g),
    ensures
        c.is_live(),
        c.code().accepts(args, c.context()->0) <==> g.accepts(args),
        c.code().yields(args, c.context()->0, out) <==> g.yields(args, out),
{
}

/// Calling the code and context that a live closure exports, directly or
/// through a closure adopted from them, accepts and yields exactly what a call
/// of the first closure does.
pub proof fn lemma_export_import_symmetry<
    Args,
    O,
    F: AsExtern<Args, U, O>,
    U,
    D: Destructor<U>,
    E: Destructor<U>,
    Cc: CallingConvention,
>(
    c: Closure<F, U, D, Cc>,
    code: F,
    user_data: U,
    adopted: Closure<F, U, E, Cc>,
    args: Args,
    out: O,
)
    requires
        c.is_live(),
        code == c.code(),
        user_data == c.context()->0,
        adopted.code() == code,
        adopted.context() == Some(user_data),
    ensures
        code.accepts(args, user_data) <==> c.code().accepts(args, c.context()->0),
        code.yields(args, user_data, out) <==> c.code().yields(args, c.context()->0, out),
        adopted.code().accepts(args, adopted.context()->0) <==> code.accepts(args, user_data),
        adopted.code().yields(args, adopted.context()->0, out) <==> code.yields(
            args,
            user_data,
            out,
        ),
{
}

/// Destroying a closure twice runs its destructor at most once: the first
/// time exactly when it held one, the second time never, and the second
/// time changes nothing.
pub proof fn lemma_single_fire<F, U, D: Destructor<U>, Cc: CallingConvention>(
    c0: Closure<F, U, D, Cc>,
    c1: Closure<F, U, D, Cc>,
    c2: Closure<F, U, D, Cc>,
    fired1: bool,
    fired2: bool,
)
    requires
        c0.destroy_step(c1, fired1),
        c1.destroy_step(c2, fired2),
    ensures
        fired1 == c0.destructor() is Some,
        !fired2,
        c2.code() == c1.code(),
        c2.context() == c1.context(),
        c2.destructor() is None,
{
}

/// A closure adopted without a destructor never runs one: destroying it
/// reports that nothing ran and leaves its code and context as they were.
pub proof fn lemma_no_destructor_no_teardown<F, U, D: Destructor<U>, Cc: CallingConvention>(
    code: F,
    user_data: U,
    c0: Closure<F, U, D, Cc>,
    c1: Closure<F, U, D, Cc>,
    fired: bool,
)
    requires
        c0.code() == code,
        c0.context() == Some(user_data),
        c0.destructor() is None,
        c0.destroy_step(c1, fired),
    ensures
        !fired,
        c1.code() == code,
        c1.context() == Some(user_data),
{
}

} // verus!
