//! The dispatch contract for each arity, from no argument to fourteen.
//!
//! For every arity, a closure or function `Fn(A, B, .., &U) -> O` is code
//! that takes its context last, and a closure `Fn(A, B, ..) -> O` is a native
//! closure that can be captured. Arguments are always handed on left to
//! right, in the order of the packed tuple.
use crate::cc::{AsExtern, IntoExtern};
use vstd::prelude::*;

verus! {

impl<U, O, Fx: Fn(&U) -> O> AsExtern<(), U, O> for Fx {
    open spec fn accepts(&self, args: (), user_data: U) -> bool {
        self.requires((&user_data,))
    }

    open spec fn yields(&self, args: (), user_data: U, out: O) -> bool {
        self.ensures((&user_data,), out)
    }

    fn invoke(&self, args: (), user_data: &U) -> (r: O) {
        (self)(user_data)
    }
}

impl<O, Gx: Fn() -> O> IntoExtern<(), O> for Gx {
    open spec fn accepts(&self, args: ()) -> bool {
        self.requires(args)
    }

    open spec fn yields(&self, args: (), out: O) -> bool {
        self.ensures(args, out)
    }

    fn call_packed(&self, args: ()) -> (r: O) {
        (self)()
    }
}

impl<A, U, O, Fx: Fn(A, &U) -> O> AsExtern<(A,), U, O> for Fx {
    open spec fn accepts(&self, args: (A,), user_data: U) -> bool {
        self.requires((args.0, &user_data))
    }

    open spec fn yields(&self, args: (A,), user_data: U, out: O) -> bool {
        self.ensures((args.0, &user_data), out)
    }

    fn invoke(&self, args: (A,), user_data: &U) -> (r: O) {
        (self)(args.0, user_data)
    }
}

impl<A, O, Gx: Fn(A) -> O> IntoExtern<(A,), O> for Gx {
    open spec fn accepts(&self, args: (A,)) -> bool {
        self.requires(args)
    }

    open spec fn yields(&self, args: (A,), out: O) -> bool {
        self.ensures(args, out)
    }

    fn call_packed(&self, args: (A,)) -> (r: O) {
        (self)(args.0)
    }
}

impl<A, B, U, O, Fx: Fn(A, B, &U) -> O> AsExtern<(A, B), U, O> for Fx {
    open spec fn accepts(&self, args: (A, B), user_data: U) -> bool {
        self.requires((args.0, args.1, &user_data))
    }

    open spec fn yields(&self, args: (A, B), user_data: U, out: O) -> bool {
        self.ensures((args.0, args.1, &user_data), out)
    }

    fn invoke(&self, args: (A, B), user_data: &U) -> (r: O) {
        (self)(args.0, args.1, user_data)
    }
}

impl<A, B, O, Gx: Fn(A, B) -> O> IntoExtern<(A, B), O> for Gx {
    open spec fn accepts(&self, args: (A, B)) -> bool {
        self.requires(args)
    }

    open spec fn yields(&self, args: (A, B), out: O) -> bool {
        self.ensures(args, out)
    }

    fn call_packed(&self, args: (A, B)) -> (r: O) {
        (self)(args.0, args.1)
    }
}

impl<A, B, C_, U, O, Fx: Fn(A, B, C_, &U) -> O> AsExtern<(A, B, C_), U, O> for Fx {
    open spec fn accepts(&self, args: (A, B, C_), user_data: U) -> bool {
        self.requires((args.0, args.1, args.2, &user_data))
    }

    open spec fn yields(&self, args: (A, B, C_), user_data: U, out: O) -> bool {
        self.ensures((args.0, args.1, args.2, &user_data), out)
    }

    fn invoke(&self, args: (A, B, C_), user_data: &U) -> (r: O) {
        (self)(args.0, args.1, args.2, user_data)
    }
}

impl<A, B, C_, O, Gx: Fn(A, B, C_) -> O> IntoExtern<(A, B, C_), O> for Gx {
    open spec fn accepts(&self, args: (A, B, C_)) -> bool {
        self.requires(args)
    }

    open spec fn yields(&self, args: (A, B, C_), out: O) -> bool {
        self.ensures(args, out)
    }

    fn call_packed(&self, args: (A, B, C_)) -> (r: O) {
        (self)(args.0, args.1, args.2)
    }
}

impl<A, B, C_, D, U, O, Fx: Fn(A, B, C_, D, &U) -> O> AsExtern<(A, B, C_, D), U, O> for Fx {
    open spec fn accepts(&self, args: (A, B, C_, D), user_data: U) -> bool {
        self.requires((args.0, args.1, args.2, args.3, &user_data))
    }

    open spec fn yields(&self, args: (A, B, C_, D), user_data: U, out: O) -> bool {
        self.ensures((args.0, args.1, args.2, args.3, &user_data), out)
    }

    fn invoke(&self, args: (A, B, C_, D), user_data: &U) -> (r: O) {
        (self)(args.0, args.1, args.2, args.3, user_data)
    }
}

impl<A, B, C_, D, O, Gx: Fn(A, B, C_, D) -> O> IntoExtern<(A, B, C_, D), O> for Gx {
    open spec fn accepts(&self, args: (A, B, C_, D)) -> bool {
        self.requires(args)
    }

    open spec fn yields(&self, args: (A, B, C_, D), out: O) -> bool {
        self.ensures(args, out)
    }

    fn call_packed(&self, args: (A, B, C_, D)) -> (r: O) {
        (self)(args.0, args.1, args.2, args.3)
    }
}

impl<A, B, C_, D, E, U, O, Fx: Fn(A, B, C_, D, E, &U) -> O> AsExtern<(A, B, C_, D, E), U, O> for Fx {
    open spec fn accepts(&self, args: (A, B, C_, D, E), user_data: U) -> bool {
        self.requires((args.0, args.1, args.2, args.3, args.4, &user_data))
    }

    open spec fn yields(&self, args: (A, B, C_, D, E), user_data: U, out: O) -> bool {
        self.ensures((args.0, args.1, args.2, args.3, args.4, &user_data), out)
    }

    fn invoke(&self, args: (A, B, C_, D, E), user_data: &U) -> (r: O) {
        (self)(args.0, args.1, args.2, args.3, args.4, user_data)
    }
}

impl<A, B, C_, D, E, O, Gx: Fn(A, B, C_, D, E) -> O> IntoExtern<(A, B, C_, D, E), O> for Gx {
    open spec fn accepts(&self, args: (A, B, C_, D, E)) -> bool {
        self.requires(args)
    }

    open spec fn yields(&self, args: (A, B, C_, D, E), out: O) -> bool {
        self.ensures(args, out)
    }

    fn call_packed(&self, args: (A, B, C_, D, E)) -> (r: O) {
        (self)(args.0, args.1, args.2, args.3, args.4)
    }
}

impl<A, B, C_, D, E, F, U, O, Fx: Fn(A, B, C_, D, E, F, &U) -> O> AsExtern<(A, B, C_, D, E, F), U, O> for Fx {
    open spec fn accepts(&self, args: (A, B, C_, D, E, F), user_data: U) -> bool {
        self.requires((args.0, args.1, args.2, args.3, args.4, args.5, &user_data))
    }

    open spec fn yields(&self, args: (A, B, C_, D, E, F), user_data: U, out: O) -> bool {
        self.ensures((args.0, args.1, args.2, args.3, args.4, args.5, &user_data), out)
    }

    fn invoke(&self, args: (A, B, C_, D, E, F), user_data: &U) -> (r: O) {
        (self)(args.0, args.1, args.2, args.3, args.4, args.5, user_data)
    }
}

impl<A, B, C_, D, E, F, O, Gx: Fn(A, B, C_, D, E, F) -> O> IntoExtern<(A, B, C_, D, E, F), O> for Gx {
    open spec fn accepts(&self, args: (A, B, C_, D, E, F)) -> bool {
        self.requires(args)
    }

    open spec fn yields(&self, args: (A, B, C_, D, E, F), out: O) -> bool {
        self.ensures(args, out)
    }

    fn call_packed(&self, args: (A, B, C_, D, E, F)) -> (r: O) {
        (self)(args.0, args.1, args.2, args.3, args.4, args.5)
    }
}

impl<A, B, C_, D, E, F, G, U, O, Fx: Fn(A, B, C_, D, E, F, G, &U) -> O> AsExtern<(A, B, C_, D, E, F, G), U, O> for Fx {
    open spec fn accepts(&self, args: (A, B, C_, D, E, F, G), user_data: U) -> bool {
        self.requires((args.0, args.1, args.2, args.3, args.4, args.5, args.6, &user_data))
    }

    open spec fn yields(&self, args: (A, B, C_, D, E, F, G), user_data: U, out: O) -> bool {
        self.ensures((args.0, args.1, args.2, args.3, args.4, args.5, args.6, &user_data), out)
    }

    fn invoke(&self, args: (A, B, C_, D, E, F, G), user_data: &U) -> (r: O) {
        (self)(args.0, args.1, args.2, args.3, args.4, args.5, args.6, user_data)
    }
}

impl<A, B, C_, D, E, F, G, O, Gx: Fn(A, B, C_, D, E, F, G) -> O> IntoExtern<(A, B, C_, D, E, F, G), O> for Gx {
    open spec fn accepts(&self, args: (A, B, C_, D, E, F, G)) -> bool {
        self.requires(args)
    }

    open spec fn yields(&self, args: (A, B, C_, D, E, F, G), out: O) -> bool {
        self.ensures(args, out)
    }

    fn call_packed(&self, args: (A, B, C_, D, E, F, G)) -> (r: O) {
        (self)(args.0, args.1, args.2, args.3, args.4, args.5, args.6)
    }
}

impl<A, B, C_, D, E, F, G, H, U, O, Fx: Fn(A, B, C_, D, E, F, G, H, &U) -> O> AsExtern<(A, B, C_, D, E, F, G, H), U, O> for Fx {
    open spec fn accepts(&self, args: (A, B, C_, D, E, F, G, H), user_data: U) -> bool {
        self.requires((args.0, args.1, args.2, args.3, args.4, args.5, args.6, args.7, &user_data))
    }

    open spec fn yields(&self, args: (A, B, C_, D, E, F, G, H), user_data: U, out: O) -> bool {
        self.ensures((args.0, args.1, args.2, args.3, args.4, args.5, args.6, args.7, &user_data), out)
    }

    fn invoke(&self, args: (A, B, C_, D, E, F, G, H), user_data: &U) -> (r: O) {
        (self)(args.0, args.1, args.2, args.3, args.4, args.5, args.6, args.7, user_data)
    }
}

impl<A, B, C_, D, E, F, G, H, O, Gx: Fn(A, B, C_, D, E, F, G, H) -> O> IntoExtern<(A, B, C_, D, E, F, G, H), O> for Gx {
    open spec fn accepts(&self, args: (A, B, C_, D, E, F, G, H)) -> bool {
        self.requires(args)
    }

    open spec fn yields(&self, args: (A, B, C_, D, E, F, G, H), out: O) -> bool {
        self.ensures(args, out)
    }

    fn call_packed(&self, args: (A, B, C_, D, E, F, G, H)) -> (r: O) {
        (self)(args.0, args.1, args.2, args.3, args.4, args.5, args.6, args.7)
    }
}

impl<A, B, C_, D, E, F, G, H, I, U, O, Fx: Fn(A, B, C_, D, E, F, G, H, I, &U) -> O> AsExtern<(A, B, C_, D, E, F, G, H, I), U, O> for Fx {
    open spec fn accepts(&self, args: (A, B, C_, D, E, F, G, H, I), user_data: U) -> bool {
        self.requires((args.0, args.1, args.2, args.3, args.4, args.5, args.6, args.7, args.8, &user_data))
    }

    open spec fn yields(&self, args: (A, B, C_, D, E, F, G, H, I), user_data: U, out: O) -> bool {
        self.ensures((args.0, args.1, args.2, args.3, args.4, args.5, args.6, args.7, args.8, &user_data), out)
    }

    fn invoke(&self, args: (A, B, C_, D, E, F, G, H, I), user_data: &U) -> (r: O) {
        (self)(args.0, args.1, args.2, args.3, args.4, args.5, args.6, args.7, args.8, user_data)
    }
}

impl<A, B, C_, D, E, F, G, H, I, O, Gx: Fn(A, B, C_, D, E, F, G, H, I) -> O> IntoExtern<(A, B, C_, D, E, F, G, H, I), O> for Gx {
    open spec fn accepts(&self, args: (A, B, C_, D, E, F, G, H, I)) -> bool {
        self.requires(args)
    }

    open spec fn yields(&self, args: (A, B, C_, D, E, F, G, H, I), out: O) -> bool {
        self.ensures(args, out)
    }

    fn call_packed(&self, args: (A, B, C_, D, E, F, G, H, I)) -> (r: O) {
        (self)(args.0, args.1, args.2, args.3, args.4, args.5, args.6, args.7, args.8)
    }
}

impl<A, B, C_, D, E, F, G, H, I, J, U, O, Fx: Fn(A, B, C_, D, E, F, G, H, I, J, &U) -> O> AsExtern<(A, B, C_, D, E, F, G, H, I, J), U, O> for Fx {
    open spec fn accepts(&self, args: (A, B, C_, D, E, F, G, H, I, J), user_data: U) -> bool {
        self.requires((args.0, args.1, args.2, args.3, args.4, args.5, args.6, args.7, args.8, args.9, &user_data))
    }

    open spec fn yields(&self, args: (A, B, C_, D, E, F, G, H, I, J), user_data: U, out: O) -> bool {
        self.ensures((args.0, args.1, args.2, args.3, args.4, args.5, args.6, args.7, args.8, args.9, &user_data), out)
    }

    fn invoke(&self, args: (A, B, C_, D, E, F, G, H, I, J), user_data: &U) -> (r: O) {
        (self)(args.0, args.1, args.2, args.3, args.4, args.5, args.6, args.7, args.8, args.9, user_data)
    }
}

impl<A, B, C_, D, E, F, G, H, I, J, O, Gx: Fn(A, B, C_, D, E, F, G, H, I, J) -> O> IntoExtern<(A, B, C_, D, E, F, G, H, I, J), O> for Gx {
    open spec fn accepts(&self, args: (A, B, C_, D, E, F, G, H, I, J)) -> bool {
        self.requires(args)
    }

    open spec fn yields(&self, args: (A, B, C_, D, E, F, G, H, I, J), out: O) -> bool {
        self.ensures(args, out)
    }

    fn call_packed(&self, args: (A, B, C_, D, E, F, G, H, I, J)) -> (r: O) {
        (self)(args.0, args.1, args.2, args.3, args.4, args.5, args.6, args.7, args.8, args.9)
    }
}

impl<A, B, C_, D, E, F, G, H, I, J, K, U, O, Fx: Fn(A, B, C_, D, E, F, G, H, I, J, K, &U) -> O> AsExtern<(A, B, C_, D, E, F, G, H, I, J, K), U, O> for Fx {
    open spec fn accepts(&self, args: (A, B, C_, D, E, F, G, H, I, J, K), user_data: U) -> bool {
        self.requires((args.0, args.1, args.2, args.3, args.4, args.5, args.6, args.7, args.8, args.9, args.10, &user_data))
    }

    open spec fn yields(&self, args: (A, B, C_, D, E, F, G, H, I, J, K), user_data: U, out: O) -> bool {
        self.ensures((args.0, args.1, args.2, args.3, args.4, args.5, args.6, args.7, args.8, args.9, args.10, &user_data), out)
    }

    fn invoke(&self, args: (A, B, C_, D, E, F, G, H, I, J, K), user_data: &U) -> (r: O) {
        (self)(args.0, args.1, args.2, args.3, args.4, args.5, args.6, args.7, args.8, args.9, args.10, user_data)
    }
}

impl<A, B, C_, D, E, F, G, H, I, J, K, O, Gx: Fn(A, B, C_, D, E, F, G, H, I, J, K) -> O> IntoExtern<(A, B, C_, D, E, F, G, H, I, J, K), O> for Gx {
    open spec fn accepts(&self, args: (A, B, C_, D, E, F, G, H, I, J, K)) -> bool {
        self.requires(args)
    }

    open spec fn yields(&self, args: (A, B, C_, D, E, F, G, H, I, J, K), out: O) -> bool {
        self.ensures(args, out)
    }

    fn call_packed(&self, args: (A, B, C_, D, E, F, G, H, I, J, K)) -> (r: O) {
        (self)(args.0, args.1, args.2, args.3, args.4, args.5, args.6, args.7, args.8, args.9, args.10)
    }
}

impl<A, B, C_, D, E, F, G, H, I, J, K, L, U, O, Fx: Fn(A, B, C_, D, E, F, G, H, I, J, K, L, &U) -> O> AsExtern<(A, B, C_, D, E, F, G, H, I, J, K, L), U, O> for Fx {
    open spec fn accepts(&self, args: (A, B, C_, D, E, F, G, H, I, J, K, L), user_data: U) -> bool {
        self.requires((args.0, args.1, args.2, args.3, args.4, args.5, args.6, args.7, args.8, args.9, args.10, args.11, &user_data))
    }

    open spec fn yields(&self, args: (A, B, C_, D, E, F, G, H, I, J, K, L), user_data: U, out: O) -> bool {
        self.ensures((args.0, args.1, args.2, args.3, args.4, args.5, args.6, args.7, args.8, args.9, args.10, args.11, &user_data), out)
    }

    fn invoke(&self, args: (A, B, C_, D, E, F, G, H, I, J, K, L), user_data: &U) -> (r: O) {
        (self)(args.0, args.1, args.2, args.3, args.4, args.5, args.6, args.7, args.8, args.9, args.10, args.11, user_data)
    }
}

impl<A, B, C_, D, E, F, G, H, I, J, K, L, O, Gx: Fn(A, B, C_, D, E, F, G, H, I, J, K, L) -> O> IntoExtern<(A, B, C_, D, E, F, G, H, I, J, K, L), O> for Gx {
    open spec fn accepts(&self, args: (A, B, C_, D, E, F, G, H, I, J, K, L)) -> bool {
        self.requires(args)
    }

    open spec fn yields(&self, args: (A, B, C_, D, E, F, G, H, I, J, K, L), out: O) -> bool {
        self.ensures(args, out)
    }

    fn call_packed(&self, args: (A, B, C_, D, E, F, G, H, I, J, K, L)) -> (r: O) {
        (self)(args.0, args.1, args.2, args.3, args.4, args.5, args.6, args.7, args.8, args.9, args.10, args.11)
    }
}

impl<A, B, C_, D, E, F, G, H, I, J, K, L, M, U, O, Fx: Fn(A, B, C_, D, E, F, G, H, I, J, K, L, M, &U) -> O> AsExtern<(A, B, C_, D, E, F, G, H, I, J, K, L, M), U, O> for Fx {
    open spec fn accepts(&self, args: (A, B, C_, D, E, F, G, H, I, J, K, L, M), user_data: U) -> bool {
        self.requires((args.0, args.1, args.2, args.3, args.4, args.5, args.6, args.7, args.8, args.9, args.10, args.11, args.12, &user_data))
    }

    open spec fn yields(&self, args: (A, B, C_, D, E, F, G, H, I, J, K, L, M), user_data: U, out: O) -> bool {
        self.ensures((args.0, args.1, args.2, args.3, args.4, args.5, args.6, args.7, args.8, args.9, args.10, args.11, args.12, &user_data), out)
    }

    fn invoke(&self, args: (A, B, C_, D, E, F, G, H, I, J, K, L, M), user_data: &U) -> (r: O) {
        (self)(args.0, args.1, args.2, args.3, args.4, args.5, args.6, args.7, args.8, args.9, args.10, args.11, args.12, user_data)
    }
}

impl<A, B, C_, D, E, F, G, H, I, J, K, L, M, O, Gx: Fn(A, B, C_, D, E, F, G, H, I, J, K, L, M) -> O> IntoExtern<(A, B, C_, D, E, F, G, H, I, J, K, L, M), O> for Gx {
    open spec fn accepts(&self, args: (A, B, C_, D, E, F, G, H, I, J, K, L, M)) -> bool {
        self.requires(args)
    }

    open spec fn yields(&self, args: (A, B, C_, D, E, F, G, H, I, J, K, L, M), out: O) -> bool {
        self.ensures(args, out)
    }

    fn call_packed(&self, args: (A, B, C_, D, E, F, G, H, I, J, K, L, M)) -> (r: O) {
        (self)(args.0, args.1, args.2, args.3, args.4, args.5, args.6, args.7, args.8, args.9, args.10, args.11, args.12)
    }
}

impl<A, B, C_, D, E, F, G, H, I, J, K, L, M, N, U, O, Fx: Fn(A, B, C_, D, E, F, G, H, I, J, K, L, M, N, &U) -> O> AsExtern<(A, B, C_, D, E, F, G, H, I, J, K, L, M, N), U, O> for Fx {
    open spec fn accepts(&self, args: (A, B, C_, D, E, F, G, H, I, J, K, L, M, N), user_data: U) -> bool {
        self.requires((args.0, args.1, args.2, args.3, args.4, args.5, args.6, args.7, args.8, args.9, args.10, args.11, args.12, args.13, &user_data))
    }

    open spec fn yields(&self, args: (A, B, C_, D, E, F, G, H, I, J, K, L, M, N), user_data: U, out: O) -> bool {
        self.ensures((args.0, args.1, args.2, args.3, args.4, args.5, args.6, args.7, args.8, args.9, args.10, args.11, args.12, args.13, &user_data), out)
    }

    fn invoke(&self, args: (A, B, C_, D, E, F, G, H, I, J, K, L, M, N), user_data: &U) -> (r: O) {
        (self)(args.0, args.1, args.2, args.3, args.4, args.5, args.6, args.7, args.8, args.9, args.10, args.11, args.12, args.13, user_data)
    }
}

impl<A, B, C_, D, E, F, G, H, I, J, K, L, M, N, O, Gx: Fn(A, B, C_, D, E, F, G, H, I, J, K, L, M, N) -> O> IntoExtern<(A, B, C_, D, E, F, G, H, I, J, K, L, M, N), O> for Gx {
    open spec fn accepts(&self, args: (A, B, C_, D, E, F, G, H, I, J, K, L, M, N)) -> bool {
        self.requires(args)
    }

    open spec fn yields(&self, args: (A, B, C_, D, E, F, G, H, I, J, K, L, M, N), out: O) -> bool {
        self.ensures(args, out)
    }

    fn call_packed(&self, args: (A, B, C_, D, E, F, G, H, I, J, K, L, M, N)) -> (r: O) {
        (self)(args.0, args.1, args.2, args.3, args.4, args.5, args.6, args.7, args.8, args.9, args.10, args.11, args.12, args.13)
    }
}

} // verus!
