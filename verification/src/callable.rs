use crate::dependencies::FromTypeMap;
use vstd::prelude::*;

verus! {

/// Something that can be called with a tuple of resolved arguments, whatever
/// its arity, and hands back the deferred computation of its result.
pub trait Callable<Args: FromTypeMap>: Sized {
    /// What a call hands back.
    type Out;

    /// Whether this may be called with `args`. Unless an implementation
    /// says otherwise, it may be called with any.
    open spec fn accepts(&self, args: Args) -> bool {
        true
    }

    /// Whether `out` is something that a call with `args` can hand back.
    /// Unless an implementation says more, anything can come back.
    open spec fn yields(&self, args: Args, out: Self::Out) -> bool {
        true
    }

    /// Calls this with the elements of `args` as its arguments.
    fn call(self, args: Args) -> (out: Self::Out)
        requires
            self.accepts(args),
        ensures
            self.yields(args, out),
    ;
}

/// A function of no arguments is called with the elements of the tuple.
impl<Func, Ret> Callable<()> for Func where
    Func: Fn() -> Ret,
{
    type Out = Ret;

    open spec fn accepts(&self, args: ()) -> bool {
        call_requires(*self, args)
    }

    open spec fn yields(&self, args: (), out: Ret) -> bool {
        call_ensures(*self, args, out)
    }

    fn call(self, args: ()) -> (out: Ret) {
        (self)()
    }
}

/// A function of one argument is called with the elements of the tuple.
impl<Func, Ret, A: FromTypeMap> Callable<(A,)> for Func where
    Func: Fn(A) -> Ret,
{
    type Out = Ret;

    open spec fn accepts(&self, args: (A,)) -> bool {
        call_requires(*self, args)
    }

    open spec fn yields(&self, args: (A,), out: Ret) -> bool {
        call_ensures(*self, args, out)
    }

    fn call(self, args: (A,)) -> (out: Ret) {
        (self)(args.0)
    }
}

/// A function of two arguments is called with the elements of the tuple.
impl<Func, Ret, A: FromTypeMap, B: FromTypeMap> Callable<(A, B)> for Func where
    Func: Fn(A, B) -> Ret,
{
    type Out = Ret;

    open spec fn accepts(&self, args: (A, B)) -> bool {
        call_requires(*self, args)
    }

    open spec fn yields(&self, args: (A, B), out: Ret) -> bool {
        call_ensures(*self, args, out)
    }

    fn call(self, args: (A, B)) -> (out: Ret) {
        (self)(args.0, args.1)
    }
}

/// A function of three arguments is called with the elements of the tuple.
impl<Func, Ret, A: FromTypeMap, B: FromTypeMap, C: FromTypeMap> Callable<(A, B, C)> for Func where
    Func: Fn(A, B, C) -> Ret,
{
    type Out = Ret;

    open spec fn accepts(&self, args: (A, B, C)) -> bool {
        call_requires(*self, args)
    }

    open spec fn yields(&self, args: (A, B, C), out: Ret) -> bool {
        call_ensures(*self, args, out)
    }

    fn call(self, args: (A, B, C)) -> (out: Ret) {
        (self)(args.0, args.1, args.2)
    }
}

/// A function of four arguments is called with the elements of the tuple.
impl<Func, Ret, A: FromTypeMap, B: FromTypeMap, C: FromTypeMap, D: FromTypeMap> Callable<(A, B, C, D)> for Func where
    Func: Fn(A, B, C, D) -> Ret,
{
    type Out = Ret;

    open spec fn accepts(&self, args: (A, B, C, D)) -> bool {
        call_requires(*self, args)
    }

    open spec fn yields(&self, args: (A, B, C, D), out: Ret) -> bool {
        call_ensures(*self, args, out)
    }

    fn call(self, args: (A, B, C, D)) -> (out: Ret) {
        (self)(args.0, args.1, args.2, args.3)
    }
}

/// A function of five arguments is called with the elements of the tuple.
impl<Func, Ret, A: FromTypeMap, B: FromTypeMap, C: FromTypeMap, D: FromTypeMap, E: FromTypeMap> Callable<(A, B, C, D, E)> for Func where
    Func: Fn(A, B, C, D, E) -> Ret,
{
    type Out = Ret;

    open spec fn accepts(&self, args: (A, B, C, D, E)) -> bool {
        call_requires(*self, args)
    }

    open spec fn yields(&self, args: (A, B, C, D, E), out: Ret) -> bool {
        call_ensures(*self, args, out)
    }

    fn call(self, args: (A, B, C, D, E)) -> (out: Ret) {
        (self)(args.0, args.1, args.2, args.3, args.4)
    }
}

/// A function of six arguments is called with the elements of the tuple.
impl<Func, Ret, A: FromTypeMap, B: FromTypeMap, C: FromTypeMap, D: FromTypeMap, E: FromTypeMap, F: FromTypeMap> Callable<(A, B, C, D, E, F)> for Func where
    Func: Fn(A, B, C, D, E, F) -> Ret,
{
    type Out = Ret;

    open spec fn accepts(&self, args: (A, B, C, D, E, F)) -> bool {
        call_requires(*self, args)
    }

    open spec fn yields(&self, args: (A, B, C, D, E, F), out: Ret) -> bool {
        call_ensures(*self, args, out)
    }

    fn call(self, args: (A, B, C, D, E, F)) -> (out: Ret) {
        (self)(args.0, args.1, args.2, args.3, args.4, args.5)
    }
}

/// A function of seven arguments is called with the elements of the tuple.
impl<Func, Ret, A: FromTypeMap, B: FromTypeMap, C: FromTypeMap, D: FromTypeMap, E: FromTypeMap, F: FromTypeMap, G: FromTypeMap> Callable<(A, B, C, D, E, F, G)> for Func where
    Func: Fn(A, B, C, D, E, F, G) -> Ret,
{
    type Out = Ret;

    open spec fn accepts(&self, args: (A, B, C, D, E, F, G)) -> bool {
        call_requires(*self, args)
    }

    open spec fn yields(&self, args: (A, B, C, D, E, F, G), out: Ret) -> bool {
        call_ensures(*self, args, out)
    }

    fn call(self, args: (A, B, C, D, E, F, G)) -> (out: Ret) {
        (self)(args.0, args.1, args.2, args.3, args.4, args.5, args.6)
    }
}

/// A function of eight arguments is called with the elements of the tuple.
impl<Func, Ret, A: FromTypeMap, B: FromTypeMap, C: FromTypeMap, D: FromTypeMap, E: FromTypeMap, F: FromTypeMap, G: FromTypeMap, H: FromTypeMap> Callable<(A, B, C, D, E, F, G, H)> for Func where
    Func: Fn(A, B, C, D, E, F, G, H) -> Ret,
{
    type Out = Ret;

    open spec fn accepts(&self, args: (A, B, C, D, E, F, G, H)) -> bool {
        call_requires(*self, args)
    }

    open spec fn yields(&self, args: (A, B, C, D, E, F, G, H), out: Ret) -> bool {
        call_ensures(*self, args, out)
    }

    fn call(self, args: (A, B, C, D, E, F, G, H)) -> (out: Ret) {
        (self)(args.0, args.1, args.2, args.3, args.4, args.5, args.6, args.7)
    }
}

/// A function of nine arguments is called with the elements of the tuple.
impl<Func, Ret, A: FromTypeMap, B: FromTypeMap, C: FromTypeMap, D: FromTypeMap, E: FromTypeMap, F: FromTypeMap, G: FromTypeMap, H: FromTypeMap, I: FromTypeMap> Callable<(A, B, C, D, E, F, G, H, I)> for Func where
    Func: Fn(A, B, C, D, E, F, G, H, I) -> Ret,
{
    type Out = Ret;

    open spec fn accepts(&self, args: (A, B, C, D, E, F, G, H, I)) -> bool {
        call_requires(*self, args)
    }

    open spec fn yields(&self, args: (A, B, C, D, E, F, G, H, I), out: Ret) -> bool {
        call_ensures(*self, args, out)
    }

    fn call(self, args: (A, B, C, D, E, F, G, H, I)) -> (out: Ret) {
        (self)(args.0, args.1, args.2, args.3, args.4, args.5, args.6, args.7, args.8)
    }
}

/// A function of ten arguments is called with the elements of the tuple.
impl<Func, Ret, A: FromTypeMap, B: FromTypeMap, C: FromTypeMap, D: FromTypeMap, E: FromTypeMap, F: FromTypeMap, G: FromTypeMap, H: FromTypeMap, I: FromTypeMap, J: FromTypeMap> Callable<(A, B, C, D, E, F, G, H, I, J)> for Func where
    Func: Fn(A, B, C, D, E, F, G, H, I, J) -> Ret,
{
    type Out = Ret;

    open spec fn accepts(&self, args: (A, B, C, D, E, F, G, H, I, J)) -> bool {
        call_requires(*self, args)
    }

    open spec fn yields(&self, args: (A, B, C, D, E, F, G, H, I, J), out: Ret) -> bool {
        call_ensures(*self, args, out)
    }

    fn call(self, args: (A, B, C, D, E, F, G, H, I, J)) -> (out: Ret) {
        (self)(args.0, args.1, args.2, args.3, args.4, args.5, args.6, args.7, args.8, args.9)
    }
}

/// A function of eleven arguments is called with the elements of the tuple.
impl<Func, Ret, A: FromTypeMap, B: FromTypeMap, C: FromTypeMap, D: FromTypeMap, E: FromTypeMap, F: FromTypeMap, G: FromTypeMap, H: FromTypeMap, I: FromTypeMap, J: FromTypeMap, K: FromTypeMap> Callable<(A, B, C, D, E, F, G, H, I, J, K)> for Func where
    Func: Fn(A, B, C, D, E, F, G, H, I, J, K) -> Ret,
{
    type Out = Ret;

    open spec fn accepts(&self, args: (A, B, C, D, E, F, G, H, I, J, K)) -> bool {
        call_requires(*self, args)
    }

    open spec fn yields(&self, args: (A, B, C, D, E, F, G, H, I, J, K), out: Ret) -> bool {
        call_ensures(*self, args, out)
    }

    fn call(self, args: (A, B, C, D, E, F, G, H, I, J, K)) -> (out: Ret) {
        (self)(args.0, args.1, args.2, args.3, args.4, args.5, args.6, args.7, args.8, args.9, args.10)
    }
}

/// A function of twelve arguments is called with the elements of the tuple.
impl<Func, Ret, A: FromTypeMap, B: FromTypeMap, C: FromTypeMap, D: FromTypeMap, E: FromTypeMap, F: FromTypeMap, G: FromTypeMap, H: FromTypeMap, I: FromTypeMap, J: FromTypeMap, K: FromTypeMap, L: FromTypeMap> Callable<(A, B, C, D, E, F, G, H, I, J, K, L)> for Func where
    Func: Fn(A, B, C, D, E, F, G, H, I, J, K, L) -> Ret,
{
    type Out = Ret;

    open spec fn accepts(&self, args: (A, B, C, D, E, F, G, H, I, J, K, L)) -> bool {
        call_requires(*self, args)
    }

    open spec fn yields(&self, args: (A, B, C, D, E, F, G, H, I, J, K, L), out: Ret) -> bool {
        call_ensures(*self, args, out)
    }

    fn call(self, args: (A, B, C, D, E, F, G, H, I, J, K, L)) -> (out: Ret) {
        (self)(args.0, args.1, args.2, args.3, args.4, args.5, args.6, args.7, args.8, args.9, args.10, args.11)
    }
}

/// A function of thirteen arguments is called with the elements of the tuple.
impl<Func, Ret, A: FromTypeMap, B: FromTypeMap, C: FromTypeMap, D: FromTypeMap, E: FromTypeMap, F: FromTypeMap, G: FromTypeMap, H: FromTypeMap, I: FromTypeMap, J: FromTypeMap, K: FromTypeMap, L: FromTypeMap, M: FromTypeMap> Callable<(A, B, C, D, E, F, G, H, I, J, K, L, M)> for Func where
    Func: Fn(A, B, C, D, E, F, G, H, I, J, K, L, M) -> Ret,
{
    type Out = Ret;

    open spec fn accepts(&self, args: (A, B, C, D, E, F, G, H, I, J, K, L, M)) -> bool {
        call_requires(*self, args)
    }

    open spec fn yields(&self, args: (A, B, C, D, E, F, G, H, I, J, K, L, M), out: Ret) -> bool {
        call_ensures(*self, args, out)
    }

    fn call(self, args: (A, B, C, D, E, F, G, H, I, J, K, L, M)) -> (out: Ret) {
        (self)(args.0, args.1, args.2, args.3, args.4, args.5, args.6, args.7, args.8, args.9, args.10, args.11, args.12)
    }
}

/// A function of fourteen arguments is called with the elements of the tuple.
impl<Func, Ret, A: FromTypeMap, B: FromTypeMap, C: FromTypeMap, D: FromTypeMap, E: FromTypeMap, F: FromTypeMap, G: FromTypeMap, H: FromTypeMap, I: FromTypeMap, J: FromTypeMap, K: FromTypeMap, L: FromTypeMap, M: FromTypeMap, N: FromTypeMap> Callable<(A, B, C, D, E, F, G, H, I, J, K, L, M, N)> for Func where
    Func: Fn(A, B, C, D, E, F, G, H, I, J, K, L, M, N) -> Ret,
{
    type Out = Ret;

    open spec fn accepts(&self, args: (A, B, C, D, E, F, G, H, I, J, K, L, M, N)) -> bool {
        call_requires(*self, args)
    }

    open spec fn yields(&self, args: (A, B, C, D, E, F, G, H, I, J, K, L, M, N), out: Ret) -> bool {
        call_ensures(*self, args, out)
    }

    fn call(self, args: (A, B, C, D, E, F, G, H, I, J, K, L, M, N)) -> (out: Ret) {
        (self)(args.0, args.1, args.2, args.3, args.4, args.5, args.6, args.7, args.8, args.9, args.10, args.11, args.12, args.13)
    }
}

/// A function of fifteen arguments is called with the elements of the tuple.
impl<Func, Ret, A: FromTypeMap, B: FromTypeMap, C: FromTypeMap, D: FromTypeMap, E: FromTypeMap, F: FromTypeMap, G: FromTypeMap, H: FromTypeMap, I: FromTypeMap, J: FromTypeMap, K: FromTypeMap, L: FromTypeMap, M: FromTypeMap, N: FromTypeMap, O: FromTypeMap> Callable<(A, B, C, D, E, F, G, H, I, J, K, L, M, N, O)> for Func where
    Func: Fn(A, B, C, D, E, F, G, H, I, J, K, L, M, N, O) -> Ret,
{
    type Out = Ret;

    open spec fn accepts(&self, args: (A, B, C, D, E, F, G, H, I, J, K, L, M, N, O)) -> bool {
        call_requires(*self, args)
    }

    open spec fn yields(&self, args: (A, B, C, D, E, F, G, H, I, J, K, L, M, N, O), out: Ret) -> bool {
        call_ensures(*self, args, out)
    }

    fn call(self, args: (A, B, C, D, E, F, G, H, I, J, K, L, M, N, O)) -> (out: Ret) {
        (self)(args.0, args.1, args.2, args.3, args.4, args.5, args.6, args.7, args.8, args.9, args.10, args.11, args.12, args.13, args.14)
    }
}

/// A function of sixteen arguments is called with the elements of the tuple.
impl<Func, Ret, A: FromTypeMap, B: FromTypeMap, C: FromTypeMap, D: FromTypeMap, E: FromTypeMap, F: FromTypeMap, G: FromTypeMap, H: FromTypeMap, I: FromTypeMap, J: FromTypeMap, K: FromTypeMap, L: FromTypeMap, M: FromTypeMap, N: FromTypeMap, O: FromTypeMap, P: FromTypeMap> Callable<(A, B, C, D, E, F, G, H, I, J, K, L, M, N, O, P)> for Func where
    Func: Fn(A, B, C, D, E, F, G, H, I, J, K, L, M, N, O, P) -> Ret,
{
    type Out = Ret;

    open spec fn accepts(&self, args: (A, B, C, D, E, F, G, H, I, J, K, L, M, N, O, P)) -> bool {
        call_requires(*self, args)
    }

    open spec fn yields(&self, args: (A, B, C, D, E, F, G, H, I, J, K, L, M, N, O, P), out: Ret) -> bool {
        call_ensures(*self, args, out)
    }

    fn call(self, args: (A, B, C, D, E, F, G, H, I, J, K, L, M, N, O, P)) -> (out: Ret) {
        (self)(args.0, args.1, args.2, args.3, args.4, args.5, args.6, args.7, args.8, args.9, args.10, args.11, args.12, args.13, args.14, args.15)
    }
}

} // verus!
