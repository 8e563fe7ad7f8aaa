use vstd::prelude::*;
use crate::rejection::Rejection;
use crate::combine::{Product, Tuple};

verus! {

/// Something that can be called with the arguments `Args`.
///
/// The contract of `call` is that of the function called: `accepts` is its
/// precondition and `gives` its postcondition. Verus resolves them where `Func` is
/// reached through a generic parameter; a verified caller that calls `call`
/// directly on a concrete closure or function item does not get them resolved, so
/// such a caller should go through a function generic over `Func` (or `Fn`).
pub trait Func<Args> {
    type Output;

    /// Whether a call with `args` is allowed.
    spec fn accepts(&self, args: Args) -> bool;

    /// Whether `out` is a possible result of a call with `args`.
    spec fn gives(&self, args: Args, out: Self::Output) -> bool;

    fn call(&self, args: Args) -> (out: Self::Output)
        requires
            self.accepts(args),
        ensures
            self.gives(args, out),
    ;
}

impl<F, R> Func<()> for F where F: Fn() -> R {
    type Output = R;

    open spec fn accepts(&self, args: ()) -> bool {
        call_requires(*self, ())
    }

    open spec fn gives(&self, args: (), out: R) -> bool {
        call_ensures(*self, (), out)
    }

    fn call(&self, _args: ()) -> (out: R) {
        (*self)()
    }
}

impl<F, R> Func<Rejection> for F where F: Fn(Rejection) -> R {
    type Output = R;

    open spec fn accepts(&self, args: Rejection) -> bool {
        call_requires(*self, (args,))
    }

    open spec fn gives(&self, args: Rejection, out: R) -> bool {
        call_ensures(*self, (args,), out)
    }

    fn call(&self, arg: Rejection) -> (out: R) {
        (*self)(arg)
    }
}

impl<F, R, T1> Func<Product<T1, ()>> for F where F: Fn(T1) -> R {
    type Output = R;

    open spec fn accepts(&self, args: Product<T1, ()>) -> bool {
        call_requires(*self, (args.0,))
    }

    open spec fn gives(&self, args: Product<T1, ()>, out: R) -> bool {
        call_ensures(*self, (args.0,), out)
    }

    fn call(&self, args: Product<T1, ()>) -> (out: R) {
        let Product(t1, ()) = args;
        (*self)(t1)
    }
}

impl<F, R, T1> Func<(T1,)> for F where F: Fn(T1) -> R {
    type Output = R;

    open spec fn accepts(&self, args: (T1,)) -> bool {
        call_requires(*self, (args.0,))
    }

    open spec fn gives(&self, args: (T1,), out: R) -> bool {
        call_ensures(*self, (args.0,), out)
    }

    fn call(&self, args: (T1,)) -> (out: R) {
        let (t1,) = args;
        (*self)(t1)
    }
}

impl<F, R, T1, T2> Func<Product<T1, Product<T2, ()>>> for F where F: Fn(T1, T2) -> R {
    type Output = R;

    open spec fn accepts(&self, args: Product<T1, Product<T2, ()>>) -> bool {
        call_requires(*self, (args.0, args.1.0))
    }

    open spec fn gives(&self, args: Product<T1, Product<T2, ()>>, out: R) -> bool {
        call_ensures(*self, (args.0, args.1.0), out)
    }

    fn call(&self, args: Product<T1, Product<T2, ()>>) -> (out: R) {
        let Product(t1, Product(t2, ())) = args;
        (*self)(t1, t2)
    }
}

impl<F, R, T1, T2> Func<(T1, T2)> for F where F: Fn(T1, T2) -> R {
    type Output = R;

    open spec fn accepts(&self, args: (T1, T2)) -> bool {
        call_requires(*self, (args.0, args.1))
    }

    open spec fn gives(&self, args: (T1, T2), out: R) -> bool {
        call_ensures(*self, (args.0, args.1), out)
    }

    fn call(&self, args: (T1, T2)) -> (out: R) {
        let (t1, t2) = args;
        (*self)(t1, t2)
    }
}

impl<F, R, T1, T2, T3> Func<Product<T1, Product<T2, Product<T3, ()>>>> for F where F: Fn(T1, T2, T3) -> R {
    type Output = R;

    open spec fn accepts(&self, args: Product<T1, Product<T2, Product<T3, ()>>>) -> bool {
        call_requires(*self, (args.0, args.1.0, args.1.1.0))
    }

    open spec fn gives(&self, args: Product<T1, Product<T2, Product<T3, ()>>>, out: R) -> bool {
        call_ensures(*self, (args.0, args.1.0, args.1.1.0), out)
    }

    fn call(&self, args: Product<T1, Product<T2, Product<T3, ()>>>) -> (out: R) {
        let Product(t1, Product(t2, Product(t3, ()))) = args;
        (*self)(t1, t2, t3)
    }
}

impl<F, R, T1, T2, T3> Func<(T1, T2, T3)> for F where F: Fn(T1, T2, T3) -> R {
    type Output = R;

    open spec fn accepts(&self, args: (T1, T2, T3)) -> bool {
        call_requires(*self, (args.0, args.1, args.2))
    }

    open spec fn gives(&self, args: (T1, T2, T3), out: R) -> bool {
        call_ensures(*self, (args.0, args.1, args.2), out)
    }

    fn call(&self, args: (T1, T2, T3)) -> (out: R) {
        let (t1, t2, t3) = args;
        (*self)(t1, t2, t3)
    }
}

impl<F, R, T1, T2, T3, T4> Func<Product<T1, Product<T2, Product<T3, Product<T4, ()>>>>> for F where F: Fn(T1, T2, T3, T4) -> R {
    type Output = R;

    open spec fn accepts(&self, args: Product<T1, Product<T2, Product<T3, Product<T4, ()>>>>) -> bool {
        call_requires(*self, (args.0, args.1.0, args.1.1.0, args.1.1.1.0))
    }

    open spec fn gives(&self, args: Product<T1, Product<T2, Product<T3, Product<T4, ()>>>>, out: R) -> bool {
        call_ensures(*self, (args.0, args.1.0, args.1.1.0, args.1.1.1.0), out)
    }

    fn call(&self, args: Product<T1, Product<T2, Product<T3, Product<T4, ()>>>>) -> (out: R) {
        let Product(t1, Product(t2, Product(t3, Product(t4, ())))) = args;
        (*self)(t1, t2, t3, t4)
    }
}

impl<F, R, T1, T2, T3, T4> Func<(T1, T2, T3, T4)> for F where F: Fn(T1, T2, T3, T4) -> R {
    type Output = R;

    open spec fn accepts(&self, args: (T1, T2, T3, T4)) -> bool {
        call_requires(*self, (args.0, args.1, args.2, args.3))
    }

    open spec fn gives(&self, args: (T1, T2, T3, T4), out: R) -> bool {
        call_ensures(*self, (args.0, args.1, args.2, args.3), out)
    }

    fn call(&self, args: (T1, T2, T3, T4)) -> (out: R) {
        let (t1, t2, t3, t4) = args;
        (*self)(t1, t2, t3, t4)
    }
}

impl<F, R, T1, T2, T3, T4, T5> Func<Product<T1, Product<T2, Product<T3, Product<T4, Product<T5, ()>>>>>> for F where F: Fn(T1, T2, T3, T4, T5) -> R {
    type Output = R;

    open spec fn accepts(&self, args: Product<T1, Product<T2, Product<T3, Product<T4, Product<T5, ()>>>>>) -> bool {
        call_requires(*self, (args.0, args.1.0, args.1.1.0, args.1.1.1.0, args.1.1.1.1.0))
    }

    open spec fn gives(&self, args: Product<T1, Product<T2, Product<T3, Product<T4, Product<T5, ()>>>>>, out: R) -> bool {
        call_ensures(*self, (args.0, args.1.0, args.1.1.0, args.1.1.1.0, args.1.1.1.1.0), out)
    }

    fn call(&self, args: Product<T1, Product<T2, Product<T3, Product<T4, Product<T5, ()>>>>>) -> (out: R) {
        let Product(t1, Product(t2, Product(t3, Product(t4, Product(t5, ()))))) = args;
        (*self)(t1, t2, t3, t4, t5)
    }
}

impl<F, R, T1, T2, T3, T4, T5> Func<(T1, T2, T3, T4, T5)> for F where F: Fn(T1, T2, T3, T4, T5) -> R {
    type Output = R;

    open spec fn accepts(&self, args: (T1, T2, T3, T4, T5)) -> bool {
        call_requires(*self, (args.0, args.1, args.2, args.3, args.4))
    }

    open spec fn gives(&self, args: (T1, T2, T3, T4, T5), out: R) -> bool {
        call_ensures(*self, (args.0, args.1, args.2, args.3, args.4), out)
    }

    fn call(&self, args: (T1, T2, T3, T4, T5)) -> (out: R) {
        let (t1, t2, t3, t4, t5) = args;
        (*self)(t1, t2, t3, t4, t5)
    }
}

impl<F, R, T1, T2, T3, T4, T5, T6> Func<Product<T1, Product<T2, Product<T3, Product<T4, Product<T5, Product<T6, ()>>>>>>> for F where F: Fn(T1, T2, T3, T4, T5, T6) -> R {
    type Output = R;

    open spec fn accepts(&self, args: Product<T1, Product<T2, Product<T3, Product<T4, Product<T5, Product<T6, ()>>>>>>) -> bool {
        call_requires(*self, (args.0, args.1.0, args.1.1.0, args.1.1.1.0, args.1.1.1.1.0, args.1.1.1.1.1.0))
    }

    open spec fn gives(&self, args: Product<T1, Product<T2, Product<T3, Product<T4, Product<T5, Product<T6, ()>>>>>>, out: R) -> bool {
        call_ensures(*self, (args.0, args.1.0, args.1.1.0, args.1.1.1.0, args.1.1.1.1.0, args.1.1.1.1.1.0), out)
    }

    fn call(&self, args: Product<T1, Product<T2, Product<T3, Product<T4, Product<T5, Product<T6, ()>>>>>>) -> (out: R) {
        let Product(t1, Product(t2, Product(t3, Product(t4, Product(t5, Product(t6, ())))))) = args;
        (*self)(t1, t2, t3, t4, t5, t6)
    }
}

impl<F, R, T1, T2, T3, T4, T5, T6> Func<(T1, T2, T3, T4, T5, T6)> for F where F: Fn(T1, T2, T3, T4, T5, T6) -> R {
    type Output = R;

    open spec fn accepts(&self, args: (T1, T2, T3, T4, T5, T6)) -> bool {
        call_requires(*self, (args.0, args.1, args.2, args.3, args.4, args.5))
    }

    open spec fn gives(&self, args: (T1, T2, T3, T4, T5, T6), out: R) -> bool {
        call_ensures(*self, (args.0, args.1, args.2, args.3, args.4, args.5), out)
    }

    fn call(&self, args: (T1, T2, T3, T4, T5, T6)) -> (out: R) {
        let (t1, t2, t3, t4, t5, t6) = args;
        (*self)(t1, t2, t3, t4, t5, t6)
    }
}

impl<F, R, T1, T2, T3, T4, T5, T6, T7> Func<Product<T1, Product<T2, Product<T3, Product<T4, Product<T5, Product<T6, Product<T7, ()>>>>>>>> for F where F: Fn(T1, T2, T3, T4, T5, T6, T7) -> R {
    type Output = R;

    open spec fn accepts(&self, args: Product<T1, Product<T2, Product<T3, Product<T4, Product<T5, Product<T6, Product<T7, ()>>>>>>>) -> bool {
        call_requires(*self, (args.0, args.1.0, args.1.1.0, args.1.1.1.0, args.1.1.1.1.0, args.1.1.1.1.1.0, args.1.1.1.1.1.1.0))
    }

    open spec fn gives(&self, args: Product<T1, Product<T2, Product<T3, Product<T4, Product<T5, Product<T6, Product<T7, ()>>>>>>>, out: R) -> bool {
        call_ensures(*self, (args.0, args.1.0, args.1.1.0, args.1.1.1.0, args.1.1.1.1.0, args.1.1.1.1.1.0, args.1.1.1.1.1.1.0), out)
    }

    fn call(&self, args: Product<T1, Product<T2, Product<T3, Product<T4, Product<T5, Product<T6, Product<T7, ()>>>>>>>) -> (out: R) {
        let Product(t1, Product(t2, Product(t3, Product(t4, Product(t5, Product(t6, Product(t7, ()))))))) = args;
        (*self)(t1, t2, t3, t4, t5, t6, t7)
    }
}

impl<F, R, T1, T2, T3, T4, T5, T6, T7> Func<(T1, T2, T3, T4, T5, T6, T7)> for F where F: Fn(T1, T2, T3, T4, T5, T6, T7) -> R {
    type Output = R;

    open spec fn accepts(&self, args: (T1, T2, T3, T4, T5, T6, T7)) -> bool {
        call_requires(*self, (args.0, args.1, args.2, args.3, args.4, args.5, args.6))
    }

    open spec fn gives(&self, args: (T1, T2, T3, T4, T5, T6, T7), out: R) -> bool {
        call_ensures(*self, (args.0, args.1, args.2, args.3, args.4, args.5, args.6), out)
    }

    fn call(&self, args: (T1, T2, T3, T4, T5, T6, T7)) -> (out: R) {
        let (t1, t2, t3, t4, t5, t6, t7) = args;
        (*self)(t1, t2, t3, t4, t5, t6, t7)
    }
}

impl<F, R, T1, T2, T3, T4, T5, T6, T7, T8> Func<Product<T1, Product<T2, Product<T3, Product<T4, Product<T5, Product<T6, Product<T7, Product<T8, ()>>>>>>>>> for F where F: Fn(T1, T2, T3, T4, T5, T6, T7, T8) -> R {
    type Output = R;

    open spec fn accepts(&self, args: Product<T1, Product<T2, Product<T3, Product<T4, Product<T5, Product<T6, Product<T7, Product<T8, ()>>>>>>>>) -> bool {
        call_requires(*self, (args.0, args.1.0, args.1.1.0, args.1.1.1.0, args.1.1.1.1.0, args.1.1.1.1.1.0, args.1.1.1.1.1.1.0, args.1.1.1.1.1.1.1.0))
    }

    open spec fn gives(&self, args: Product<T1, Product<T2, Product<T3, Product<T4, Product<T5, Product<T6, Product<T7, Product<T8, ()>>>>>>>>, out: R) -> bool {
        call_ensures(*self, (args.0, args.1.0, args.1.1.0, args.1.1.1.0, args.1.1.1.1.0, args.1.1.1.1.1.0, args.1.1.1.1.1.1.0, args.1.1.1.1.1.1.1.0), out)
    }

    fn call(&self, args: Product<T1, Product<T2, Product<T3, Product<T4, Product<T5, Product<T6, Product<T7, Product<T8, ()>>>>>>>>) -> (out: R) {
        let Product(t1, Product(t2, Product(t3, Product(t4, Product(t5, Product(t6, Product(t7, Product(t8, ())))))))) = args;
        (*self)(t1, t2, t3, t4, t5, t6, t7, t8)
    }
}

impl<F, R, T1, T2, T3, T4, T5, T6, T7, T8> Func<(T1, T2, T3, T4, T5, T6, T7, T8)> for F where F: Fn(T1, T2, T3, T4, T5, T6, T7, T8) -> R {
    type Output = R;

    open spec fn accepts(&self, args: (T1, T2, T3, T4, T5, T6, T7, T8)) -> bool {
        call_requires(*self, (args.0, args.1, args.2, args.3, args.4, args.5, args.6, args.7))
    }

    open spec fn gives(&self, args: (T1, T2, T3, T4, T5, T6, T7, T8), out: R) -> bool {
        call_ensures(*self, (args.0, args.1, args.2, args.3, args.4, args.5, args.6, args.7), out)
    }

    fn call(&self, args: (T1, T2, T3, T4, T5, T6, T7, T8)) -> (out: R) {
        let (t1, t2, t3, t4, t5, t6, t7, t8) = args;
        (*self)(t1, t2, t3, t4, t5, t6, t7, t8)
    }
}

impl<F, R, T1, T2, T3, T4, T5, T6, T7, T8, T9> Func<Product<T1, Product<T2, Product<T3, Product<T4, Product<T5, Product<T6, Product<T7, Product<T8, Product<T9, ()>>>>>>>>>> for F where F: Fn(T1, T2, T3, T4, T5, T6, T7, T8, T9) -> R {
    type Output = R;

    open spec fn accepts(&self, args: Product<T1, Product<T2, Product<T3, Product<T4, Product<T5, Product<T6, Product<T7, Product<T8, Product<T9, ()>>>>>>>>>) -> bool {
        call_requires(*self, (args.0, args.1.0, args.1.1.0, args.1.1.1.0, args.1.1.1.1.0, args.1.1.1.1.1.0, args.1.1.1.1.1.1.0, args.1.1.1.1.1.1.1.0, args.1.1.1.1.1.1.1.1.0))
    }

    open spec fn gives(&self, args: Product<T1, Product<T2, Product<T3, Product<T4, Product<T5, Product<T6, Product<T7, Product<T8, Product<T9, ()>>>>>>>>>, out: R) -> bool {
        call_ensures(*self, (args.0, args.1.0, args.1.1.0, args.1.1.1.0, args.1.1.1.1.0, args.1.1.1.1.1.0, args.1.1.1.1.1.1.0, args.1.1.1.1.1.1.1.0, args.1.1.1.1.1.1.1.1.0), out)
    }

    fn call(&self, args: Product<T1, Product<T2, Product<T3, Product<T4, Product<T5, Product<T6, Product<T7, Product<T8, Product<T9, ()>>>>>>>>>) -> (out: R) {
        let Product(t1, Product(t2, Product(t3, Product(t4, Product(t5, Product(t6, Product(t7, Product(t8, Product(t9, ()))))))))) = args;
        (*self)(t1, t2, t3, t4, t5, t6, t7, t8, t9)
    }
}

impl<F, R, T1, T2, T3, T4, T5, T6, T7, T8, T9> Func<(T1, T2, T3, T4, T5, T6, T7, T8, T9)> for F where F: Fn(T1, T2, T3, T4, T5, T6, T7, T8, T9) -> R {
    type Output = R;

    open spec fn accepts(&self, args: (T1, T2, T3, T4, T5, T6, T7, T8, T9)) -> bool {
        call_requires(*self, (args.0, args.1, args.2, args.3, args.4, args.5, args.6, args.7, args.8))
    }

    open spec fn gives(&self, args: (T1, T2, T3, T4, T5, T6, T7, T8, T9), out: R) -> bool {
        call_ensures(*self, (args.0, args.1, args.2, args.3, args.4, args.5, args.6, args.7, args.8), out)
    }

    fn call(&self, args: (T1, T2, T3, T4, T5, T6, T7, T8, T9)) -> (out: R) {
        let (t1, t2, t3, t4, t5, t6, t7, t8, t9) = args;
        (*self)(t1, t2, t3, t4, t5, t6, t7, t8, t9)
    }
}

impl<F, R, T1, T2, T3, T4, T5, T6, T7, T8, T9, T10> Func<Product<T1, Product<T2, Product<T3, Product<T4, Product<T5, Product<T6, Product<T7, Product<T8, Product<T9, Product<T10, ()>>>>>>>>>>> for F where F: Fn(T1, T2, T3, T4, T5, T6, T7, T8, T9, T10) -> R {
    type Output = R;

    open spec fn accepts(&self, args: Product<T1, Product<T2, Product<T3, Product<T4, Product<T5, Product<T6, Product<T7, Product<T8, Product<T9, Product<T10, ()>>>>>>>>>>) -> bool {
        call_requires(*self, (args.0, args.1.0, args.1.1.0, args.1.1.1.0, args.1.1.1.1.0, args.1.1.1.1.1.0, args.1.1.1.1.1.1.0, args.1.1.1.1.1.1.1.0, args.1.1.1.1.1.1.1.1.0, args.1.1.1.1.1.1.1.1.1.0))
    }

    open spec fn gives(&self, args: Product<T1, Product<T2, Product<T3, Product<T4, Product<T5, Product<T6, Product<T7, Product<T8, Product<T9, Product<T10, ()>>>>>>>>>>, out: R) -> bool {
        call_ensures(*self, (args.0, args.1.0, args.1.1.0, args.1.1.1.0, args.1.1.1.1.0, args.1.1.1.1.1.0, args.1.1.1.1.1.1.0, args.1.1.1.1.1.1.1.0, args.1.1.1.1.1.1.1.1.0, args.1.1.1.1.1.1.1.1.1.0), out)
    }

    fn call(&self, args: Product<T1, Product<T2, Product<T3, Product<T4, Product<T5, Product<T6, Product<T7, Product<T8, Product<T9, Product<T10, ()>>>>>>>>>>) -> (out: R) {
        let Product(t1, Product(t2, Product(t3, Product(t4, Product(t5, Product(t6, Product(t7, Product(t8, Product(t9, Product(t10, ())))))))))) = args;
        (*self)(t1, t2, t3, t4, t5, t6, t7, t8, t9, t10)
    }
}

impl<F, R, T1, T2, T3, T4, T5, T6, T7, T8, T9, T10> Func<(T1, T2, T3, T4, T5, T6, T7, T8, T9, T10)> for F where F: Fn(T1, T2, T3, T4, T5, T6, T7, T8, T9, T10) -> R {
    type Output = R;

    open spec fn accepts(&self, args: (T1, T2, T3, T4, T5, T6, T7, T8, T9, T10)) -> bool {
        call_requires(*self, (args.0, args.1, args.2, args.3, args.4, args.5, args.6, args.7, args.8, args.9))
    }

    open spec fn gives(&self, args: (T1, T2, T3, T4, T5, T6, T7, T8, T9, T10), out: R) -> bool {
        call_ensures(*self, (args.0, args.1, args.2, args.3, args.4, args.5, args.6, args.7, args.8, args.9), out)
    }

    fn call(&self, args: (T1, T2, T3, T4, T5, T6, T7, T8, T9, T10)) -> (out: R) {
        let (t1, t2, t3, t4, t5, t6, t7, t8, t9, t10) = args;
        (*self)(t1, t2, t3, t4, t5, t6, t7, t8, t9, t10)
    }
}

impl<F, R, T1, T2, T3, T4, T5, T6, T7, T8, T9, T10, T11> Func<Product<T1, Product<T2, Product<T3, Product<T4, Product<T5, Product<T6, Product<T7, Product<T8, Product<T9, Product<T10, Product<T11, ()>>>>>>>>>>>> for F where F: Fn(T1, T2, T3, T4, T5, T6, T7, T8, T9, T10, T11) -> R {
    type Output = R;

    open spec fn accepts(&self, args: Product<T1, Product<T2, Product<T3, Product<T4, Product<T5, Product<T6, Product<T7, Product<T8, Product<T9, Product<T10, Product<T11, ()>>>>>>>>>>>) -> bool {
        call_requires(*self, (args.0, args.1.0, args.1.1.0, args.1.1.1.0, args.1.1.1.1.0, args.1.1.1.1.1.0, args.1.1.1.1.1.1.0, args.1.1.1.1.1.1.1.0, args.1.1.1.1.1.1.1.1.0, args.1.1.1.1.1.1.1.1.1.0, args.1.1.1.1.1.1.1.1.1.1.0))
    }

    open spec fn gives(&self, args: Product<T1, Product<T2, Product<T3, Product<T4, Product<T5, Product<T6, Product<T7, Product<T8, Product<T9, Product<T10, Product<T11, ()>>>>>>>>>>>, out: R) -> bool {
        call_ensures(*self, (args.0, args.1.0, args.1.1.0, args.1.1.1.0, args.1.1.1.1.0, args.1.1.1.1.1.0, args.1.1.1.1.1.1.0, args.1.1.1.1.1.1.1.0, args.1.1.1.1.1.1.1.1.0, args.1.1.1.1.1.1.1.1.1.0, args.1.1.1.1.1.1.1.1.1.1.0), out)
    }

    fn call(&self, args: Product<T1, Product<T2, Product<T3, Product<T4, Product<T5, Product<T6, Product<T7, Product<T8, Product<T9, Product<T10, Product<T11, ()>>>>>>>>>>>) -> (out: R) {
        let Product(t1, Product(t2, Product(t3, Product(t4, Product(t5, Product(t6, Product(t7, Product(t8, Product(t9, Product(t10, Product(t11, ()))))))))))) = args;
        (*self)(t1, t2, t3, t4, t5, t6, t7, t8, t9, t10, t11)
    }
}

impl<F, R, T1, T2, T3, T4, T5, T6, T7, T8, T9, T10, T11> Func<(T1, T2, T3, T4, T5, T6, T7, T8, T9, T10, T11)> for F where F: Fn(T1, T2, T3, T4, T5, T6, T7, T8, T9, T10, T11) -> R {
    type Output = R;

    open spec fn accepts(&self, args: (T1, T2, T3, T4, T5, T6, T7, T8, T9, T10, T11)) -> bool {
        call_requires(*self, (args.0, args.1, args.2, args.3, args.4, args.5, args.6, args.7, args.8, args.9, args.10))
    }

    open spec fn gives(&self, args: (T1, T2, T3, T4, T5, T6, T7, T8, T9, T10, T11), out: R) -> bool {
        call_ensures(*self, (args.0, args.1, args.2, args.3, args.4, args.5, args.6, args.7, args.8, args.9, args.10), out)
    }

    fn call(&self, args: (T1, T2, T3, T4, T5, T6, T7, T8, T9, T10, T11)) -> (out: R) {
        let (t1, t2, t3, t4, t5, t6, t7, t8, t9, t10, t11) = args;
        (*self)(t1, t2, t3, t4, t5, t6, t7, t8, t9, t10, t11)
    }
}

impl<F, R, T1, T2, T3, T4, T5, T6, T7, T8, T9, T10, T11, T12> Func<Product<T1, Product<T2, Product<T3, Product<T4, Product<T5, Product<T6, Product<T7, Product<T8, Product<T9, Product<T10, Product<T11, Product<T12, ()>>>>>>>>>>>>> for F where F: Fn(T1, T2, T3, T4, T5, T6, T7, T8, T9, T10, T11, T12) -> R {
    type Output = R;

    open spec fn accepts(&self, args: Product<T1, Product<T2, Product<T3, Product<T4, Product<T5, Product<T6, Product<T7, Product<T8, Product<T9, Product<T10, Product<T11, Product<T12, ()>>>>>>>>>>>>) -> bool {
        call_requires(*self, (args.0, args.1.0, args.1.1.0, args.1.1.1.0, args.1.1.1.1.0, args.1.1.1.1.1.0, args.1.1.1.1.1.1.0, args.1.1.1.1.1.1.1.0, args.1.1.1.1.1.1.1.1.0, args.1.1.1.1.1.1.1.1.1.0, args.1.1.1.1.1.1.1.1.1.1.0, args.1.1.1.1.1.1.1.1.1.1.1.0))
    }

    open spec fn gives(&self, args: Product<T1, Product<T2, Product<T3, Product<T4, Product<T5, Product<T6, Product<T7, Product<T8, Product<T9, Product<T10, Product<T11, Product<T12, ()>>>>>>>>>>>>, out: R) -> bool {
        call_ensures(*self, (args.0, args.1.0, args.1.1.0, args.1.1.1.0, args.1.1.1.1.0, args.1.1.1.1.1.0, args.1.1.1.1.1.1.0, args.1.1.1.1.1.1.1.0, args.1.1.1.1.1.1.1.1.0, args.1.1.1.1.1.1.1.1.1.0, args.1.1.1.1.1.1.1.1.1.1.0, args.1.1.1.1.1.1.1.1.1.1.1.0), out)
    }

    fn call(&self, args: Product<T1, Product<T2, Product<T3, Product<T4, Product<T5, Product<T6, Product<T7, Product<T8, Product<T9, Product<T10, Product<T11, Product<T12, ()>>>>>>>>>>>>) -> (out: R) {
        let Product(t1, Product(t2, Product(t3, Product(t4, Product(t5, Product(t6, Product(t7, Product(t8, Product(t9, Product(t10, Product(t11, Product(t12, ())))))))))))) = args;
        (*self)(t1, t2, t3, t4, t5, t6, t7, t8, t9, t10, t11, t12)
    }
}

impl<F, R, T1, T2, T3, T4, T5, T6, T7, T8, T9, T10, T11, T12> Func<(T1, T2, T3, T4, T5, T6, T7, T8, T9, T10, T11, T12)> for F where F: Fn(T1, T2, T3, T4, T5, T6, T7, T8, T9, T10, T11, T12) -> R {
    type Output = R;

    open spec fn accepts(&self, args: (T1, T2, T3, T4, T5, T6, T7, T8, T9, T10, T11, T12)) -> bool {
        call_requires(*self, (args.0, args.1, args.2, args.3, args.4, args.5, args.6, args.7, args.8, args.9, args.10, args.11))
    }

    open spec fn gives(&self, args: (T1, T2, T3, T4, T5, T6, T7, T8, T9, T10, T11, T12), out: R) -> bool {
        call_ensures(*self, (args.0, args.1, args.2, args.3, args.4, args.5, args.6, args.7, args.8, args.9, args.10, args.11), out)
    }

    fn call(&self, args: (T1, T2, T3, T4, T5, T6, T7, T8, T9, T10, T11, T12)) -> (out: R) {
        let (t1, t2, t3, t4, t5, t6, t7, t8, t9, t10, t11, t12) = args;
        (*self)(t1, t2, t3, t4, t5, t6, t7, t8, t9, t10, t11, t12)
    }
}

impl<F, R, T1, T2, T3, T4, T5, T6, T7, T8, T9, T10, T11, T12, T13> Func<Product<T1, Product<T2, Product<T3, Product<T4, Product<T5, Product<T6, Product<T7, Product<T8, Product<T9, Product<T10, Product<T11, Product<T12, Product<T13, ()>>>>>>>>>>>>>> for F where F: Fn(T1, T2, T3, T4, T5, T6, T7, T8, T9, T10, T11, T12, T13) -> R {
    type Output = R;

    open spec fn accepts(&self, args: Product<T1, Product<T2, Product<T3, Product<T4, Product<T5, Product<T6, Product<T7, Product<T8, Product<T9, Product<T10, Product<T11, Product<T12, Product<T13, ()>>>>>>>>>>>>>) -> bool {
        call_requires(*self, (args.0, args.1.0, args.1.1.0, args.1.1.1.0, args.1.1.1.1.0, args.1.1.1.1.1.0, args.1.1.1.1.1.1.0, args.1.1.1.1.1.1.1.0, args.1.1.1.1.1.1.1.1.0, args.1.1.1.1.1.1.1.1.1.0, args.1.1.1.1.1.1.1.1.1.1.0, args.1.1.1.1.1.1.1.1.1.1.1.0, args.1.1.1.1.1.1.1.1.1.1.1.1.0))
    }

    open spec fn gives(&self, args: Product<T1, Product<T2, Product<T3, Product<T4, Product<T5, Product<T6, Product<T7, Product<T8, Product<T9, Product<T10, Product<T11, Product<T12, Product<T13, ()>>>>>>>>>>>>>, out: R) -> bool {
        call_ensures(*self, (args.0, args.1.0, args.1.1.0, args.1.1.1.0, args.1.1.1.1.0, args.1.1.1.1.1.0, args.1.1.1.1.1.1.0, args.1.1.1.1.1.1.1.0, args.1.1.1.1.1.1.1.1.0, args.1.1.1.1.1.1.1.1.1.0, args.1.1.1.1.1.1.1.1.1.1.0, args.1.1.1.1.1.1.1.1.1.1.1.0, args.1.1.1.1.1.1.1.1.1.1.1.1.0), out)
    }

    fn call(&self, args: Product<T1, Product<T2, Product<T3, Product<T4, Product<T5, Product<T6, Product<T7, Product<T8, Product<T9, Product<T10, Product<T11, Product<T12, Product<T13, ()>>>>>>>>>>>>>) -> (out: R) {
        let Product(t1, Product(t2, Product(t3, Product(t4, Product(t5, Product(t6, Product(t7, Product(t8, Product(t9, Product(t10, Product(t11, Product(t12, Product(t13, ()))))))))))))) = args;
        (*self)(t1, t2, t3, t4, t5, t6, t7, t8, t9, t10, t11, t12, t13)
    }
}

impl<F, R, T1, T2, T3, T4, T5, T6, T7, T8, T9, T10, T11, T12, T13> Func<(T1, T2, T3, T4, T5, T6, T7, T8, T9, T10, T11, T12, T13)> for F where F: Fn(T1, T2, T3, T4, T5, T6, T7, T8, T9, T10, T11, T12, T13) -> R {
    type Output = R;

    open spec fn accepts(&self, args: (T1, T2, T3, T4, T5, T6, T7, T8, T9, T10, T11, T12, T13)) -> bool {
        call_requires(*self, (args.0, args.1, args.2, args.3, args.4, args.5, args.6, args.7, args.8, args.9, args.10, args.11, args.12))
    }

    open spec fn gives(&self, args: (T1, T2, T3, T4, T5, T6, T7, T8, T9, T10, T11, T12, T13), out: R) -> bool {
        call_ensures(*self, (args.0, args.1, args.2, args.3, args.4, args.5, args.6, args.7, args.8, args.9, args.10, args.11, args.12), out)
    }

    fn call(&self, args: (T1, T2, T3, T4, T5, T6, T7, T8, T9, T10, T11, T12, T13)) -> (out: R) {
        let (t1, t2, t3, t4, t5, t6, t7, t8, t9, t10, t11, t12, t13) = args;
        (*self)(t1, t2, t3, t4, t5, t6, t7, t8, t9, t10, t11, t12, t13)
    }
}

impl<F, R, T1, T2, T3, T4, T5, T6, T7, T8, T9, T10, T11, T12, T13, T14> Func<Product<T1, Product<T2, Product<T3, Product<T4, Product<T5, Product<T6, Product<T7, Product<T8, Product<T9, Product<T10, Product<T11, Product<T12, Product<T13, Product<T14, ()>>>>>>>>>>>>>>> for F where F: Fn(T1, T2, T3, T4, T5, T6, T7, T8, T9, T10, T11, T12, T13, T14) -> R {
    type Output = R;

    open spec fn accepts(&self, args: Product<T1, Product<T2, Product<T3, Product<T4, Product<T5, Product<T6, Product<T7, Product<T8, Product<T9, Product<T10, Product<T11, Product<T12, Product<T13, Product<T14, ()>>>>>>>>>>>>>>) -> bool {
        call_requires(*self, (args.0, args.1.0, args.1.1.0, args.1.1.1.0, args.1.1.1.1.0, args.1.1.1.1.1.0, args.1.1.1.1.1.1.0, args.1.1.1.1.1.1.1.0, args.1.1.1.1.1.1.1.1.0, args.1.1.1.1.1.1.1.1.1.0, args.1.1.1.1.1.1.1.1.1.1.0, args.1.1.1.1.1.1.1.1.1.1.1.0, args.1.1.1.1.1.1.1.1.1.1.1.1.0, args.1.1.1.1.1.1.1.1.1.1.1.1.1.0))
    }

    open spec fn gives(&self, args: Product<T1, Product<T2, Product<T3, Product<T4, Product<T5, Product<T6, Product<T7, Product<T8, Product<T9, Product<T10, Product<T11, Product<T12, Product<T13, Product<T14, ()>>>>>>>>>>>>>>, out: R) -> bool {
        call_ensures(*self, (args.0, args.1.0, args.1.1.0, args.1.1.1.0, args.1.1.1.1.0, args.1.1.1.1.1.0, args.1.1.1.1.1.1.0, args.1.1.1.1.1.1.1.0, args.1.1.1.1.1.1.1.1.0, args.1.1.1.1.1.1.1.1.1.0, args.1.1.1.1.1.1.1.1.1.1.0, args.1.1.1.1.1.1.1.1.1.1.1.0, args.1.1.1.1.1.1.1.1.1.1.1.1.0, args.1.1.1.1.1.1.1.1.1.1.1.1.1.0), out)
    }

    fn call(&self, args: Product<T1, Product<T2, Product<T3, Product<T4, Product<T5, Product<T6, Product<T7, Product<T8, Product<T9, Product<T10, Product<T11, Product<T12, Product<T13, Product<T14, ()>>>>>>>>>>>>>>) -> (out: R) {
        let Product(t1, Product(t2, Product(t3, Product(t4, Product(t5, Product(t6, Product(t7, Product(t8, Product(t9, Product(t10, Product(t11, Product(t12, Product(t13, Product(t14, ())))))))))))))) = args;
        (*self)(t1, t2, t3, t4, t5, t6, t7, t8, t9, t10, t11, t12, t13, t14)
    }
}

impl<F, R, T1, T2, T3, T4, T5, T6, T7, T8, T9, T10, T11, T12, T13, T14> Func<(T1, T2, T3, T4, T5, T6, T7, T8, T9, T10, T11, T12, T13, T14)> for F where F: Fn(T1, T2, T3, T4, T5, T6, T7, T8, T9, T10, T11, T12, T13, T14) -> R {
    type Output = R;

    open spec fn accepts(&self, args: (T1, T2, T3, T4, T5, T6, T7, T8, T9, T10, T11, T12, T13, T14)) -> bool {
        call_requires(*self, (args.0, args.1, args.2, args.3, args.4, args.5, args.6, args.7, args.8, args.9, args.10, args.11, args.12, args.13))
    }

    open spec fn gives(&self, args: (T1, T2, T3, T4, T5, T6, T7, T8, T9, T10, T11, T12, T13, T14), out: R) -> bool {
        call_ensures(*self, (args.0, args.1, args.2, args.3, args.4, args.5, args.6, args.7, args.8, args.9, args.10, args.11, args.12, args.13), out)
    }

    fn call(&self, args: (T1, T2, T3, T4, T5, T6, T7, T8, T9, T10, T11, T12, T13, T14)) -> (out: R) {
        let (t1, t2, t3, t4, t5, t6, t7, t8, t9, t10, t11, t12, t13, t14) = args;
        (*self)(t1, t2, t3, t4, t5, t6, t7, t8, t9, t10, t11, t12, t13, t14)
    }
}

impl<F, R, T1, T2, T3, T4, T5, T6, T7, T8, T9, T10, T11, T12, T13, T14, T15> Func<Product<T1, Product<T2, Product<T3, Product<T4, Product<T5, Product<T6, Product<T7, Product<T8, Product<T9, Product<T10, Product<T11, Product<T12, Product<T13, Product<T14, Product<T15, ()>>>>>>>>>>>>>>>> for F where F: Fn(T1, T2, T3, T4, T5, T6, T7, T8, T9, T10, T11, T12, T13, T14, T15) -> R {
    type Output = R;

    open spec fn accepts(&self, args: Product<T1, Product<T2, Product<T3, Product<T4, Product<T5, Product<T6, Product<T7, Product<T8, Product<T9, Product<T10, Product<T11, Product<T12, Product<T13, Product<T14, Product<T15, ()>>>>>>>>>>>>>>>) -> bool {
        call_requires(*self, (args.0, args.1.0, args.1.1.0, args.1.1.1.0, args.1.1.1.1.0, args.1.1.1.1.1.0, args.1.1.1.1.1.1.0, args.1.1.1.1.1.1.1.0, args.1.1.1.1.1.1.1.1.0, args.1.1.1.1.1.1.1.1.1.0, args.1.1.1.1.1.1.1.1.1.1.0, args.1.1.1.1.1.1.1.1.1.1.1.0, args.1.1.1.1.1.1.1.1.1.1.1.1.0, args.1.1.1.1.1.1.1.1.1.1.1.1.1.0, args.1.1.1.1.1.1.1.1.1.1.1.1.1.1.0))
    }

    open spec fn gives(&self, args: Product<T1, Product<T2, Product<T3, Product<T4, Product<T5, Product<T6, Product<T7, Product<T8, Product<T9, Product<T10, Product<T11, Product<T12, Product<T13, Product<T14, Product<T15, ()>>>>>>>>>>>>>>>, out: R) -> bool {
        call_ensures(*self, (args.0, args.1.0, args.1.1.0, args.1.1.1.0, args.1.1.1.1.0, args.1.1.1.1.1.0, args.1.1.1.1.1.1.0, args.1.1.1.1.1.1.1.0, args.1.1.1.1.1.1.1.1.0, args.1.1.1.1.1.1.1.1.1.0, args.1.1.1.1.1.1.1.1.1.1.0, args.1.1.1.1.1.1.1.1.1.1.1.0, args.1.1.1.1.1.1.1.1.1.1.1.1.0, args.1.1.1.1.1.1.1.1.1.1.1.1.1.0, args.1.1.1.1.1.1.1.1.1.1.1.1.1.1.0), out)
    }

    fn call(&self, args: Product<T1, Product<T2, Product<T3, Product<T4, Product<T5, Product<T6, Product<T7, Product<T8, Product<T9, Product<T10, Product<T11, Product<T12, Product<T13, Product<T14, Product<T15, ()>>>>>>>>>>>>>>>) -> (out: R) {
        let Product(t1, Product(t2, Product(t3, Product(t4, Product(t5, Product(t6, Product(t7, Product(t8, Product(t9, Product(t10, Product(t11, Product(t12, Product(t13, Product(t14, Product(t15, ()))))))))))))))) = args;
        (*self)(t1, t2, t3, t4, t5, t6, t7, t8, t9, t10, t11, t12, t13, t14, t15)
    }
}

impl<F, R, T1, T2, T3, T4, T5, T6, T7, T8, T9, T10, T11, T12, T13, T14, T15> Func<(T1, T2, T3, T4, T5, T6, T7, T8, T9, T10, T11, T12, T13, T14, T15)> for F where F: Fn(T1, T2, T3, T4, T5, T6, T7, T8, T9, T10, T11, T12, T13, T14, T15) -> R {
    type Output = R;

    open spec fn accepts(&self, args: (T1, T2, T3, T4, T5, T6, T7, T8, T9, T10, T11, T12, T13, T14, T15)) -> bool {
        call_requires(*self, (args.0, args.1, args.2, args.3, args.4, args.5, args.6, args.7, args.8, args.9, args.10, args.11, args.12, args.13, args.14))
    }

    open spec fn gives(&self, args: (T1, T2, T3, T4, T5, T6, T7, T8, T9, T10, T11, T12, T13, T14, T15), out: R) -> bool {
        call_ensures(*self, (args.0, args.1, args.2, args.3, args.4, args.5, args.6, args.7, args.8, args.9, args.10, args.11, args.12, args.13, args.14), out)
    }

    fn call(&self, args: (T1, T2, T3, T4, T5, T6, T7, T8, T9, T10, T11, T12, T13, T14, T15)) -> (out: R) {
        let (t1, t2, t3, t4, t5, t6, t7, t8, t9, t10, t11, t12, t13, t14, t15) = args;
        (*self)(t1, t2, t3, t4, t5, t6, t7, t8, t9, t10, t11, t12, t13, t14, t15)
    }
}

impl<F, R, T1, T2, T3, T4, T5, T6, T7, T8, T9, T10, T11, T12, T13, T14, T15, T16> Func<Product<T1, Product<T2, Product<T3, Product<T4, Product<T5, Product<T6, Product<T7, Product<T8, Product<T9, Product<T10, Product<T11, Product<T12, Product<T13, Product<T14, Product<T15, Product<T16, ()>>>>>>>>>>>>>>>>> for F where F: Fn(T1, T2, T3, T4, T5, T6, T7, T8, T9, T10, T11, T12, T13, T14, T15, T16) -> R {
    type Output = R;

    open spec fn accepts(&self, args: Product<T1, Product<T2, Product<T3, Product<T4, Product<T5, Product<T6, Product<T7, Product<T8, Product<T9, Product<T10, Product<T11, Product<T12, Product<T13, Product<T14, Product<T15, Product<T16, ()>>>>>>>>>>>>>>>>) -> bool {
        call_requires(*self, (args.0, args.1.0, args.1.1.0, args.1.1.1.0, args.1.1.1.1.0, args.1.1.1.1.1.0, args.1.1.1.1.1.1.0, args.1.1.1.1.1.1.1.0, args.1.1.1.1.1.1.1.1.0, args.1.1.1.1.1.1.1.1.1.0, args.1.1.1.1.1.1.1.1.1.1.0, args.1.1.1.1.1.1.1.1.1.1.1.0, args.1.1.1.1.1.1.1.1.1.1.1.1.0, args.1.1.1.1.1.1.1.1.1.1.1.1.1.0, args.1.1.1.1.1.1.1.1.1.1.1.1.1.1.0, args.1.1.1.1.1.1.1.1.1.1.1.1.1.1.1.0))
    }

    open spec fn gives(&self, args: Product<T1, Product<T2, Product<T3, Product<T4, Product<T5, Product<T6, Product<T7, Product<T8, Product<T9, Product<T10, Product<T11, Product<T12, Product<T13, Product<T14, Product<T15, Product<T16, ()>>>>>>>>>>>>>>>>, out: R) -> bool {
        call_ensures(*self, (args.0, args.1.0, args.1.1.0, args.1.1.1.0, args.1.1.1.1.0, args.1.1.1.1.1.0, args.1.1.1.1.1.1.0, args.1.1.1.1.1.1.1.0, args.1.1.1.1.1.1.1.1.0, args.1.1.1.1.1.1.1.1.1.0, args.1.1.1.1.1.1.1.1.1.1.0, args.1.1.1.1.1.1.1.1.1.1.1.0, args.1.1.1.1.1.1.1.1.1.1.1.1.0, args.1.1.1.1.1.1.1.1.1.1.1.1.1.0, args.1.1.1.1.1.1.1.1.1.1.1.1.1.1.0, args.1.1.1.1.1.1.1.1.1.1.1.1.1.1.1.0), out)
    }

    fn call(&self, args: Product<T1, Product<T2, Product<T3, Product<T4, Product<T5, Product<T6, Product<T7, Product<T8, Product<T9, Product<T10, Product<T11, Product<T12, Product<T13, Product<T14, Product<T15, Product<T16, ()>>>>>>>>>>>>>>>>) -> (out: R) {
        let Product(t1, Product(t2, Product(t3, Product(t4, Product(t5, Product(t6, Product(t7, Product(t8, Product(t9, Product(t10, Product(t11, Product(t12, Product(t13, Product(t14, Product(t15, Product(t16, ())))))))))))))))) = args;
        (*self)(t1, t2, t3, t4, t5, t6, t7, t8, t9, t10, t11, t12, t13, t14, t15, t16)
    }
}

impl<F, R, T1, T2, T3, T4, T5, T6, T7, T8, T9, T10, T11, T12, T13, T14, T15, T16> Func<(T1, T2, T3, T4, T5, T6, T7, T8, T9, T10, T11, T12, T13, T14, T15, T16)> for F where F: Fn(T1, T2, T3, T4, T5, T6, T7, T8, T9, T10, T11, T12, T13, T14, T15, T16) -> R {
    type Output = R;

    open spec fn accepts(&self, args: (T1, T2, T3, T4, T5, T6, T7, T8, T9, T10, T11, T12, T13, T14, T15, T16)) -> bool {
        call_requires(*self, (args.0, args.1, args.2, args.3, args.4, args.5, args.6, args.7, args.8, args.9, args.10, args.11, args.12, args.13, args.14, args.15))
    }

    open spec fn gives(&self, args: (T1, T2, T3, T4, T5, T6, T7, T8, T9, T10, T11, T12, T13, T14, T15, T16), out: R) -> bool {
        call_ensures(*self, (args.0, args.1, args.2, args.3, args.4, args.5, args.6, args.7, args.8, args.9, args.10, args.11, args.12, args.13, args.14, args.15), out)
    }

    fn call(&self, args: (T1, T2, T3, T4, T5, T6, T7, T8, T9, T10, T11, T12, T13, T14, T15, T16)) -> (out: R) {
        let (t1, t2, t3, t4, t5, t6, t7, t8, t9, t10, t11, t12, t13, t14, t15, t16) = args;
        (*self)(t1, t2, t3, t4, t5, t6, t7, t8, t9, t10, t11, t12, t13, t14, t15, t16)
    }
}

/// Calling `f` through `Func` with a tuple of 1, or with the list form of that
/// tuple, is calling `f` with the tuple's elements, in order: it is allowed
/// exactly when `f` accepts those elements and gives exactly what `f` gives.
pub proof fn lemma_call_tuple_as_list_1<F, R, T1>(f: F, args: (T1,)) where F: Fn(T1) -> R
    ensures
        <F as Func<(T1,)>>::accepts(&f, args) == call_requires(f, (args.0,)),
        forall|out: R| <F as Func<(T1,)>>::gives(&f, args, out) == call_ensures(f, (args.0,), out),
        <F as Func<(T1,)>>::accepts(&f, args) == <F as Func<Product<T1, ()>>>::accepts(
            &f,
            args.hlist_spec(),
        ),
        forall|out: R|
            <F as Func<(T1,)>>::gives(&f, args, out) == <F as Func<Product<T1, ()>>>::gives(
                &f,
                args.hlist_spec(),
                out,
            ),
{
}

/// Calling `f` through `Func` with a tuple of 2, or with the list form of that
/// tuple, is calling `f` with the tuple's elements, in order: it is allowed
/// exactly when `f` accepts those elements and gives exactly what `f` gives.
pub proof fn lemma_call_tuple_as_list_2<F, R, T1, T2>(f: F, args: (T1, T2)) where F: Fn(T1, T2) -> R
    ensures
        <F as Func<(T1, T2)>>::accepts(&f, args) == call_requires(f, (args.0, args.1)),
        forall|out: R| <F as Func<(T1, T2)>>::gives(&f, args, out) == call_ensures(f, (args.0, args.1), out),
        <F as Func<(T1, T2)>>::accepts(&f, args) == <F as Func<Product<T1, Product<T2, ()>>>>::accepts(
            &f,
            args.hlist_spec(),
        ),
        forall|out: R|
            <F as Func<(T1, T2)>>::gives(&f, args, out) == <F as Func<Product<T1, Product<T2, ()>>>>::gives(
                &f,
                args.hlist_spec(),
                out,
            ),
{
}

/// Calling `f` through `Func` with a tuple of 3, or with the list form of that
/// tuple, is calling `f` with the tuple's elements, in order: it is allowed
/// exactly when `f` accepts those elements and gives exactly what `f` gives.
pub proof fn lemma_call_tuple_as_list_3<F, R, T1, T2, T3>(f: F, args: (T1, T2, T3)) where F: Fn(T1, T2, T3) -> R
    ensures
        <F as Func<(T1, T2, T3)>>::accepts(&f, args) == call_requires(f, (args.0, args.1, args.2)),
        forall|out: R| <F as Func<(T1, T2, T3)>>::gives(&f, args, out) == call_ensures(f, (args.0, args.1, args.2), out),
        <F as Func<(T1, T2, T3)>>::accepts(&f, args) == <F as Func<Product<T1, Product<T2, Product<T3, ()>>>>>::accepts(
            &f,
            args.hlist_spec(),
        ),
        forall|out: R|
            <F as Func<(T1, T2, T3)>>::gives(&f, args, out) == <F as Func<Product<T1, Product<T2, Product<T3, ()>>>>>::gives(
                &f,
                args.hlist_spec(),
                out,
            ),
{
}

/// Calling `f` through `Func` with a tuple of 4, or with the list form of that
/// tuple, is calling `f` with the tuple's elements, in order: it is allowed
/// exactly when `f` accepts those elements and gives exactly what `f` gives.
pub proof fn lemma_call_tuple_as_list_4<F, R, T1, T2, T3, T4>(f: F, args: (T1, T2, T3, T4)) where F: Fn(T1, T2, T3, T4) -> R
    ensures
        <F as Func<(T1, T2, T3, T4)>>::accepts(&f, args) == call_requires(f, (args.0, args.1, args.2, args.3)),
        forall|out: R| <F as Func<(T1, T2, T3, T4)>>::gives(&f, args, out) == call_ensures(f, (args.0, args.1, args.2, args.3), out),
        <F as Func<(T1, T2, T3, T4)>>::accepts(&f, args) == <F as Func<Product<T1, Product<T2, Product<T3, Product<T4, ()>>>>>>::accepts(
            &f,
            args.hlist_spec(),
        ),
        forall|out: R|
            <F as Func<(T1, T2, T3, T4)>>::gives(&f, args, out) == <F as Func<Product<T1, Product<T2, Product<T3, Product<T4, ()>>>>>>::gives(
                &f,
                args.hlist_spec(),
                out,
            ),
{
}

/// Calling `f` through `Func` with a tuple of 5, or with the list form of that
/// tuple, is calling `f` with the tuple's elements, in order: it is allowed
/// exactly when `f` accepts those elements and gives exactly what `f` gives.
pub proof fn lemma_call_tuple_as_list_5<F, R, T1, T2, T3, T4, T5>(f: F, args: (T1, T2, T3, T4, T5)) where F: Fn(T1, T2, T3, T4, T5) -> R
    ensures
        <F as Func<(T1, T2, T3, T4, T5)>>::accepts(&f, args) == call_requires(f, (args.0, args.1, args.2, args.3, args.4)),
        forall|out: R| <F as Func<(T1, T2, T3, T4, T5)>>::gives(&f, args, out) == call_ensures(f, (args.0, args.1, args.2, args.3, args.4), out),
        <F as Func<(T1, T2, T3, T4, T5)>>::accepts(&f, args) == <F as Func<Product<T1, Product<T2, Product<T3, Product<T4, Product<T5, ()>>>>>>>::accepts(
            &f,
            args.hlist_spec(),
        ),
        forall|out: R|
            <F as Func<(T1, T2, T3, T4, T5)>>::gives(&f, args, out) == <F as Func<Product<T1, Product<T2, Product<T3, Product<T4, Product<T5, ()>>>>>>>::gives(
                &f,
                args.hlist_spec(),
                out,
            ),
{
}

/// Calling `f` through `Func` with a tuple of 6, or with the list form of that
/// tuple, is calling `f` with the tuple's elements, in order: it is allowed
/// exactly when `f` accepts those elements and gives exactly what `f` gives.
pub proof fn lemma_call_tuple_as_list_6<F, R, T1, T2, T3, T4, T5, T6>(f: F, args: (T1, T2, T3, T4, T5, T6)) where F: Fn(T1, T2, T3, T4, T5, T6) -> R
    ensures
        <F as Func<(T1, T2, T3, T4, T5, T6)>>::accepts(&f, args) == call_requires(f, (args.0, args.1, args.2, args.3, args.4, args.5)),
        forall|out: R| <F as Func<(T1, T2, T3, T4, T5, T6)>>::gives(&f, args, out) == call_ensures(f, (args.0, args.1, args.2, args.3, args.4, args.5), out),
        <F as Func<(T1, T2, T3, T4, T5, T6)>>::accepts(&f, args) == <F as Func<Product<T1, Product<T2, Product<T3, Product<T4, Product<T5, Product<T6, ()>>>>>>>>::accepts(
            &f,
            args.hlist_spec(),
        ),
        forall|out: R|
            <F as Func<(T1, T2, T3, T4, T5, T6)>>::gives(&f, args, out) == <F as Func<Product<T1, Product<T2, Product<T3, Product<T4, Product<T5, Product<T6, ()>>>>>>>>::gives(
                &f,
                args.hlist_spec(),
                out,
            ),
{
}

/// Calling `f` through `Func` with a tuple of 7, or with the list form of that
/// tuple, is calling `f` with the tuple's elements, in order: it is allowed
/// exactly when `f` accepts those elements and gives exactly what `f` gives.
pub proof fn lemma_call_tuple_as_list_7<F, R, T1, T2, T3, T4, T5, T6, T7>(f: F, args: (T1, T2, T3, T4, T5, T6, T7)) where F: Fn(T1, T2, T3, T4, T5, T6, T7) -> R
    ensures
        <F as Func<(T1, T2, T3, T4, T5, T6, T7)>>::accepts(&f, args) == call_requires(f, (args.0, args.1, args.2, args.3, args.4, args.5, args.6)),
        forall|out: R| <F as Func<(T1, T2, T3, T4, T5, T6, T7)>>::gives(&f, args, out) == call_ensures(f, (args.0, args.1, args.2, args.3, args.4, args.5, args.6), out),
        <F as Func<(T1, T2, T3, T4, T5, T6, T7)>>::accepts(&f, args) == <F as Func<Product<T1, Product<T2, Product<T3, Product<T4, Product<T5, Product<T6, Product<T7, ()>>>>>>>>>::accepts(
            &f,
            args.hlist_spec(),
        ),
        forall|out: R|
            <F as Func<(T1, T2, T3, T4, T5, T6, T7)>>::gives(&f, args, out) == <F as Func<Product<T1, Product<T2, Product<T3, Product<T4, Product<T5, Product<T6, Product<T7, ()>>>>>>>>>::gives(
                &f,
                args.hlist_spec(),
                out,
            ),
{
}

/// Calling `f` through `Func` with a tuple of 8, or with the list form of that
/// tuple, is calling `f` with the tuple's elements, in order: it is allowed
/// exactly when `f` accepts those elements and gives exactly what `f` gives.
pub proof fn lemma_call_tuple_as_list_8<F, R, T1, T2, T3, T4, T5, T6, T7, T8>(f: F, args: (T1, T2, T3, T4, T5, T6, T7, T8)) where F: Fn(T1, T2, T3, T4, T5, T6, T7, T8) -> R
    ensures
        <F as Func<(T1, T2, T3, T4, T5, T6, T7, T8)>>::accepts(&f, args) == call_requires(f, (args.0, args.1, args.2, args.3, args.4, args.5, args.6, args.7)),
        forall|out: R| <F as Func<(T1, T2, T3, T4, T5, T6, T7, T8)>>::gives(&f, args, out) == call_ensures(f, (args.0, args.1, args.2, args.3, args.4, args.5, args.6, args.7), out),
        <F as Func<(T1, T2, T3, T4, T5, T6, T7, T8)>>::accepts(&f, args) == <F as Func<Product<T1, Product<T2, Product<T3, Product<T4, Product<T5, Product<T6, Product<T7, Product<T8, ()>>>>>>>>>>::accepts(
            &f,
            args.hlist_spec(),
        ),
        forall|out: R|
            <F as Func<(T1, T2, T3, T4, T5, T6, T7, T8)>>::gives(&f, args, out) == <F as Func<Product<T1, Product<T2, Product<T3, Product<T4, Product<T5, Product<T6, Product<T7, Product<T8, ()>>>>>>>>>>::gives(
                &f,
                args.hlist_spec(),
                out,
            ),
{
}

/// Calling `f` through `Func` with a tuple of 9, or with the list form of that
/// tuple, is calling `f` with the tuple's elements, in order: it is allowed
/// exactly when `f` accepts those elements and gives exactly what `f` gives.
pub proof fn lemma_call_tuple_as_list_9<F, R, T1, T2, T3, T4, T5, T6, T7, T8, T9>(f: F, args: (T1, T2, T3, T4, T5, T6, T7, T8, T9)) where F: Fn(T1, T2, T3, T4, T5, T6, T7, T8, T9) -> R
    ensures
        <F as Func<(T1, T2, T3, T4, T5, T6, T7, T8, T9)>>::accepts(&f, args) == call_requires(f, (args.0, args.1, args.2, args.3, args.4, args.5, args.6, args.7, args.8)),
        forall|out: R| <F as Func<(T1, T2, T3, T4, T5, T6, T7, T8, T9)>>::gives(&f, args, out) == call_ensures(f, (args.0, args.1, args.2, args.3, args.4, args.5, args.6, args.7, args.8), out),
        <F as Func<(T1, T2, T3, T4, T5, T6, T7, T8, T9)>>::accepts(&f, args) == <F as Func<Product<T1, Product<T2, Product<T3, Product<T4, Product<T5, Product<T6, Product<T7, Product<T8, Product<T9, ()>>>>>>>>>>>::accepts(
            &f,
            args.hlist_spec(),
        ),
        forall|out: R|
            <F as Func<(T1, T2, T3, T4, T5, T6, T7, T8, T9)>>::gives(&f, args, out) == <F as Func<Product<T1, Product<T2, Product<T3, Product<T4, Product<T5, Product<T6, Product<T7, Product<T8, Product<T9, ()>>>>>>>>>>>::gives(
                &f,
                args.hlist_spec(),
                out,
            ),
{
}

/// Calling `f` through `Func` with a tuple of 10, or with the list form of that
/// tuple, is calling `f` with the tuple's elements, in order: it is allowed
/// exactly when `f` accepts those elements and gives exactly what `f` gives.
pub proof fn lemma_call_tuple_as_list_10<F, R, T1, T2, T3, T4, T5, T6, T7, T8, T9, T10>(f: F, args: (T1, T2, T3, T4, T5, T6, T7, T8, T9, T10)) where F: Fn(T1, T2, T3, T4, T5, T6, T7, T8, T9, T10) -> R
    ensures
        <F as Func<(T1, T2, T3, T4, T5, T6, T7, T8, T9, T10)>>::accepts(&f, args) == call_requires(f, (args.0, args.1, args.2, args.3, args.4, args.5, args.6, args.7, args.8, args.9)),
        forall|out: R| <F as Func<(T1, T2, T3, T4, T5, T6, T7, T8, T9, T10)>>::gives(&f, args, out) == call_ensures(f, (args.0, args.1, args.2, args.3, args.4, args.5, args.6, args.7, args.8, args.9), out),
        <F as Func<(T1, T2, T3, T4, T5, T6, T7, T8, T9, T10)>>::accepts(&f, args) == <F as Func<Product<T1, Product<T2, Product<T3, Product<T4, Product<T5, Product<T6, Product<T7, Product<T8, Product<T9, Product<T10, ()>>>>>>>>>>>>::accepts(
            &f,
            args.hlist_spec(),
        ),
        forall|out: R|
            <F as Func<(T1, T2, T3, T4, T5, T6, T7, T8, T9, T10)>>::gives(&f, args, out) == <F as Func<Product<T1, Product<T2, Product<T3, Product<T4, Product<T5, Product<T6, Product<T7, Product<T8, Product<T9, Product<T10, ()>>>>>>>>>>>>::gives(
                &f,
                args.hlist_spec(),
                out,
            ),
{
}

/// Calling `f` through `Func` with a tuple of 11, or with the list form of that
/// tuple, is calling `f` with the tuple's elements, in order: it is allowed
/// exactly when `f` accepts those elements and gives exactly what `f` gives.
pub proof fn lemma_call_tuple_as_list_11<F, R, T1, T2, T3, T4, T5, T6, T7, T8, T9, T10, T11>(f: F, args: (T1, T2, T3, T4, T5, T6, T7, T8, T9, T10, T11)) where F: Fn(T1, T2, T3, T4, T5, T6, T7, T8, T9, T10, T11) -> R
    ensures
        <F as Func<(T1, T2, T3, T4, T5, T6, T7, T8, T9, T10, T11)>>::accepts(&f, args) == call_requires(f, (args.0, args.1, args.2, args.3, args.4, args.5, args.6, args.7, args.8, args.9, args.10)),
        forall|out: R| <F as Func<(T1, T2, T3, T4, T5, T6, T7, T8, T9, T10, T11)>>::gives(&f, args, out) == call_ensures(f, (args.0, args.1, args.2, args.3, args.4, args.5, args.6, args.7, args.8, args.9, args.10), out),
        <F as Func<(T1, T2, T3, T4, T5, T6, T7, T8, T9, T10, T11)>>::accepts(&f, args) == <F as Func<Product<T1, Product<T2, Product<T3, Product<T4, Product<T5, Product<T6, Product<T7, Product<T8, Product<T9, Product<T10, Product<T11, ()>>>>>>>>>>>>>::accepts(
            &f,
            args.hlist_spec(),
        ),
        forall|out: R|
            <F as Func<(T1, T2, T3, T4, T5, T6, T7, T8, T9, T10, T11)>>::gives(&f, args, out) == <F as Func<Product<T1, Product<T2, Product<T3, Product<T4, Product<T5, Product<T6, Product<T7, Product<T8, Product<T9, Product<T10, Product<T11, ()>>>>>>>>>>>>>::gives(
                &f,
                args.hlist_spec(),
                out,
            ),
{
}

/// Calling `f` through `Func` with a tuple of 12, or with the list form of that
/// tuple, is calling `f` with the tuple's elements, in order: it is allowed
/// exactly when `f` accepts those elements and gives exactly what `f` gives.
pub proof fn lemma_call_tuple_as_list_12<F, R, T1, T2, T3, T4, T5, T6, T7, T8, T9, T10, T11, T12>(f: F, args: (T1, T2, T3, T4, T5, T6, T7, T8, T9, T10, T11, T12)) where F: Fn(T1, T2, T3, T4, T5, T6, T7, T8, T9, T10, T11, T12) -> R
    ensures
        <F as Func<(T1, T2, T3, T4, T5, T6, T7, T8, T9, T10, T11, T12)>>::accepts(&f, args) == call_requires(f, (args.0, args.1, args.2, args.3, args.4, args.5, args.6, args.7, args.8, args.9, args.10, args.11)),
        forall|out: R| <F as Func<(T1, T2, T3, T4, T5, T6, T7, T8, T9, T10, T11, T12)>>::gives(&f, args, out) == call_ensures(f, (args.0, args.1, args.2, args.3, args.4, args.5, args.6, args.7, args.8, args.9, args.10, args.11), out),
        <F as Func<(T1, T2, T3, T4, T5, T6, T7, T8, T9, T10, T11, T12)>>::accepts(&f, args) == <F as Func<Product<T1, Product<T2, Product<T3, Product<T4, Product<T5, Product<T6, Product<T7, Product<T8, Product<T9, Product<T10, Product<T11, Product<T12, ()>>>>>>>>>>>>>>::accepts(
            &f,
            args.hlist_spec(),
        ),
        forall|out: R|
            <F as Func<(T1, T2, T3, T4, T5, T6, T7, T8, T9, T10, T11, T12)>>::gives(&f, args, out) == <F as Func<Product<T1, Product<T2, Product<T3, Product<T4, Product<T5, Product<T6, Product<T7, Product<T8, Product<T9, Product<T10, Product<T11, Product<T12, ()>>>>>>>>>>>>>>::gives(
                &f,
                args.hlist_spec(),
                out,
            ),
{
}

/// Calling `f` through `Func` with a tuple of 13, or with the list form of that
/// tuple, is calling `f` with the tuple's elements, in order: it is allowed
/// exactly when `f` accepts those elements and gives exactly what `f` gives.
pub proof fn lemma_call_tuple_as_list_13<F, R, T1, T2, T3, T4, T5, T6, T7, T8, T9, T10, T11, T12, T13>(f: F, args: (T1, T2, T3, T4, T5, T6, T7, T8, T9, T10, T11, T12, T13)) where F: Fn(T1, T2, T3, T4, T5, T6, T7, T8, T9, T10, T11, T12, T13) -> R
    ensures
        <F as Func<(T1, T2, T3, T4, T5, T6, T7, T8, T9, T10, T11, T12, T13)>>::accepts(&f, args) == call_requires(f, (args.0, args.1, args.2, args.3, args.4, args.5, args.6, args.7, args.8, args.9, args.10, args.11, args.12)),
        forall|out: R| <F as Func<(T1, T2, T3, T4, T5, T6, T7, T8, T9, T10, T11, T12, T13)>>::gives(&f, args, out) == call_ensures(f, (args.0, args.1, args.2, args.3, args.4, args.5, args.6, args.7, args.8, args.9, args.10, args.11, args.12), out),
        <F as Func<(T1, T2, T3, T4, T5, T6, T7, T8, T9, T10, T11, T12, T13)>>::accepts(&f, args) == <F as Func<Product<T1, Product<T2, Product<T3, Product<T4, Product<T5, Product<T6, Product<T7, Product<T8, Product<T9, Product<T10, Product<T11, Product<T12, Product<T13, ()>>>>>>>>>>>>>>>::accepts(
            &f,
            args.hlist_spec(),
        ),
        forall|out: R|
            <F as Func<(T1, T2, T3, T4, T5, T6, T7, T8, T9, T10, T11, T12, T13)>>::gives(&f, args, out) == <F as Func<Product<T1, Product<T2, Product<T3, Product<T4, Product<T5, Product<T6, Product<T7, Product<T8, Product<T9, Product<T10, Product<T11, Product<T12, Product<T13, ()>>>>>>>>>>>>>>>::gives(
                &f,
                args.hlist_spec(),
                out,
            ),
{
}

/// Calling `f` through `Func` with a tuple of 14, or with the list form of that
/// tuple, is calling `f` with the tuple's elements, in order: it is allowed
/// exactly when `f` accepts those elements and gives exactly what `f` gives.
pub proof fn lemma_call_tuple_as_list_14<F, R, T1, T2, T3, T4, T5, T6, T7, T8, T9, T10, T11, T12, T13, T14>(f: F, args: (T1, T2, T3, T4, T5, T6, T7, T8, T9, T10, T11, T12, T13, T14)) where F: Fn(T1, T2, T3, T4, T5, T6, T7, T8, T9, T10, T11, T12, T13, T14) -> R
    ensures
        <F as Func<(T1, T2, T3, T4, T5, T6, T7, T8, T9, T10, T11, T12, T13, T14)>>::accepts(&f, args) == call_requires(f, (args.0, args.1, args.2, args.3, args.4, args.5, args.6, args.7, args.8, args.9, args.10, args.11, args.12, args.13)),
        forall|out: R| <F as Func<(T1, T2, T3, T4, T5, T6, T7, T8, T9, T10, T11, T12, T13, T14)>>::gives(&f, args, out) == call_ensures(f, (args.0, args.1, args.2, args.3, args.4, args.5, args.6, args.7, args.8, args.9, args.10, args.11, args.12, args.13), out),
        <F as Func<(T1, T2, T3, T4, T5, T6, T7, T8, T9, T10, T11, T12, T13, T14)>>::accepts(&f, args) == <F as Func<Product<T1, Product<T2, Product<T3, Product<T4, Product<T5, Product<T6, Product<T7, Product<T8, Product<T9, Product<T10, Product<T11, Product<T12, Product<T13, Product<T14, ()>>>>>>>>>>>>>>>>::accepts(
            &f,
            args.hlist_spec(),
        ),
        forall|out: R|
            <F as Func<(T1, T2, T3, T4, T5, T6, T7, T8, T9, T10, T11, T12, T13, T14)>>::gives(&f, args, out) == <F as Func<Product<T1, Product<T2, Product<T3, Product<T4, Product<T5, Product<T6, Product<T7, Product<T8, Product<T9, Product<T10, Product<T11, Product<T12, Product<T13, Product<T14, ()>>>>>>>>>>>>>>>>::gives(
                &f,
                args.hlist_spec(),
                out,
            ),
{
}

/// Calling `f` through `Func` with a tuple of 15, or with the list form of that
/// tuple, is calling `f` with the tuple's elements, in order: it is allowed
/// exactly when `f` accepts those elements and gives exactly what `f` gives.
pub proof fn lemma_call_tuple_as_list_15<F, R, T1, T2, T3, T4, T5, T6, T7, T8, T9, T10, T11, T12, T13, T14, T15>(f: F, args: (T1, T2, T3, T4, T5, T6, T7, T8, T9, T10, T11, T12, T13, T14, T15)) where F: Fn(T1, T2, T3, T4, T5, T6, T7, T8, T9, T10, T11, T12, T13, T14, T15) -> R
    ensures
        <F as Func<(T1, T2, T3, T4, T5, T6, T7, T8, T9, T10, T11, T12, T13, T14, T15)>>::accepts(&f, args) == call_requires(f, (args.0, args.1, args.2, args.3, args.4, args.5, args.6, args.7, args.8, args.9, args.10, args.11, args.12, args.13, args.14)),
        forall|out: R| <F as Func<(T1, T2, T3, T4, T5, T6, T7, T8, T9, T10, T11, T12, T13, T14, T15)>>::gives(&f, args, out) == call_ensures(f, (args.0, args.1, args.2, args.3, args.4, args.5, args.6, args.7, args.8, args.9, args.10, args.11, args.12, args.13, args.14), out),
        <F as Func<(T1, T2, T3, T4, T5, T6, T7, T8, T9, T10, T11, T12, T13, T14, T15)>>::accepts(&f, args) == <F as Func<Product<T1, Product<T2, Product<T3, Product<T4, Product<T5, Product<T6, Product<T7, Product<T8, Product<T9, Product<T10, Product<T11, Product<T12, Product<T13, Product<T14, Product<T15, ()>>>>>>>>>>>>>>>>>::accepts(
            &f,
            args.hlist_spec(),
        ),
        forall|out: R|
            <F as Func<(T1, T2, T3, T4, T5, T6, T7, T8, T9, T10, T11, T12, T13, T14, T15)>>::gives(&f, args, out) == <F as Func<Product<T1, Product<T2, Product<T3, Product<T4, Product<T5, Product<T6, Product<T7, Product<T8, Product<T9, Product<T10, Product<T11, Product<T12, Product<T13, Product<T14, Product<T15, ()>>>>>>>>>>>>>>>>>::gives(
                &f,
                args.hlist_spec(),
                out,
            ),
{
}

/// Calling `f` through `Func` with a tuple of 16, or with the list form of that
/// tuple, is calling `f` with the tuple's elements, in order: it is allowed
/// exactly when `f` accepts those elements and gives exactly what `f` gives.
pub proof fn lemma_call_tuple_as_list_16<F, R, T1, T2, T3, T4, T5, T6, T7, T8, T9, T10, T11, T12, T13, T14, T15, T16>(f: F, args: (T1, T2, T3, T4, T5, T6, T7, T8, T9, T10, T11, T12, T13, T14, T15, T16)) where F: Fn(T1, T2, T3, T4, T5, T6, T7, T8, T9, T10, T11, T12, T13, T14, T15, T16) -> R
    ensures
        <F as Func<(T1, T2, T3, T4, T5, T6, T7, T8, T9, T10, T11, T12, T13, T14, T15, T16)>>::accepts(&f, args) == call_requires(f, (args.0, args.1, args.2, args.3, args.4, args.5, args.6, args.7, args.8, args.9, args.10, args.11, args.12, args.13, args.14, args.15)),
        forall|out: R| <F as Func<(T1, T2, T3, T4, T5, T6, T7, T8, T9, T10, T11, T12, T13, T14, T15, T16)>>::gives(&f, args, out) == call_ensures(f, (args.0, args.1, args.2, args.3, args.4, args.5, args.6, args.7, args.8, args.9, args.10, args.11, args.12, args.13, args.14, args.15), out),
        <F as Func<(T1, T2, T3, T4, T5, T6, T7, T8, T9, T10, T11, T12, T13, T14, T15, T16)>>::accepts(&f, args) == <F as Func<Product<T1, Product<T2, Product<T3, Product<T4, Product<T5, Product<T6, Product<T7, Product<T8, Product<T9, Product<T10, Product<T11, Product<T12, Product<T13, Product<T14, Product<T15, Product<T16, ()>>>>>>>>>>>>>>>>>>::accepts(
            &f,
            args.hlist_spec(),
        ),
        forall|out: R|
            <F as Func<(T1, T2, T3, T4, T5, T6, T7, T8, T9, T10, T11, T12, T13, T14, T15, T16)>>::gives(&f, args, out) == <F as Func<Product<T1, Product<T2, Product<T3, Product<T4, Product<T5, Product<T6, Product<T7, Product<T8, Product<T9, Product<T10, Product<T11, Product<T12, Product<T13, Product<T14, Product<T15, Product<T16, ()>>>>>>>>>>>>>>>>>>::gives(
                &f,
                args.hlist_spec(),
                out,
            ),
{
}

/// Calling `f` through `Func` with no arguments is calling `f`: it is allowed
/// exactly when `f` accepts the call and gives exactly what `f` gives.
pub proof fn lemma_call_unit<F, R>(f: F) where F: Fn() -> R
    ensures
        <F as Func<()>>::accepts(&f, ()) == call_requires(f, ()),
        forall|out: R| <F as Func<()>>::gives(&f, (), out) == call_ensures(f, (), out),
{
}

/// Calling `f` through `Func` with a rejection is calling `f` with that same
/// rejection: it is allowed exactly when `f` accepts that rejection and gives
/// exactly what `f` gives for it.
pub proof fn lemma_call_rejection<F, R>(f: F, rejection: Rejection) where F: Fn(Rejection) -> R
    ensures
        <F as Func<Rejection>>::accepts(&f, rejection) == call_requires(f, (rejection,)),
        forall|out: R|
            <F as Func<Rejection>>::gives(&f, rejection, out) == call_ensures(f, (rejection,), out),
{
}

} // verus!
