use vstd::prelude::*;

verus! {

/// A heterogeneous list cell: a head `H` in front of the list `A`.
#[derive(Debug)]
pub struct Product<H, A: HList>(pub H, pub A);

/// A heterogeneous list built from `()` and `Product`, in one-to-one
/// correspondence with a tuple.
pub trait HList: Sized {
    type Tuple;

    /// The tuple that holds this list's elements, in order.
    spec fn flatten_spec(self) -> Self::Tuple;

    fn flatten(self) -> (t: Self::Tuple)
        ensures
            t == self.flatten_spec(),
    ;
}

/// A tuple, in one-to-one correspondence with a heterogeneous list.
pub trait Tuple: Sized {
    type HList: HList<Tuple = Self>;

    /// The heterogeneous list that holds this tuple's elements, in order.
    spec fn hlist_spec(self) -> Self::HList;

    fn hlist(self) -> (h: Self::HList)
        ensures
            h == self.hlist_spec(),
    ;

    /// Turning a tuple into its list and back gives the tuple.
    proof fn lemma_hlist_then_flatten(self)
        ensures
            self.hlist_spec().flatten_spec() == self,
    ;

    /// Turning a list of this tuple's kind into its tuple and back gives the list.
    proof fn lemma_flatten_then_hlist(h: Self::HList)
        ensures
            h.flatten_spec().hlist_spec() == h,
    ;
}

/// The tuple with the elements of `first` followed by those of `second`.
pub open spec fn combined<A, B>(first: A, second: B) -> CombinedTuples<A, B> where
    A: Tuple,
    B: Tuple,
    A::HList: Combine<B::HList>,
{
    first.hlist_spec().combine_spec(second.hlist_spec()).flatten_spec()
}

/// The tuple with the elements of `first` followed by those of `second`.
pub fn combine<A, B>(first: A, second: B) -> (r: CombinedTuples<A, B>) where
    A: Tuple,
    B: Tuple,
    A::HList: Combine<B::HList>,
    ensures
        r == combined(first, second),
{
    first.hlist().combine(second.hlist()).flatten()
}

/// The tuple type that combining a tuple of type `A` with one of type `B` gives.
pub type CombinedTuples<A, B> = <<<A as Tuple>::HList as Combine<
    <B as Tuple>::HList,
>>::Output as HList>::Tuple;

/// Concatenation of heterogeneous lists.
pub trait Combine<A: HList> {
    type Output: HList;

    /// The list with the elements of `self` followed by those of `other`.
    spec fn combine_spec(self, other: A) -> Self::Output;

    fn combine(self, other: A) -> (r: Self::Output)
        ensures
            r == self.combine_spec(other),
    ;
}

impl<A: HList> Combine<A> for () {
    type Output = A;

    open spec fn combine_spec(self, other: A) -> A {
        other
    }

    fn combine(self, other: A) -> (r: A) {
        other
    }
}

impl<H, A: HList, B: HList> Combine<B> for Product<H, A> where
    A: Combine<B>,
    Product<H, <A as Combine<B>>::Output>: HList,
 {
    type Output = Product<H, <A as Combine<B>>::Output>;

    open spec fn combine_spec(self, other: B) -> Self::Output {
        Product(self.0, self.1.combine_spec(other))
    }

    fn combine(self, other: B) -> (r: Self::Output) {
        Product(self.0, self.1.combine(other))
    }
}

impl HList for () {
    type Tuple = ();

    open spec fn flatten_spec(self) -> () {
        ()
    }

    fn flatten(self) -> (t: ()) {
        ()
    }
}

impl Tuple for () {
    type HList = ();

    open spec fn hlist_spec(self) -> () {
        ()
    }

    fn hlist(self) -> (h: ()) {
        ()
    }

    proof fn lemma_hlist_then_flatten(self) {
    }

    proof fn lemma_flatten_then_hlist(h: Self::HList) {
    }
}

impl<T1> HList for Product<T1, ()> {
    type Tuple = (T1,);

    open spec fn flatten_spec(self) -> (T1,) {
        (self.0,)
    }

    fn flatten(self) -> (t: (T1,)) {
        let Product(t1, ()) = self;
        (t1,)
    }
}

impl<T1> Tuple for (T1,) {
    type HList = Product<T1, ()>;

    open spec fn hlist_spec(self) -> Product<T1, ()> {
        Product(self.0, ())
    }

    fn hlist(self) -> (h: Product<T1, ()>) {
        let (t1,) = self;
        Product(t1, ())
    }

    proof fn lemma_hlist_then_flatten(self) {
    }

    proof fn lemma_flatten_then_hlist(h: Product<T1, ()>) {
        assert(h.1 == ());
        assert((h.0,).hlist_spec() == h);
    }
}

impl<T1, T2> HList for Product<T1, Product<T2, ()>> {
    type Tuple = (T1, T2);

    open spec fn flatten_spec(self) -> (T1, T2) {
        (self.0, self.1.0)
    }

    fn flatten(self) -> (t: (T1, T2)) {
        let Product(t1, Product(t2, ())) = self;
        (t1, t2)
    }
}

impl<T1, T2> Tuple for (T1, T2) {
    type HList = Product<T1, Product<T2, ()>>;

    open spec fn hlist_spec(self) -> Product<T1, Product<T2, ()>> {
        Product(self.0, Product(self.1, ()))
    }

    fn hlist(self) -> (h: Product<T1, Product<T2, ()>>) {
        let (t1, t2) = self;
        Product(t1, Product(t2, ()))
    }

    proof fn lemma_hlist_then_flatten(self) {
    }

    proof fn lemma_flatten_then_hlist(h: Product<T1, Product<T2, ()>>) {
        assert(h.1.1 == ());
        assert((h.0, h.1.0).hlist_spec() == h);
    }
}

impl<T1, T2, T3> HList for Product<T1, Product<T2, Product<T3, ()>>> {
    type Tuple = (T1, T2, T3);

    open spec fn flatten_spec(self) -> (T1, T2, T3) {
        (self.0, self.1.0, self.1.1.0)
    }

    fn flatten(self) -> (t: (T1, T2, T3)) {
        let Product(t1, Product(t2, Product(t3, ()))) = self;
        (t1, t2, t3)
    }
}

impl<T1, T2, T3> Tuple for (T1, T2, T3) {
    type HList = Product<T1, Product<T2, Product<T3, ()>>>;

    open spec fn hlist_spec(self) -> Product<T1, Product<T2, Product<T3, ()>>> {
        Product(self.0, Product(self.1, Product(self.2, ())))
    }

    fn hlist(self) -> (h: Product<T1, Product<T2, Product<T3, ()>>>) {
        let (t1, t2, t3) = self;
        Product(t1, Product(t2, Product(t3, ())))
    }

    proof fn lemma_hlist_then_flatten(self) {
    }

    proof fn lemma_flatten_then_hlist(h: Product<T1, Product<T2, Product<T3, ()>>>) {
        assert(h.1.1.1 == ());
        assert((h.0, h.1.0, h.1.1.0).hlist_spec() == h);
    }
}

impl<T1, T2, T3, T4> HList for Product<T1, Product<T2, Product<T3, Product<T4, ()>>>> {
    type Tuple = (T1, T2, T3, T4);

    open spec fn flatten_spec(self) -> (T1, T2, T3, T4) {
        (self.0, self.1.0, self.1.1.0, self.1.1.1.0)
    }

    fn flatten(self) -> (t: (T1, T2, T3, T4)) {
        let Product(t1, Product(t2, Product(t3, Product(t4, ())))) = self;
        (t1, t2, t3, t4)
    }
}

impl<T1, T2, T3, T4> Tuple for (T1, T2, T3, T4) {
    type HList = Product<T1, Product<T2, Product<T3, Product<T4, ()>>>>;

    open spec fn hlist_spec(self) -> Product<T1, Product<T2, Product<T3, Product<T4, ()>>>> {
        Product(self.0, Product(self.1, Product(self.2, Product(self.3, ()))))
    }

    fn hlist(self) -> (h: Product<T1, Product<T2, Product<T3, Product<T4, ()>>>>) {
        let (t1, t2, t3, t4) = self;
        Product(t1, Product(t2, Product(t3, Product(t4, ()))))
    }

    proof fn lemma_hlist_then_flatten(self) {
    }

    proof fn lemma_flatten_then_hlist(h: Product<T1, Product<T2, Product<T3, Product<T4, ()>>>>) {
        assert(h.1.1.1.1 == ());
        assert((h.0, h.1.0, h.1.1.0, h.1.1.1.0).hlist_spec() == h);
    }
}

impl<T1, T2, T3, T4, T5> HList for Product<T1, Product<T2, Product<T3, Product<T4, Product<T5, ()>>>>> {
    type Tuple = (T1, T2, T3, T4, T5);

    open spec fn flatten_spec(self) -> (T1, T2, T3, T4, T5) {
        (self.0, self.1.0, self.1.1.0, self.1.1.1.0, self.1.1.1.1.0)
    }

    fn flatten(self) -> (t: (T1, T2, T3, T4, T5)) {
        let Product(t1, Product(t2, Product(t3, Product(t4, Product(t5, ()))))) = self;
        (t1, t2, t3, t4, t5)
    }
}

impl<T1, T2, T3, T4, T5> Tuple for (T1, T2, T3, T4, T5) {
    type HList = Product<T1, Product<T2, Product<T3, Product<T4, Product<T5, ()>>>>>;

    open spec fn hlist_spec(self) -> Product<T1, Product<T2, Product<T3, Product<T4, Product<T5, ()>>>>> {
        Product(self.0, Product(self.1, Product(self.2, Product(self.3, Product(self.4, ())))))
    }

    fn hlist(self) -> (h: Product<T1, Product<T2, Product<T3, Product<T4, Product<T5, ()>>>>>) {
        let (t1, t2, t3, t4, t5) = self;
        Product(t1, Product(t2, Product(t3, Product(t4, Product(t5, ())))))
    }

    proof fn lemma_hlist_then_flatten(self) {
    }

    proof fn lemma_flatten_then_hlist(h: Product<T1, Product<T2, Product<T3, Product<T4, Product<T5, ()>>>>>) {
        assert(h.1.1.1.1.1 == ());
        assert((h.0, h.1.0, h.1.1.0, h.1.1.1.0, h.1.1.1.1.0).hlist_spec() == h);
    }
}

impl<T1, T2, T3, T4, T5, T6> HList for Product<T1, Product<T2, Product<T3, Product<T4, Product<T5, Product<T6, ()>>>>>> {
    type Tuple = (T1, T2, T3, T4, T5, T6);

    open spec fn flatten_spec(self) -> (T1, T2, T3, T4, T5, T6) {
        (self.0, self.1.0, self.1.1.0, self.1.1.1.0, self.1.1.1.1.0, self.1.1.1.1.1.0)
    }

    fn flatten(self) -> (t: (T1, T2, T3, T4, T5, T6)) {
        let Product(t1, Product(t2, Product(t3, Product(t4, Product(t5, Product(t6, ())))))) = self;
        (t1, t2, t3, t4, t5, t6)
    }
}

impl<T1, T2, T3, T4, T5, T6> Tuple for (T1, T2, T3, T4, T5, T6) {
    type HList = Product<T1, Product<T2, Product<T3, Product<T4, Product<T5, Product<T6, ()>>>>>>;

    open spec fn hlist_spec(self) -> Product<T1, Product<T2, Product<T3, Product<T4, Product<T5, Product<T6, ()>>>>>> {
        Product(self.0, Product(self.1, Product(self.2, Product(self.3, Product(self.4, Product(self.5, ()))))))
    }

    fn hlist(self) -> (h: Product<T1, Product<T2, Product<T3, Product<T4, Product<T5, Product<T6, ()>>>>>>) {
        let (t1, t2, t3, t4, t5, t6) = self;
        Product(t1, Product(t2, Product(t3, Product(t4, Product(t5, Product(t6, ()))))))
    }

    proof fn lemma_hlist_then_flatten(self) {
    }

    proof fn lemma_flatten_then_hlist(h: Product<T1, Product<T2, Product<T3, Product<T4, Product<T5, Product<T6, ()>>>>>>) {
        assert(h.1.1.1.1.1.1 == ());
        assert((h.0, h.1.0, h.1.1.0, h.1.1.1.0, h.1.1.1.1.0, h.1.1.1.1.1.0).hlist_spec() == h);
    }
}

impl<T1, T2, T3, T4, T5, T6, T7> HList for Product<T1, Product<T2, Product<T3, Product<T4, Product<T5, Product<T6, Product<T7, ()>>>>>>> {
    type Tuple = (T1, T2, T3, T4, T5, T6, T7);

    open spec fn flatten_spec(self) -> (T1, T2, T3, T4, T5, T6, T7) {
        (self.0, self.1.0, self.1.1.0, self.1.1.1.0, self.1.1.1.1.0, self.1.1.1.1.1.0, self.1.1.1.1.1.1.0)
    }

    fn flatten(self) -> (t: (T1, T2, T3, T4, T5, T6, T7)) {
        let Product(t1, Product(t2, Product(t3, Product(t4, Product(t5, Product(t6, Product(t7, ()))))))) = self;
        (t1, t2, t3, t4, t5, t6, t7)
    }
}

impl<T1, T2, T3, T4, T5, T6, T7> Tuple for (T1, T2, T3, T4, T5, T6, T7) {
    type HList = Product<T1, Product<T2, Product<T3, Product<T4, Product<T5, Product<T6, Product<T7, ()>>>>>>>;

    open spec fn hlist_spec(self) -> Product<T1, Product<T2, Product<T3, Product<T4, Product<T5, Product<T6, Product<T7, ()>>>>>>> {
        Product(self.0, Product(self.1, Product(self.2, Product(self.3, Product(self.4, Product(self.5, Product(self.6, ())))))))
    }

    fn hlist(self) -> (h: Product<T1, Product<T2, Product<T3, Product<T4, Product<T5, Product<T6, Product<T7, ()>>>>>>>) {
        let (t1, t2, t3, t4, t5, t6, t7) = self;
        Product(t1, Product(t2, Product(t3, Product(t4, Product(t5, Product(t6, Product(t7, ())))))))
    }

    proof fn lemma_hlist_then_flatten(self) {
    }

    proof fn lemma_flatten_then_hlist(h: Product<T1, Product<T2, Product<T3, Product<T4, Product<T5, Product<T6, Product<T7, ()>>>>>>>) {
        assert(h.1.1.1.1.1.1.1 == ());
        assert((h.0, h.1.0, h.1.1.0, h.1.1.1.0, h.1.1.1.1.0, h.1.1.1.1.1.0, h.1.1.1.1.1.1.0).hlist_spec() == h);
    }
}

impl<T1, T2, T3, T4, T5, T6, T7, T8> HList for Product<T1, Product<T2, Product<T3, Product<T4, Product<T5, Product<T6, Product<T7, Product<T8, ()>>>>>>>> {
    type Tuple = (T1, T2, T3, T4, T5, T6, T7, T8);

    open spec fn flatten_spec(self) -> (T1, T2, T3, T4, T5, T6, T7, T8) {
        (self.0, self.1.0, self.1.1.0, self.1.1.1.0, self.1.1.1.1.0, self.1.1.1.1.1.0, self.1.1.1.1.1.1.0, self.1.1.1.1.1.1.1.0)
    }

    fn flatten(self) -> (t: (T1, T2, T3, T4, T5, T6, T7, T8)) {
        let Product(t1, Product(t2, Product(t3, Product(t4, Product(t5, Product(t6, Product(t7, Product(t8, ())))))))) = self;
        (t1, t2, t3, t4, t5, t6, t7, t8)
    }
}

impl<T1, T2, T3, T4, T5, T6, T7, T8> Tuple for (T1, T2, T3, T4, T5, T6, T7, T8) {
    type HList = Product<T1, Product<T2, Product<T3, Product<T4, Product<T5, Product<T6, Product<T7, Product<T8, ()>>>>>>>>;

    open spec fn hlist_spec(self) -> Product<T1, Product<T2, Product<T3, Product<T4, Product<T5, Product<T6, Product<T7, Product<T8, ()>>>>>>>> {
        Product(self.0, Product(self.1, Product(self.2, Product(self.3, Product(self.4, Product(self.5, Product(self.6, Product(self.7, ()))))))))
    }

    fn hlist(self) -> (h: Product<T1, Product<T2, Product<T3, Product<T4, Product<T5, Product<T6, Product<T7, Product<T8, ()>>>>>>>>) {
        let (t1, t2, t3, t4, t5, t6, t7, t8) = self;
        Product(t1, Product(t2, Product(t3, Product(t4, Product(t5, Product(t6, Product(t7, Product(t8, ()))))))))
    }

    proof fn lemma_hlist_then_flatten(self) {
    }

    proof fn lemma_flatten_then_hlist(h: Product<T1, Product<T2, Product<T3, Product<T4, Product<T5, Product<T6, Product<T7, Product<T8, ()>>>>>>>>) {
        assert(h.1.1.1.1.1.1.1.1 == ());
        assert((h.0, h.1.0, h.1.1.0, h.1.1.1.0, h.1.1.1.1.0, h.1.1.1.1.1.0, h.1.1.1.1.1.1.0, h.1.1.1.1.1.1.1.0).hlist_spec() == h);
    }
}

impl<T1, T2, T3, T4, T5, T6, T7, T8, T9> HList for Product<T1, Product<T2, Product<T3, Product<T4, Product<T5, Product<T6, Product<T7, Product<T8, Product<T9, ()>>>>>>>>> {
    type Tuple = (T1, T2, T3, T4, T5, T6, T7, T8, T9);

    open spec fn flatten_spec(self) -> (T1, T2, T3, T4, T5, T6, T7, T8, T9) {
        (self.0, self.1.0, self.1.1.0, self.1.1.1.0, self.1.1.1.1.0, self.1.1.1.1.1.0, self.1.1.1.1.1.1.0, self.1.1.1.1.1.1.1.0, self.1.1.1.1.1.1.1.1.0)
    }

    fn flatten(self) -> (t: (T1, T2, T3, T4, T5, T6, T7, T8, T9)) {
        let Product(t1, Product(t2, Product(t3, Product(t4, Product(t5, Product(t6, Product(t7, Product(t8, Product(t9, ()))))))))) = self;
        (t1, t2, t3, t4, t5, t6, t7, t8, t9)
    }
}

impl<T1, T2, T3, T4, T5, T6, T7, T8, T9> Tuple for (T1, T2, T3, T4, T5, T6, T7, T8, T9) {
    type HList = Product<T1, Product<T2, Product<T3, Product<T4, Product<T5, Product<T6, Product<T7, Product<T8, Product<T9, ()>>>>>>>>>;

    open spec fn hlist_spec(self) -> Product<T1, Product<T2, Product<T3, Product<T4, Product<T5, Product<T6, Product<T7, Product<T8, Product<T9, ()>>>>>>>>> {
        Product(self.0, Product(self.1, Product(self.2, Product(self.3, Product(self.4, Product(self.5, Product(self.6, Product(self.7, Product(self.8, ())))))))))
    }

    fn hlist(self) -> (h: Product<T1, Product<T2, Product<T3, Product<T4, Product<T5, Product<T6, Product<T7, Product<T8, Product<T9, ()>>>>>>>>>) {
        let (t1, t2, t3, t4, t5, t6, t7, t8, t9) = self;
        Product(t1, Product(t2, Product(t3, Product(t4, Product(t5, Product(t6, Product(t7, Product(t8, Product(t9, ())))))))))
    }

    proof fn lemma_hlist_then_flatten(self) {
    }

    proof fn lemma_flatten_then_hlist(h: Product<T1, Product<T2, Product<T3, Product<T4, Product<T5, Product<T6, Product<T7, Product<T8, Product<T9, ()>>>>>>>>>) {
        assert(h.1.1.1.1.1.1.1.1.1 == ());
        assert((h.0, h.1.0, h.1.1.0, h.1.1.1.0, h.1.1.1.1.0, h.1.1.1.1.1.0, h.1.1.1.1.1.1.0, h.1.1.1.1.1.1.1.0, h.1.1.1.1.1.1.1.1.0).hlist_spec() == h);
    }
}

impl<T1, T2, T3, T4, T5, T6, T7, T8, T9, T10> HList for Product<T1, Product<T2, Product<T3, Product<T4, Product<T5, Product<T6, Product<T7, Product<T8, Product<T9, Product<T10, ()>>>>>>>>>> {
    type Tuple = (T1, T2, T3, T4, T5, T6, T7, T8, T9, T10);

    open spec fn flatten_spec(self) -> (T1, T2, T3, T4, T5, T6, T7, T8, T9, T10) {
        (self.0, self.1.0, self.1.1.0, self.1.1.1.0, self.1.1.1.1.0, self.1.1.1.1.1.0, self.1.1.1.1.1.1.0, self.1.1.1.1.1.1.1.0, self.1.1.1.1.1.1.1.1.0, self.1.1.1.1.1.1.1.1.1.0)
    }

    fn flatten(self) -> (t: (T1, T2, T3, T4, T5, T6, T7, T8, T9, T10)) {
        let Product(t1, Product(t2, Product(t3, Product(t4, Product(t5, Product(t6, Product(t7, Product(t8, Product(t9, Product(t10, ())))))))))) = self;
        (t1, t2, t3, t4, t5, t6, t7, t8, t9, t10)
    }
}

impl<T1, T2, T3, T4, T5, T6, T7, T8, T9, T10> Tuple for (T1, T2, T3, T4, T5, T6, T7, T8, T9, T10) {
    type HList = Product<T1, Product<T2, Product<T3, Product<T4, Product<T5, Product<T6, Product<T7, Product<T8, Product<T9, Product<T10, ()>>>>>>>>>>;

    open spec fn hlist_spec(self) -> Product<T1, Product<T2, Product<T3, Product<T4, Product<T5, Product<T6, Product<T7, Product<T8, Product<T9, Product<T10, ()>>>>>>>>>> {
        Product(self.0, Product(self.1, Product(self.2, Product(self.3, Product(self.4, Product(self.5, Product(self.6, Product(self.7, Product(self.8, Product(self.9, ()))))))))))
    }

    fn hlist(self) -> (h: Product<T1, Product<T2, Product<T3, Product<T4, Product<T5, Product<T6, Product<T7, Product<T8, Product<T9, Product<T10, ()>>>>>>>>>>) {
        let (t1, t2, t3, t4, t5, t6, t7, t8, t9, t10) = self;
        Product(t1, Product(t2, Product(t3, Product(t4, Product(t5, Product(t6, Product(t7, Product(t8, Product(t9, Product(t10, ()))))))))))
    }

    proof fn lemma_hlist_then_flatten(self) {
    }

    proof fn lemma_flatten_then_hlist(h: Product<T1, Product<T2, Product<T3, Product<T4, Product<T5, Product<T6, Product<T7, Product<T8, Product<T9, Product<T10, ()>>>>>>>>>>) {
        assert(h.1.1.1.1.1.1.1.1.1.1 == ());
        assert((h.0, h.1.0, h.1.1.0, h.1.1.1.0, h.1.1.1.1.0, h.1.1.1.1.1.0, h.1.1.1.1.1.1.0, h.1.1.1.1.1.1.1.0, h.1.1.1.1.1.1.1.1.0, h.1.1.1.1.1.1.1.1.1.0).hlist_spec() == h);
    }
}

impl<T1, T2, T3, T4, T5, T6, T7, T8, T9, T10, T11> HList for Product<T1, Product<T2, Product<T3, Product<T4, Product<T5, Product<T6, Product<T7, Product<T8, Product<T9, Product<T10, Product<T11, ()>>>>>>>>>>> {
    type Tuple = (T1, T2, T3, T4, T5, T6, T7, T8, T9, T10, T11);

    open spec fn flatten_spec(self) -> (T1, T2, T3, T4, T5, T6, T7, T8, T9, T10, T11) {
        (self.0, self.1.0, self.1.1.0, self.1.1.1.0, self.1.1.1.1.0, self.1.1.1.1.1.0, self.1.1.1.1.1.1.0, self.1.1.1.1.1.1.1.0, self.1.1.1.1.1.1.1.1.0, self.1.1.1.1.1.1.1.1.1.0, self.1.1.1.1.1.1.1.1.1.1.0)
    }

    fn flatten(self) -> (t: (T1, T2, T3, T4, T5, T6, T7, T8, T9, T10, T11)) {
        let Product(t1, Product(t2, Product(t3, Product(t4, Product(t5, Product(t6, Product(t7, Product(t8, Product(t9, Product(t10, Product(t11, ()))))))))))) = self;
        (t1, t2, t3, t4, t5, t6, t7, t8, t9, t10, t11)
    }
}

impl<T1, T2, T3, T4, T5, T6, T7, T8, T9, T10, T11> Tuple for (T1, T2, T3, T4, T5, T6, T7, T8, T9, T10, T11) {
    type HList = Product<T1, Product<T2, Product<T3, Product<T4, Product<T5, Product<T6, Product<T7, Product<T8, Product<T9, Product<T10, Product<T11, ()>>>>>>>>>>>;

    open spec fn hlist_spec(self) -> Product<T1, Product<T2, Product<T3, Product<T4, Product<T5, Product<T6, Product<T7, Product<T8, Product<T9, Product<T10, Product<T11, ()>>>>>>>>>>> {
        Product(self.0, Product(self.1, Product(self.2, Product(self.3, Product(self.4, Product(self.5, Product(self.6, Product(self.7, Product(self.8, Product(self.9, Product(self.10, ())))))))))))
    }

    fn hlist(self) -> (h: Product<T1, Product<T2, Product<T3, Product<T4, Product<T5, Product<T6, Product<T7, Product<T8, Product<T9, Product<T10, Product<T11, ()>>>>>>>>>>>) {
        let (t1, t2, t3, t4, t5, t6, t7, t8, t9, t10, t11) = self;
        Product(t1, Product(t2, Product(t3, Product(t4, Product(t5, Product(t6, Product(t7, Product(t8, Product(t9, Product(t10, Product(t11, ())))))))))))
    }

    proof fn lemma_hlist_then_flatten(self) {
    }

    proof fn lemma_flatten_then_hlist(h: Product<T1, Product<T2, Product<T3, Product<T4, Product<T5, Product<T6, Product<T7, Product<T8, Product<T9, Product<T10, Product<T11, ()>>>>>>>>>>>) {
        assert(h.1.1.1.1.1.1.1.1.1.1.1 == ());
        assert((h.0, h.1.0, h.1.1.0, h.1.1.1.0, h.1.1.1.1.0, h.1.1.1.1.1.0, h.1.1.1.1.1.1.0, h.1.1.1.1.1.1.1.0, h.1.1.1.1.1.1.1.1.0, h.1.1.1.1.1.1.1.1.1.0, h.1.1.1.1.1.1.1.1.1.1.0).hlist_spec() == h);
    }
}

impl<T1, T2, T3, T4, T5, T6, T7, T8, T9, T10, T11, T12> HList for Product<T1, Product<T2, Product<T3, Product<T4, Product<T5, Product<T6, Product<T7, Product<T8, Product<T9, Product<T10, Product<T11, Product<T12, ()>>>>>>>>>>>> {
    type Tuple = (T1, T2, T3, T4, T5, T6, T7, T8, T9, T10, T11, T12);

    open spec fn flatten_spec(self) -> (T1, T2, T3, T4, T5, T6, T7, T8, T9, T10, T11, T12) {
        (self.0, self.1.0, self.1.1.0, self.1.1.1.0, self.1.1.1.1.0, self.1.1.1.1.1.0, self.1.1.1.1.1.1.0, self.1.1.1.1.1.1.1.0, self.1.1.1.1.1.1.1.1.0, self.1.1.1.1.1.1.1.1.1.0, self.1.1.1.1.1.1.1.1.1.1.0, self.1.1.1.1.1.1.1.1.1.1.1.0)
    }

    fn flatten(self) -> (t: (T1, T2, T3, T4, T5, T6, T7, T8, T9, T10, T11, T12)) {
        let Product(t1, Product(t2, Product(t3, Product(t4, Product(t5, Product(t6, Product(t7, Product(t8, Product(t9, Product(t10, Product(t11, Product(t12, ())))))))))))) = self;
        (t1, t2, t3, t4, t5, t6, t7, t8, t9, t10, t11, t12)
    }
}

impl<T1, T2, T3, T4, T5, T6, T7, T8, T9, T10, T11, T12> Tuple for (T1, T2, T3, T4, T5, T6, T7, T8, T9, T10, T11, T12) {
    type HList = Product<T1, Product<T2, Product<T3, Product<T4, Product<T5, Product<T6, Product<T7, Product<T8, Product<T9, Product<T10, Product<T11, Product<T12, ()>>>>>>>>>>>>;

    open spec fn hlist_spec(self) -> Product<T1, Product<T2, Product<T3, Product<T4, Product<T5, Product<T6, Product<T7, Product<T8, Product<T9, Product<T10, Product<T11, Product<T12, ()>>>>>>>>>>>> {
        Product(self.0, Product(self.1, Product(self.2, Product(self.3, Product(self.4, Product(self.5, Product(self.6, Product(self.7, Product(self.8, Product(self.9, Product(self.10, Product(self.11, ()))))))))))))
    }

    fn hlist(self) -> (h: Product<T1, Product<T2, Product<T3, Product<T4, Product<T5, Product<T6, Product<T7, Product<T8, Product<T9, Product<T10, Product<T11, Product<T12, ()>>>>>>>>>>>>) {
        let (t1, t2, t3, t4, t5, t6, t7, t8, t9, t10, t11, t12) = self;
        Product(t1, Product(t2, Product(t3, Product(t4, Product(t5, Product(t6, Product(t7, Product(t8, Product(t9, Product(t10, Product(t11, Product(t12, ()))))))))))))
    }

    proof fn lemma_hlist_then_flatten(self) {
    }

    proof fn lemma_flatten_then_hlist(h: Product<T1, Product<T2, Product<T3, Product<T4, Product<T5, Product<T6, Product<T7, Product<T8, Product<T9, Product<T10, Product<T11, Product<T12, ()>>>>>>>>>>>>) {
        assert(h.1.1.1.1.1.1.1.1.1.1.1.1 == ());
        assert((h.0, h.1.0, h.1.1.0, h.1.1.1.0, h.1.1.1.1.0, h.1.1.1.1.1.0, h.1.1.1.1.1.1.0, h.1.1.1.1.1.1.1.0, h.1.1.1.1.1.1.1.1.0, h.1.1.1.1.1.1.1.1.1.0, h.1.1.1.1.1.1.1.1.1.1.0, h.1.1.1.1.1.1.1.1.1.1.1.0).hlist_spec() == h);
    }
}

impl<T1, T2, T3, T4, T5, T6, T7, T8, T9, T10, T11, T12, T13> HList for Product<T1, Product<T2, Product<T3, Product<T4, Product<T5, Product<T6, Product<T7, Product<T8, Product<T9, Product<T10, Product<T11, Product<T12, Product<T13, ()>>>>>>>>>>>>> {
    type Tuple = (T1, T2, T3, T4, T5, T6, T7, T8, T9, T10, T11, T12, T13);

    open spec fn flatten_spec(self) -> (T1, T2, T3, T4, T5, T6, T7, T8, T9, T10, T11, T12, T13) {
        (self.0, self.1.0, self.1.1.0, self.1.1.1.0, self.1.1.1.1.0, self.1.1.1.1.1.0, self.1.1.1.1.1.1.0, self.1.1.1.1.1.1.1.0, self.1.1.1.1.1.1.1.1.0, self.1.1.1.1.1.1.1.1.1.0, self.1.1.1.1.1.1.1.1.1.1.0, self.1.1.1.1.1.1.1.1.1.1.1.0, self.1.1.1.1.1.1.1.1.1.1.1.1.0)
    }

    fn flatten(self) -> (t: (T1, T2, T3, T4, T5, T6, T7, T8, T9, T10, T11, T12, T13)) {
        let Product(t1, Product(t2, Product(t3, Product(t4, Product(t5, Product(t6, Product(t7, Product(t8, Product(t9, Product(t10, Product(t11, Product(t12, Product(t13, ()))))))))))))) = self;
        (t1, t2, t3, t4, t5, t6, t7, t8, t9, t10, t11, t12, t13)
    }
}

impl<T1, T2, T3, T4, T5, T6, T7, T8, T9, T10, T11, T12, T13> Tuple for (T1, T2, T3, T4, T5, T6, T7, T8, T9, T10, T11, T12, T13) {
    type HList = Product<T1, Product<T2, Product<T3, Product<T4, Product<T5, Product<T6, Product<T7, Product<T8, Product<T9, Product<T10, Product<T11, Product<T12, Product<T13, ()>>>>>>>>>>>>>;

    open spec fn hlist_spec(self) -> Product<T1, Product<T2, Product<T3, Product<T4, Product<T5, Product<T6, Product<T7, Product<T8, Product<T9, Product<T10, Product<T11, Product<T12, Product<T13, ()>>>>>>>>>>>>> {
        Product(self.0, Product(self.1, Product(self.2, Product(self.3, Product(self.4, Product(self.5, Product(self.6, Product(self.7, Product(self.8, Product(self.9, Product(self.10, Product(self.11, Product(self.12, ())))))))))))))
    }

    fn hlist(self) -> (h: Product<T1, Product<T2, Product<T3, Product<T4, Product<T5, Product<T6, Product<T7, Product<T8, Product<T9, Product<T10, Product<T11, Product<T12, Product<T13, ()>>>>>>>>>>>>>) {
        let (t1, t2, t3, t4, t5, t6, t7, t8, t9, t10, t11, t12, t13) = self;
        Product(t1, Product(t2, Product(t3, Product(t4, Product(t5, Product(t6, Product(t7, Product(t8, Product(t9, Product(t10, Product(t11, Product(t12, Product(t13, ())))))))))))))
    }

    proof fn lemma_hlist_then_flatten(self) {
    }

    proof fn lemma_flatten_then_hlist(h: Product<T1, Product<T2, Product<T3, Product<T4, Product<T5, Product<T6, Product<T7, Product<T8, Product<T9, Product<T10, Product<T11, Product<T12, Product<T13, ()>>>>>>>>>>>>>) {
        assert(h.1.1.1.1.1.1.1.1.1.1.1.1.1 == ());
        assert((h.0, h.1.0, h.1.1.0, h.1.1.1.0, h.1.1.1.1.0, h.1.1.1.1.1.0, h.1.1.1.1.1.1.0, h.1.1.1.1.1.1.1.0, h.1.1.1.1.1.1.1.1.0, h.1.1.1.1.1.1.1.1.1.0, h.1.1.1.1.1.1.1.1.1.1.0, h.1.1.1.1.1.1.1.1.1.1.1.0, h.1.1.1.1.1.1.1.1.1.1.1.1.0).hlist_spec() == h);
    }
}

impl<T1, T2, T3, T4, T5, T6, T7, T8, T9, T10, T11, T12, T13, T14> HList for Product<T1, Product<T2, Product<T3, Product<T4, Product<T5, Product<T6, Product<T7, Product<T8, Product<T9, Product<T10, Product<T11, Product<T12, Product<T13, Product<T14, ()>>>>>>>>>>>>>> {
    type Tuple = (T1, T2, T3, T4, T5, T6, T7, T8, T9, T10, T11, T12, T13, T14);

    open spec fn flatten_spec(self) -> (T1, T2, T3, T4, T5, T6, T7, T8, T9, T10, T11, T12, T13, T14) {
        (self.0, self.1.0, self.1.1.0, self.1.1.1.0, self.1.1.1.1.0, self.1.1.1.1.1.0, self.1.1.1.1.1.1.0, self.1.1.1.1.1.1.1.0, self.1.1.1.1.1.1.1.1.0, self.1.1.1.1.1.1.1.1.1.0, self.1.1.1.1.1.1.1.1.1.1.0, self.1.1.1.1.1.1.1.1.1.1.1.0, self.1.1.1.1.1.1.1.1.1.1.1.1.0, self.1.1.1.1.1.1.1.1.1.1.1.1.1.0)
    }

    fn flatten(self) -> (t: (T1, T2, T3, T4, T5, T6, T7, T8, T9, T10, T11, T12, T13, T14)) {
        let Product(t1, Product(t2, Product(t3, Product(t4, Product(t5, Product(t6, Product(t7, Product(t8, Product(t9, Product(t10, Product(t11, Product(t12, Product(t13, Product(t14, ())))))))))))))) = self;
        (t1, t2, t3, t4, t5, t6, t7, t8, t9, t10, t11, t12, t13, t14)
    }
}

impl<T1, T2, T3, T4, T5, T6, T7, T8, T9, T10, T11, T12, T13, T14> Tuple for (T1, T2, T3, T4, T5, T6, T7, T8, T9, T10, T11, T12, T13, T14) {
    type HList = Product<T1, Product<T2, Product<T3, Product<T4, Product<T5, Product<T6, Product<T7, Product<T8, Product<T9, Product<T10, Product<T11, Product<T12, Product<T13, Product<T14, ()>>>>>>>>>>>>>>;

    open spec fn hlist_spec(self) -> Product<T1, Product<T2, Product<T3, Product<T4, Product<T5, Product<T6, Product<T7, Product<T8, Product<T9, Product<T10, Product<T11, Product<T12, Product<T13, Product<T14, ()>>>>>>>>>>>>>> {
        Product(self.0, Product(self.1, Product(self.2, Product(self.3, Product(self.4, Product(self.5, Product(self.6, Product(self.7, Product(self.8, Product(self.9, Product(self.10, Product(self.11, Product(self.12, Product(self.13, ()))))))))))))))
    }

    fn hlist(self) -> (h: Product<T1, Product<T2, Product<T3, Product<T4, Product<T5, Product<T6, Product<T7, Product<T8, Product<T9, Product<T10, Product<T11, Product<T12, Product<T13, Product<T14, ()>>>>>>>>>>>>>>) {
        let (t1, t2, t3, t4, t5, t6, t7, t8, t9, t10, t11, t12, t13, t14) = self;
        Product(t1, Product(t2, Product(t3, Product(t4, Product(t5, Product(t6, Product(t7, Product(t8, Product(t9, Product(t10, Product(t11, Product(t12, Product(t13, Product(t14, ()))))))))))))))
    }

    proof fn lemma_hlist_then_flatten(self) {
    }

    proof fn lemma_flatten_then_hlist(h: Product<T1, Product<T2, Product<T3, Product<T4, Product<T5, Product<T6, Product<T7, Product<T8, Product<T9, Product<T10, Product<T11, Product<T12, Product<T13, Product<T14, ()>>>>>>>>>>>>>>) {
        assert(h.1.1.1.1.1.1.1.1.1.1.1.1.1.1 == ());
        assert((h.0, h.1.0, h.1.1.0, h.1.1.1.0, h.1.1.1.1.0, h.1.1.1.1.1.0, h.1.1.1.1.1.1.0, h.1.1.1.1.1.1.1.0, h.1.1.1.1.1.1.1.1.0, h.1.1.1.1.1.1.1.1.1.0, h.1.1.1.1.1.1.1.1.1.1.0, h.1.1.1.1.1.1.1.1.1.1.1.0, h.1.1.1.1.1.1.1.1.1.1.1.1.0, h.1.1.1.1.1.1.1.1.1.1.1.1.1.0).hlist_spec() == h);
    }
}

impl<T1, T2, T3, T4, T5, T6, T7, T8, T9, T10, T11, T12, T13, T14, T15> HList for Product<T1, Product<T2, Product<T3, Product<T4, Product<T5, Product<T6, Product<T7, Product<T8, Product<T9, Product<T10, Product<T11, Product<T12, Product<T13, Product<T14, Product<T15, ()>>>>>>>>>>>>>>> {
    type Tuple = (T1, T2, T3, T4, T5, T6, T7, T8, T9, T10, T11, T12, T13, T14, T15);

    open spec fn flatten_spec(self) -> (T1, T2, T3, T4, T5, T6, T7, T8, T9, T10, T11, T12, T13, T14, T15) {
        (self.0, self.1.0, self.1.1.0, self.1.1.1.0, self.1.1.1.1.0, self.1.1.1.1.1.0, self.1.1.1.1.1.1.0, self.1.1.1.1.1.1.1.0, self.1.1.1.1.1.1.1.1.0, self.1.1.1.1.1.1.1.1.1.0, self.1.1.1.1.1.1.1.1.1.1.0, self.1.1.1.1.1.1.1.1.1.1.1.0, self.1.1.1.1.1.1.1.1.1.1.1.1.0, self.1.1.1.1.1.1.1.1.1.1.1.1.1.0, self.1.1.1.1.1.1.1.1.1.1.1.1.1.1.0)
    }

    fn flatten(self) -> (t: (T1, T2, T3, T4, T5, T6, T7, T8, T9, T10, T11, T12, T13, T14, T15)) {
        let Product(t1, Product(t2, Product(t3, Product(t4, Product(t5, Product(t6, Product(t7, Product(t8, Product(t9, Product(t10, Product(t11, Product(t12, Product(t13, Product(t14, Product(t15, ()))))))))))))))) = self;
        (t1, t2, t3, t4, t5, t6, t7, t8, t9, t10, t11, t12, t13, t14, t15)
    }
}

impl<T1, T2, T3, T4, T5, T6, T7, T8, T9, T10, T11, T12, T13, T14, T15> Tuple for (T1, T2, T3, T4, T5, T6, T7, T8, T9, T10, T11, T12, T13, T14, T15) {
    type HList = Product<T1, Product<T2, Product<T3, Product<T4, Product<T5, Product<T6, Product<T7, Product<T8, Product<T9, Product<T10, Product<T11, Product<T12, Product<T13, Product<T14, Product<T15, ()>>>>>>>>>>>>>>>;

    open spec fn hlist_spec(self) -> Product<T1, Product<T2, Product<T3, Product<T4, Product<T5, Product<T6, Product<T7, Product<T8, Product<T9, Product<T10, Product<T11, Product<T12, Product<T13, Product<T14, Product<T15, ()>>>>>>>>>>>>>>> {
        Product(self.0, Product(self.1, Product(self.2, Product(self.3, Product(self.4, Product(self.5, Product(self.6, Product(self.7, Product(self.8, Product(self.9, Product(self.10, Product(self.11, Product(self.12, Product(self.13, Product(self.14, ())))))))))))))))
    }

    fn hlist(self) -> (h: Product<T1, Product<T2, Product<T3, Product<T4, Product<T5, Product<T6, Product<T7, Product<T8, Product<T9, Product<T10, Product<T11, Product<T12, Product<T13, Product<T14, Product<T15, ()>>>>>>>>>>>>>>>) {
        let (t1, t2, t3, t4, t5, t6, t7, t8, t9, t10, t11, t12, t13, t14, t15) = self;
        Product(t1, Product(t2, Product(t3, Product(t4, Product(t5, Product(t6, Product(t7, Product(t8, Product(t9, Product(t10, Product(t11, Product(t12, Product(t13, Product(t14, Product(t15, ())))))))))))))))
    }

    proof fn lemma_hlist_then_flatten(self) {
    }

    proof fn lemma_flatten_then_hlist(h: Product<T1, Product<T2, Product<T3, Product<T4, Product<T5, Product<T6, Product<T7, Product<T8, Product<T9, Product<T10, Product<T11, Product<T12, Product<T13, Product<T14, Product<T15, ()>>>>>>>>>>>>>>>) {
        assert(h.1.1.1.1.1.1.1.1.1.1.1.1.1.1.1 == ());
        assert((h.0, h.1.0, h.1.1.0, h.1.1.1.0, h.1.1.1.1.0, h.1.1.1.1.1.0, h.1.1.1.1.1.1.0, h.1.1.1.1.1.1.1.0, h.1.1.1.1.1.1.1.1.0, h.1.1.1.1.1.1.1.1.1.0, h.1.1.1.1.1.1.1.1.1.1.0, h.1.1.1.1.1.1.1.1.1.1.1.0, h.1.1.1.1.1.1.1.1.1.1.1.1.0, h.1.1.1.1.1.1.1.1.1.1.1.1.1.0, h.1.1.1.1.1.1.1.1.1.1.1.1.1.1.0).hlist_spec() == h);
    }
}

impl<T1, T2, T3, T4, T5, T6, T7, T8, T9, T10, T11, T12, T13, T14, T15, T16> HList for Product<T1, Product<T2, Product<T3, Product<T4, Product<T5, Product<T6, Product<T7, Product<T8, Product<T9, Product<T10, Product<T11, Product<T12, Product<T13, Product<T14, Product<T15, Product<T16, ()>>>>>>>>>>>>>>>> {
    type Tuple = (T1, T2, T3, T4, T5, T6, T7, T8, T9, T10, T11, T12, T13, T14, T15, T16);

    open spec fn flatten_spec(self) -> (T1, T2, T3, T4, T5, T6, T7, T8, T9, T10, T11, T12, T13, T14, T15, T16) {
        (self.0, self.1.0, self.1.1.0, self.1.1.1.0, self.1.1.1.1.0, self.1.1.1.1.1.0, self.1.1.1.1.1.1.0, self.1.1.1.1.1.1.1.0, self.1.1.1.1.1.1.1.1.0, self.1.1.1.1.1.1.1.1.1.0, self.1.1.1.1.1.1.1.1.1.1.0, self.1.1.1.1.1.1.1.1.1.1.1.0, self.1.1.1.1.1.1.1.1.1.1.1.1.0, self.1.1.1.1.1.1.1.1.1.1.1.1.1.0, self.1.1.1.1.1.1.1.1.1.1.1.1.1.1.0, self.1.1.1.1.1.1.1.1.1.1.1.1.1.1.1.0)
    }

    fn flatten(self) -> (t: (T1, T2, T3, T4, T5, T6, T7, T8, T9, T10, T11, T12, T13, T14, T15, T16)) {
        let Product(t1, Product(t2, Product(t3, Product(t4, Product(t5, Product(t6, Product(t7, Product(t8, Product(t9, Product(t10, Product(t11, Product(t12, Product(t13, Product(t14, Product(t15, Product(t16, ())))))))))))))))) = self;
        (t1, t2, t3, t4, t5, t6, t7, t8, t9, t10, t11, t12, t13, t14, t15, t16)
    }
}

impl<T1, T2, T3, T4, T5, T6, T7, T8, T9, T10, T11, T12, T13, T14, T15, T16> Tuple for (T1, T2, T3, T4, T5, T6, T7, T8, T9, T10, T11, T12, T13, T14, T15, T16) {
    type HList = Product<T1, Product<T2, Product<T3, Product<T4, Product<T5, Product<T6, Product<T7, Product<T8, Product<T9, Product<T10, Product<T11, Product<T12, Product<T13, Product<T14, Product<T15, Product<T16, ()>>>>>>>>>>>>>>>>;

    open spec fn hlist_spec(self) -> Product<T1, Product<T2, Product<T3, Product<T4, Product<T5, Product<T6, Product<T7, Product<T8, Product<T9, Product<T10, Product<T11, Product<T12, Product<T13, Product<T14, Product<T15, Product<T16, ()>>>>>>>>>>>>>>>> {
        Product(self.0, Product(self.1, Product(self.2, Product(self.3, Product(self.4, Product(self.5, Product(self.6, Product(self.7, Product(self.8, Product(self.9, Product(self.10, Product(self.11, Product(self.12, Product(self.13, Product(self.14, Product(self.15, ()))))))))))))))))
    }

    fn hlist(self) -> (h: Product<T1, Product<T2, Product<T3, Product<T4, Product<T5, Product<T6, Product<T7, Product<T8, Product<T9, Product<T10, Product<T11, Product<T12, Product<T13, Product<T14, Product<T15, Product<T16, ()>>>>>>>>>>>>>>>>) {
        let (t1, t2, t3, t4, t5, t6, t7, t8, t9, t10, t11, t12, t13, t14, t15, t16) = self;
        Product(t1, Product(t2, Product(t3, Product(t4, Product(t5, Product(t6, Product(t7, Product(t8, Product(t9, Product(t10, Product(t11, Product(t12, Product(t13, Product(t14, Product(t15, Product(t16, ()))))))))))))))))
    }

    proof fn lemma_hlist_then_flatten(self) {
    }

    proof fn lemma_flatten_then_hlist(h: Product<T1, Product<T2, Product<T3, Product<T4, Product<T5, Product<T6, Product<T7, Product<T8, Product<T9, Product<T10, Product<T11, Product<T12, Product<T13, Product<T14, Product<T15, Product<T16, ()>>>>>>>>>>>>>>>>) {
        assert(h.1.1.1.1.1.1.1.1.1.1.1.1.1.1.1.1 == ());
        assert((h.0, h.1.0, h.1.1.0, h.1.1.1.0, h.1.1.1.1.0, h.1.1.1.1.1.0, h.1.1.1.1.1.1.0, h.1.1.1.1.1.1.1.0, h.1.1.1.1.1.1.1.1.0, h.1.1.1.1.1.1.1.1.1.0, h.1.1.1.1.1.1.1.1.1.1.0, h.1.1.1.1.1.1.1.1.1.1.1.0, h.1.1.1.1.1.1.1.1.1.1.1.1.0, h.1.1.1.1.1.1.1.1.1.1.1.1.1.0, h.1.1.1.1.1.1.1.1.1.1.1.1.1.1.0, h.1.1.1.1.1.1.1.1.1.1.1.1.1.1.1.0).hlist_spec() == h);
    }
}

/// Combining the empty tuple with any tuple gives that tuple.
pub proof fn lemma_combine_unit_left<A: Tuple>(t: A)
    ensures
        combined((), t) == t,
{
    t.lemma_hlist_then_flatten();
}

/// Combining a list with the empty list on the right gives the list back.
pub trait CombineUnitRight: HList + Combine<(), Output = Self> {
    proof fn lemma_combine_unit_right(self)
        ensures
            self.combine_spec(()) == self,
    ;
}

impl CombineUnitRight for () {
    proof fn lemma_combine_unit_right(self) {
    }
}

impl<H, A> CombineUnitRight for Product<H, A> where A: CombineUnitRight, Product<H, A>: HList {
    proof fn lemma_combine_unit_right(self) {
        self.1.lemma_combine_unit_right();
    }
}

/// Combining any tuple with the empty tuple gives that tuple.
pub proof fn lemma_combine_unit_right<T: Tuple>(t: T) where T::HList: CombineUnitRight
    ensures
        combined(t, ()) == t,
{
    t.hlist_spec().lemma_combine_unit_right();
    t.lemma_hlist_then_flatten();
}

/// Concatenation of lists is associative: combining `self` with `b` and the
/// result with `c` gives the same list as combining `self` with `b` and `c`
/// already combined.
pub trait CombineAssociative<B: HList, C: HList>: Combine<B> where
    B: Combine<C>,
    Self: Combine<<B as Combine<C>>::Output>,
    <Self as Combine<B>>::Output: Combine<
        C,
        Output = <Self as Combine<<B as Combine<C>>::Output>>::Output,
    >,
 {
    proof fn lemma_combine_associative(self, b: B, c: C)
        ensures
            self.combine_spec(b).combine_spec(c) == self.combine_spec(b.combine_spec(c)),
    ;
}

impl<B, C> CombineAssociative<B, C> for () where B: HList + Combine<C>, C: HList {
    proof fn lemma_combine_associative(self, b: B, c: C) {
    }
}

impl<H, A, B, C> CombineAssociative<B, C> for Product<H, A> where
    A: HList + CombineAssociative<B, C> + Combine<<B as Combine<C>>::Output>,
    B: HList + Combine<C>,
    C: HList,
    <A as Combine<B>>::Output: Combine<
        C,
        Output = <A as Combine<<B as Combine<C>>::Output>>::Output,
    >,
    Product<H, <A as Combine<B>>::Output>: HList,
    Product<H, <A as Combine<<B as Combine<C>>::Output>>::Output>: HList,
 {
    proof fn lemma_combine_associative(self, b: B, c: C) {
        self.1.lemma_combine_associative(b, c);
    }
}

/// Combining tuples is associative: `a` combined with `b`, and the result with
/// `c`, is `a` combined with `b` and `c` already combined.
pub proof fn lemma_combine_associative<A, B, C>(a: A, b: B, c: C) where
    A: Tuple,
    B: Tuple,
    C: Tuple,
    A::HList: CombineAssociative<B::HList, C::HList>,
    B::HList: Combine<C::HList>,
    A::HList: Combine<<B::HList as Combine<C::HList>>::Output>,
    <A::HList as Combine<B::HList>>::Output: Combine<
        C::HList,
        Output = <A::HList as Combine<<B::HList as Combine<C::HList>>::Output>>::Output,
    >,
    CombinedTuples<A, B>: Tuple<HList = <A::HList as Combine<B::HList>>::Output>,
    CombinedTuples<B, C>: Tuple<HList = <B::HList as Combine<C::HList>>::Output>,

    ensures
        combined(combined(a, b), c) == combined(a, combined(b, c)),
{
    let ab_list = a.hlist_spec().combine_spec(b.hlist_spec());
    let bc_list = b.hlist_spec().combine_spec(c.hlist_spec());
    CombinedTuples::<A, B>::lemma_flatten_then_hlist(ab_list);
    CombinedTuples::<B, C>::lemma_flatten_then_hlist(bc_list);
    a.hlist_spec().lemma_combine_associative(b.hlist_spec(), c.hlist_spec());
}

} // verus!
