//! Lists of values of different types, and picking a value out of one by
//! its type.
//!
//! An `HCons<Head, Tail>` is a value of type `Head` in front of another
//! list; `()` is the empty list. A list of up to 20 values can be turned
//! into the tuple of its values and back. The index types `Here` and
//! `There<I>` name the place of a value: at the head, or at the place `I`
//! of the tail.

use std::marker::PhantomData;
use vstd::prelude::*;

verus! {

pub struct HCons<Head, Tail> {
    pub head: Head,
    pub tail: Tail,
}

pub trait HList: Sized {
    type Tuple;

    /// The tuple of the values of the list.
    spec fn spec_flatten(self) -> Self::Tuple;

    fn flatten(self) -> (r: Self::Tuple)
        ensures
            r == self.spec_flatten(),
    ;
}

pub trait Tuple: Sized {
    type HList;

    /// The list of the values of the tuple.
    spec fn spec_hlist(self) -> Self::HList;

    fn hlist(self) -> (r: Self::HList)
        ensures
            r == self.spec_hlist(),
    ;
}

impl HList for () {
    type Tuple = ();

    open spec fn spec_flatten(self) -> Self::Tuple {
        ()
    }

    fn flatten(self) -> (r: Self::Tuple) {
    }
}

impl Tuple for () {
    type HList = ();

    open spec fn spec_hlist(self) -> Self::HList {
        ()
    }

    fn hlist(self) -> (r: Self::HList) {
    }
}

impl<T1> HList for HCons<T1, ()> {
    type Tuple = (T1,);

    open spec fn spec_flatten(self) -> Self::Tuple {
        (self.head,)
    }

    fn flatten(self) -> (r: Self::Tuple) {
        let HCons { head: t1, tail: () } = self;
        (t1,)
    }
}

impl<T1> Tuple for (T1,) {
    type HList = HCons<T1, ()>;

    open spec fn spec_hlist(self) -> Self::HList {
        HCons { head: self.0, tail: () }
    }

    fn hlist(self) -> (r: Self::HList) {
        HCons { head: self.0, tail: () }
    }
}

impl<T1, T2> HList for HCons<T1, HCons<T2, ()>> {
    type Tuple = (T1, T2,);

    open spec fn spec_flatten(self) -> Self::Tuple {
        (self.head, self.tail.head,)
    }

    fn flatten(self) -> (r: Self::Tuple) {
        let HCons { head: t1, tail: HCons { head: t2, tail: () } } = self;
        (t1, t2,)
    }
}

impl<T1, T2> Tuple for (T1, T2,) {
    type HList = HCons<T1, HCons<T2, ()>>;

    open spec fn spec_hlist(self) -> Self::HList {
        HCons { head: self.0, tail: HCons { head: self.1, tail: () } }
    }

    fn hlist(self) -> (r: Self::HList) {
        HCons { head: self.0, tail: HCons { head: self.1, tail: () } }
    }
}

impl<T1, T2, T3> HList for HCons<T1, HCons<T2, HCons<T3, ()>>> {
    type Tuple = (T1, T2, T3,);

    open spec fn spec_flatten(self) -> Self::Tuple {
        (self.head, self.tail.head, self.tail.tail.head,)
    }

    fn flatten(self) -> (r: Self::Tuple) {
        let HCons { head: t1, tail: HCons { head: t2, tail: HCons { head: t3, tail: () } } } = self;
        (t1, t2, t3,)
    }
}

impl<T1, T2, T3> Tuple for (T1, T2, T3,) {
    type HList = HCons<T1, HCons<T2, HCons<T3, ()>>>;

    open spec fn spec_hlist(self) -> Self::HList {
        HCons { head: self.0, tail: HCons { head: self.1, tail: HCons { head: self.2, tail: () } } }
    }

    fn hlist(self) -> (r: Self::HList) {
        HCons { head: self.0, tail: HCons { head: self.1, tail: HCons { head: self.2, tail: () } } }
    }
}

impl<T1, T2, T3, T4> HList for HCons<T1, HCons<T2, HCons<T3, HCons<T4, ()>>>> {
    type Tuple = (T1, T2, T3, T4,);

    open spec fn spec_flatten(self) -> Self::Tuple {
        (self.head, self.tail.head, self.tail.tail.head, self.tail.tail.tail.head,)
    }

    fn flatten(self) -> (r: Self::Tuple) {
        let HCons { head: t1, tail: HCons { head: t2, tail: HCons { head: t3, tail: HCons { head: t4, tail: () } } } } = self;
        (t1, t2, t3, t4,)
    }
}

impl<T1, T2, T3, T4> Tuple for (T1, T2, T3, T4,) {
    type HList = HCons<T1, HCons<T2, HCons<T3, HCons<T4, ()>>>>;

    open spec fn spec_hlist(self) -> Self::HList {
        HCons { head: self.0, tail: HCons { head: self.1, tail: HCons { head: self.2, tail: HCons { head: self.3, tail: () } } } }
    }

    fn hlist(self) -> (r: Self::HList) {
        HCons { head: self.0, tail: HCons { head: self.1, tail: HCons { head: self.2, tail: HCons { head: self.3, tail: () } } } }
    }
}

impl<T1, T2, T3, T4, T5> HList for HCons<T1, HCons<T2, HCons<T3, HCons<T4, HCons<T5, ()>>>>> {
    type Tuple = (T1, T2, T3, T4, T5,);

    open spec fn spec_flatten(self) -> Self::Tuple {
        (self.head, self.tail.head, self.tail.tail.head, self.tail.tail.tail.head, self.tail.tail.tail.tail.head,)
    }

    fn flatten(self) -> (r: Self::Tuple) {
        let HCons { head: t1, tail: HCons { head: t2, tail: HCons { head: t3, tail: HCons { head: t4, tail: HCons { head: t5, tail: () } } } } } = self;
        (t1, t2, t3, t4, t5,)
    }
}

impl<T1, T2, T3, T4, T5> Tuple for (T1, T2, T3, T4, T5,) {
    type HList = HCons<T1, HCons<T2, HCons<T3, HCons<T4, HCons<T5, ()>>>>>;

    open spec fn spec_hlist(self) -> Self::HList {
        HCons { head: self.0, tail: HCons { head: self.1, tail: HCons { head: self.2, tail: HCons { head: self.3, tail: HCons { head: self.4, tail: () } } } } }
    }

    fn hlist(self) -> (r: Self::HList) {
        HCons { head: self.0, tail: HCons { head: self.1, tail: HCons { head: self.2, tail: HCons { head: self.3, tail: HCons { head: self.4, tail: () } } } } }
    }
}

impl<T1, T2, T3, T4, T5, T6> HList for HCons<T1, HCons<T2, HCons<T3, HCons<T4, HCons<T5, HCons<T6, ()>>>>>> {
    type Tuple = (T1, T2, T3, T4, T5, T6,);

    open spec fn spec_flatten(self) -> Self::Tuple {
        (self.head, self.tail.head, self.tail.tail.head, self.tail.tail.tail.head, self.tail.tail.tail.tail.head, self.tail.tail.tail.tail.tail.head,)
    }

    fn flatten(self) -> (r: Self::Tuple) {
        let HCons { head: t1, tail: HCons { head: t2, tail: HCons { head: t3, tail: HCons { head: t4, tail: HCons { head: t5, tail: HCons { head: t6, tail: () } } } } } } = self;
        (t1, t2, t3, t4, t5, t6,)
    }
}

impl<T1, T2, T3, T4, T5, T6> Tuple for (T1, T2, T3, T4, T5, T6,) {
    type HList = HCons<T1, HCons<T2, HCons<T3, HCons<T4, HCons<T5, HCons<T6, ()>>>>>>;

    open spec fn spec_hlist(self) -> Self::HList {
        HCons { head: self.0, tail: HCons { head: self.1, tail: HCons { head: self.2, tail: HCons { head: self.3, tail: HCons { head: self.4, tail: HCons { head: self.5, tail: () } } } } } }
    }

    fn hlist(self) -> (r: Self::HList) {
        HCons { head: self.0, tail: HCons { head: self.1, tail: HCons { head: self.2, tail: HCons { head: self.3, tail: HCons { head: self.4, tail: HCons { head: self.5, tail: () } } } } } }
    }
}

impl<T1, T2, T3, T4, T5, T6, T7> HList for HCons<T1, HCons<T2, HCons<T3, HCons<T4, HCons<T5, HCons<T6, HCons<T7, ()>>>>>>> {
    type Tuple = (T1, T2, T3, T4, T5, T6, T7,);

    open spec fn spec_flatten(self) -> Self::Tuple {
        (self.head, self.tail.head, self.tail.tail.head, self.tail.tail.tail.head, self.tail.tail.tail.tail.head, self.tail.tail.tail.tail.tail.head, self.tail.tail.tail.tail.tail.tail.head,)
    }

    fn flatten(self) -> (r: Self::Tuple) {
        let HCons { head: t1, tail: HCons { head: t2, tail: HCons { head: t3, tail: HCons { head: t4, tail: HCons { head: t5, tail: HCons { head: t6, tail: HCons { head: t7, tail: () } } } } } } } = self;
        (t1, t2, t3, t4, t5, t6, t7,)
    }
}

impl<T1, T2, T3, T4, T5, T6, T7> Tuple for (T1, T2, T3, T4, T5, T6, T7,) {
    type HList = HCons<T1, HCons<T2, HCons<T3, HCons<T4, HCons<T5, HCons<T6, HCons<T7, ()>>>>>>>;

    open spec fn spec_hlist(self) -> Self::HList {
        HCons { head: self.0, tail: HCons { head: self.1, tail: HCons { head: self.2, tail: HCons { head: self.3, tail: HCons { head: self.4, tail: HCons { head: self.5, tail: HCons { head: self.6, tail: () } } } } } } }
    }

    fn hlist(self) -> (r: Self::HList) {
        HCons { head: self.0, tail: HCons { head: self.1, tail: HCons { head: self.2, tail: HCons { head: self.3, tail: HCons { head: self.4, tail: HCons { head: self.5, tail: HCons { head: self.6, tail: () } } } } } } }
    }
}

impl<T1, T2, T3, T4, T5, T6, T7, T8> HList for HCons<T1, HCons<T2, HCons<T3, HCons<T4, HCons<T5, HCons<T6, HCons<T7, HCons<T8, ()>>>>>>>> {
    type Tuple = (T1, T2, T3, T4, T5, T6, T7, T8,);

    open spec fn spec_flatten(self) -> Self::Tuple {
        (self.head, self.tail.head, self.tail.tail.head, self.tail.tail.tail.head, self.tail.tail.tail.tail.head, self.tail.tail.tail.tail.tail.head, self.tail.tail.tail.tail.tail.tail.head, self.tail.tail.tail.tail.tail.tail.tail.head,)
    }

    fn flatten(self) -> (r: Self::Tuple) {
        let HCons { head: t1, tail: HCons { head: t2, tail: HCons { head: t3, tail: HCons { head: t4, tail: HCons { head: t5, tail: HCons { head: t6, tail: HCons { head: t7, tail: HCons { head: t8, tail: () } } } } } } } } = self;
        (t1, t2, t3, t4, t5, t6, t7, t8,)
    }
}

impl<T1, T2, T3, T4, T5, T6, T7, T8> Tuple for (T1, T2, T3, T4, T5, T6, T7, T8,) {
    type HList = HCons<T1, HCons<T2, HCons<T3, HCons<T4, HCons<T5, HCons<T6, HCons<T7, HCons<T8, ()>>>>>>>>;

    open spec fn spec_hlist(self) -> Self::HList {
        HCons { head: self.0, tail: HCons { head: self.1, tail: HCons { head: self.2, tail: HCons { head: self.3, tail: HCons { head: self.4, tail: HCons { head: self.5, tail: HCons { head: self.6, tail: HCons { head: self.7, tail: () } } } } } } } }
    }

    fn hlist(self) -> (r: Self::HList) {
        HCons { head: self.0, tail: HCons { head: self.1, tail: HCons { head: self.2, tail: HCons { head: self.3, tail: HCons { head: self.4, tail: HCons { head: self.5, tail: HCons { head: self.6, tail: HCons { head: self.7, tail: () } } } } } } } }
    }
}

impl<T1, T2, T3, T4, T5, T6, T7, T8, T9> HList for HCons<T1, HCons<T2, HCons<T3, HCons<T4, HCons<T5, HCons<T6, HCons<T7, HCons<T8, HCons<T9, ()>>>>>>>>> {
    type Tuple = (T1, T2, T3, T4, T5, T6, T7, T8, T9,);

    open spec fn spec_flatten(self) -> Self::Tuple {
        (self.head, self.tail.head, self.tail.tail.head, self.tail.tail.tail.head, self.tail.tail.tail.tail.head, self.tail.tail.tail.tail.tail.head, self.tail.tail.tail.tail.tail.tail.head, self.tail.tail.tail.tail.tail.tail.tail.head, self.tail.tail.tail.tail.tail.tail.tail.tail.head,)
    }

    fn flatten(self) -> (r: Self::Tuple) {
        let HCons { head: t1, tail: HCons { head: t2, tail: HCons { head: t3, tail: HCons { head: t4, tail: HCons { head: t5, tail: HCons { head: t6, tail: HCons { head: t7, tail: HCons { head: t8, tail: HCons { head: t9, tail: () } } } } } } } } } = self;
        (t1, t2, t3, t4, t5, t6, t7, t8, t9,)
    }
}

impl<T1, T2, T3, T4, T5, T6, T7, T8, T9> Tuple for (T1, T2, T3, T4, T5, T6, T7, T8, T9,) {
    type HList = HCons<T1, HCons<T2, HCons<T3, HCons<T4, HCons<T5, HCons<T6, HCons<T7, HCons<T8, HCons<T9, ()>>>>>>>>>;

    open spec fn spec_hlist(self) -> Self::HList {
        HCons { head: self.0, tail: HCons { head: self.1, tail: HCons { head: self.2, tail: HCons { head: self.3, tail: HCons { head: self.4, tail: HCons { head: self.5, tail: HCons { head: self.6, tail: HCons { head: self.7, tail: HCons { head: self.8, tail: () } } } } } } } } }
    }

    fn hlist(self) -> (r: Self::HList) {
        HCons { head: self.0, tail: HCons { head: self.1, tail: HCons { head: self.2, tail: HCons { head: self.3, tail: HCons { head: self.4, tail: HCons { head: self.5, tail: HCons { head: self.6, tail: HCons { head: self.7, tail: HCons { head: self.8, tail: () } } } } } } } } }
    }
}

impl<T1, T2, T3, T4, T5, T6, T7, T8, T9, T10> HList for HCons<T1, HCons<T2, HCons<T3, HCons<T4, HCons<T5, HCons<T6, HCons<T7, HCons<T8, HCons<T9, HCons<T10, ()>>>>>>>>>> {
    type Tuple = (T1, T2, T3, T4, T5, T6, T7, T8, T9, T10,);

    open spec fn spec_flatten(self) -> Self::Tuple {
        (self.head, self.tail.head, self.tail.tail.head, self.tail.tail.tail.head, self.tail.tail.tail.tail.head, self.tail.tail.tail.tail.tail.head, self.tail.tail.tail.tail.tail.tail.head, self.tail.tail.tail.tail.tail.tail.tail.head, self.tail.tail.tail.tail.tail.tail.tail.tail.head, self.tail.tail.tail.tail.tail.tail.tail.tail.tail.head,)
    }

    fn flatten(self) -> (r: Self::Tuple) {
        let HCons { head: t1, tail: HCons { head: t2, tail: HCons { head: t3, tail: HCons { head: t4, tail: HCons { head: t5, tail: HCons { head: t6, tail: HCons { head: t7, tail: HCons { head: t8, tail: HCons { head: t9, tail: HCons { head: t10, tail: () } } } } } } } } } } = self;
        (t1, t2, t3, t4, t5, t6, t7, t8, t9, t10,)
    }
}

impl<T1, T2, T3, T4, T5, T6, T7, T8, T9, T10> Tuple for (T1, T2, T3, T4, T5, T6, T7, T8, T9, T10,) {
    type HList = HCons<T1, HCons<T2, HCons<T3, HCons<T4, HCons<T5, HCons<T6, HCons<T7, HCons<T8, HCons<T9, HCons<T10, ()>>>>>>>>>>;

    open spec fn spec_hlist(self) -> Self::HList {
        HCons { head: self.0, tail: HCons { head: self.1, tail: HCons { head: self.2, tail: HCons { head: self.3, tail: HCons { head: self.4, tail: HCons { head: self.5, tail: HCons { head: self.6, tail: HCons { head: self.7, tail: HCons { head: self.8, tail: HCons { head: self.9, tail: () } } } } } } } } } }
    }

    fn hlist(self) -> (r: Self::HList) {
        HCons { head: self.0, tail: HCons { head: self.1, tail: HCons { head: self.2, tail: HCons { head: self.3, tail: HCons { head: self.4, tail: HCons { head: self.5, tail: HCons { head: self.6, tail: HCons { head: self.7, tail: HCons { head: self.8, tail: HCons { head: self.9, tail: () } } } } } } } } } }
    }
}

impl<T1, T2, T3, T4, T5, T6, T7, T8, T9, T10, T11> HList for HCons<T1, HCons<T2, HCons<T3, HCons<T4, HCons<T5, HCons<T6, HCons<T7, HCons<T8, HCons<T9, HCons<T10, HCons<T11, ()>>>>>>>>>>> {
    type Tuple = (T1, T2, T3, T4, T5, T6, T7, T8, T9, T10, T11,);

    open spec fn spec_flatten(self) -> Self::Tuple {
        (self.head, self.tail.head, self.tail.tail.head, self.tail.tail.tail.head, self.tail.tail.tail.tail.head, self.tail.tail.tail.tail.tail.head, self.tail.tail.tail.tail.tail.tail.head, self.tail.tail.tail.tail.tail.tail.tail.head, self.tail.tail.tail.tail.tail.tail.tail.tail.head, self.tail.tail.tail.tail.tail.tail.tail.tail.tail.head, self.tail.tail.tail.tail.tail.tail.tail.tail.tail.tail.head,)
    }

    fn flatten(self) -> (r: Self::Tuple) {
        let HCons { head: t1, tail: HCons { head: t2, tail: HCons { head: t3, tail: HCons { head: t4, tail: HCons { head: t5, tail: HCons { head: t6, tail: HCons { head: t7, tail: HCons { head: t8, tail: HCons { head: t9, tail: HCons { head: t10, tail: HCons { head: t11, tail: () } } } } } } } } } } } = self;
        (t1, t2, t3, t4, t5, t6, t7, t8, t9, t10, t11,)
    }
}

impl<T1, T2, T3, T4, T5, T6, T7, T8, T9, T10, T11> Tuple for (T1, T2, T3, T4, T5, T6, T7, T8, T9, T10, T11,) {
    type HList = HCons<T1, HCons<T2, HCons<T3, HCons<T4, HCons<T5, HCons<T6, HCons<T7, HCons<T8, HCons<T9, HCons<T10, HCons<T11, ()>>>>>>>>>>>;

    open spec fn spec_hlist(self) -> Self::HList {
        HCons { head: self.0, tail: HCons { head: self.1, tail: HCons { head: self.2, tail: HCons { head: self.3, tail: HCons { head: self.4, tail: HCons { head: self.5, tail: HCons { head: self.6, tail: HCons { head: self.7, tail: HCons { head: self.8, tail: HCons { head: self.9, tail: HCons { head: self.10, tail: () } } } } } } } } } } }
    }

    fn hlist(self) -> (r: Self::HList) {
        HCons { head: self.0, tail: HCons { head: self.1, tail: HCons { head: self.2, tail: HCons { head: self.3, tail: HCons { head: self.4, tail: HCons { head: self.5, tail: HCons { head: self.6, tail: HCons { head: self.7, tail: HCons { head: self.8, tail: HCons { head: self.9, tail: HCons { head: self.10, tail: () } } } } } } } } } } }
    }
}

impl<T1, T2, T3, T4, T5, T6, T7, T8, T9, T10, T11, T12> HList for HCons<T1, HCons<T2, HCons<T3, HCons<T4, HCons<T5, HCons<T6, HCons<T7, HCons<T8, HCons<T9, HCons<T10, HCons<T11, HCons<T12, ()>>>>>>>>>>>> {
    type Tuple = (T1, T2, T3, T4, T5, T6, T7, T8, T9, T10, T11, T12,);

    open spec fn spec_flatten(self) -> Self::Tuple {
        (self.head, self.tail.head, self.tail.tail.head, self.tail.tail.tail.head, self.tail.tail.tail.tail.head, self.tail.tail.tail.tail.tail.head, self.tail.tail.tail.tail.tail.tail.head, self.tail.tail.tail.tail.tail.tail.tail.head, self.tail.tail.tail.tail.tail.tail.tail.tail.head, self.tail.tail.tail.tail.tail.tail.tail.tail.tail.head, self.tail.tail.tail.tail.tail.tail.tail.tail.tail.tail.head, self.tail.tail.tail.tail.tail.tail.tail.tail.tail.tail.tail.head,)
    }

    fn flatten(self) -> (r: Self::Tuple) {
        let HCons { head: t1, tail: HCons { head: t2, tail: HCons { head: t3, tail: HCons { head: t4, tail: HCons { head: t5, tail: HCons { head: t6, tail: HCons { head: t7, tail: HCons { head: t8, tail: HCons { head: t9, tail: HCons { head: t10, tail: HCons { head: t11, tail: HCons { head: t12, tail: () } } } } } } } } } } } } = self;
        (t1, t2, t3, t4, t5, t6, t7, t8, t9, t10, t11, t12,)
    }
}

impl<T1, T2, T3, T4, T5, T6, T7, T8, T9, T10, T11, T12> Tuple for (T1, T2, T3, T4, T5, T6, T7, T8, T9, T10, T11, T12,) {
    type HList = HCons<T1, HCons<T2, HCons<T3, HCons<T4, HCons<T5, HCons<T6, HCons<T7, HCons<T8, HCons<T9, HCons<T10, HCons<T11, HCons<T12, ()>>>>>>>>>>>>;

    open spec fn spec_hlist(self) -> Self::HList {
        HCons { head: self.0, tail: HCons { head: self.1, tail: HCons { head: self.2, tail: HCons { head: self.3, tail: HCons { head: self.4, tail: HCons { head: self.5, tail: HCons { head: self.6, tail: HCons { head: self.7, tail: HCons { head: self.8, tail: HCons { head: self.9, tail: HCons { head: self.10, tail: HCons { head: self.11, tail: () } } } } } } } } } } } }
    }

    fn hlist(self) -> (r: Self::HList) {
        HCons { head: self.0, tail: HCons { head: self.1, tail: HCons { head: self.2, tail: HCons { head: self.3, tail: HCons { head: self.4, tail: HCons { head: self.5, tail: HCons { head: self.6, tail: HCons { head: self.7, tail: HCons { head: self.8, tail: HCons { head: self.9, tail: HCons { head: self.10, tail: HCons { head: self.11, tail: () } } } } } } } } } } } }
    }
}

impl<T1, T2, T3, T4, T5, T6, T7, T8, T9, T10, T11, T12, T13> HList for HCons<T1, HCons<T2, HCons<T3, HCons<T4, HCons<T5, HCons<T6, HCons<T7, HCons<T8, HCons<T9, HCons<T10, HCons<T11, HCons<T12, HCons<T13, ()>>>>>>>>>>>>> {
    type Tuple = (T1, T2, T3, T4, T5, T6, T7, T8, T9, T10, T11, T12, T13,);

    open spec fn spec_flatten(self) -> Self::Tuple {
        (self.head, self.tail.head, self.tail.tail.head, self.tail.tail.tail.head, self.tail.tail.tail.tail.head, self.tail.tail.tail.tail.tail.head, self.tail.tail.tail.tail.tail.tail.head, self.tail.tail.tail.tail.tail.tail.tail.head, self.tail.tail.tail.tail.tail.tail.tail.tail.head, self.tail.tail.tail.tail.tail.tail.tail.tail.tail.head, self.tail.tail.tail.tail.tail.tail.tail.tail.tail.tail.head, self.tail.tail.tail.tail.tail.tail.tail.tail.tail.tail.tail.head, self.tail.tail.tail.tail.tail.tail.tail.tail.tail.tail.tail.tail.head,)
    }

    fn flatten(self) -> (r: Self::Tuple) {
        let HCons { head: t1, tail: HCons { head: t2, tail: HCons { head: t3, tail: HCons { head: t4, tail: HCons { head: t5, tail: HCons { head: t6, tail: HCons { head: t7, tail: HCons { head: t8, tail: HCons { head: t9, tail: HCons { head: t10, tail: HCons { head: t11, tail: HCons { head: t12, tail: HCons { head: t13, tail: () } } } } } } } } } } } } } = self;
        (t1, t2, t3, t4, t5, t6, t7, t8, t9, t10, t11, t12, t13,)
    }
}

impl<T1, T2, T3, T4, T5, T6, T7, T8, T9, T10, T11, T12, T13> Tuple for (T1, T2, T3, T4, T5, T6, T7, T8, T9, T10, T11, T12, T13,) {
    type HList = HCons<T1, HCons<T2, HCons<T3, HCons<T4, HCons<T5, HCons<T6, HCons<T7, HCons<T8, HCons<T9, HCons<T10, HCons<T11, HCons<T12, HCons<T13, ()>>>>>>>>>>>>>;

    open spec fn spec_hlist(self) -> Self::HList {
        HCons { head: self.0, tail: HCons { head: self.1, tail: HCons { head: self.2, tail: HCons { head: self.3, tail: HCons { head: self.4, tail: HCons { head: self.5, tail: HCons { head: self.6, tail: HCons { head: self.7, tail: HCons { head: self.8, tail: HCons { head: self.9, tail: HCons { head: self.10, tail: HCons { head: self.11, tail: HCons { head: self.12, tail: () } } } } } } } } } } } } }
    }

    fn hlist(self) -> (r: Self::HList) {
        HCons { head: self.0, tail: HCons { head: self.1, tail: HCons { head: self.2, tail: HCons { head: self.3, tail: HCons { head: self.4, tail: HCons { head: self.5, tail: HCons { head: self.6, tail: HCons { head: self.7, tail: HCons { head: self.8, tail: HCons { head: self.9, tail: HCons { head: self.10, tail: HCons { head: self.11, tail: HCons { head: self.12, tail: () } } } } } } } } } } } } }
    }
}

impl<T1, T2, T3, T4, T5, T6, T7, T8, T9, T10, T11, T12, T13, T14> HList for HCons<T1, HCons<T2, HCons<T3, HCons<T4, HCons<T5, HCons<T6, HCons<T7, HCons<T8, HCons<T9, HCons<T10, HCons<T11, HCons<T12, HCons<T13, HCons<T14, ()>>>>>>>>>>>>>> {
    type Tuple = (T1, T2, T3, T4, T5, T6, T7, T8, T9, T10, T11, T12, T13, T14,);

    open spec fn spec_flatten(self) -> Self::Tuple {
        (self.head, self.tail.head, self.tail.tail.head, self.tail.tail.tail.head, self.tail.tail.tail.tail.head, self.tail.tail.tail.tail.tail.head, self.tail.tail.tail.tail.tail.tail.head, self.tail.tail.tail.tail.tail.tail.tail.head, self.tail.tail.tail.tail.tail.tail.tail.tail.head, self.tail.tail.tail.tail.tail.tail.tail.tail.tail.head, self.tail.tail.tail.tail.tail.tail.tail.tail.tail.tail.head, self.tail.tail.tail.tail.tail.tail.tail.tail.tail.tail.tail.head, self.tail.tail.tail.tail.tail.tail.tail.tail.tail.tail.tail.tail.head, self.tail.tail.tail.tail.tail.tail.tail.tail.tail.tail.tail.tail.tail.head,)
    }

    fn flatten(self) -> (r: Self::Tuple) {
        let HCons { head: t1, tail: HCons { head: t2, tail: HCons { head: t3, tail: HCons { head: t4, tail: HCons { head: t5, tail: HCons { head: t6, tail: HCons { head: t7, tail: HCons { head: t8, tail: HCons { head: t9, tail: HCons { head: t10, tail: HCons { head: t11, tail: HCons { head: t12, tail: HCons { head: t13, tail: HCons { head: t14, tail: () } } } } } } } } } } } } } } = self;
        (t1, t2, t3, t4, t5, t6, t7, t8, t9, t10, t11, t12, t13, t14,)
    }
}

impl<T1, T2, T3, T4, T5, T6, T7, T8, T9, T10, T11, T12, T13, T14> Tuple for (T1, T2, T3, T4, T5, T6, T7, T8, T9, T10, T11, T12, T13, T14,) {
    type HList = HCons<T1, HCons<T2, HCons<T3, HCons<T4, HCons<T5, HCons<T6, HCons<T7, HCons<T8, HCons<T9, HCons<T10, HCons<T11, HCons<T12, HCons<T13, HCons<T14, ()>>>>>>>>>>>>>>;

    open spec fn spec_hlist(self) -> Self::HList {
        HCons { head: self.0, tail: HCons { head: self.1, tail: HCons { head: self.2, tail: HCons { head: self.3, tail: HCons { head: self.4, tail: HCons { head: self.5, tail: HCons { head: self.6, tail: HCons { head: self.7, tail: HCons { head: self.8, tail: HCons { head: self.9, tail: HCons { head: self.10, tail: HCons { head: self.11, tail: HCons { head: self.12, tail: HCons { head: self.13, tail: () } } } } } } } } } } } } } }
    }

    fn hlist(self) -> (r: Self::HList) {
        HCons { head: self.0, tail: HCons { head: self.1, tail: HCons { head: self.2, tail: HCons { head: self.3, tail: HCons { head: self.4, tail: HCons { head: self.5, tail: HCons { head: self.6, tail: HCons { head: self.7, tail: HCons { head: self.8, tail: HCons { head: self.9, tail: HCons { head: self.10, tail: HCons { head: self.11, tail: HCons { head: self.12, tail: HCons { head: self.13, tail: () } } } } } } } } } } } } } }
    }
}

impl<T1, T2, T3, T4, T5, T6, T7, T8, T9, T10, T11, T12, T13, T14, T15> HList for HCons<T1, HCons<T2, HCons<T3, HCons<T4, HCons<T5, HCons<T6, HCons<T7, HCons<T8, HCons<T9, HCons<T10, HCons<T11, HCons<T12, HCons<T13, HCons<T14, HCons<T15, ()>>>>>>>>>>>>>>> {
    type Tuple = (T1, T2, T3, T4, T5, T6, T7, T8, T9, T10, T11, T12, T13, T14, T15,);

    open spec fn spec_flatten(self) -> Self::Tuple {
        (self.head, self.tail.head, self.tail.tail.head, self.tail.tail.tail.head, self.tail.tail.tail.tail.head, self.tail.tail.tail.tail.tail.head, self.tail.tail.tail.tail.tail.tail.head, self.tail.tail.tail.tail.tail.tail.tail.head, self.tail.tail.tail.tail.tail.tail.tail.tail.head, self.tail.tail.tail.tail.tail.tail.tail.tail.tail.head, self.tail.tail.tail.tail.tail.tail.tail.tail.tail.tail.head, self.tail.tail.tail.tail.tail.tail.tail.tail.tail.tail.tail.head, self.tail.tail.tail.tail.tail.tail.tail.tail.tail.tail.tail.tail.head, self.tail.tail.tail.tail.tail.tail.tail.tail.tail.tail.tail.tail.tail.head, self.tail.tail.tail.tail.tail.tail.tail.tail.tail.tail.tail.tail.tail.tail.head,)
    }

    fn flatten(self) -> (r: Self::Tuple) {
        let HCons { head: t1, tail: HCons { head: t2, tail: HCons { head: t3, tail: HCons { head: t4, tail: HCons { head: t5, tail: HCons { head: t6, tail: HCons { head: t7, tail: HCons { head: t8, tail: HCons { head: t9, tail: HCons { head: t10, tail: HCons { head: t11, tail: HCons { head: t12, tail: HCons { head: t13, tail: HCons { head: t14, tail: HCons { head: t15, tail: () } } } } } } } } } } } } } } } = self;
        (t1, t2, t3, t4, t5, t6, t7, t8, t9, t10, t11, t12, t13, t14, t15,)
    }
}

impl<T1, T2, T3, T4, T5, T6, T7, T8, T9, T10, T11, T12, T13, T14, T15> Tuple for (T1, T2, T3, T4, T5, T6, T7, T8, T9, T10, T11, T12, T13, T14, T15,) {
    type HList = HCons<T1, HCons<T2, HCons<T3, HCons<T4, HCons<T5, HCons<T6, HCons<T7, HCons<T8, HCons<T9, HCons<T10, HCons<T11, HCons<T12, HCons<T13, HCons<T14, HCons<T15, ()>>>>>>>>>>>>>>>;

    open spec fn spec_hlist(self) -> Self::HList {
        HCons { head: self.0, tail: HCons { head: self.1, tail: HCons { head: self.2, tail: HCons { head: self.3, tail: HCons { head: self.4, tail: HCons { head: self.5, tail: HCons { head: self.6, tail: HCons { head: self.7, tail: HCons { head: self.8, tail: HCons { head: self.9, tail: HCons { head: self.10, tail: HCons { head: self.11, tail: HCons { head: self.12, tail: HCons { head: self.13, tail: HCons { head: self.14, tail: () } } } } } } } } } } } } } } }
    }

    fn hlist(self) -> (r: Self::HList) {
        HCons { head: self.0, tail: HCons { head: self.1, tail: HCons { head: self.2, tail: HCons { head: self.3, tail: HCons { head: self.4, tail: HCons { head: self.5, tail: HCons { head: self.6, tail: HCons { head: self.7, tail: HCons { head: self.8, tail: HCons { head: self.9, tail: HCons { head: self.10, tail: HCons { head: self.11, tail: HCons { head: self.12, tail: HCons { head: self.13, tail: HCons { head: self.14, tail: () } } } } } } } } } } } } } } }
    }
}

impl<T1, T2, T3, T4, T5, T6, T7, T8, T9, T10, T11, T12, T13, T14, T15, T16> HList for HCons<T1, HCons<T2, HCons<T3, HCons<T4, HCons<T5, HCons<T6, HCons<T7, HCons<T8, HCons<T9, HCons<T10, HCons<T11, HCons<T12, HCons<T13, HCons<T14, HCons<T15, HCons<T16, ()>>>>>>>>>>>>>>>> {
    type Tuple = (T1, T2, T3, T4, T5, T6, T7, T8, T9, T10, T11, T12, T13, T14, T15, T16,);

    open spec fn spec_flatten(self) -> Self::Tuple {
        (self.head, self.tail.head, self.tail.tail.head, self.tail.tail.tail.head, self.tail.tail.tail.tail.head, self.tail.tail.tail.tail.tail.head, self.tail.tail.tail.tail.tail.tail.head, self.tail.tail.tail.tail.tail.tail.tail.head, self.tail.tail.tail.tail.tail.tail.tail.tail.head, self.tail.tail.tail.tail.tail.tail.tail.tail.tail.head, self.tail.tail.tail.tail.tail.tail.tail.tail.tail.tail.head, self.tail.tail.tail.tail.tail.tail.tail.tail.tail.tail.tail.head, self.tail.tail.tail.tail.tail.tail.tail.tail.tail.tail.tail.tail.head, self.tail.tail.tail.tail.tail.tail.tail.tail.tail.tail.tail.tail.tail.head, self.tail.tail.tail.tail.tail.tail.tail.tail.tail.tail.tail.tail.tail.tail.head, self.tail.tail.tail.tail.tail.tail.tail.tail.tail.tail.tail.tail.tail.tail.tail.head,)
    }

    fn flatten(self) -> (r: Self::Tuple) {
        let HCons { head: t1, tail: HCons { head: t2, tail: HCons { head: t3, tail: HCons { head: t4, tail: HCons { head: t5, tail: HCons { head: t6, tail: HCons { head: t7, tail: HCons { head: t8, tail: HCons { head: t9, tail: HCons { head: t10, tail: HCons { head: t11, tail: HCons { head: t12, tail: HCons { head: t13, tail: HCons { head: t14, tail: HCons { head: t15, tail: HCons { head: t16, tail: () } } } } } } } } } } } } } } } } = self;
        (t1, t2, t3, t4, t5, t6, t7, t8, t9, t10, t11, t12, t13, t14, t15, t16,)
    }
}

impl<T1, T2, T3, T4, T5, T6, T7, T8, T9, T10, T11, T12, T13, T14, T15, T16> Tuple for (T1, T2, T3, T4, T5, T6, T7, T8, T9, T10, T11, T12, T13, T14, T15, T16,) {
    type HList = HCons<T1, HCons<T2, HCons<T3, HCons<T4, HCons<T5, HCons<T6, HCons<T7, HCons<T8, HCons<T9, HCons<T10, HCons<T11, HCons<T12, HCons<T13, HCons<T14, HCons<T15, HCons<T16, ()>>>>>>>>>>>>>>>>;

    open spec fn spec_hlist(self) -> Self::HList {
        HCons { head: self.0, tail: HCons { head: self.1, tail: HCons { head: self.2, tail: HCons { head: self.3, tail: HCons { head: self.4, tail: HCons { head: self.5, tail: HCons { head: self.6, tail: HCons { head: self.7, tail: HCons { head: self.8, tail: HCons { head: self.9, tail: HCons { head: self.10, tail: HCons { head: self.11, tail: HCons { head: self.12, tail: HCons { head: self.13, tail: HCons { head: self.14, tail: HCons { head: self.15, tail: () } } } } } } } } } } } } } } } }
    }

    fn hlist(self) -> (r: Self::HList) {
        HCons { head: self.0, tail: HCons { head: self.1, tail: HCons { head: self.2, tail: HCons { head: self.3, tail: HCons { head: self.4, tail: HCons { head: self.5, tail: HCons { head: self.6, tail: HCons { head: self.7, tail: HCons { head: self.8, tail: HCons { head: self.9, tail: HCons { head: self.10, tail: HCons { head: self.11, tail: HCons { head: self.12, tail: HCons { head: self.13, tail: HCons { head: self.14, tail: HCons { head: self.15, tail: () } } } } } } } } } } } } } } } }
    }
}

impl<T1, T2, T3, T4, T5, T6, T7, T8, T9, T10, T11, T12, T13, T14, T15, T16, T17> HList for HCons<T1, HCons<T2, HCons<T3, HCons<T4, HCons<T5, HCons<T6, HCons<T7, HCons<T8, HCons<T9, HCons<T10, HCons<T11, HCons<T12, HCons<T13, HCons<T14, HCons<T15, HCons<T16, HCons<T17, ()>>>>>>>>>>>>>>>>> {
    type Tuple = (T1, T2, T3, T4, T5, T6, T7, T8, T9, T10, T11, T12, T13, T14, T15, T16, T17,);

    open spec fn spec_flatten(self) -> Self::Tuple {
        (self.head, self.tail.head, self.tail.tail.head, self.tail.tail.tail.head, self.tail.tail.tail.tail.head, self.tail.tail.tail.tail.tail.head, self.tail.tail.tail.tail.tail.tail.head, self.tail.tail.tail.tail.tail.tail.tail.head, self.tail.tail.tail.tail.tail.tail.tail.tail.head, self.tail.tail.tail.tail.tail.tail.tail.tail.tail.head, self.tail.tail.tail.tail.tail.tail.tail.tail.tail.tail.head, self.tail.tail.tail.tail.tail.tail.tail.tail.tail.tail.tail.head, self.tail.tail.tail.tail.tail.tail.tail.tail.tail.tail.tail.tail.head, self.tail.tail.tail.tail.tail.tail.tail.tail.tail.tail.tail.tail.tail.head, self.tail.tail.tail.tail.tail.tail.tail.tail.tail.tail.tail.tail.tail.tail.head, self.tail.tail.tail.tail.tail.tail.tail.tail.tail.tail.tail.tail.tail.tail.tail.head, self.tail.tail.tail.tail.tail.tail.tail.tail.tail.tail.tail.tail.tail.tail.tail.tail.head,)
    }

    fn flatten(self) -> (r: Self::Tuple) {
        let HCons { head: t1, tail: HCons { head: t2, tail: HCons { head: t3, tail: HCons { head: t4, tail: HCons { head: t5, tail: HCons { head: t6, tail: HCons { head: t7, tail: HCons { head: t8, tail: HCons { head: t9, tail: HCons { head: t10, tail: HCons { head: t11, tail: HCons { head: t12, tail: HCons { head: t13, tail: HCons { head: t14, tail: HCons { head: t15, tail: HCons { head: t16, tail: HCons { head: t17, tail: () } } } } } } } } } } } } } } } } } = self;
        (t1, t2, t3, t4, t5, t6, t7, t8, t9, t10, t11, t12, t13, t14, t15, t16, t17,)
    }
}

impl<T1, T2, T3, T4, T5, T6, T7, T8, T9, T10, T11, T12, T13, T14, T15, T16, T17> Tuple for (T1, T2, T3, T4, T5, T6, T7, T8, T9, T10, T11, T12, T13, T14, T15, T16, T17,) {
    type HList = HCons<T1, HCons<T2, HCons<T3, HCons<T4, HCons<T5, HCons<T6, HCons<T7, HCons<T8, HCons<T9, HCons<T10, HCons<T11, HCons<T12, HCons<T13, HCons<T14, HCons<T15, HCons<T16, HCons<T17, ()>>>>>>>>>>>>>>>>>;

    open spec fn spec_hlist(self) -> Self::HList {
        HCons { head: self.0, tail: HCons { head: self.1, tail: HCons { head: self.2, tail: HCons { head: self.3, tail: HCons { head: self.4, tail: HCons { head: self.5, tail: HCons { head: self.6, tail: HCons { head: self.7, tail: HCons { head: self.8, tail: HCons { head: self.9, tail: HCons { head: self.10, tail: HCons { head: self.11, tail: HCons { head: self.12, tail: HCons { head: self.13, tail: HCons { head: self.14, tail: HCons { head: self.15, tail: HCons { head: self.16, tail: () } } } } } } } } } } } } } } } } }
    }

    fn hlist(self) -> (r: Self::HList) {
        HCons { head: self.0, tail: HCons { head: self.1, tail: HCons { head: self.2, tail: HCons { head: self.3, tail: HCons { head: self.4, tail: HCons { head: self.5, tail: HCons { head: self.6, tail: HCons { head: self.7, tail: HCons { head: self.8, tail: HCons { head: self.9, tail: HCons { head: self.10, tail: HCons { head: self.11, tail: HCons { head: self.12, tail: HCons { head: self.13, tail: HCons { head: self.14, tail: HCons { head: self.15, tail: HCons { head: self.16, tail: () } } } } } } } } } } } } } } } } }
    }
}

impl<T1, T2, T3, T4, T5, T6, T7, T8, T9, T10, T11, T12, T13, T14, T15, T16, T17, T18> HList for HCons<T1, HCons<T2, HCons<T3, HCons<T4, HCons<T5, HCons<T6, HCons<T7, HCons<T8, HCons<T9, HCons<T10, HCons<T11, HCons<T12, HCons<T13, HCons<T14, HCons<T15, HCons<T16, HCons<T17, HCons<T18, ()>>>>>>>>>>>>>>>>>> {
    type Tuple = (T1, T2, T3, T4, T5, T6, T7, T8, T9, T10, T11, T12, T13, T14, T15, T16, T17, T18,);

    open spec fn spec_flatten(self) -> Self::Tuple {
        (self.head, self.tail.head, self.tail.tail.head, self.tail.tail.tail.head, self.tail.tail.tail.tail.head, self.tail.tail.tail.tail.tail.head, self.tail.tail.tail.tail.tail.tail.head, self.tail.tail.tail.tail.tail.tail.tail.head, self.tail.tail.tail.tail.tail.tail.tail.tail.head, self.tail.tail.tail.tail.tail.tail.tail.tail.tail.head, self.tail.tail.tail.tail.tail.tail.tail.tail.tail.tail.head, self.tail.tail.tail.tail.tail.tail.tail.tail.tail.tail.tail.head, self.tail.tail.tail.tail.tail.tail.tail.tail.tail.tail.tail.tail.head, self.tail.tail.tail.tail.tail.tail.tail.tail.tail.tail.tail.tail.tail.head, self.tail.tail.tail.tail.tail.tail.tail.tail.tail.tail.tail.tail.tail.tail.head, self.tail.tail.tail.tail.tail.tail.tail.tail.tail.tail.tail.tail.tail.tail.tail.head, self.tail.tail.tail.tail.tail.tail.tail.tail.tail.tail.tail.tail.tail.tail.tail.tail.head, self.tail.tail.tail.tail.tail.tail.tail.tail.tail.tail.tail.tail.tail.tail.tail.tail.tail.head,)
    }

    fn flatten(self) -> (r: Self::Tuple) {
        let HCons { head: t1, tail: HCons { head: t2, tail: HCons { head: t3, tail: HCons { head: t4, tail: HCons { head: t5, tail: HCons { head: t6, tail: HCons { head: t7, tail: HCons { head: t8, tail: HCons { head: t9, tail: HCons { head: t10, tail: HCons { head: t11, tail: HCons { head: t12, tail: HCons { head: t13, tail: HCons { head: t14, tail: HCons { head: t15, tail: HCons { head: t16, tail: HCons { head: t17, tail: HCons { head: t18, tail: () } } } } } } } } } } } } } } } } } } = self;
        (t1, t2, t3, t4, t5, t6, t7, t8, t9, t10, t11, t12, t13, t14, t15, t16, t17, t18,)
    }
}

impl<T1, T2, T3, T4, T5, T6, T7, T8, T9, T10, T11, T12, T13, T14, T15, T16, T17, T18> Tuple for (T1, T2, T3, T4, T5, T6, T7, T8, T9, T10, T11, T12, T13, T14, T15, T16, T17, T18,) {
    type HList = HCons<T1, HCons<T2, HCons<T3, HCons<T4, HCons<T5, HCons<T6, HCons<T7, HCons<T8, HCons<T9, HCons<T10, HCons<T11, HCons<T12, HCons<T13, HCons<T14, HCons<T15, HCons<T16, HCons<T17, HCons<T18, ()>>>>>>>>>>>>>>>>>>;

    open spec fn spec_hlist(self) -> Self::HList {
        HCons { head: self.0, tail: HCons { head: self.1, tail: HCons { head: self.2, tail: HCons { head: self.3, tail: HCons { head: self.4, tail: HCons { head: self.5, tail: HCons { head: self.6, tail: HCons { head: self.7, tail: HCons { head: self.8, tail: HCons { head: self.9, tail: HCons { head: self.10, tail: HCons { head: self.11, tail: HCons { head: self.12, tail: HCons { head: self.13, tail: HCons { head: self.14, tail: HCons { head: self.15, tail: HCons { head: self.16, tail: HCons { head: self.17, tail: () } } } } } } } } } } } } } } } } } }
    }

    fn hlist(self) -> (r: Self::HList) {
        HCons { head: self.0, tail: HCons { head: self.1, tail: HCons { head: self.2, tail: HCons { head: self.3, tail: HCons { head: self.4, tail: HCons { head: self.5, tail: HCons { head: self.6, tail: HCons { head: self.7, tail: HCons { head: self.8, tail: HCons { head: self.9, tail: HCons { head: self.10, tail: HCons { head: self.11, tail: HCons { head: self.12, tail: HCons { head: self.13, tail: HCons { head: self.14, tail: HCons { head: self.15, tail: HCons { head: self.16, tail: HCons { head: self.17, tail: () } } } } } } } } } } } } } } } } } }
    }
}

impl<T1, T2, T3, T4, T5, T6, T7, T8, T9, T10, T11, T12, T13, T14, T15, T16, T17, T18, T19> HList for HCons<T1, HCons<T2, HCons<T3, HCons<T4, HCons<T5, HCons<T6, HCons<T7, HCons<T8, HCons<T9, HCons<T10, HCons<T11, HCons<T12, HCons<T13, HCons<T14, HCons<T15, HCons<T16, HCons<T17, HCons<T18, HCons<T19, ()>>>>>>>>>>>>>>>>>>> {
    type Tuple = (T1, T2, T3, T4, T5, T6, T7, T8, T9, T10, T11, T12, T13, T14, T15, T16, T17, T18, T19,);

    open spec fn spec_flatten(self) -> Self::Tuple {
        (self.head, self.tail.head, self.tail.tail.head, self.tail.tail.tail.head, self.tail.tail.tail.tail.head, self.tail.tail.tail.tail.tail.head, self.tail.tail.tail.tail.tail.tail.head, self.tail.tail.tail.tail.tail.tail.tail.head, self.tail.tail.tail.tail.tail.tail.tail.tail.head, self.tail.tail.tail.tail.tail.tail.tail.tail.tail.head, self.tail.tail.tail.tail.tail.tail.tail.tail.tail.tail.head, self.tail.tail.tail.tail.tail.tail.tail.tail.tail.tail.tail.head, self.tail.tail.tail.tail.tail.tail.tail.tail.tail.tail.tail.tail.head, self.tail.tail.tail.tail.tail.tail.tail.tail.tail.tail.tail.tail.tail.head, self.tail.tail.tail.tail.tail.tail.tail.tail.tail.tail.tail.tail.tail.tail.head, self.tail.tail.tail.tail.tail.tail.tail.tail.tail.tail.tail.tail.tail.tail.tail.head, self.tail.tail.tail.tail.tail.tail.tail.tail.tail.tail.tail.tail.tail.tail.tail.tail.head, self.tail.tail.tail.tail.tail.tail.tail.tail.tail.tail.tail.tail.tail.tail.tail.tail.tail.head, self.tail.tail.tail.tail.tail.tail.tail.tail.tail.tail.tail.tail.tail.tail.tail.tail.tail.tail.head,)
    }

    fn flatten(self) -> (r: Self::Tuple) {
        let HCons { head: t1, tail: HCons { head: t2, tail: HCons { head: t3, tail: HCons { head: t4, tail: HCons { head: t5, tail: HCons { head: t6, tail: HCons { head: t7, tail: HCons { head: t8, tail: HCons { head: t9, tail: HCons { head: t10, tail: HCons { head: t11, tail: HCons { head: t12, tail: HCons { head: t13, tail: HCons { head: t14, tail: HCons { head: t15, tail: HCons { head: t16, tail: HCons { head: t17, tail: HCons { head: t18, tail: HCons { head: t19, tail: () } } } } } } } } } } } } } } } } } } } = self;
        (t1, t2, t3, t4, t5, t6, t7, t8, t9, t10, t11, t12, t13, t14, t15, t16, t17, t18, t19,)
    }
}

impl<T1, T2, T3, T4, T5, T6, T7, T8, T9, T10, T11, T12, T13, T14, T15, T16, T17, T18, T19> Tuple for (T1, T2, T3, T4, T5, T6, T7, T8, T9, T10, T11, T12, T13, T14, T15, T16, T17, T18, T19,) {
    type HList = HCons<T1, HCons<T2, HCons<T3, HCons<T4, HCons<T5, HCons<T6, HCons<T7, HCons<T8, HCons<T9, HCons<T10, HCons<T11, HCons<T12, HCons<T13, HCons<T14, HCons<T15, HCons<T16, HCons<T17, HCons<T18, HCons<T19, ()>>>>>>>>>>>>>>>>>>>;

    open spec fn spec_hlist(self) -> Self::HList {
        HCons { head: self.0, tail: HCons { head: self.1, tail: HCons { head: self.2, tail: HCons { head: self.3, tail: HCons { head: self.4, tail: HCons { head: self.5, tail: HCons { head: self.6, tail: HCons { head: self.7, tail: HCons { head: self.8, tail: HCons { head: self.9, tail: HCons { head: self.10, tail: HCons { head: self.11, tail: HCons { head: self.12, tail: HCons { head: self.13, tail: HCons { head: self.14, tail: HCons { head: self.15, tail: HCons { head: self.16, tail: HCons { head: self.17, tail: HCons { head: self.18, tail: () } } } } } } } } } } } } } } } } } } }
    }

    fn hlist(self) -> (r: Self::HList) {
        HCons { head: self.0, tail: HCons { head: self.1, tail: HCons { head: self.2, tail: HCons { head: self.3, tail: HCons { head: self.4, tail: HCons { head: self.5, tail: HCons { head: self.6, tail: HCons { head: self.7, tail: HCons { head: self.8, tail: HCons { head: self.9, tail: HCons { head: self.10, tail: HCons { head: self.11, tail: HCons { head: self.12, tail: HCons { head: self.13, tail: HCons { head: self.14, tail: HCons { head: self.15, tail: HCons { head: self.16, tail: HCons { head: self.17, tail: HCons { head: self.18, tail: () } } } } } } } } } } } } } } } } } } }
    }
}

impl<T1, T2, T3, T4, T5, T6, T7, T8, T9, T10, T11, T12, T13, T14, T15, T16, T17, T18, T19, T20> HList for HCons<T1, HCons<T2, HCons<T3, HCons<T4, HCons<T5, HCons<T6, HCons<T7, HCons<T8, HCons<T9, HCons<T10, HCons<T11, HCons<T12, HCons<T13, HCons<T14, HCons<T15, HCons<T16, HCons<T17, HCons<T18, HCons<T19, HCons<T20, ()>>>>>>>>>>>>>>>>>>>> {
    type Tuple = (T1, T2, T3, T4, T5, T6, T7, T8, T9, T10, T11, T12, T13, T14, T15, T16, T17, T18, T19, T20,);

    open spec fn spec_flatten(self) -> Self::Tuple {
        (self.head, self.tail.head, self.tail.tail.head, self.tail.tail.tail.head, self.tail.tail.tail.tail.head, self.tail.tail.tail.tail.tail.head, self.tail.tail.tail.tail.tail.tail.head, self.tail.tail.tail.tail.tail.tail.tail.head, self.tail.tail.tail.tail.tail.tail.tail.tail.head, self.tail.tail.tail.tail.tail.tail.tail.tail.tail.head, self.tail.tail.tail.tail.tail.tail.tail.tail.tail.tail.head, self.tail.tail.tail.tail.tail.tail.tail.tail.tail.tail.tail.head, self.tail.tail.tail.tail.tail.tail.tail.tail.tail.tail.tail.tail.head, self.tail.tail.tail.tail.tail.tail.tail.tail.tail.tail.tail.tail.tail.head, self.tail.tail.tail.tail.tail.tail.tail.tail.tail.tail.tail.tail.tail.tail.head, self.tail.tail.tail.tail.tail.tail.tail.tail.tail.tail.tail.tail.tail.tail.tail.head, self.tail.tail.tail.tail.tail.tail.tail.tail.tail.tail.tail.tail.tail.tail.tail.tail.head, self.tail.tail.tail.tail.tail.tail.tail.tail.tail.tail.tail.tail.tail.tail.tail.tail.tail.head, self.tail.tail.tail.tail.tail.tail.tail.tail.tail.tail.tail.tail.tail.tail.tail.tail.tail.tail.head, self.tail.tail.tail.tail.tail.tail.tail.tail.tail.tail.tail.tail.tail.tail.tail.tail.tail.tail.tail.head,)
    }

    fn flatten(self) -> (r: Self::Tuple) {
        let HCons { head: t1, tail: HCons { head: t2, tail: HCons { head: t3, tail: HCons { head: t4, tail: HCons { head: t5, tail: HCons { head: t6, tail: HCons { head: t7, tail: HCons { head: t8, tail: HCons { head: t9, tail: HCons { head: t10, tail: HCons { head: t11, tail: HCons { head: t12, tail: HCons { head: t13, tail: HCons { head: t14, tail: HCons { head: t15, tail: HCons { head: t16, tail: HCons { head: t17, tail: HCons { head: t18, tail: HCons { head: t19, tail: HCons { head: t20, tail: () } } } } } } } } } } } } } } } } } } } } = self;
        (t1, t2, t3, t4, t5, t6, t7, t8, t9, t10, t11, t12, t13, t14, t15, t16, t17, t18, t19, t20,)
    }
}

impl<T1, T2, T3, T4, T5, T6, T7, T8, T9, T10, T11, T12, T13, T14, T15, T16, T17, T18, T19, T20> Tuple for (T1, T2, T3, T4, T5, T6, T7, T8, T9, T10, T11, T12, T13, T14, T15, T16, T17, T18, T19, T20,) {
    type HList = HCons<T1, HCons<T2, HCons<T3, HCons<T4, HCons<T5, HCons<T6, HCons<T7, HCons<T8, HCons<T9, HCons<T10, HCons<T11, HCons<T12, HCons<T13, HCons<T14, HCons<T15, HCons<T16, HCons<T17, HCons<T18, HCons<T19, HCons<T20, ()>>>>>>>>>>>>>>>>>>>>;

    open spec fn spec_hlist(self) -> Self::HList {
        HCons { head: self.0, tail: HCons { head: self.1, tail: HCons { head: self.2, tail: HCons { head: self.3, tail: HCons { head: self.4, tail: HCons { head: self.5, tail: HCons { head: self.6, tail: HCons { head: self.7, tail: HCons { head: self.8, tail: HCons { head: self.9, tail: HCons { head: self.10, tail: HCons { head: self.11, tail: HCons { head: self.12, tail: HCons { head: self.13, tail: HCons { head: self.14, tail: HCons { head: self.15, tail: HCons { head: self.16, tail: HCons { head: self.17, tail: HCons { head: self.18, tail: HCons { head: self.19, tail: () } } } } } } } } } } } } } } } } } } } }
    }

    fn hlist(self) -> (r: Self::HList) {
        HCons { head: self.0, tail: HCons { head: self.1, tail: HCons { head: self.2, tail: HCons { head: self.3, tail: HCons { head: self.4, tail: HCons { head: self.5, tail: HCons { head: self.6, tail: HCons { head: self.7, tail: HCons { head: self.8, tail: HCons { head: self.9, tail: HCons { head: self.10, tail: HCons { head: self.11, tail: HCons { head: self.12, tail: HCons { head: self.13, tail: HCons { head: self.14, tail: HCons { head: self.15, tail: HCons { head: self.16, tail: HCons { head: self.17, tail: HCons { head: self.18, tail: HCons { head: self.19, tail: () } } } } } } } } } } } } } } } } } } } }
    }
}

pub trait Plucker<Target, Index> {
    type Remainder;

    /// The value at the place `Index` and the list without it.
    spec fn spec_pluck(self) -> (Target, Self::Remainder);

    fn pluck(self) -> (r: (Target, Self::Remainder))
        ensures
            r == self.spec_pluck(),
    ;
}

pub trait PluckerRef<Target, Index> {
    /// The value at the place `Index`.
    spec fn spec_pluck(&self) -> Target;

    fn pluck(&self) -> (r: &Target)
        ensures
            *r == self.spec_pluck(),
    ;
}

pub trait PluckerMut<Target, Index>: Sized {
    /// The reference at the place `Index`.
    spec fn spec_place(&self) -> &mut Target;

    /// Whether `after` is this list with everything but the place `Index`
    /// as it is.
    spec fn same_elsewhere(&self, after: &Self) -> bool;

    /// A mutable reference to the value at the place `Index`. What the
    /// caller leaves there is what the reference at that place then holds,
    /// and the rest of the list stays as it is.
    fn pluck(&mut self) -> (r: &mut Target)
        ensures
            *r == *old(self).spec_place(),
            *final(self).spec_place() == *final(r),
            *final(final(self).spec_place()) == *final(old(self).spec_place()),
            old(self).same_elsewhere(final(self)),
    ;
}

pub struct Here();

impl<Target, Tail> Plucker<Target, Here> for HCons<Target, Tail> {
    type Remainder = Tail;

    open spec fn spec_pluck(self) -> (Target, Self::Remainder) {
        (self.head, self.tail)
    }

    fn pluck(self) -> (r: (Target, Self::Remainder)) {
        (self.head, self.tail)
    }
}

impl<'a, Target, Tail> PluckerRef<Target, Here> for HCons<&'a Target, Tail> {
    open spec fn spec_pluck(&self) -> Target {
        *self.head
    }

    fn pluck(&self) -> (r: &Target) {
        &self.head
    }
}

impl<'a, Target, Tail> PluckerMut<Target, Here> for HCons<&'a mut Target, Tail> {
    open spec fn spec_place(&self) -> &mut Target {
        self.head
    }

    open spec fn same_elsewhere(&self, after: &Self) -> bool {
        after.tail == self.tail
    }

    fn pluck(&mut self) -> (r: &mut Target) {
        &mut self.head
    }
}

pub struct There<T>(PhantomData<T>);

impl<Target, Head, Tail, TailIndex> Plucker<Target, There<TailIndex>> for HCons<Head, Tail> where
    Tail: Plucker<Target, TailIndex>,
 {
    type Remainder = HCons<Head, <Tail as Plucker<Target, TailIndex>>::Remainder>;

    open spec fn spec_pluck(self) -> (Target, Self::Remainder) {
        (self.tail.spec_pluck().0, HCons { head: self.head, tail: self.tail.spec_pluck().1 })
    }

    fn pluck(self) -> (r: (Target, Self::Remainder)) {
        let (target, tail_remainder): (Target, <Tail as Plucker<Target, TailIndex>>::Remainder) =
            <Tail as Plucker<Target, TailIndex>>::pluck(self.tail);
        (target, HCons { head: self.head, tail: tail_remainder })
    }
}

impl<Target, Head, Tail, TailIndex> PluckerRef<Target, There<TailIndex>> for HCons<Head, Tail> where
    Tail: PluckerRef<Target, TailIndex>,
 {
    open spec fn spec_pluck(&self) -> Target {
        self.tail.spec_pluck()
    }

    fn pluck(&self) -> (r: &Target) {
        <Tail as PluckerRef<Target, TailIndex>>::pluck(&self.tail)
    }
}

impl<Target, Head, Tail, TailIndex> PluckerMut<Target, There<TailIndex>> for HCons<Head, Tail> where
    Tail: PluckerMut<Target, TailIndex>,
 {
    open spec fn spec_place(&self) -> &mut Target {
        self.tail.spec_place()
    }

    open spec fn same_elsewhere(&self, after: &Self) -> bool {
        after.head == self.head && self.tail.same_elsewhere(&after.tail)
    }

    fn pluck(&mut self) -> (r: &mut Target) {
        <Tail as PluckerMut<Target, TailIndex>>::pluck(&mut self.tail)
    }
}

} // verus!
