//! The array wrapper: a guest array read by index, with the bounds checked.
use core::marker::PhantomData;
use vstd::prelude::*;
use crate::bridge::{
    lemma_run_one, lemma_run_two, read_element, reading, reception, run, Outcome, Pending, Reply,
    Request, Step,
};
use crate::handle::Value;
use crate::marshal::{Accessor, Datum, Pass, Passable, Receive};

verus! {

/// A guest array whose elements are of the host type `T`, which crosses the
/// boundary in the representation `U`. The wrapper holds the handle of the
/// array and no element.
#[derive(Debug)]
pub struct JavaArray<T, U> where T: Pass<U> + Receive, U: Passable {
    ptr: Value,
    phantom: PhantomData<T>,
    phantom2: PhantomData<U>,
}

impl<T, U> View for JavaArray<T, U> where T: Pass<U> + Receive, U: Passable {
    type V = Value;

    closed spec fn view(&self) -> Value {
        self.ptr
    }
}

impl<T, U> Clone for JavaArray<T, U> where T: Pass<U> + Receive, U: Passable {
    fn clone(&self) -> (copy: Self)
        ensures
            copy@ == self@,
    {
        JavaArray { ptr: self.ptr, phantom: PhantomData, phantom2: PhantomData }
    }
}

impl<T, U> Copy for JavaArray<T, U> where T: Pass<U> + Receive, U: Passable {

}

impl<T, U> Pass<Value> for JavaArray<T, U> where T: Pass<U> + Receive, U: Passable {
    open spec fn passed(&self) -> Value {
        self@
    }

    fn pass(&self) -> Value {
        self.ptr
    }
}

impl<T, U> Receive for JavaArray<T, U> where T: Pass<U> + Receive, U: Passable {
    open spec fn accessor_spec() -> Option<Accessor> {
        None
    }

    fn accessor() -> Option<Accessor> {
        None
    }

    closed spec fn received(datum: Datum) -> Option<Self> {
        match datum {
            Datum::Handle(value) => Some(
                JavaArray { ptr: value, phantom: PhantomData, phantom2: PhantomData },
            ),
            _ => None,
        }
    }

    fn from_polyglot_value(datum: Datum) -> Option<Self> {
        match datum {
            Datum::Handle(value) => Some(
                JavaArray { ptr: value, phantom: PhantomData, phantom2: PhantomData },
            ),
            _ => None,
        }
    }

    proof fn law_receives_what_comes_through(datum: Datum) {
    }
}

impl<T, U> JavaArray<T, U> where T: Pass<U> + Receive, U: Passable {
    /// The wrapper that is rebuilt from a handle passes that handle on.
    pub proof fn law_round_trip(value: Value)
        ensures
            Self::received(Datum::Handle(value)) is Some,
            Self::received(Datum::Handle(value))->Some_0.passed() == value,
    {
    }

    /// The first step of reading the element at `index`: the array is
    /// asked for its size.
    pub open spec fn reading(&self, index: u64, checked: bool) -> Step {
        reading(self@, index, T::accessor_spec(), checked)
    }

    /// Begins to read the element at `index`.
    ///
    /// The array is asked for its size. Where the index is not below it the
    /// reading ends with `Absent`; elsewhere the element at the index itself
    /// is asked for and a value of `T` is rebuilt from it, after a test of
    /// its kind where `checked` asks for one.
    pub fn get(&self, index: u64, checked: bool) -> (step: Step)
        ensures
            step == self.reading(index, checked),
            forall|size: u64|
                index >= size ==> #[trigger] run(step, seq![Reply::Size(size)]) == Step::Done(
                    Outcome::Absent,
                ),
            forall|size: u64|
                index < size ==> #[trigger] run(step, seq![Reply::Size(size)]) == Step::Ask(
                    Pending::ArrayElement { accessor: T::accessor_spec(), checked },
                    Request::GetArrayElement(self@, index),
                ),
    {
        read_element(self.ptr, index, T::accessor(), checked)
    }

    /// An index at or behind the size that the array reports gives no
    /// element, and no element is asked for.
    pub proof fn law_out_of_range_is_absent(self, index: u64, checked: bool, size: u64)
        requires
            index >= size,
        ensures
            run(self.reading(index, checked), seq![Reply::Size(size)]) == Step::Done(
                Outcome::Absent,
            ),
    {
        lemma_run_one(
            Pending::ArraySize { array: self@, index, accessor: T::accessor_spec(), checked },
            Request::GetArraySize(self@),
            Reply::Size(size),
        );
    }

    /// An index below the size that the array reports has the element at
    /// that index asked for, and the value is rebuilt from the handle that
    /// the runtime returns for it.
    pub proof fn law_in_range_is_present(
        self,
        index: u64,
        checked: bool,
        size: u64,
        element: Value,
    )
        requires
            index < size,
        ensures
            run(self.reading(index, checked), seq![Reply::Size(size)]) == Step::Ask(
                Pending::ArrayElement { accessor: T::accessor_spec(), checked },
                Request::GetArrayElement(self@, index),
            ),
            run(self.reading(index, checked), seq![Reply::Size(size), Reply::Handle(element)])
                == reception(T::accessor_spec(), checked, element),
            T::accessor_spec() is None ==> T::received(Datum::Handle(element)) is Some,
    {
        let waiting = Pending::ArraySize {
            array: self@,
            index,
            accessor: T::accessor_spec(),
            checked,
        };
        lemma_run_one(waiting, Request::GetArraySize(self@), Reply::Size(size));
        lemma_run_two(
            waiting,
            Request::GetArraySize(self@),
            Reply::Size(size),
            Reply::Handle(element),
        );
        T::law_receives_what_comes_through(Datum::Handle(element));
    }
}

} // verus!
