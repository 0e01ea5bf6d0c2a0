//! Chaining sugar for building lists of cells and columns one element at a
//! time, instead of writing the heterogeneous list out.
use vstd::prelude::*;
use frunk_core::hlist::{HCons, HNil};
use crate::table::{Cell, Header, HetLen};

verus! {

/// A column declaration: a header whose cells hold values of type `T`.
pub type Column<T> = Header<T>;

/// `c` is a column freshly declared with the given name.
pub open spec fn is_new_column<T>(c: Column<T>, name: Seq<char>) -> bool {
    &&& c.name@ == name
    &&& c.style.is_none()
    &&& c.alignment.is_none()
}

/// A cell holding `v`, with neither style nor alignment.
pub open spec fn plain_cell<T>(v: T) -> Cell<T> {
    Cell { val: v, style: None, alignment: None }
}

/// Declares a column with the given name, unstyled and unaligned.
pub fn column<T>(name: &str) -> (r: Column<T>)
    ensures
        is_new_column(r, name@),
{
    let s = name.to_string();
    proof {
        vstd::string::to_string_from_display_ensures_for_str(name, s);
    }
    Header(s)
}

/// A cell holding `v`, unstyled and unaligned.
pub fn cell<T>(v: T) -> (r: Cell<T>)
    ensures
        r == plain_cell(v),
{
    Cell::new(v)
}

/// Appending an element at the end of a list.
pub trait AppendWith<With>: Sized {
    type Out: HetLen;

    /// The number of elements that `self` counts for: one for a single
    /// element, the length for a list.
    spec fn elem_count() -> nat;

    /// The list that appending `o` to `self` gives.
    spec fn spec_with(self, o: With) -> Self::Out;

    /// Appending gives a list one element longer than what it appends to.
    proof fn lemma_with_len()
        ensures
            <Self::Out as HetLen>::het_len() == Self::elem_count() + 1,
    ;

    fn with(self, o: With) -> (r: Self::Out)
        ensures
            r == self.spec_with(o),
    ;
}

impl<With> AppendWith<With> for HNil {
    type Out = HCons<With, HNil>;

    open spec fn elem_count() -> nat {
        0
    }

    proof fn lemma_with_len() {
        assert(<HCons<With, HNil> as HetLen>::het_len() == 1);
    }

    open spec fn spec_with(self, o: With) -> HCons<With, HNil> {
        HCons { head: o, tail: HNil }
    }

    fn with(self, o: With) -> (r: HCons<With, HNil>) {
        HCons { head: o, tail: HNil }
    }
}

impl<H, T: AppendWith<With>, With> AppendWith<With> for HCons<H, T> {
    type Out = HCons<H, <T as AppendWith<With>>::Out>;

    open spec fn elem_count() -> nat {
        1 + T::elem_count()
    }

    proof fn lemma_with_len() {
        T::lemma_with_len();
        assert(<HCons<H, <T as AppendWith<With>>::Out> as HetLen>::het_len() == 1 + <<T as AppendWith<
            With,
        >>::Out as HetLen>::het_len());
    }

    open spec fn spec_with(self, o: With) -> HCons<H, <T as AppendWith<With>>::Out> {
        HCons { head: self.head, tail: self.tail.spec_with(o) }
    }

    fn with(self, o: With) -> (r: HCons<H, <T as AppendWith<With>>::Out>) {
        let HCons { head, tail } = self;
        HCons { head, tail: tail.with(o) }
    }
}

impl<H, W> AppendWith<Cell<W>> for Cell<H> {
    type Out = HCons<Cell<H>, HCons<Cell<W>, HNil>>;

    open spec fn elem_count() -> nat {
        1
    }

    proof fn lemma_with_len() {
        assert(<HCons<Cell<H>, HCons<Cell<W>, HNil>> as HetLen>::het_len() == 2);
    }

    open spec fn spec_with(self, o: Cell<W>) -> HCons<Cell<H>, HCons<Cell<W>, HNil>> {
        HCons { head: self, tail: HCons { head: o, tail: HNil } }
    }

    fn with(self, o: Cell<W>) -> (r: HCons<Cell<H>, HCons<Cell<W>, HNil>>) {
        HCons { head: self, tail: HCons { head: o, tail: HNil } }
    }
}

impl<H, W> AppendWith<Column<W>> for Column<H> {
    type Out = HCons<Column<H>, HCons<Column<W>, HNil>>;

    open spec fn elem_count() -> nat {
        1
    }

    proof fn lemma_with_len() {
        assert(<HCons<Column<H>, HCons<Column<W>, HNil>> as HetLen>::het_len() == 2);
    }

    open spec fn spec_with(self, o: Column<W>) -> HCons<Column<H>, HCons<Column<W>, HNil>> {
        HCons { head: self, tail: HCons { head: o, tail: HNil } }
    }

    fn with(self, o: Column<W>) -> (r: HCons<Column<H>, HCons<Column<W>, HNil>>) {
        HCons { head: self, tail: HCons { head: o, tail: HNil } }
    }
}

/// Appending a new cell, built from a value, at the end of a row.
pub trait AppendToCells<With>: Sized {
    type Out;

    /// The row that appending a plain cell holding `o` to `self` gives.
    spec fn spec_cell(self, o: With) -> Self::Out;

    fn cell(self, o: With) -> (r: Self::Out)
        ensures
            r == self.spec_cell(o),
    ;
}

impl<H, T, With> AppendToCells<With> for HCons<H, T> where T: AppendWith<Cell<With>> {
    type Out = <HCons<H, T> as AppendWith<Cell<With>>>::Out;

    open spec fn spec_cell(self, o: With) -> <HCons<H, T> as AppendWith<Cell<With>>>::Out {
        self.spec_with(plain_cell(o))
    }

    fn cell(self, o: With) -> (r: <HCons<H, T> as AppendWith<Cell<With>>>::Out) {
        self.with(cell(o))
    }
}

impl<H, With> AppendToCells<With> for Cell<H> {
    type Out = HCons<Cell<H>, HCons<Cell<With>, HNil>>;

    open spec fn spec_cell(self, o: With) -> HCons<Cell<H>, HCons<Cell<With>, HNil>> {
        HCons { head: self, tail: HCons { head: plain_cell(o), tail: HNil } }
    }

    fn cell(self, o: With) -> (r: HCons<Cell<H>, HCons<Cell<With>, HNil>>) {
        HCons { head: self, tail: HCons { head: cell(o), tail: HNil } }
    }
}

/// Appending a newly declared column at the end of a list of columns.
pub trait AppendToColumns: Sized {
    fn column<ColType>(self, name: &str) -> (r: <Self as AppendWith<Column<ColType>>>::Out) where
        Self: AppendWith<Column<ColType>>,
        ensures
            exists|c: Column<ColType>| is_new_column(c, name@) && r == self.spec_with(c),
    ;
}

impl<H> AppendToColumns for Column<H> {
    fn column<ColType>(self, name: &str) -> (r: <Self as AppendWith<Column<ColType>>>::Out) where
        Self: AppendWith<Column<ColType>>,
    {
        self.with(column(name))
    }
}

impl<H, T> AppendToColumns for HCons<H, T> {
    fn column<ColType>(self, name: &str) -> (r: <Self as AppendWith<Column<ColType>>>::Out) where
        Self: AppendWith<Column<ColType>>,
    {
        self.with(column(name))
    }
}

} // verus!
