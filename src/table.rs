//! Typed columns, cells and tables, and their erasure into `tableau` values.
use vstd::prelude::*;
use std::marker::PhantomData;
use frunk_core::hlist::{HCons, HNil};
use tableau::Cell as TabCell;
use tableau::Table as TabTable;
use crate::backend::{apply_default_style, apply_style, new_cell, new_row, shows};

verus! {

/// A column header whose cells hold values of type `H`.
pub struct Header<H> {
    pub name: String,
    pub style: Option<console::Style>,
    pub alignment: Option<tableau::Alignment>,
    /// Marks the type of the column's values; holds no value.
    pub tp_holder: PhantomData<H>,
}

/// A header with its value type erased.
pub struct UntypedHeader {
    pub name: String,
    pub style: Option<console::Style>,
    pub alignment: Option<tableau::Alignment>,
}

/// A table cell holding a value of type `C`.
pub struct Cell<C> {
    pub val: C,
    pub style: Option<console::Style>,
    pub alignment: Option<tableau::Alignment>,
}

/// A table whose rows are all of type `R`, with the headers it was declared
/// with, already erased.
pub struct Table<R> {
    header: Vec<UntypedHeader>,
    rows: Vec<R>,
    style: Option<tableau::Style>,
}

/// Builds a header with the given name and value type, unstyled and unaligned.
#[allow(non_snake_case)]
pub fn Header<T>(s: String) -> (r: Header<T>)
    ensures
        r.name == s,
        r.style.is_none(),
        r.alignment.is_none(),
{
    Header { name: s, style: None, alignment: None, tp_holder: PhantomData }
}

/// The erased form of a header: its name, style and alignment.
pub open spec fn untyped_of<H>(h: Header<H>) -> UntypedHeader {
    UntypedHeader { name: h.name, style: h.style, alignment: h.alignment }
}

/// The number of elements of a heterogeneous list, which its type fixes.
pub trait HetLen {
    spec fn het_len() -> nat;
}

impl HetLen for HNil {
    open spec fn het_len() -> nat {
        0
    }
}

impl<H, T: HetLen> HetLen for HCons<H, T> {
    open spec fn het_len() -> nat {
        1 + T::het_len()
    }
}

/// The number of elements that a view of a collection holds.
pub trait ViewLen: View {
    spec fn view_len(v: Self::V) -> nat;
}

impl<X> ViewLen for Vec<X> {
    open spec fn view_len(v: Seq<X>) -> nat {
        v.len()
    }
}

/// Maps a heterogeneous list of headers to the list of cell types of a row:
/// a header of type `T` at some position asks for a cell of type `T` there.
pub trait CellTypeExtractor: HetLen {
    type Out: HetLen;

    /// A row has as many cells as there are headers.
    proof fn lemma_out_len()
        ensures
            <Self::Out as HetLen>::het_len() == Self::het_len(),
    ;
}

impl CellTypeExtractor for HNil {
    type Out = HNil;

    proof fn lemma_out_len() {
    }
}

impl<H, T: CellTypeExtractor> CellTypeExtractor for HCons<Header<H>, T> {
    type Out = HCons<Cell<H>, <T as CellTypeExtractor>::Out>;

    proof fn lemma_out_len() {
        T::lemma_out_len();
    }
}

/// Conversion from a heterogeneous list into a homogeneous collection.
pub trait FromHet<A: HetLen>: Sized + ViewLen {
    /// Whether `v` is a possible result of converting `a`.
    spec fn het_rel(a: A, v: Self::V) -> bool;

    /// The result holds one element for each element of `a`.
    fn from_het(a: A) -> (r: Self)
        ensures
            Self::het_rel(a, r@),
            Self::view_len(r@) == A::het_len(),
    ;
}

impl FromHet<HNil> for Vec<UntypedHeader> {
    open spec fn het_rel(a: HNil, v: Seq<UntypedHeader>) -> bool {
        v.len() == 0
    }

    fn from_het(a: HNil) -> (r: Self) {
        Vec::new()
    }
}

impl<H, T: HetLen> FromHet<HCons<Header<H>, T>> for Vec<UntypedHeader> where Vec<UntypedHeader>: FromHet<T> {
    open spec fn het_rel(a: HCons<Header<H>, T>, v: Seq<UntypedHeader>) -> bool {
        &&& v.len() > 0
        &&& v[0] == untyped_of(a.head)
        &&& <Vec<UntypedHeader> as FromHet<T>>::het_rel(a.tail, v.drop_first())
    }

    fn from_het(a: HCons<Header<H>, T>) -> (r: Self) {
        let HCons { head, tail } = a;
        let mut r: Vec<UntypedHeader> = Vec::new();
        r.push(UntypedHeader::from(head));
        let mut t: Vec<UntypedHeader> = <Vec<UntypedHeader> as FromHet<T>>::from_het(tail);
        let ghost t0 = t@;
        r.append(&mut t);
        assert(r@.drop_first() =~= t0);
        r
    }
}

impl<H> Header<H> {
    /// The same header, aligned as given.
    pub fn align(self, alignment: tableau::Alignment) -> (r: Self)
        ensures
            r.name == self.name,
            r.style == self.style,
            r.alignment == Some(alignment),
    {
        Header { alignment: Some(alignment), ..self }
    }

    /// The same header, styled as given.
    pub fn style(self, style: console::Style) -> (r: Self)
        ensures
            r.name == self.name,
            r.style == Some(style),
            r.alignment == self.alignment,
    {
        Header { style: Some(style), ..self }
    }
}

impl<H> From<Header<H>> for UntypedHeader {
    fn from(t: Header<H>) -> (r: Self) {
        UntypedHeader { name: t.name, style: t.style, alignment: t.alignment }
    }
}

impl<H> vstd::std_specs::convert::FromSpecImpl<Header<H>> for UntypedHeader {
    open spec fn obeys_from_spec() -> bool {
        true
    }

    open spec fn from_spec(t: Header<H>) -> Self {
        untyped_of(t)
    }
}

impl UntypedHeader {
    /// The header cell of a backend table: the name, rendered with the
    /// header's style or the default one, and aligned as the header asks.
    pub fn into_backend(self) -> (r: TabCell)
        ensures
            shows(r, self.name@, self.style, self.alignment),
    {
        let content = match &self.style {
            Some(s) => apply_style(s, &self.name),
            None => apply_default_style(&self.name),
        };
        let c = new_cell(content);
        match self.alignment {
            Some(a) => c.with_alignment(a),
            None => c,
        }
    }
}

impl<C> Cell<C> {
    /// A cell holding `v`, unstyled and unaligned.
    pub fn new(v: C) -> (r: Cell<C>)
        ensures
            r.val == v,
            r.style.is_none(),
            r.alignment.is_none(),
    {
        Cell { val: v, style: None, alignment: None }
    }

    /// The same cell, aligned as given.
    pub fn align(self, alignment: tableau::Alignment) -> (r: Self)
        ensures
            r.val == self.val,
            r.style == self.style,
            r.alignment == Some(alignment),
    {
        Cell { alignment: Some(alignment), ..self }
    }

    /// The same cell, styled as given.
    pub fn style(self, style: console::Style) -> (r: Self)
        ensures
            r.val == self.val,
            r.style == Some(style),
            r.alignment == self.alignment,
    {
        Cell { style: Some(style), ..self }
    }
}

/// `b` is the backend cell of `c`: the display text of its value, rendered
/// with its style or the default one, and aligned as it asks.
pub open spec fn cell_shows<V: std::fmt::Display>(c: Cell<V>, b: TabCell) -> bool {
    exists|text: String|
        vstd::string::to_string_from_display_ensures::<V>(&c.val, text) && shows(
            b,
            text@,
            c.style,
            c.alignment,
        )
}

impl<V: std::fmt::Display> Cell<V> {
    /// The backend cell of this cell.
    pub fn into_backend(self) -> (r: TabCell)
        ensures
            cell_shows(self, r),
    {
        let text = self.val.to_string();
        let content = match &self.style {
            Some(s) => apply_style(s, &text),
            None => apply_default_style(&text),
        };
        let c = new_cell(content);
        let r = match self.alignment {
            Some(a) => c.with_alignment(a),
            None => c,
        };
        assert(shows(r, text@, self.style, self.alignment));
        r
    }
}

impl FromHet<HNil> for Vec<TabCell> {
    open spec fn het_rel(a: HNil, v: Seq<TabCell>) -> bool {
        v.len() == 0
    }

    fn from_het(a: HNil) -> (r: Self) {
        Vec::new()
    }
}

impl<V: std::fmt::Display, T: HetLen> FromHet<HCons<Cell<V>, T>> for Vec<TabCell> where Vec<TabCell>: FromHet<T> {
    open spec fn het_rel(a: HCons<Cell<V>, T>, v: Seq<TabCell>) -> bool {
        &&& v.len() > 0
        &&& cell_shows(a.head, v[0])
        &&& <Vec<TabCell> as FromHet<T>>::het_rel(a.tail, v.drop_first())
    }

    fn from_het(a: HCons<Cell<V>, T>) -> (r: Self) {
        let HCons { head, tail } = a;
        let mut r: Vec<TabCell> = Vec::new();
        r.push(head.into_backend());
        let mut t: Vec<TabCell> = <Vec<TabCell> as FromHet<T>>::from_het(tail);
        let ghost t0 = t@;
        r.append(&mut t);
        assert(r@.drop_first() =~= t0);
        r
    }
}

/// The number of header rows that a backend table gets for these headers.
pub open spec fn header_rows(hs: Seq<UntypedHeader>) -> int {
    if hs.len() > 0 {
        1
    } else {
        0
    }
}

/// `row` is the header row for `hs`: one cell per header, in their order,
/// each showing the header's name.
pub open spec fn header_row_shows(row: tableau::Row, hs: Seq<UntypedHeader>) -> bool {
    &&& row.cells@.len() == hs.len()
    &&& forall|j: int|
        0 <= j < hs.len() ==> shows(#[trigger] row.cells@[j], hs[j].name@, hs[j].style, hs[j].alignment)
}

/// `r` is the backend table that `t` erases to: a header row, when `t` has
/// headers, with one cell per header in their order, each showing the
/// header's name; then, for each row of `t` in order, one backend row whose
/// cells show the row's values in their order; and the table-wide style of
/// `t`, when one was set.
pub open spec fn erases_to<R: HetLen>(t: Table<R>, r: TabTable) -> bool where Vec<TabCell>: FromHet<R> {
    let hs = t.spec_header();
    let rs = t.spec_rows();
    &&& r.rows@.len() == header_rows(hs) + rs.len()
    &&& hs.len() > 0 ==> header_row_shows(r.rows@[0], hs)
    &&& forall|i: int|
        0 <= i < rs.len() ==> <Vec<TabCell> as FromHet<R>>::het_rel(
            #[trigger] rs[i],
            r.rows@[header_rows(hs) + i].cells@,
        ) && r.rows@[header_rows(hs) + i].cells@.len() == R::het_len()
    &&& t.spec_style() matches Some(s) ==> r.style == s
}

impl<R> Table<R> {
    /// The erased headers, in the order they were declared.
    pub closed spec fn spec_header(&self) -> Seq<UntypedHeader> {
        self.header@
    }

    /// The rows, in the order they were added.
    pub closed spec fn spec_rows(&self) -> Seq<R> {
        self.rows@
    }

    /// The table-wide style, if one was set.
    pub closed spec fn spec_style(&self) -> Option<tableau::Style> {
        self.style
    }

    /// A table without headers or rows.
    pub fn new() -> (r: Table<R>)
        ensures
            r.spec_header().len() == 0,
            r.spec_rows().len() == 0,
            r.spec_style().is_none(),
    {
        Table { header: Vec::new(), rows: Vec::new(), style: None }
    }

    /// Sets the table-wide style, replacing any earlier one.
    pub fn style(&mut self, style: tableau::Style)
        ensures
            final(self).spec_header() == old(self).spec_header(),
            final(self).spec_rows() == old(self).spec_rows(),
            final(self).spec_style() == Some(style),
    {
        self.style = Some(style);
    }

    /// Appends a row of the table's row type after the others.
    pub fn push_row(&mut self, row: R)
        ensures
            final(self).spec_header() == old(self).spec_header(),
            final(self).spec_style() == old(self).spec_style(),
            final(self).spec_rows() == old(self).spec_rows().push(row),
    {
        self.rows.push(row);
    }

    /// Appends a row, converted to the table's row type, after the others.
    pub fn add_row<NewR>(&mut self, new_row: NewR) where R: From<NewR>
        ensures
            final(self).spec_header() == old(self).spec_header(),
            final(self).spec_style() == old(self).spec_style(),
            exists|as_r: R|
                call_ensures(R::from, (new_row,), as_r) && final(self).spec_rows() == old(
                    self,
                ).spec_rows().push(as_r),
    {
        let as_r = R::from(new_row);
        self.push_row(as_r);
    }

    /// The number of rows added so far.
    pub fn row_count(&self) -> (r: usize)
        ensures
            r == self.spec_rows().len(),
    {
        self.rows.len()
    }

    /// The backend table: a header row when headers were declared, then one
    /// row per added row, in order, and the table-wide style when one was set.
    pub fn into_untyped(self) -> (r: TabTable) where R: HetLen, Vec<TabCell>: FromHet<R>
        ensures
            erases_to(self, r),
    {
        let Table { header, rows, style } = self;
        let ghost hs = header@;
        let ghost rs = rows@;
        let ghost off = header_rows(hs);
        let mut t = TabTable::new();
        if header.len() > 0 {
            let mut cells: Vec<TabCell> = Vec::new();
            for h in it: header
                invariant
                    it.seq() == hs,
                    cells@.len() == it.index(),
                    forall|j: int|
                        0 <= j < it.index() ==> shows(#[trigger] cells@[j], hs[j].name@, hs[j].style, hs[j].alignment),
            {
                cells.push(h.into_backend());
            }
            t = t.with_row(new_row(cells));
        }
        for row in it: rows
            invariant
                it.seq() == rs,
                off == header_rows(hs),
                t.rows@.len() == off + it.index(),
                hs.len() > 0 ==> header_row_shows(t.rows@[0], hs),
                forall|i: int|
                    0 <= i < it.index() ==> <Vec<TabCell> as FromHet<R>>::het_rel(
                        #[trigger] rs[i],
                        t.rows@[off + i].cells@,
                    ),
                forall|i: int| 0 <= i < it.index() ==> (#[trigger] t.rows@[off + i]).cells@.len() == R::het_len(),
        {
            let ghost k = it.index();
            let ghost before = t.rows@;
            let cells: Vec<TabCell> = <Vec<TabCell> as FromHet<R>>::from_het(row);
            assert(<Vec<TabCell> as ViewLen>::view_len(cells@) == cells@.len());
            t = t.with_row(new_row(cells));
            assert(t.rows@[off + k].cells@ == cells@);
            assert forall|i: int| 0 <= i < k + 1 implies <Vec<TabCell> as FromHet<R>>::het_rel(
                #[trigger] rs[i],
                t.rows@[off + i].cells@,
            ) && t.rows@[off + i].cells@.len() == R::het_len() by {
                if i < k {
                    assert(t.rows@[off + i] == before[off + i]);
                }
            }
            assert(hs.len() > 0 ==> t.rows@[0] == before[0]);
        }
        match style {
            Some(s) => t.with_style(s),
            None => t,
        }
    }
}

/// A table with the given headers, whose row type is derived from them: a
/// header of type `T` at some position asks for a cell of type `T` there.
#[allow(non_snake_case)]
pub fn HeaderedTable<H>(header: H) -> (r: Table<<H as CellTypeExtractor>::Out>) where
    H: CellTypeExtractor,
    Vec<UntypedHeader>: FromHet<H>,
    ensures
        <Vec<UntypedHeader> as FromHet<H>>::het_rel(header, r.spec_header()),
        r.spec_header().len() == H::het_len(),
        r.spec_rows().len() == 0,
        r.spec_style().is_none(),
{
    let as_headers: Vec<UntypedHeader> = FromHet::from_het(header);
    Table { header: as_headers, rows: Vec::new(), style: None }
}

} // verus!
