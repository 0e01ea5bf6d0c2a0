//! General facts about erasing typed tables into backend tables, proved from
//! the contracts of the library's functions.
use vstd::prelude::*;
use tableau::Cell as TabCell;
use tableau::Table as TabTable;
use crate::backend::{aligned, holds_whole, shows, styled};
use crate::table::{
    Cell, CellTypeExtractor, FromHet, HetLen, Table, UntypedHeader, cell_shows, erases_to, header_rows,
};

verus! {

/// A table declared with headers `h`, whatever rows were added to it since,
/// erases to one row per added row, plus a header row exactly when at least
/// one column was declared; and every backend row, the header row included,
/// has one cell per declared column.
pub proof fn lemma_rows_match_columns<H: CellTypeExtractor>(h: H, t: Table<H::Out>, r: TabTable) where
    Vec<UntypedHeader>: FromHet<H>,
    Vec<TabCell>: FromHet<H::Out>,

    requires
        <Vec<UntypedHeader> as FromHet<H>>::het_rel(h, t.spec_header()),
        t.spec_header().len() == H::het_len(),
        erases_to(t, r),
    ensures
        r.rows@.len() == (if H::het_len() > 0 { 1int } else { 0int }) + t.spec_rows().len(),
        forall|i: int| 0 <= i < r.rows@.len() ==> (#[trigger] r.rows@[i]).cells@.len() == H::het_len(),
{
    H::lemma_out_len();
    let off = header_rows(t.spec_header());
    assert forall|i: int| 0 <= i < r.rows@.len() implies (#[trigger] r.rows@[i]).cells@.len()
        == H::het_len() by {
        if i >= off {
            let k = i - off;
            assert(0 <= k < t.spec_rows().len());
            assert(<Vec<TabCell> as FromHet<H::Out>>::het_rel(t.spec_rows()[k], r.rows@[off + k].cells@));
            assert(r.rows@[off + k].cells@.len() == <H::Out as HetLen>::het_len());
        } else {
            assert(header_rows(t.spec_header()) == 1);
            assert(r.rows@[0].cells@.len() == t.spec_header().len());
        }
    }
}

/// Order is kept: the j-th declared header becomes the j-th cell of the
/// header row, and the i-th added row becomes the i-th row after it, its
/// cells in the order of its values.
pub proof fn lemma_order_kept<R: HetLen>(t: Table<R>, r: TabTable) where Vec<TabCell>: FromHet<R>
    requires
        erases_to(t, r),
    ensures
        forall|j: int|
            0 <= j < t.spec_header().len() ==> shows(
                #[trigger] r.rows@[0].cells@[j],
                t.spec_header()[j].name@,
                t.spec_header()[j].style,
                t.spec_header()[j].alignment,
            ),
        forall|i: int|
            0 <= i < t.spec_rows().len() ==> <Vec<TabCell> as FromHet<R>>::het_rel(
                #[trigger] t.spec_rows()[i],
                r.rows@[header_rows(t.spec_header()) + i].cells@,
            ),
{
}

/// Reading the header row back gives the declared names, in order: each
/// cell's text holds its name whole, and is exactly the name when the header
/// has no style.
pub proof fn lemma_header_names_read_back<R: HetLen>(t: Table<R>, r: TabTable) where
    Vec<TabCell>: FromHet<R>,

    requires
        erases_to(t, r),
        t.spec_header().len() > 0,
    ensures
        r.rows@[0].cells@.len() == t.spec_header().len(),
        forall|j: int|
            0 <= j < t.spec_header().len() ==> holds_whole(
                (#[trigger] r.rows@[0].cells@[j]).content@,
                t.spec_header()[j].name@,
            ),
        forall|j: int|
            0 <= j < t.spec_header().len() && t.spec_header()[j].style.is_none() ==> (
            #[trigger] r.rows@[0].cells@[j]).content@ == t.spec_header()[j].name@,
{
    assert forall|j: int|
        0 <= j < t.spec_header().len() implies holds_whole(
            (#[trigger] r.rows@[0].cells@[j]).content@,
            t.spec_header()[j].name@,
        ) by {
        assert(shows(r.rows@[0].cells@[j], t.spec_header()[j].name@, t.spec_header()[j].style, t.spec_header()[j].alignment));
        if t.spec_header()[j].style.is_none() {
            let e = Seq::<char>::empty();
            assert(r.rows@[0].cells@[j].content@ =~= e + t.spec_header()[j].name@ + e);
        }
    }
}

/// Reading a backend cell back gives the display text of the cell's value:
/// whole, and exactly when the cell has no style.
pub proof fn lemma_cell_text_read_back<V: std::fmt::Display>(c: Cell<V>, b: TabCell)
    requires
        cell_shows(c, b),
    ensures
        exists|text: String|
            {
                &&& vstd::string::to_string_from_display_ensures::<V>(&c.val, text)
                &&& holds_whole(b.content@, text@)
                &&& c.style.is_none() ==> b.content@ == text@
            },
{
    let text = choose|text: String|
        vstd::string::to_string_from_display_ensures::<V>(&c.val, text) && shows(
            b,
            text@,
            c.style,
            c.alignment,
        );
    if c.style.is_none() {
        let e = Seq::<char>::empty();
        assert(b.content@ =~= e + text@ + e);
    }
}

/// A backend cell is aligned as its cell asked, and left aligned, tableau's
/// default, when it asked nothing; a cell without a style is rendered with
/// the default style, which adds nothing to its text.
pub proof fn lemma_cell_overrides<V: std::fmt::Display>(c: Cell<V>, b: TabCell)
    requires
        cell_shows(c, b),
    ensures
        c.alignment matches Some(a) ==> b.alignment == a,
        c.alignment.is_none() ==> b.alignment == tableau::Alignment::Left,
        c.style.is_none() ==> exists|text: String|
            vstd::string::to_string_from_display_ensures::<V>(&c.val, text) && b.content@ == text@,
        b.column_span == 1,
        b.has_padding,
{
}

/// A header cell is aligned as its header asked, and left aligned when it
/// asked nothing; a header without a style shows its name alone.
pub proof fn lemma_header_overrides<R: HetLen>(t: Table<R>, r: TabTable) where Vec<TabCell>: FromHet<R>
    requires
        erases_to(t, r),
    ensures
        forall|j: int|
            0 <= j < t.spec_header().len() ==> (#[trigger] r.rows@[0].cells@[j]).alignment == aligned(
                t.spec_header()[j].alignment,
            ),
        forall|j: int|
            0 <= j < t.spec_header().len() ==> styled(
                t.spec_header()[j].style,
                t.spec_header()[j].name@,
                (#[trigger] r.rows@[0].cells@[j]).content@,
            ),
{
}

} // verus!
