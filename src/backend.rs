//! Declarations of the outside types that the library builds on, and the
//! contracts of the outside calls that it makes.
use vstd::prelude::*;
use tableau::Cell as TabCell;
use tableau::Table as TabTable;

verus! {

/// `frunk_core::hlist::HCons`, a list cell; Verus reads its public fields
/// `head` and `tail`.
#[verifier::external_type_specification]
#[verifier::reject_recursive_types(H)]
#[verifier::reject_recursive_types(T)]
pub struct ExHCons<H, T>(frunk_core::hlist::HCons<H, T>);

/// `frunk_core::hlist::HNil`, the empty list, a unit struct.
#[verifier::external_type_specification]
pub struct ExHNil(frunk_core::hlist::HNil);

/// `tableau::Alignment`, an enum of three unit variants.
#[verifier::external_type_specification]
pub struct ExAlignment(tableau::Alignment);

/// `tableau::Cell`; Verus reads its public fields `content`, `column_span`,
/// `alignment` and `has_padding`.
#[verifier::external_type_specification]
pub struct ExCell(TabCell);

/// `tableau::Row`; Verus reads its public fields `cells` and `has_top_border`.
#[verifier::external_type_specification]
pub struct ExRow(tableau::Row);

/// `tableau::Style`, the characters a table is drawn with; Verus reads its
/// public fields.
#[verifier::external_type_specification]
pub struct ExStyle(tableau::Style);

/// `tableau::Table`; Verus reads its public fields, `rows` and `style` among
/// them.
#[verifier::external_type_specification]
pub struct ExTable(TabTable);

/// `console::Style`, whose fields are private: carried through unopened.
#[verifier::external_type_specification]
#[verifier::external_body]
pub struct ExConsoleStyle(console::Style);

} // verus!

verus! {

/// The alignment that a cell gets: the one asked for, else tableau's default.
pub open spec fn aligned(a: Option<tableau::Alignment>) -> tableau::Alignment {
    match a {
        Some(x) => x,
        None => tableau::Alignment::Left,
    }
}

/// `content` holds `text` whole, with possibly something before and after it.
pub open spec fn holds_whole(content: Seq<char>, text: Seq<char>) -> bool {
    exists|pre: Seq<char>, post: Seq<char>| content == pre + text + post
}

/// `content` is `text` as rendered with `style`: the text alone when no style
/// was set, and the text whole, between whatever escape codes the style adds,
/// when one was.
pub open spec fn styled(style: Option<console::Style>, text: Seq<char>, content: Seq<char>) -> bool {
    match style {
        None => content == text,
        Some(_) => holds_whole(content, text),
    }
}

/// `cell` shows `text` with the given style and alignment, in one padded column.
pub open spec fn shows(
    cell: TabCell,
    text: Seq<char>,
    style: Option<console::Style>,
    alignment: Option<tableau::Alignment>,
) -> bool {
    &&& styled(style, text, cell.content@)
    &&& cell.alignment == aligned(alignment)
    &&& cell.column_span == 1
    &&& cell.has_padding
}

/// Relies on `console::Style::default`, `console::Style::apply_to` and the
/// `Display` of `console::StyledObject`: a style with no colour and no
/// attribute writes the text alone, whether or not colours are enabled.
#[verifier::external_body]
pub(crate) fn apply_default_style(text: &String) -> (r: String)
    ensures
        r@ == text@,
{
    console::Style::default().apply_to(text).to_string()
}

/// Relies on `console::Style::apply_to` and the `Display` of
/// `console::StyledObject`: the text is written whole, preceded by the style's
/// escape codes and followed by a reset when colours are enabled, and alone
/// otherwise.
#[verifier::external_body]
pub(crate) fn apply_style(style: &console::Style, text: &String) -> (r: String)
    ensures
        holds_whole(r@, text@),
{
    style.apply_to(text).to_string()
}

/// Relies on `tableau::Cell::new`: the content is the given text, and the cell
/// spans one column, is left aligned and is padded.
#[verifier::external_body]
pub(crate) fn new_cell(text: String) -> (r: TabCell)
    ensures
        r.content@ == text@,
        r.column_span == 1,
        r.alignment == tableau::Alignment::Left,
        r.has_padding,
{
    TabCell::new(text)
}

/// Relies on `tableau::Cell::with_alignment`: only the alignment changes.
pub assume_specification[ TabCell::with_alignment ](c: TabCell, alignment: tableau::Alignment) -> (r: TabCell)
    ensures
        r.content == c.content,
        r.column_span == c.column_span,
        r.alignment == alignment,
        r.has_padding == c.has_padding,
;

/// Relies on `tableau::Row::new` and `tableau::Row::with_cells`: a row with a
/// top border that holds the given cells in their order.
#[verifier::external_body]
pub(crate) fn new_row(cells: Vec<TabCell>) -> (r: tableau::Row)
    ensures
        r.cells@ == cells@,
        r.has_top_border,
{
    tableau::Row::new().with_cells(cells)
}

/// Relies on `tableau::Table::new`: a table without rows.
pub assume_specification[ TabTable::new ]() -> (r: TabTable)
    ensures
        r.rows@ == Seq::<tableau::Row>::empty(),
;

/// Relies on `tableau::Table::with_row`: the row is appended after the others.
pub assume_specification[ TabTable::with_row ](table: TabTable, row: tableau::Row) -> (r: TabTable)
    ensures
        r.rows@ == table.rows@.push(row),
        r.style == table.style,
;

/// Relies on `tableau::Table::with_style`: only the style changes.
pub assume_specification[ TabTable::with_style ](table: TabTable, style: tableau::Style) -> (r: TabTable)
    ensures
        r.rows == table.rows,
        r.style == style,
;

} // verus!
