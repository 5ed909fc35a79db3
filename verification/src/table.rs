//! The text table that lists variables, drawn by the `comfy_table` crate.
//!
//! Nothing in this file is proved: each function states what `comfy_table`
//! does, as its source shows it, for a table on which only these functions
//! have acted.

use vstd::prelude::*;

verus! {

/// `comfy_table::Table`, carried as a value that is not looked into.
#[verifier::external_type_specification]
#[verifier::external_body]
pub struct ExTable(comfy_table::Table);

/// The cells of the header row of a table, if one was set.
pub uninterp spec fn table_header(t: comfy_table::Table) -> Option<Seq<Seq<char>>>;

/// The cells of the rows of a table below its header, in the order in which
/// they were added.
pub uninterp spec fn table_rows(t: comfy_table::Table) -> Seq<Seq<Seq<char>>>;

/// The border characters of a table, one for each of the nineteen places of a
/// border, in the order of `comfy_table::TableComponent`; a space where
/// nothing is drawn.
pub uninterp spec fn table_style(t: comfy_table::Table) -> Seq<char>;

/// The text that `comfy_table` draws for a table with the given border
/// characters, header and rows, and every other setting as in a new table.
pub uninterp spec fn rendered_table(
    style: Seq<char>,
    header: Option<Seq<Seq<char>>>,
    rows: Seq<Seq<Seq<char>>>,
) -> Seq<char>;

/// `comfy_table::Table::new`: a table without header and without rows.
#[verifier::external_body]
pub(crate) fn table_new() -> (t: comfy_table::Table)
    ensures
        table_header(t) is None,
        table_rows(t).len() == 0,
{
    comfy_table::Table::new()
}

/// `comfy_table::Table::set_header`: the cells become the header; rows and
/// borders stay.
#[verifier::external_body]
pub(crate) fn table_set_header(t: &mut comfy_table::Table, cells: &Vec<String>)
    ensures
        table_header(*final(t)) == Some(cells.deep_view()),
        table_rows(*final(t)) == table_rows(*old(t)),
        table_style(*final(t)) == table_style(*old(t)),
{
    t.set_header(cells);
}

/// `comfy_table::Table::load_preset`: a preset of nineteen characters
/// replaces every border character; header and rows stay.
#[verifier::external_body]
pub(crate) fn table_load_preset(t: &mut comfy_table::Table, preset: &str)
    requires
        preset@.len() == 19,
    ensures
        table_style(*final(t)) == preset@,
        table_header(*final(t)) == table_header(*old(t)),
        table_rows(*final(t)) == table_rows(*old(t)),
{
    t.load_preset(preset);
}

/// `comfy_table::Table::add_row`: the cells become the last row; header,
/// earlier rows and borders stay.
#[verifier::external_body]
pub(crate) fn table_add_row(t: &mut comfy_table::Table, cells: &Vec<String>)
    ensures
        table_rows(*final(t)) == table_rows(*old(t)).push(cells.deep_view()),
        table_header(*final(t)) == table_header(*old(t)),
        table_style(*final(t)) == table_style(*old(t)),
{
    t.add_row(cells);
}

/// `comfy_table::Table`'s `Display`: the drawn table, its lines joined by
/// line feeds. With no width set and the content arrangement left disabled,
/// the text depends on borders, header and rows alone.
#[verifier::external_body]
pub(crate) fn table_render(t: &comfy_table::Table) -> (r: String)
    ensures
        r@ == rendered_table(table_style(*t), table_header(*t), table_rows(*t)),
{
    t.to_string()
}

} // verus!
