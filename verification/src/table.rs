//! Terminal rendering, resting on the table-drawing crate.
//!
//! A table is modelled as the sequence of its rows, a row as the sequence of
//! its cells, and a cell as its text together with an alignment code:
//! 0 left, 1 centered, 2 right. What the drawing crate makes of that model —
//! column widths, borders, padding — is named, not restated: `table_render`
//! stands for the rendered text as a function of the model alone.
use vstd::prelude::*;

verus! {

/// The cells a row holds: text and alignment code (0 left, 1 centered,
/// 2 right), in cell order.
pub uninterp spec fn row_model(r: TextRow) -> Seq<(Seq<char>, u8)>;

/// The rows a table holds, in row order.
pub uninterp spec fn table_model(t: TextTable) -> Seq<Seq<(Seq<char>, u8)>>;

/// The text the drawing crate renders a table model to. The rendering reads
/// the cells alone, so equal models render equally.
pub uninterp spec fn table_render(rows: Seq<Seq<(Seq<char>, u8)>>) -> Seq<char>;

/// The text the progress-reporting crate gives for a whole number of
/// seconds, e.g. `61 minutes`. It depends on the seconds alone.
pub uninterp spec fn human_duration(secs: u64) -> Seq<char>;

/// One row under construction.
#[verifier::external_body]
pub struct TextRow {
    inner: prettytable::Row,
}

/// One table under construction.
#[verifier::external_body]
pub struct TextTable {
    inner: prettytable::Table,
}

impl TextRow {
    /// Relies on prettytable's `Row::empty`: a row with no cells.
    #[verifier::external_body]
    pub fn new() -> (r: TextRow)
        ensures
            row_model(r) == Seq::<(Seq<char>, u8)>::empty(),
    {
        TextRow { inner: prettytable::Row::empty() }
    }

    /// Relies on prettytable's `Row::add_cell` and `Cell::new`: appends a
    /// cell holding exactly `text`, aligned left as a new cell is.
    #[verifier::external_body]
    pub fn push_left(&mut self, text: &str)
        ensures
            row_model(*final(self)) == row_model(*old(self)).push((text@, 0u8)),
    {
        self.inner.add_cell(prettytable::Cell::new(text));
    }

    /// Relies on prettytable's `Row::add_cell` and `Cell::style_spec` with
    /// `"c"`: appends a centered cell holding exactly `text`.
    #[verifier::external_body]
    pub fn push_center(&mut self, text: &str)
        ensures
            row_model(*final(self)) == row_model(*old(self)).push((text@, 1u8)),
    {
        self.inner.add_cell(prettytable::Cell::new(text).style_spec("c"));
    }

    /// Relies on prettytable's `Row::add_cell` and `Cell::style_spec` with
    /// `"r"`: appends a right-aligned cell holding exactly `text`.
    #[verifier::external_body]
    pub fn push_right(&mut self, text: &str)
        ensures
            row_model(*final(self)) == row_model(*old(self)).push((text@, 2u8)),
    {
        self.inner.add_cell(prettytable::Cell::new(text).style_spec("r"));
    }
}

impl TextTable {
    /// Relies on prettytable's `Table::new`: a table with no rows (and the
    /// crate's default line format).
    #[verifier::external_body]
    pub fn new() -> (r: TextTable)
        ensures
            table_model(r) == Seq::<Seq<(Seq<char>, u8)>>::empty(),
    {
        TextTable { inner: prettytable::Table::new() }
    }

    /// Relies on prettytable's `Table::add_row`: appends the row.
    #[verifier::external_body]
    pub fn add_row(&mut self, row: TextRow)
        ensures
            table_model(*final(self)) == table_model(*old(self)).push(row_model(row)),
    {
        self.inner.add_row(row.inner);
    }

    /// Relies on prettytable's `Display` for `Table`: the rendered text is a
    /// function of the rows' cells alone.
    #[verifier::external_body]
    pub fn render(&self) -> (r: String)
        ensures
            r@ == table_render(table_model(*self)),
    {
        self.inner.to_string()
    }
}

/// Relies on indicatif's `Display` for `HumanDuration`: the text depends on
/// the seconds alone.
#[verifier::external_body]
pub fn format_human_duration(secs: u64) -> (r: String)
    ensures
        r@ == human_duration(secs),
{
    indicatif::HumanDuration(std::time::Duration::new(secs, 0)).to_string()
}

} // verus!
