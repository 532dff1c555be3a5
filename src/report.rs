//! Two-column text tables, rendered by ascii_table.

use vstd::prelude::*;

verus! {

/// Alignment of a table column.
#[derive(Clone, Copy, Debug, PartialEq, Eq, Structural)]
pub enum CellAlign {
    Left,
    Center,
    Right,
}

/// A column of a table: header, alignment and maximum width.
#[derive(Debug)]
pub struct TableColumn {
    pub header: String,
    pub align: CellAlign,
    pub max_width: usize,
}

/// A column as plain values.
pub open spec fn column_view(c: TableColumn) -> (Seq<char>, CellAlign, nat) {
    (c.header@, c.align, c.max_width as nat)
}

/// The rows of a two-column table as plain values.
pub open spec fn rows_view(rows: Seq<(String, String)>) -> Seq<(Seq<char>, Seq<char>)> {
    rows.map_values(|r: (String, String)| (r.0@, r.1@))
}

/// The text of a two-column table of at most `width` characters a line.
pub uninterp spec fn table_text(
    width: nat,
    first: (Seq<char>, CellAlign, nat),
    second: (Seq<char>, CellAlign, nat),
    rows: Seq<(Seq<char>, Seq<char>)>,
) -> Seq<char>;

/// Relies on ascii_table's `AsciiTable::format`: the text of the rows under
/// the two columns, as a function of the table's layout and the cells.
#[verifier::external_body]
pub(crate) fn render_table(
    width: usize,
    first: &TableColumn,
    second: &TableColumn,
    rows: &Vec<(String, String)>,
) -> (r: String)
    ensures
        r@ == table_text(width as nat, column_view(*first), column_view(*second), rows_view(rows@)),
{
    let column = |c: &TableColumn| ascii_table::Column {
        header: c.header.clone(),
        align: match c.align {
            CellAlign::Left => ascii_table::Align::Left,
            CellAlign::Center => ascii_table::Align::Center,
            CellAlign::Right => ascii_table::Align::Right,
        },
        max_width: c.max_width,
    };
    let columns = std::collections::BTreeMap::from([(0, column(first)), (1, column(second))]);
    ascii_table::AsciiTable { max_width: width, columns }.format(rows.iter().map(|r| [&r.0, &r.1]))
}

/// An empty list of rows.
pub fn no_rows() -> (r: Vec<(String, String)>)
    ensures
        rows_view(r@) == Seq::<(Seq<char>, Seq<char>)>::empty(),
{
    let r: Vec<(String, String)> = Vec::new();
    assert(rows_view(r@) =~= Seq::<(Seq<char>, Seq<char>)>::empty());
    r
}

/// Appends the row `(field, value)`.
pub fn push_row(rows: &mut Vec<(String, String)>, field: String, value: String)
    ensures
        rows_view(final(rows)@) == rows_view(old(rows)@).push((field@, value@)),
{
    rows.push((field, value));
    assert(rows_view(rows@) =~= rows_view(old(rows)@).push((field@, value@)));
}

} // verus!
