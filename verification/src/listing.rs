//! The saved profiles as a table, followed by their number.

use crate::connection::{ConnectionView, ServerConnection};
use crate::text::{decimal, to_decimal};
use vstd::prelude::*;
use vstd::string::*;

verus! {

/// The names of the six columns.
pub open spec fn column_names() -> Seq<Seq<char>> {
    seq!["id"@, "user"@, "ip"@, "key_path"@, "port"@, "alias"@]
}

/// The six cells of a profile's row: the key in decimal, then the texts.
pub open spec fn cells(record: ConnectionView) -> Seq<Seq<char>> {
    seq![
        decimal(record.id as nat),
        record.user,
        record.ip,
        record.key_path,
        record.port,
        record.alias,
    ]
}

/// The rows of a list of profiles.
pub open spec fn rows_of(records: Seq<ConnectionView>) -> Seq<Seq<Seq<char>>> {
    records.map_values(|record: ConnectionView| cells(record))
}

/// A table drawn with single box lines: the header row, then one row for
/// each item of `rows`, every cell padded to the width of its column.
pub uninterp spec fn modern_table(columns: Seq<Seq<char>>, rows: Seq<Seq<Seq<char>>>) -> Seq<char>;

/// The listing: the table, and below it a line with the number of
/// profiles.
pub open spec fn listing(table: Seq<char>, quantity: nat) -> Seq<char> {
    table + "\nQuantity: "@ + decimal(quantity) + "\n"@
}

/// Draws a table with the crate `tabled`: a `Builder` made from the rows,
/// with the columns as its header, built and formatted in `Style::modern`.
/// Trusted: the text depends on the header and the rows alone;
/// `modern_table` names it. The header is not empty, and every row has as
/// many cells as the header.
#[verifier::external_body]
pub(crate) fn render_table(columns: Vec<String>, rows: Vec<Vec<String>>) -> (table: String)
    requires
        columns.len() > 0,
        forall|i: int| 0 <= i < rows.len() ==> (#[trigger] rows[i]).len() == columns.len(),
    ensures
        table@ == modern_table(columns.deep_view(), rows.deep_view()),
{
    let mut builder = tabled::builder::Builder::from(rows);
    builder.set_columns(columns);
    builder.build().with(tabled::Style::modern()).to_string()
}

/// The names of the columns of the table.
pub fn headers() -> (names: Vec<String>)
    ensures
        names.deep_view() == column_names(),
{
    let mut names: Vec<String> = Vec::new();
    names.push(String::from_str("id"));
    names.push(String::from_str("user"));
    names.push(String::from_str("ip"));
    names.push(String::from_str("key_path"));
    names.push(String::from_str("port"));
    names.push(String::from_str("alias"));
    assert(names.deep_view() =~= column_names());
    names
}

/// The cells of the row that shows `record`.
pub fn fields(record: &ServerConnection) -> (row: Vec<String>)
    ensures
        row.deep_view() == cells(record@),
        row.len() == 6,
{
    let mut row: Vec<String> = Vec::new();
    row.push(to_decimal(record.id as usize));
    row.push(record.user.clone());
    row.push(record.ip.clone());
    row.push(record.key_path.clone());
    row.push(record.port.clone());
    row.push(record.alias.clone());
    assert(row.deep_view() =~= cells(record@));
    row
}

/// The listing around a table that is already drawn.
pub fn format_listing(table: &str, quantity: usize) -> (text: String)
    ensures
        text@ == listing(table@, quantity as nat),
{
    let mut text = String::from_str(table);
    text.append("\nQuantity: ");
    text.append(to_decimal(quantity).as_str());
    text.append("\n");
    text
}

/// The text that shows all profiles: a table with one row for each, in
/// their order, and their number below it.
pub fn display_connections(records: &Vec<ServerConnection>) -> (text: String)
    ensures
        text@ == listing(
            modern_table(column_names(), rows_of(records.deep_view())),
            records.len() as nat,
        ),
{
    let mut rows: Vec<Vec<String>> = Vec::new();
    let mut i: usize = 0;
    while i < records.len()
        invariant
            i <= records.len(),
            rows.len() == i,
            forall|k: int| 0 <= k < rows.len() ==> (#[trigger] rows[k]).len() == 6,
            rows.deep_view() == rows_of(records.deep_view().take(i as int)),
        decreases records.len() - i,
    {
        let ghost before = rows.deep_view();
        let row = fields(&records[i]);
        rows.push(row);
        assert(rows.deep_view() =~= before.push(cells(records[i as int]@)));
        assert(rows.deep_view() =~= rows_of(records.deep_view().take(i + 1)));
        i += 1;
    }
    assert(records.deep_view().take(i as int) =~= records.deep_view());
    let columns = headers();
    assert(columns.len() == 6) by {
        assert(columns.deep_view().len() == 6);
    }
    let table = render_table(columns, rows);
    format_listing(table.as_str(), records.len())
}

} // verus!
