//! The attendee list as a spreadsheet: its cells, row by row.

use vstd::prelude::*;
use vstd::string::StringExecFns;
use crate::decimal::i32_to_decimal;
use crate::model::Attendee;

verus! {

/// A spreadsheet cell: a text, or a run of blank cells of the given width.
pub enum Cell {
    Text(String),
    Blank(usize),
}

/// What a cell holds, as a mathematical value.
pub enum CellContent {
    Text(Seq<char>),
    Blank(usize),
}

pub open spec fn cell_view(c: Cell) -> CellContent {
    match c {
        Cell::Text(s) => CellContent::Text(s@),
        Cell::Blank(n) => CellContent::Blank(n),
    }
}

pub open spec fn row_view(row: Seq<Cell>) -> Seq<CellContent> {
    row.map_values(|c: Cell| cell_view(c))
}

/// `true` or `false`, as `bool`'s `Display` writes it.
pub open spec fn bool_text(b: bool) -> Seq<char> {
    if b {
        "true"@
    } else {
        "false"@
    }
}

/// The column titles.
pub open spec fn header_row() -> Seq<CellContent> {
    seq![
        CellContent::Text("Id"@),
        CellContent::Text("Nombre"@),
        CellContent::Text("github"@),
        CellContent::Text("E-mail"@),
        CellContent::Text("Pagó"@),
    ]
}

/// One attendee's row: id, first name, the free-form field, e-mail, and whether paid.
pub open spec fn attendee_row(a: Attendee) -> Seq<CellContent> {
    seq![
        CellContent::Text(crate::decimal::decimal(a.id as int)),
        CellContent::Text(a.firstname@),
        CellContent::Text(a.data1@),
        CellContent::Text(a.email@),
        CellContent::Text(bool_text(a.paid)),
    ]
}

/// The closing row: a blank run four cells wide.
pub open spec fn closing_row() -> Seq<CellContent> {
    seq![CellContent::Blank(4)]
}

/// The sheet lists these attendees: titles, one row per attendee in order, closing row.
pub open spec fn is_attendee_sheet(attendees: Seq<Attendee>, sheet: Seq<Vec<Cell>>) -> bool {
    &&& sheet.len() == attendees.len() + 2
    &&& row_view(sheet[0]@) == header_row()
    &&& forall|i: int|
        0 <= i < attendees.len() ==> row_view(#[trigger] sheet[i + 1]@) == attendee_row(attendees[i])
    &&& row_view(sheet[attendees.len() as int + 1]@) == closing_row()
}

fn text_cell(s: &str) -> (c: Cell)
    ensures
        cell_view(c) == CellContent::Text(s@),
{
    Cell::Text(String::from_str(s))
}

fn bool_to_text(b: bool) -> (r: String)
    ensures
        r@ == bool_text(b),
{
    if b {
        String::from_str("true")
    } else {
        String::from_str("false")
    }
}

/// The rows of the attendee sheet: the titles, one row per attendee in the given order,
/// then a row blank over four cells.
pub fn generate_file(attendees: &Vec<Attendee>) -> (sheet: Vec<Vec<Cell>>)
    ensures
        is_attendee_sheet(attendees@, sheet@),
{
    let mut sheet: Vec<Vec<Cell>> = Vec::new();
    let mut header: Vec<Cell> = Vec::new();
    header.push(text_cell("Id"));
    header.push(text_cell("Nombre"));
    header.push(text_cell("github"));
    header.push(text_cell("E-mail"));
    header.push(text_cell("Pagó"));
    assert(row_view(header@) =~= header_row());
    sheet.push(header);
    let n = attendees.len();
    for k in 0..n
        invariant
            n == attendees.len(),
            sheet.len() == k + 1,
            row_view(sheet[0]@) == header_row(),
            forall|i: int| 0 <= i < k ==> row_view(#[trigger] sheet[i + 1]@) == attendee_row(attendees[i]),
    {
        let a = &attendees[k];
        let mut row: Vec<Cell> = Vec::new();
        row.push(Cell::Text(i32_to_decimal(a.id)));
        row.push(Cell::Text(a.firstname.clone()));
        row.push(Cell::Text(a.data1.clone()));
        row.push(Cell::Text(a.email.clone()));
        row.push(Cell::Text(bool_to_text(a.paid)));
        assert(row_view(row@) =~= attendee_row(attendees[k as int]));
        sheet.push(row);
    }
    let mut closing: Vec<Cell> = Vec::new();
    closing.push(Cell::Blank(4));
    assert(row_view(closing@) =~= closing_row());
    sheet.push(closing);
    sheet
}

} // verus!
