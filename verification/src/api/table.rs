//! Drawing rows of text as a table.
use vstd::prelude::*;

verus! {

/// The text of the table that `tabled` draws of `records`, the first of
/// which is the header: every cell centred, in the `sharp` style of lines.
pub uninterp spec fn sharp_centered_table(records: Seq<Seq<Seq<char>>>) -> Seq<char>;

/// Builds a `tabled::Table` of the records with `Table::from_iter`, sets
/// `Alignment::center()` and `Style::sharp()` on it and hands back what its
/// `to_string` writes. The text depends on the records alone.
#[verifier::external_body]
pub(crate) fn render_table(records: Vec<Vec<String>>) -> (text: String)
    ensures
        text@ == sharp_centered_table(records.deep_view()),
{
    let mut table = tabled::Table::from_iter(records);
    table.with(tabled::settings::Alignment::center()).with(tabled::settings::Style::sharp());
    table.to_string()
}

} // verus!
