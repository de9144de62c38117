//! Parsing markdown into the blocks that a preview shows.

use iced::widget::markdown::{self, Item};
use vstd::prelude::*;

verus! {

/// iced's `markdown::Item`: one parsed block of markdown (a heading, a
/// paragraph, a list, ...).
#[verifier::external_type_specification]
#[verifier::external_body]
pub struct ExItem(Item);

/// The blocks that iced's markdown parser makes of a text.
pub uninterp spec fn markdown_items(text: Seq<char>) -> Seq<Item>;

/// Calls `markdown::parse` and collects the blocks it yields. The parser reads
/// nothing but its argument, so the contract gives its result a name.
#[verifier::external_body]
pub(crate) fn parse_markdown(text: &str) -> (items: Vec<Item>)
    ensures
        items@ == markdown_items(text@),
{
    markdown::parse(text).collect()
}

} // verus!
