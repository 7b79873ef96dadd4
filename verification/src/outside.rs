//! The `pulldown_cmark` types that cross the edge of the crate.

use vstd::prelude::*;

verus! {

/// `pulldown_cmark::LinkType`, with its variants.
#[verifier::external_type_specification]
pub struct ExLinkType(pulldown_cmark::LinkType);

/// `pulldown_cmark::HeadingLevel`, with its variants.
#[verifier::external_type_specification]
pub struct ExHeadingLevel(pulldown_cmark::HeadingLevel);

/// `pulldown_cmark::Alignment`. Nothing here looks inside.
#[verifier::external_type_specification]
#[verifier::external_body]
pub struct ExAlignment(pulldown_cmark::Alignment);

/// `pulldown_cmark::CodeBlockKind`. Nothing here looks inside.
#[verifier::external_type_specification]
#[verifier::external_body]
pub struct ExCodeBlockKind<'a>(pulldown_cmark::CodeBlockKind<'a>);

/// `pulldown_cmark::CowStr`, a string that is owned, borrowed or stored in
/// place. Its characters are [`crate::markdown::cow_str_text`].
#[verifier::external_type_specification]
#[verifier::external_body]
pub struct ExCowStr<'a>(pulldown_cmark::CowStr<'a>);

/// `pulldown_cmark::Tag`, with its variants.
#[verifier::external_type_specification]
pub struct ExTag<'a>(pulldown_cmark::Tag<'a>);

/// `pulldown_cmark::Event`, with its variants.
#[verifier::external_type_specification]
pub struct ExEvent<'a>(pulldown_cmark::Event<'a>);

} // verus!
