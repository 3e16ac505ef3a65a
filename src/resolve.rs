use vstd::prelude::*;

use crate::books::{
    english_result, first_match, osis_to_reference_result, reference_to_usfm_result,
    usfm_to_reference_result, BookTable, Scheme,
};
use crate::data::{standard_english_names, standard_records};
use crate::error::LookupError;

verus! {

/// Whether `reference_abbreviation` is the reference abbreviation of a book
/// of the standard table (exact match, no normalisation).
pub fn is_valid_reference_abbreviation(reference_abbreviation: &str) -> (r: bool)
    ensures
        r == first_match(standard_records(), Scheme::Reference, reference_abbreviation@).is_some(),
{
    BookTable::standard().is_valid_reference_abbreviation(reference_abbreviation)
}

/// The USFM abbreviation of a book of the standard table: `Ok(None)` for a
/// book that has none, an error tagged `"Reference"` for an unknown code.
pub fn reference_abbrev_to_usfm_abbrev<'a>(reference_abbreviation: &'a str) -> (r: Result<
    Option<&'static str>,
    LookupError<'a>,
>)
    ensures
        r == reference_to_usfm_result(standard_records(), reference_abbreviation),
{
    BookTable::standard().reference_abbrev_to_usfm_abbrev(reference_abbreviation)
}

/// The reference abbreviation of the book of the standard table with this
/// USFM abbreviation, exact case first, then upper case; an error tagged
/// `"USFM"` for an unknown code.
pub fn usfm_abbrev_to_reference_abbrev<'a>(usfm_abbreviation: &'a str) -> (r: Result<
    &'static str,
    LookupError<'a>,
>)
    ensures
        r == usfm_to_reference_result(standard_records(), usfm_abbreviation),
{
    BookTable::standard().usfm_abbrev_to_reference_abbrev(usfm_abbreviation)
}

/// The reference abbreviation of the book of the standard table with this
/// OSIS abbreviation; an error tagged `"OSIS"` for an unknown code.
pub fn osis_abbrev_to_reference_abbrev<'a>(osis_abbreviation: &'a str) -> (r: Result<
    &'static str,
    LookupError<'a>,
>)
    ensures
        r == osis_to_reference_result(standard_records(), osis_abbreviation),
{
    BookTable::standard().osis_abbrev_to_reference_abbrev(osis_abbreviation)
}

/// The reference abbreviation for an English book name of the standard
/// table, with the ordinal-prefix fallback; `None` where nothing matches.
pub fn english_name_to_reference_abbrev(english_name: &str) -> (r: Option<&'static str>)
    ensures
        r == english_result(standard_records(), standard_english_names(), english_name@),
{
    BookTable::standard().english_name_to_reference_abbrev(english_name)
}

} // verus!
