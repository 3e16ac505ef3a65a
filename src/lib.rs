//! Translation between the book identifiers of Bible-text encoding schemes
//! (USFM, OSIS, English names) and a canonical reference abbreviation.

mod books;
mod codes;
mod data;
mod error;
mod laws;
mod resolve;
mod text;
mod valid;

pub use books::{
    english_result, first_match, is_first_match, is_first_name, key_of, name_target,
    ordinal_fallback, ordinal_rule, osis_to_reference_result, position, reference_to_usfm_result,
    rewritten, usfm_to_reference_result, BookRecord, BookTable, Scheme, ORDINAL_RULES,
};
pub use codes::{
    abbreviations_wf, dict_entry, first_abbreviation, invalid_text, is_first_key, BibleBooksCodes,
    StringOrListOfStrings, UsfmNumberEntry,
};
pub use data::{book, standard_english_names, standard_records};
pub use error::{not_found_text, LookupError};
pub use laws::{
    lemma_ordinal_rewrite, lemma_rule_prefixes_exclusive, lemma_unknown_key_reported,
    lemma_usfm_case_fallback, lemma_usfm_round_trip, lemma_validity_agrees,
};
pub use resolve::{
    english_name_to_reference_abbrev, is_valid_reference_abbreviation,
    osis_abbrev_to_reference_abbrev, reference_abbrev_to_usfm_abbrev,
    usfm_abbrev_to_reference_abbrev,
};
pub use text::{has_prefix, same_text, upper_of};
pub use valid::{keys_distinct, names_wf, records_wf};
