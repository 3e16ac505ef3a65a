use std::collections::HashSet;

use bos_books_codes::{
    english_name_to_reference_abbrev, is_valid_reference_abbreviation,
    osis_abbrev_to_reference_abbrev, reference_abbrev_to_usfm_abbrev,
    usfm_abbrev_to_reference_abbrev, BookTable, LookupError,
};

#[test]
fn loaded_books_codes() {
    let table = BookTable::standard();
    println!(
        "    Loaded Bible books codes data for {:?} books.",
        table.records.len()
    );
    let references: HashSet<&str> = table.records.iter().map(|b| b.reference_abbreviation).collect();
    let usfm: HashSet<&str> = table.records.iter().filter_map(|b| b.usfm_abbreviation).collect();
    assert_eq!(table.records.len(), references.len());
    assert!(table.records.len() > usfm.len());
}

#[test]
fn test_is_valid_reference_abbreviation() {
    assert_eq!(is_valid_reference_abbreviation("SAM"), true);
    assert_eq!(is_valid_reference_abbreviation("SIM"), false);
}

#[test]
fn test_reference_abbrev_to_usfm_abbrev() {
    assert_eq!(reference_abbrev_to_usfm_abbrev("EXO"), Ok(Some("Exo")));
    assert_eq!(reference_abbrev_to_usfm_abbrev("CH1"), Ok(Some("1Ch")));
    println!(
        "    reference_abbrev_to_usfm_abbrev for 'SAM' got {:?}",
        reference_abbrev_to_usfm_abbrev("SAM")
    );
    println!(
        "    reference_abbrev_to_usfm_abbrev for 'XyZ' got {:?}",
        reference_abbrev_to_usfm_abbrev("XyZ")
    );
    assert_eq!(reference_abbrev_to_usfm_abbrev("SAM"), Ok(None));
    assert!(matches!(reference_abbrev_to_usfm_abbrev("XyZ"), Err(LookupError::AbbrevNotFound("Reference", ref key)) if *key == "XyZ"));
    assert!(matches!(
        reference_abbrev_to_usfm_abbrev("XyZ"),
        Err(LookupError::AbbrevNotFound("Reference", "XyZ"))
    ));
}

#[test]
fn test_usfm_to_reference_abbreviation() {
    assert_eq!(usfm_abbrev_to_reference_abbrev("Exo"), Ok("EXO"));
    assert_eq!(usfm_abbrev_to_reference_abbrev("1Ki"), Ok("KI1"));
    assert_eq!(usfm_abbrev_to_reference_abbrev("MAT"), Ok("MAT"));
    assert_eq!(usfm_abbrev_to_reference_abbrev("1PE"), Ok("PE1"));
    assert!(usfm_abbrev_to_reference_abbrev("XyZ").is_err());
    assert!(matches!(
        usfm_abbrev_to_reference_abbrev("XyZ"),
        Err(LookupError::AbbrevNotFound("USFM", "XyZ"))
    ));
}

#[test]
fn test_osis_to_reference_abbreviation() {
    assert_eq!(osis_abbrev_to_reference_abbrev("Exod"), Ok("EXO"));
    assert!(osis_abbrev_to_reference_abbrev("XyZ").is_err());
    assert!(matches!(
        osis_abbrev_to_reference_abbrev("XyZ"),
        Err(LookupError::AbbrevNotFound("OSIS", "XyZ"))
    ));
}

#[test]
fn test_english_name_to_reference_abbrev() {
    assert_eq!(english_name_to_reference_abbrev("Exodus"), Some("EXO"));
    assert_eq!(english_name_to_reference_abbrev("Esther"), Some("EST"));
    assert_eq!(english_name_to_reference_abbrev("Ester"), Some("EST"));
    assert_eq!(english_name_to_reference_abbrev("Eccle"), Some("ECC"));
    assert_eq!(english_name_to_reference_abbrev("1 Cor"), Some("CO1"));
    assert_eq!(english_name_to_reference_abbrev("1 Co"), Some("CO1"));
    assert_eq!(english_name_to_reference_abbrev("1Cor"), Some("CO1"));
    assert_eq!(english_name_to_reference_abbrev("1Co"), Some("CO1"));
    assert_eq!(english_name_to_reference_abbrev("1.Cor"), Some("CO1"));
    assert_eq!(english_name_to_reference_abbrev("1.Co"), Some("CO1"));
    assert_eq!(english_name_to_reference_abbrev("XyZ"), None);
}
