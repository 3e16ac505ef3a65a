use bos_books_codes::{
    english_name_to_reference_abbrev, has_prefix, is_valid_reference_abbreviation,
    osis_abbrev_to_reference_abbrev, reference_abbrev_to_usfm_abbrev, same_text,
    usfm_abbrev_to_reference_abbrev, BookRecord, BookTable, LookupError,
};

#[test]
fn standard_table_is_well_formed() {
    assert!(BookTable::standard().is_well_formed());
}

#[test]
fn table_with_repeated_reference_is_not_well_formed() {
    let mut table = BookTable::standard();
    let first = table.records[0];
    table.records.push(BookRecord {
        reference_abbreviation: first.reference_abbreviation,
        usfm_abbreviation: None,
        osis_abbreviation: None,
    });
    assert!(!table.is_well_formed());
}

#[test]
fn table_with_upper_case_clash_is_not_well_formed() {
    let mut table = BookTable::standard();
    table.records.push(BookRecord {
        reference_abbreviation: "ZZZ",
        usfm_abbreviation: Some("GEN"),
        osis_abbreviation: None,
    });
    assert!(!table.is_well_formed());
}

#[test]
fn name_entry_out_of_range_is_not_well_formed() {
    let mut table = BookTable::standard();
    let n = table.records.len();
    table.english_names.push(("NOWHERE", n));
    assert!(!table.is_well_formed());
    assert_eq!(table.english_name_to_reference_abbrev("nowhere"), None);
}

#[test]
fn usfm_round_trip_over_every_book() {
    let table = BookTable::standard();
    let mut with_usfm = 0;
    for b in table.records.iter() {
        let code = b.reference_abbreviation;
        if let Some(usfm) = reference_abbrev_to_usfm_abbrev(code).unwrap() {
            assert_eq!(usfm_abbrev_to_reference_abbrev(usfm), Ok(code));
            with_usfm += 1;
        }
    }
    assert!(with_usfm > 60);
}

#[test]
fn validity_agrees_with_lookup() {
    for code in ["GEN", "SAM", "KGS", "REV", "gen", "SIM", "", "XyZ", "Gen"] {
        assert_eq!(
            is_valid_reference_abbreviation(code),
            reference_abbrev_to_usfm_abbrev(code).is_ok()
        );
    }
    assert!(is_valid_reference_abbreviation("GEN"));
    assert!(!is_valid_reference_abbreviation("gen"));
}

#[test]
fn usfm_case_fallback() {
    assert_eq!(usfm_abbrev_to_reference_abbrev("Exo"), Ok("EXO"));
    assert_eq!(usfm_abbrev_to_reference_abbrev("EXO"), Ok("EXO"));
    assert_eq!(usfm_abbrev_to_reference_abbrev("1Ki"), Ok("KI1"));
    assert_eq!(usfm_abbrev_to_reference_abbrev("1KI"), Ok("KI1"));
    assert_eq!(usfm_abbrev_to_reference_abbrev("Sng"), Ok("SNG"));
    assert_eq!(usfm_abbrev_to_reference_abbrev("SNG"), Ok("SNG"));
    assert!(usfm_abbrev_to_reference_abbrev("exo").is_err());
}

#[test]
fn every_usfm_code_resolves_in_upper_case() {
    let table = BookTable::standard();
    for b in table.records.iter() {
        if let Some(usfm) = b.usfm_abbreviation {
            let upper = usfm.to_uppercase();
            assert_eq!(
                usfm_abbrev_to_reference_abbrev(&upper),
                Ok(b.reference_abbreviation)
            );
        }
    }
}

#[test]
fn ordinal_forms_agree() {
    for name in ["1 Cor", "1 Co", "1Cor", "1Co", "1.Cor", "1.Co", "I Cor", "I.Co", "1 corinthians", "I Corinthians"] {
        assert_eq!(english_name_to_reference_abbrev(name), Some("CO1"), "{}", name);
    }
}

#[test]
fn roman_ordinals_through_six() {
    assert_eq!(english_name_to_reference_abbrev("II Kings"), Some("KI2"));
    assert_eq!(english_name_to_reference_abbrev("II.Kgs"), Some("KI2"));
    assert_eq!(english_name_to_reference_abbrev("2.Kings"), Some("KI2"));
    assert_eq!(english_name_to_reference_abbrev("III John"), Some("JN3"));
    assert_eq!(english_name_to_reference_abbrev("III.Jn"), Some("JN3"));
    assert_eq!(english_name_to_reference_abbrev("3.John"), Some("JN3"));
    assert_eq!(english_name_to_reference_abbrev("IV Maccabees"), Some("MA4"));
    assert_eq!(english_name_to_reference_abbrev("IV.Macc"), Some("MA4"));
    assert_eq!(english_name_to_reference_abbrev("4.Ma"), Some("MA4"));
    assert_eq!(english_name_to_reference_abbrev("V Cor"), None);
    assert_eq!(english_name_to_reference_abbrev("VI Cor"), None);
    assert_eq!(english_name_to_reference_abbrev("6.Cor"), None);
}

#[test]
fn english_names_ignore_case() {
    assert_eq!(english_name_to_reference_abbrev("exodus"), Some("EXO"));
    assert_eq!(english_name_to_reference_abbrev("sOnG oF sOnGs"), Some("SNG"));
    assert_eq!(english_name_to_reference_abbrev("Samuel"), Some("SAM"));
    assert_eq!(english_name_to_reference_abbrev(""), None);
}

#[test]
fn unknown_keys_are_reported_with_the_key() {
    assert_eq!(
        reference_abbrev_to_usfm_abbrev("gen"),
        Err(LookupError::AbbrevNotFound("Reference", "gen"))
    );
    assert_eq!(
        usfm_abbrev_to_reference_abbrev("Gn"),
        Err(LookupError::AbbrevNotFound("USFM", "Gn"))
    );
    assert_eq!(
        osis_abbrev_to_reference_abbrev("Exo"),
        Err(LookupError::AbbrevNotFound("OSIS", "Exo"))
    );
    let e = usfm_abbrev_to_reference_abbrev("XyZ").unwrap_err();
    assert_eq!(e.scheme(), "USFM");
    assert_eq!(e.key(), "XyZ");
    assert_eq!(e.to_string(), "USFM abbreviation 'XyZ' not found");
}

#[test]
fn sample_scenarios() {
    assert_eq!(reference_abbrev_to_usfm_abbrev("EXO"), Ok(Some("Exo")));
    assert_eq!(reference_abbrev_to_usfm_abbrev("SAM"), Ok(None));
    assert_eq!(usfm_abbrev_to_reference_abbrev("1Ki"), Ok("KI1"));
    assert_eq!(osis_abbrev_to_reference_abbrev("Exod"), Ok("EXO"));
    assert_eq!(english_name_to_reference_abbrev("Esther"), Some("EST"));
    assert_eq!(english_name_to_reference_abbrev("XyZ"), None);
}

#[test]
fn osis_codes_resolve() {
    assert_eq!(osis_abbrev_to_reference_abbrev("1Kgs"), Ok("KI1"));
    assert_eq!(osis_abbrev_to_reference_abbrev("Ps"), Ok("PSA"));
    assert_eq!(osis_abbrev_to_reference_abbrev("Rev"), Ok("REV"));
    assert!(osis_abbrev_to_reference_abbrev("rev").is_err());
}

#[test]
fn table_lookups_take_the_first_record() {
    let table = BookTable {
        records: vec![
            BookRecord { reference_abbreviation: "AAA", usfm_abbreviation: Some("Aa1"), osis_abbreviation: Some("A") },
            BookRecord { reference_abbreviation: "BBB", usfm_abbreviation: Some("AA1"), osis_abbreviation: Some("A") },
        ],
        english_names: vec![("ALPHA", 0), ("ALPHA", 1), ("1ALPHA", 1)],
    };
    assert!(!table.is_well_formed());
    assert_eq!(table.usfm_abbrev_to_reference_abbrev("Aa1"), Ok("AAA"));
    assert_eq!(table.usfm_abbrev_to_reference_abbrev("AA1"), Ok("BBB"));
    assert_eq!(table.osis_abbrev_to_reference_abbrev("A"), Ok("AAA"));
    assert_eq!(table.english_name_to_reference_abbrev("alpha"), Some("AAA"));
    assert_eq!(table.english_name_to_reference_abbrev("I Alpha"), Some("BBB"));
}

#[test]
fn text_helpers() {
    assert!(same_text("Gen", "Gen"));
    assert!(!same_text("Gen", "GEN"));
    assert!(!same_text("Gen", "Gene"));
    assert!(has_prefix("II KINGS", "II "));
    assert!(!has_prefix("II KINGS", "I "));
    assert!(has_prefix("X", ""));
    assert!(!has_prefix("", "X"));
}
