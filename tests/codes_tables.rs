use bos_books_codes::{BibleBooksCodes, StringOrListOfStrings, UsfmNumberEntry};

fn one(s: &str) -> StringOrListOfStrings {
    StringOrListOfStrings::Abbreviation(s.to_string())
}

fn many(l: &[&str]) -> StringOrListOfStrings {
    StringOrListOfStrings::ListOfAbbreviations(l.iter().map(|s| s.to_string()).collect())
}

fn sample() -> BibleBooksCodes {
    BibleBooksCodes {
        usfm_abbreviation_dict: vec![
            ("JAS".to_string(), one("JAM")),
            ("EST".to_string(), many(&["EST", "ESG"])),
        ],
        usfm_number_dict: vec![
            (
                "41".to_string(),
                UsfmNumberEntry {
                    reference_abbreviation_or_abbreviations: one("MAT"),
                    usfm_abbreviation_or_abbreviations: one("Mat"),
                },
            ),
            (
                "42".to_string(),
                UsfmNumberEntry {
                    reference_abbreviation_or_abbreviations: many(&["MRK", "MAR"]),
                    usfm_abbreviation_or_abbreviations: many(&["Mrk"]),
                },
            ),
        ],
    }
}

#[test]
fn codes_usfm_to_bbb() {
    let codes = sample();
    assert!(codes.is_well_formed());
    assert_eq!(codes.usfm_to_bbb("JAS").unwrap(), "JAM");
    assert_eq!(codes.usfm_to_bbb("EST").unwrap(), "EST");
    assert_eq!(
        codes.usfm_to_bbb("Jas").unwrap_err(),
        "Invalid USFM abbreviation: 'Jas'"
    );
}

#[test]
fn codes_usfm_numbers() {
    let codes = sample();
    assert_eq!(codes.usfm_num_to_usfm_abbrev("41").unwrap(), "Mat");
    assert_eq!(codes.usfm_num_to_bbb("42").unwrap(), "MRK");
    assert_eq!(codes.usfm_num_to_usfm_abbrev("42").unwrap(), "Mrk");
    assert_eq!(codes.usfm_num_to_bbb("41").unwrap(), "MAT");
    assert_eq!(codes.usfm_num_to_bbb("99").unwrap_err(), "Invalid USFM number: '99'");
    assert_eq!(
        codes.usfm_num_to_usfm_abbrev("").unwrap_err(),
        "Invalid USFM number: ''"
    );
}

#[test]
fn codes_empty_list_is_not_well_formed() {
    let mut codes = sample();
    codes.usfm_number_dict.push((
        "43".to_string(),
        UsfmNumberEntry {
            reference_abbreviation_or_abbreviations: many(&[]),
            usfm_abbreviation_or_abbreviations: one("Luk"),
        },
    ));
    assert!(!codes.is_well_formed());
}
