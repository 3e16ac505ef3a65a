use vstd::prelude::*;

use crate::error::LookupError;
use crate::text::{has_prefix, same_text, upper_of, uppercase};

verus! {

/// One canonical book, with its abbreviation in each scheme resolved here.
#[derive(Clone, Copy, Debug)]
pub struct BookRecord {
    pub reference_abbreviation: &'static str,
    pub usfm_abbreviation: Option<&'static str>,
    pub osis_abbreviation: Option<&'static str>,
}

/// The index by which a record is looked up.
#[derive(Clone, Copy, Debug, PartialEq, Eq)]
pub enum Scheme {
    Reference,
    Usfm,
    /// The USFM abbreviation in upper case.
    UppercaseUsfm,
    Osis,
}

/// The key under which `b` stands in the index of scheme `s`, if any.
pub open spec fn key_of(b: BookRecord, s: Scheme) -> Option<Seq<char>> {
    match s {
        Scheme::Reference => Some(b.reference_abbreviation@),
        Scheme::Usfm => match b.usfm_abbreviation {
            Some(u) => Some(u@),
            None => None,
        },
        Scheme::UppercaseUsfm => match b.usfm_abbreviation {
            Some(u) => Some(upper_of(u@)),
            None => None,
        },
        Scheme::Osis => match b.osis_abbreviation {
            Some(o) => Some(o@),
            None => None,
        },
    }
}

/// `i` is the first position whose record stands under `key` in scheme `s`.
pub open spec fn is_first_match(recs: Seq<BookRecord>, s: Scheme, key: Seq<char>, i: int) -> bool {
    &&& 0 <= i < recs.len()
    &&& key_of(recs[i], s) == Some(key)
    &&& forall|j: int| 0 <= j < i ==> key_of(#[trigger] recs[j], s) != Some(key)
}

/// What the index of scheme `s` maps `key` to: the first record under it.
pub open spec fn first_match(recs: Seq<BookRecord>, s: Scheme, key: Seq<char>) -> Option<int> {
    if exists|i: int| is_first_match(recs, s, key, i) {
        Some(choose|i: int| is_first_match(recs, s, key, i))
    } else {
        None
    }
}

/// `j` is the first English-name entry whose name is `key`.
pub open spec fn is_first_name(names: Seq<(&'static str, usize)>, key: Seq<char>, j: int) -> bool {
    &&& 0 <= j < names.len()
    &&& names[j].0@ == key
    &&& forall|k: int| 0 <= k < j ==> (#[trigger] names[k]).0@ != key
}

/// The reference abbreviation that the English-name index gives for `key`
/// (an upper-case name), if its entry points at a record.
pub open spec fn name_target(
    recs: Seq<BookRecord>,
    names: Seq<(&'static str, usize)>,
    key: Seq<char>,
) -> Option<&'static str> {
    if exists|j: int| is_first_name(names, key, j) {
        let j = choose|j: int| is_first_name(names, key, j);
        if names[j].1 < recs.len() {
            Some(recs[names[j].1 as int].reference_abbreviation)
        } else {
            None
        }
    } else {
        None
    }
}

/// The number of ordinal-prefix rewrite rules.
pub const ORDINAL_RULES: usize = 18;

/// Rewrite rule `i`: an ordinal prefix of an upper-case English name and
/// the numeral that replaces it.
pub open spec fn ordinal_rule(i: int) -> (Seq<char>, Seq<char>) {
    if i == 0 { ("1."@, "1"@) }
    else if i == 1 { ("I "@, "1"@) }
    else if i == 2 { ("I."@, "1"@) }
    else if i == 3 { ("2."@, "2"@) }
    else if i == 4 { ("II "@, "2"@) }
    else if i == 5 { ("II."@, "2"@) }
    else if i == 6 { ("3."@, "3"@) }
    else if i == 7 { ("III "@, "3"@) }
    else if i == 8 { ("III."@, "3"@) }
    else if i == 9 { ("4."@, "4"@) }
    else if i == 10 { ("IV "@, "4"@) }
    else if i == 11 { ("IV."@, "4"@) }
    else if i == 12 { ("5."@, "5"@) }
    else if i == 13 { ("V "@, "5"@) }
    else if i == 14 { ("V."@, "5"@) }
    else if i == 15 { ("6."@, "6"@) }
    else if i == 16 { ("VI "@, "6"@) }
    else { ("VI."@, "6"@) }
}

/// Rewrite rule `i` as strings.
fn ordinal_rule_text(i: usize) -> (r: (&'static str, &'static str))
    requires
        i < ORDINAL_RULES,
    ensures
        r.0@ == ordinal_rule(i as int).0,
        r.1@ == ordinal_rule(i as int).1,
{
    match i {
        0 => ("1.", "1"),
        1 => ("I ", "1"),
        2 => ("I.", "1"),
        3 => ("2.", "2"),
        4 => ("II ", "2"),
        5 => ("II.", "2"),
        6 => ("3.", "3"),
        7 => ("III ", "3"),
        8 => ("III.", "3"),
        9 => ("4.", "4"),
        10 => ("IV ", "4"),
        11 => ("IV.", "4"),
        12 => ("5.", "5"),
        13 => ("V ", "5"),
        14 => ("V.", "5"),
        15 => ("6.", "6"),
        16 => ("VI ", "6"),
        _ => ("VI.", "6"),
    }
}

/// The key that rule `i` makes of the upper-case name `key`, when `key`
/// starts with the rule's prefix.
pub open spec fn rewritten(key: Seq<char>, i: int) -> Seq<char> {
    ordinal_rule(i).1 + key.subrange(ordinal_rule(i).0.len() as int, key.len() as int)
}

/// The result of trying the rewrite rules from rule `i` on, in order.
pub open spec fn ordinal_fallback(
    recs: Seq<BookRecord>,
    names: Seq<(&'static str, usize)>,
    key: Seq<char>,
    i: int,
) -> Option<&'static str>
    decreases ORDINAL_RULES - i,
{
    if i < 0 || i >= ORDINAL_RULES {
        None
    } else if ordinal_rule(i).0.is_prefix_of(key) && name_target(recs, names, rewritten(key, i)).is_some() {
        name_target(recs, names, rewritten(key, i))
    } else {
        ordinal_fallback(recs, names, key, i + 1)
    }
}

/// What an English name resolves to: its upper-case form looked up as it
/// stands, else through the rewrite rules.
pub open spec fn english_result(
    recs: Seq<BookRecord>,
    names: Seq<(&'static str, usize)>,
    name: Seq<char>,
) -> Option<&'static str> {
    let key = upper_of(name);
    if name_target(recs, names, key).is_some() {
        name_target(recs, names, key)
    } else {
        ordinal_fallback(recs, names, key, 0)
    }
}

/// What resolving a reference abbreviation to a USFM abbreviation gives.
pub open spec fn reference_to_usfm_result<'a>(recs: Seq<BookRecord>, code: &'a str) -> Result<
    Option<&'static str>,
    LookupError<'a>,
> {
    match first_match(recs, Scheme::Reference, code@) {
        Some(i) => Ok(recs[i].usfm_abbreviation),
        None => Err(LookupError::AbbrevNotFound("Reference", code)),
    }
}

/// What resolving a USFM abbreviation to a reference abbreviation gives:
/// the exact index first, the upper-case index after it.
pub open spec fn usfm_to_reference_result<'a>(recs: Seq<BookRecord>, code: &'a str) -> Result<
    &'static str,
    LookupError<'a>,
> {
    match first_match(recs, Scheme::Usfm, code@) {
        Some(i) => Ok(recs[i].reference_abbreviation),
        None => match first_match(recs, Scheme::UppercaseUsfm, code@) {
            Some(i) => Ok(recs[i].reference_abbreviation),
            None => Err(LookupError::AbbrevNotFound("USFM", code)),
        },
    }
}

/// What resolving an OSIS abbreviation to a reference abbreviation gives.
pub open spec fn osis_to_reference_result<'a>(recs: Seq<BookRecord>, code: &'a str) -> Result<
    &'static str,
    LookupError<'a>,
> {
    match first_match(recs, Scheme::Osis, code@) {
        Some(i) => Ok(recs[i].reference_abbreviation),
        None => Err(LookupError::AbbrevNotFound("OSIS", code)),
    }
}

/// Whether `b` stands under `key` in the index of scheme `s`.
fn has_key(b: &BookRecord, s: Scheme, key: &str) -> (r: bool)
    ensures
        r == (key_of(*b, s) == Some(key@)),
{
    match s {
        Scheme::Reference => same_text(b.reference_abbreviation, key),
        Scheme::Usfm => match b.usfm_abbreviation {
            Some(u) => same_text(u, key),
            None => false,
        },
        Scheme::UppercaseUsfm => match b.usfm_abbreviation {
            Some(u) => {
                let up = uppercase(u);
                same_text(up.as_str(), key)
            },
            None => false,
        },
        Scheme::Osis => match b.osis_abbreviation {
            Some(o) => same_text(o, key),
            None => false,
        },
    }
}

/// The position of the first record under `key` in the index of scheme `s`.
pub fn position(recs: &Vec<BookRecord>, s: Scheme, key: &str) -> (r: Option<usize>)
    ensures
        match r {
            Some(i) => first_match(recs@, s, key@) == Some(i as int),
            None => first_match(recs@, s, key@) is None,
        },
{
    let mut i: usize = 0;
    while i < recs.len()
        invariant
            i <= recs@.len(),
            forall|j: int| 0 <= j < i ==> key_of(#[trigger] recs@[j], s) != Some(key@),
        decreases recs@.len() - i,
    {
        if has_key(&recs[i], s, key) {
            assert(is_first_match(recs@, s, key@, i as int));
            return Some(i);
        }
        i = i + 1;
    }
    None
}

/// The position of the first English-name entry whose name is `key`.
fn name_position(names: &Vec<(&'static str, usize)>, key: &str) -> (r: Option<usize>)
    ensures
        match r {
            Some(j) => is_first_name(names@, key@, j as int),
            None => !exists|j: int| is_first_name(names@, key@, j),
        },
{
    let mut i: usize = 0;
    while i < names.len()
        invariant
            i <= names@.len(),
            forall|k: int| 0 <= k < i ==> (#[trigger] names@[k]).0@ != key@,
        decreases names@.len() - i,
    {
        if same_text(names[i].0, key) {
            return Some(i);
        }
        i = i + 1;
    }
    None
}

/// The book records, and the English-name index that points into them.
pub struct BookTable {
    pub records: Vec<BookRecord>,
    /// Upper-case English names, each with the position of its record.
    pub english_names: Vec<(&'static str, usize)>,
}

impl BookTable {
    /// Whether `code` is a reference abbreviation of some record.
    pub fn is_valid_reference_abbreviation(&self, code: &str) -> (r: bool)
        ensures
            r == first_match(self.records@, Scheme::Reference, code@).is_some(),
    {
        position(&self.records, Scheme::Reference, code).is_some()
    }

    /// The USFM abbreviation of the record whose reference abbreviation is
    /// `code`: `Ok(None)` where that record has none.
    pub fn reference_abbrev_to_usfm_abbrev<'a>(&self, code: &'a str) -> (r: Result<
        Option<&'static str>,
        LookupError<'a>,
    >)
        ensures
            r == reference_to_usfm_result(self.records@, code),
    {
        match position(&self.records, Scheme::Reference, code) {
            Some(i) => Ok(self.records[i].usfm_abbreviation),
            None => Err(LookupError::AbbrevNotFound("Reference", code)),
        }
    }

    /// The reference abbreviation of the record whose USFM abbreviation is
    /// `code`, looked up as it stands and then among the upper-case forms.
    pub fn usfm_abbrev_to_reference_abbrev<'a>(&self, code: &'a str) -> (r: Result<
        &'static str,
        LookupError<'a>,
    >)
        ensures
            r == usfm_to_reference_result(self.records@, code),
    {
        match position(&self.records, Scheme::Usfm, code) {
            Some(i) => Ok(self.records[i].reference_abbreviation),
            None => match position(&self.records, Scheme::UppercaseUsfm, code) {
                Some(i) => Ok(self.records[i].reference_abbreviation),
                None => Err(LookupError::AbbrevNotFound("USFM", code)),
            },
        }
    }

    /// The reference abbreviation of the record whose OSIS abbreviation is
    /// `code`.
    pub fn osis_abbrev_to_reference_abbrev<'a>(&self, code: &'a str) -> (r: Result<
        &'static str,
        LookupError<'a>,
    >)
        ensures
            r == osis_to_reference_result(self.records@, code),
    {
        match position(&self.records, Scheme::Osis, code) {
            Some(i) => Ok(self.records[i].reference_abbreviation),
            None => Err(LookupError::AbbrevNotFound("OSIS", code)),
        }
    }

    /// The reference abbreviation that the English-name index gives for the
    /// upper-case name `key`.
    fn name_lookup(&self, key: &str) -> (r: Option<&'static str>)
        ensures
            r == name_target(self.records@, self.english_names@, key@),
    {
        match name_position(&self.english_names, key) {
            Some(j) => {
                assert(forall|k: int|
                    is_first_name(self.english_names@, key@, k) ==> k == j as int);
                let idx = self.english_names[j].1;
                if idx < self.records.len() {
                    Some(self.records[idx].reference_abbreviation)
                } else {
                    None
                }
            },
            None => None,
        }
    }

    /// The reference abbreviation for an English book name: the name in
    /// upper case as it stands, else rewritten by the first ordinal-prefix
    /// rule whose prefix it has and whose rewriting is a known name.
    pub fn english_name_to_reference_abbrev(&self, name: &str) -> (r: Option<&'static str>)
        ensures
            r == english_result(self.records@, self.english_names@, name@),
    {
        let key = uppercase(name);
        let direct = self.name_lookup(key.as_str());
        if direct.is_some() {
            return direct;
        }
        let mut i: usize = 0;
        while i < ORDINAL_RULES
            invariant
                i <= ORDINAL_RULES,
                key@ == upper_of(name@),
                name_target(self.records@, self.english_names@, key@) is None,
                ordinal_fallback(self.records@, self.english_names@, key@, 0)
                    == ordinal_fallback(self.records@, self.english_names@, key@, i as int),
            decreases ORDINAL_RULES - i,
        {
            let (from, to) = ordinal_rule_text(i);
            if has_prefix(key.as_str(), from) {
                let rest = key.as_str().substring_char(from.unicode_len(), key.as_str().unicode_len());
                let candidate = String::from_str(to).concat(rest);
                assert(candidate@ == rewritten(key@, i as int));
                let hit = self.name_lookup(candidate.as_str());
                if hit.is_some() {
                    return hit;
                }
            }
            i = i + 1;
        }
        None
    }
}

} // verus!
