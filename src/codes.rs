use vstd::prelude::*;

use crate::text::same_text;

verus! {

/// One abbreviation, or several of which the first is the usual one.
#[derive(Debug, Clone)]
pub enum StringOrListOfStrings {
    Abbreviation(String),
    ListOfAbbreviations(Vec<String>),
}

/// A list form holds at least one abbreviation.
pub open spec fn abbreviations_wf(a: StringOrListOfStrings) -> bool {
    match a {
        StringOrListOfStrings::Abbreviation(_) => true,
        StringOrListOfStrings::ListOfAbbreviations(l) => l@.len() > 0,
    }
}

/// The usual abbreviation: the only one, or the first of the list.
pub open spec fn first_abbreviation(a: StringOrListOfStrings) -> Seq<char>
    recommends
        abbreviations_wf(a),
{
    match a {
        StringOrListOfStrings::Abbreviation(s) => s@,
        StringOrListOfStrings::ListOfAbbreviations(l) => l@[0]@,
    }
}

/// What the USFM-number table records of one USFM book number.
#[derive(Debug, Clone)]
pub struct UsfmNumberEntry {
    pub reference_abbreviation_or_abbreviations: StringOrListOfStrings,
    pub usfm_abbreviation_or_abbreviations: StringOrListOfStrings,
}

/// The book-code tables read from the published data, as far as lookups
/// here use them; each table is a list of (key, value) entries.
#[derive(Debug, Clone)]
pub struct BibleBooksCodes {
    /// USFM abbreviation, with the abbreviations recorded under it.
    pub usfm_abbreviation_dict: Vec<(String, StringOrListOfStrings)>,
    /// USFM book number (as text), with what is recorded under it.
    pub usfm_number_dict: Vec<(String, UsfmNumberEntry)>,
}

/// `j` is the first entry of `d` with key `key`.
pub open spec fn is_first_key<V>(d: Seq<(String, V)>, key: Seq<char>, j: int) -> bool {
    &&& 0 <= j < d.len()
    &&& d[j].0@ == key
    &&& forall|k: int| 0 <= k < j ==> (#[trigger] d[k]).0@ != key
}

/// The entry of `d` for `key`: its first entry with that key.
pub open spec fn dict_entry<V>(d: Seq<(String, V)>, key: Seq<char>) -> Option<V> {
    if exists|j: int| is_first_key(d, key, j) {
        Some(d[choose|j: int| is_first_key(d, key, j)].1)
    } else {
        None
    }
}

/// The message for a key that a table lacks: `<what>: '<key>'`.
pub open spec fn invalid_text(what: Seq<char>, key: Seq<char>) -> Seq<char> {
    what + ": '"@ + key + "'"@
}

fn dict_lookup<'a, V>(d: &'a Vec<(String, V)>, key: &str) -> (r: Option<&'a V>)
    ensures
        match r {
            Some(v) => dict_entry(d@, key@) == Some(*v),
            None => dict_entry(d@, key@) is None,
        },
{
    let mut i: usize = 0;
    while i < d.len()
        invariant
            i <= d@.len(),
            forall|k: int| 0 <= k < i ==> (#[trigger] d@[k]).0@ != key@,
        decreases d@.len() - i,
    {
        if same_text(d[i].0.as_str(), key) {
            assert(is_first_key(d@, key@, i as int));
            assert(forall|k: int| is_first_key(d@, key@, k) ==> k == i as int);
            return Some(&d[i].1);
        }
        i = i + 1;
    }
    None
}

fn first_of(a: &StringOrListOfStrings) -> (r: String)
    requires
        abbreviations_wf(*a),
    ensures
        r@ == first_abbreviation(*a),
{
    match a {
        StringOrListOfStrings::Abbreviation(s) => s.clone(),
        StringOrListOfStrings::ListOfAbbreviations(l) => l[0].clone(),
    }
}

fn invalid(what: &str, key: &str) -> (r: String)
    ensures
        r@ == invalid_text(what@, key@),
{
    let mut r = String::from_str(what);
    r.append(": '");
    r.append(key);
    r.append("'");
    r
}

impl BibleBooksCodes {
    /// Every list of abbreviations in the tables is non-empty.
    pub open spec fn wf(&self) -> bool {
        &&& forall|j: int|
            0 <= j < self.usfm_abbreviation_dict@.len() ==> abbreviations_wf(
                (#[trigger] self.usfm_abbreviation_dict@[j]).1,
            )
        &&& forall|j: int|
            0 <= j < self.usfm_number_dict@.len() ==> {
                let e = (#[trigger] self.usfm_number_dict@[j]).1;
                abbreviations_wf(e.reference_abbreviation_or_abbreviations)
                    && abbreviations_wf(e.usfm_abbreviation_or_abbreviations)
            }
    }

    /// Whether the tables meet their invariant.
    pub fn is_well_formed(&self) -> (r: bool)
        ensures
            r == self.wf(),
    {
        let mut j: usize = 0;
        while j < self.usfm_abbreviation_dict.len()
            invariant
                j <= self.usfm_abbreviation_dict@.len(),
                forall|k: int|
                    0 <= k < j ==> abbreviations_wf((#[trigger] self.usfm_abbreviation_dict@[k]).1),
            decreases self.usfm_abbreviation_dict@.len() - j,
        {
            if let StringOrListOfStrings::ListOfAbbreviations(l) = &self.usfm_abbreviation_dict[j].1 {
                if l.len() == 0 {
                    return false;
                }
            }
            j = j + 1;
        }
        let mut j: usize = 0;
        while j < self.usfm_number_dict.len()
            invariant
                j <= self.usfm_number_dict@.len(),
                forall|k: int|
                    0 <= k < self.usfm_abbreviation_dict@.len() ==> abbreviations_wf(
                        (#[trigger] self.usfm_abbreviation_dict@[k]).1,
                    ),
                forall|k: int|
                    0 <= k < j ==> {
                        let e = (#[trigger] self.usfm_number_dict@[k]).1;
                        abbreviations_wf(e.reference_abbreviation_or_abbreviations)
                            && abbreviations_wf(e.usfm_abbreviation_or_abbreviations)
                    },
            decreases self.usfm_number_dict@.len() - j,
        {
            let e = &self.usfm_number_dict[j].1;
            if let StringOrListOfStrings::ListOfAbbreviations(l) = &e.reference_abbreviation_or_abbreviations {
                if l.len() == 0 {
                    return false;
                }
            }
            if let StringOrListOfStrings::ListOfAbbreviations(l) = &e.usfm_abbreviation_or_abbreviations {
                if l.len() == 0 {
                    return false;
                }
            }
            j = j + 1;
        }
        true
    }

    /// The usual abbreviation recorded under a USFM abbreviation; an error
    /// message for one that the table lacks.
    pub fn usfm_to_bbb(&self, usfm_bbb: &str) -> (r: Result<String, String>)
        requires
            self.wf(),
        ensures
            match dict_entry(self.usfm_abbreviation_dict@, usfm_bbb@) {
                Some(a) => r matches Ok(s) && s@ == first_abbreviation(a),
                None => r matches Err(e) && e@ == invalid_text(
                    "Invalid USFM abbreviation"@,
                    usfm_bbb@,
                ),
            },
    {
        match dict_lookup(&self.usfm_abbreviation_dict, usfm_bbb) {
            Some(a) => Ok(first_of(a)),
            None => Err(invalid("Invalid USFM abbreviation", usfm_bbb)),
        }
    }

    /// The usual USFM abbreviation recorded under a USFM book number; an
    /// error message for a number that the table lacks.
    pub fn usfm_num_to_usfm_abbrev(&self, usfm_num_str: &str) -> (r: Result<String, String>)
        requires
            self.wf(),
        ensures
            match dict_entry(self.usfm_number_dict@, usfm_num_str@) {
                Some(e) => r matches Ok(s) && s@ == first_abbreviation(
                    e.usfm_abbreviation_or_abbreviations,
                ),
                None => r matches Err(m) && m@ == invalid_text("Invalid USFM number"@, usfm_num_str@),
            },
    {
        match dict_lookup(&self.usfm_number_dict, usfm_num_str) {
            Some(e) => Ok(first_of(&e.usfm_abbreviation_or_abbreviations)),
            None => Err(invalid("Invalid USFM number", usfm_num_str)),
        }
    }

    /// The usual reference abbreviation recorded under a USFM book number;
    /// an error message for a number that the table lacks.
    pub fn usfm_num_to_bbb(&self, usfm_num_str: &str) -> (r: Result<String, String>)
        requires
            self.wf(),
        ensures
            match dict_entry(self.usfm_number_dict@, usfm_num_str@) {
                Some(e) => r matches Ok(s) && s@ == first_abbreviation(
                    e.reference_abbreviation_or_abbreviations,
                ),
                None => r matches Err(m) && m@ == invalid_text("Invalid USFM number"@, usfm_num_str@),
            },
    {
        match dict_lookup(&self.usfm_number_dict, usfm_num_str) {
            Some(e) => Ok(first_of(&e.reference_abbreviation_or_abbreviations)),
            None => Err(invalid("Invalid USFM number", usfm_num_str)),
        }
    }
}

} // verus!
