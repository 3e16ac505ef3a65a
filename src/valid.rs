use vstd::prelude::*;

use crate::books::{key_of, BookRecord, BookTable, Scheme};
use crate::text::{same_text, uppercase};

verus! {

/// No two distinct records share a key, the first under scheme `s1` and the
/// second under scheme `s2`.
pub open spec fn keys_distinct(recs: Seq<BookRecord>, s1: Scheme, s2: Scheme) -> bool {
    forall|i: int, j: int|
        0 <= i < recs.len() && 0 <= j < recs.len() && i != j && (#[trigger] key_of(recs[i], s1)).is_some()
            ==> key_of(recs[i], s1) != #[trigger] key_of(recs[j], s2)
}

/// The records' invariant: each index maps a key to one record at most,
/// and no USFM abbreviation is the upper-case form of another book's.
pub open spec fn records_wf(recs: Seq<BookRecord>) -> bool {
    &&& keys_distinct(recs, Scheme::Reference, Scheme::Reference)
    &&& keys_distinct(recs, Scheme::Usfm, Scheme::Usfm)
    &&& keys_distinct(recs, Scheme::UppercaseUsfm, Scheme::UppercaseUsfm)
    &&& keys_distinct(recs, Scheme::Usfm, Scheme::UppercaseUsfm)
    &&& keys_distinct(recs, Scheme::Osis, Scheme::Osis)
}

/// Every English-name entry points at a record.
pub open spec fn names_wf(recs: Seq<BookRecord>, names: Seq<(&'static str, usize)>) -> bool {
    forall|j: int| 0 <= j < names.len() ==> (#[trigger] names[j]).1 < recs.len()
}

/// The key of `b` under scheme `s`, as text.
fn key_text(b: &BookRecord, s: Scheme) -> (r: Option<String>)
    ensures
        match r {
            Some(k) => key_of(*b, s) == Some(k@),
            None => key_of(*b, s) is None,
        },
{
    match s {
        Scheme::Reference => Some(String::from_str(b.reference_abbreviation)),
        Scheme::Usfm => match b.usfm_abbreviation {
            Some(u) => Some(String::from_str(u)),
            None => None,
        },
        Scheme::UppercaseUsfm => match b.usfm_abbreviation {
            Some(u) => Some(uppercase(u)),
            None => None,
        },
        Scheme::Osis => match b.osis_abbreviation {
            Some(o) => Some(String::from_str(o)),
            None => None,
        },
    }
}

/// Whether `keys_distinct(recs, s1, s2)` holds.
fn check_distinct(recs: &Vec<BookRecord>, s1: Scheme, s2: Scheme) -> (r: bool)
    ensures
        r == keys_distinct(recs@, s1, s2),
{
    let n = recs.len();
    let mut i: usize = 0;
    while i < n
        invariant
            n == recs@.len(),
            i <= n,
            forall|a: int, b: int|
                0 <= a < i && 0 <= b < n && a != b && (#[trigger] key_of(recs@[a], s1)).is_some()
                    ==> key_of(recs@[a], s1) != #[trigger] key_of(recs@[b], s2),
        decreases n - i,
    {
        let k1 = key_text(&recs[i], s1);
        if let Some(k1) = k1 {
            let mut j: usize = 0;
            while j < n
                invariant
                    n == recs@.len(),
                    i < n,
                    j <= n,
                    key_of(recs@[i as int], s1) == Some(k1@),
                    forall|a: int, b: int|
                        0 <= a < i && 0 <= b < n && a != b && (#[trigger] key_of(recs@[a], s1)).is_some()
                            ==> key_of(recs@[a], s1) != #[trigger] key_of(recs@[b], s2),
                    forall|b: int|
                        0 <= b < j && b != i ==> key_of(recs@[i as int], s1) != #[trigger] key_of(recs@[b], s2),
                decreases n - j,
            {
                if j != i {
                    let k2 = key_text(&recs[j], s2);
                    if let Some(k2) = k2 {
                        if same_text(k1.as_str(), k2.as_str()) {
                            assert(key_of(recs@[i as int], s1) == key_of(recs@[j as int], s2));
                            return false;
                        }
                    }
                }
                j = j + 1;
            }
        }
        i = i + 1;
    }
    true
}

impl BookTable {
    /// The table's invariant: unique keys in every index, and English-name
    /// entries that point at records.
    pub open spec fn wf(&self) -> bool {
        records_wf(self.records@) && names_wf(self.records@, self.english_names@)
    }

    /// Whether the table meets its invariant.
    pub fn is_well_formed(&self) -> (r: bool)
        ensures
            r == self.wf(),
    {
        let mut j: usize = 0;
        while j < self.english_names.len()
            invariant
                j <= self.english_names@.len(),
                forall|k: int| 0 <= k < j ==> (#[trigger] self.english_names@[k]).1 < self.records@.len(),
            decreases self.english_names@.len() - j,
        {
            if self.english_names[j].1 >= self.records.len() {
                return false;
            }
            j = j + 1;
        }
        check_distinct(&self.records, Scheme::Reference, Scheme::Reference)
            && check_distinct(&self.records, Scheme::Usfm, Scheme::Usfm)
            && check_distinct(&self.records, Scheme::UppercaseUsfm, Scheme::UppercaseUsfm)
            && check_distinct(&self.records, Scheme::Usfm, Scheme::UppercaseUsfm)
            && check_distinct(&self.records, Scheme::Osis, Scheme::Osis)
    }
}

} // verus!
