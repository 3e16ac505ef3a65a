use vstd::prelude::*;

verus! {

/// Why a lookup found nothing: the scheme whose index missed and the key
/// that was looked up.
#[derive(Debug, PartialEq)]
pub enum LookupError<'a> {
    AbbrevNotFound(&'a str, &'a str),
}

/// The text that describes a miss: `<scheme> abbreviation '<key>' not found`.
pub open spec fn not_found_text(scheme: Seq<char>, key: Seq<char>) -> Seq<char> {
    scheme + " abbreviation '"@ + key + "' not found"@
}

impl<'a> LookupError<'a> {
    /// The scheme whose index missed.
    pub fn scheme(&self) -> (r: &'a str)
        ensures
            self matches LookupError::AbbrevNotFound(s, _) && r == s,
    {
        match self {
            LookupError::AbbrevNotFound(s, _) => s,
        }
    }

    /// The key that was looked up.
    pub fn key(&self) -> (r: &'a str)
        ensures
            self matches LookupError::AbbrevNotFound(_, k) && r == k,
    {
        match self {
            LookupError::AbbrevNotFound(_, k) => k,
        }
    }

    /// A human-readable description of the miss.
    pub fn to_string(&self) -> (r: String)
        ensures
            self matches LookupError::AbbrevNotFound(s, k) && r@ == not_found_text(s@, k@),
    {
        match self {
            LookupError::AbbrevNotFound(s, k) => {
                let mut r = String::from_str(s);
                r.append(" abbreviation '");
                r.append(k);
                r.append("' not found");
                r
            },
        }
    }
}

} // verus!
