use vstd::prelude::*;

use crate::books::{
    english_result, first_match, is_first_match, key_of, name_target, ordinal_fallback,
    ordinal_rule, osis_to_reference_result, ORDINAL_RULES, reference_to_usfm_result, rewritten,
    usfm_to_reference_result, BookRecord, Scheme,
};
use crate::error::LookupError;
use crate::text::upper_of;
use crate::valid::{keys_distinct, records_wf};

verus! {

/// A record that stands under `key` in scheme `s`, where no other record
/// does, is what the index gives for `key`.
proof fn lemma_sole_key(recs: Seq<BookRecord>, s: Scheme, key: Seq<char>, i: int)
    requires
        0 <= i < recs.len(),
        key_of(recs[i], s) == Some(key),
        forall|j: int| 0 <= j < recs.len() && j != i ==> key_of(#[trigger] recs[j], s) != Some(key),
    ensures
        first_match(recs, s, key) == Some(i),
{
    assert(is_first_match(recs, s, key, i));
    let k = choose|k: int| is_first_match(recs, s, key, k);
    assert(k == i);
}

/// Round trip: the USFM abbreviation of a known reference abbreviation
/// resolves back to that reference abbreviation.
pub proof fn lemma_usfm_round_trip(recs: Seq<BookRecord>, code: &str, usfm: &'static str)
    requires
        records_wf(recs),
        reference_to_usfm_result(recs, code) == Ok::<Option<&'static str>, LookupError>(Some(usfm)),
    ensures
        usfm_to_reference_result(recs, usfm) matches Ok(r) && r@ == code@,
{
    let i = first_match(recs, Scheme::Reference, code@)->Some_0;
    assert(is_first_match(recs, Scheme::Reference, code@, i));
    assert(key_of(recs[i], Scheme::Usfm) == Some(usfm@));
    assert forall|j: int| 0 <= j < recs.len() && j != i implies key_of(
        #[trigger] recs[j],
        Scheme::Usfm,
    ) != Some(usfm@) by {
        assert(keys_distinct(recs, Scheme::Usfm, Scheme::Usfm));
        assert(key_of(recs[i], Scheme::Usfm) != key_of(recs[j], Scheme::Usfm));
    }
    lemma_sole_key(recs, Scheme::Usfm, usfm@, i);
}

/// A reference abbreviation is valid exactly when resolving it to a USFM
/// abbreviation reports no miss.
pub proof fn lemma_validity_agrees(recs: Seq<BookRecord>, code: &str)
    ensures
        first_match(recs, Scheme::Reference, code@).is_some() <==> reference_to_usfm_result(
            recs,
            code,
        ) is Ok,
{
}

/// A book's USFM abbreviation and its upper-case form resolve alike, to
/// the book's reference abbreviation.
pub proof fn lemma_usfm_case_fallback(recs: Seq<BookRecord>, i: int, upper: &str)
    requires
        records_wf(recs),
        0 <= i < recs.len(),
        recs[i].usfm_abbreviation is Some,
        upper@ == upper_of(recs[i].usfm_abbreviation->Some_0@),
    ensures
        usfm_to_reference_result(recs, recs[i].usfm_abbreviation->Some_0) == Ok::<
            &'static str,
            LookupError,
        >(recs[i].reference_abbreviation),
        usfm_to_reference_result(recs, upper) == Ok::<&'static str, LookupError>(
            recs[i].reference_abbreviation,
        ),
{
    let u = recs[i].usfm_abbreviation->Some_0;
    assert forall|j: int| 0 <= j < recs.len() && j != i implies key_of(
        #[trigger] recs[j],
        Scheme::Usfm,
    ) != Some(u@) by {
        assert(keys_distinct(recs, Scheme::Usfm, Scheme::Usfm));
        assert(key_of(recs[i], Scheme::Usfm) != key_of(recs[j], Scheme::Usfm));
    }
    lemma_sole_key(recs, Scheme::Usfm, u@, i);
    assert forall|j: int| 0 <= j < recs.len() && j != i implies key_of(
        #[trigger] recs[j],
        Scheme::UppercaseUsfm,
    ) != Some(upper@) by {
        assert(keys_distinct(recs, Scheme::UppercaseUsfm, Scheme::UppercaseUsfm));
        assert(key_of(recs[i], Scheme::UppercaseUsfm) != key_of(recs[j], Scheme::UppercaseUsfm));
    }
    lemma_sole_key(recs, Scheme::UppercaseUsfm, upper@, i);
    match first_match(recs, Scheme::Usfm, upper@) {
        Some(j) => {
            assert(is_first_match(recs, Scheme::Usfm, upper@, j));
            if j != i {
                assert(keys_distinct(recs, Scheme::Usfm, Scheme::UppercaseUsfm));
                assert(key_of(recs[j], Scheme::Usfm) != key_of(recs[i], Scheme::UppercaseUsfm));
            }
        },
        None => {},
    }
}

/// An unknown key is reported by an error that carries the scheme that
/// missed and that very key.
pub proof fn lemma_unknown_key_reported(recs: Seq<BookRecord>, code: &str)
    ensures
        reference_to_usfm_result(recs, code) is Err ==> reference_to_usfm_result(recs, code)
            == Err::<Option<&'static str>, LookupError>(LookupError::AbbrevNotFound("Reference", code)),
        usfm_to_reference_result(recs, code) is Err ==> usfm_to_reference_result(recs, code)
            == Err::<&'static str, LookupError>(LookupError::AbbrevNotFound("USFM", code)),
        osis_to_reference_result(recs, code) is Err ==> osis_to_reference_result(recs, code)
            == Err::<&'static str, LookupError>(LookupError::AbbrevNotFound("OSIS", code)),
{
}

/// No rule's prefix starts another rule's prefix, so a name has the prefix
/// of one rule at most.
pub proof fn lemma_rule_prefixes_exclusive(i: int, j: int, key: Seq<char>)
    requires
        0 <= i < ORDINAL_RULES,
        0 <= j < ORDINAL_RULES,
        i != j,
        ordinal_rule(i).0.is_prefix_of(key),
    ensures
        !ordinal_rule(j).0.is_prefix_of(key),
{
    reveal_strlit("1");
    reveal_strlit("1.");
    reveal_strlit("2");
    reveal_strlit("2.");
    reveal_strlit("3");
    reveal_strlit("3.");
    reveal_strlit("4");
    reveal_strlit("4.");
    reveal_strlit("5");
    reveal_strlit("5.");
    reveal_strlit("6");
    reveal_strlit("6.");
    reveal_strlit("I ");
    reveal_strlit("I.");
    reveal_strlit("II ");
    reveal_strlit("II.");
    reveal_strlit("III ");
    reveal_strlit("III.");
    reveal_strlit("IV ");
    reveal_strlit("IV.");
    reveal_strlit("V ");
    reveal_strlit("V.");
    reveal_strlit("VI ");
    reveal_strlit("VI.");
    let a = ordinal_rule(i).0;
    let b = ordinal_rule(j).0;
    if b.is_prefix_of(key) {
        assert(a[0] == key[0] && a[1] == key[1]);
        assert(b[0] == key[0] && b[1] == key[1]);
        if a.len() > 2 && b.len() > 2 {
            assert(a[2] == key[2] && b[2] == key[2]);
            if a.len() > 3 && b.len() > 3 {
                assert(a[3] == key[3] && b[3] == key[3]);
            }
        }
    }
}

/// Rules before rule `i` pass over a name that has rule `i`'s prefix.
proof fn lemma_earlier_rules_pass(
    recs: Seq<BookRecord>,
    names: Seq<(&'static str, usize)>,
    key: Seq<char>,
    i: int,
    j: int,
)
    requires
        0 <= j <= i < ORDINAL_RULES,
        ordinal_rule(i).0.is_prefix_of(key),
    ensures
        ordinal_fallback(recs, names, key, j) == ordinal_fallback(recs, names, key, i),
    decreases i - j,
{
    if j < i {
        lemma_rule_prefixes_exclusive(i, j, key);
        lemma_earlier_rules_pass(recs, names, key, i, j + 1);
    }
}

/// A name written with an ordinal prefix (`I `, `II.`, `3.`, ...) resolves
/// as the same name written with the numeral does, where the numeral form
/// is a known name and the prefixed form is not.
pub proof fn lemma_ordinal_rewrite(
    recs: Seq<BookRecord>,
    names: Seq<(&'static str, usize)>,
    i: int,
    written: Seq<char>,
    plain: Seq<char>,
    rest: Seq<char>,
)
    requires
        0 <= i < ORDINAL_RULES,
        upper_of(written) == ordinal_rule(i).0 + rest,
        upper_of(plain) == ordinal_rule(i).1 + rest,
        name_target(recs, names, upper_of(written)) is None,
        name_target(recs, names, upper_of(plain)) is Some,
    ensures
        english_result(recs, names, written) == english_result(recs, names, plain),
{
    let key = upper_of(written);
    let src = ordinal_rule(i).0;
    assert(src.is_prefix_of(key)) by {
        assert(key.subrange(0, src.len() as int) =~= src);
    }
    assert(rewritten(key, i) =~= upper_of(plain));
    lemma_earlier_rules_pass(recs, names, key, i, 0);
}

} // verus!
