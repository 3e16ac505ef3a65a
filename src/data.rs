use vstd::prelude::*;

use crate::books::{BookRecord, BookTable};

verus! {

/// A record of the standard table.
pub open spec fn book(
    reference: &'static str,
    usfm: Option<&'static str>,
    osis: Option<&'static str>,
) -> BookRecord {
    BookRecord { reference_abbreviation: reference, usfm_abbreviation: usfm, osis_abbreviation: osis }
}

/// Makes the record `book(reference, usfm, osis)`.
fn make_book(
    reference: &'static str,
    usfm: Option<&'static str>,
    osis: Option<&'static str>,
) -> (r: BookRecord)
    ensures
        r == book(reference, usfm, osis),
{
    BookRecord { reference_abbreviation: reference, usfm_abbreviation: usfm, osis_abbreviation: osis }
}

/// The first part of the standard records.
pub open spec fn records_part_0() -> Seq<BookRecord> {
    seq![
        book("GEN", Some("Gen"), Some("Gen")),
        book("EXO", Some("Exo"), Some("Exod")),
        book("LEV", Some("Lev"), Some("Lev")),
        book("NUM", Some("Num"), Some("Num")),
        book("DEU", Some("Deu"), Some("Deut")),
        book("JOS", Some("Jos"), Some("Josh")),
        book("JDG", Some("Jdg"), Some("Judg")),
        book("RUT", Some("Rut"), Some("Ruth")),
        book("SAM", None, None),
        book("SA1", Some("1Sa"), Some("1Sam")),
        book("SA2", Some("2Sa"), Some("2Sam")),
        book("KGS", None, None),
    ]
}

fn push_records_part_0(r: &mut Vec<BookRecord>)
    ensures
        final(r)@ == old(r)@ + records_part_0(),
{
    r.push(make_book("GEN", Some("Gen"), Some("Gen")));
    r.push(make_book("EXO", Some("Exo"), Some("Exod")));
    r.push(make_book("LEV", Some("Lev"), Some("Lev")));
    r.push(make_book("NUM", Some("Num"), Some("Num")));
    r.push(make_book("DEU", Some("Deu"), Some("Deut")));
    r.push(make_book("JOS", Some("Jos"), Some("Josh")));
    r.push(make_book("JDG", Some("Jdg"), Some("Judg")));
    r.push(make_book("RUT", Some("Rut"), Some("Ruth")));
    r.push(make_book("SAM", None, None));
    r.push(make_book("SA1", Some("1Sa"), Some("1Sam")));
    r.push(make_book("SA2", Some("2Sa"), Some("2Sam")));
    r.push(make_book("KGS", None, None));
    assert(r@ =~= old(r)@ + records_part_0());
}

/// The second part of the standard records.
pub open spec fn records_part_1() -> Seq<BookRecord> {
    seq![
        book("KI1", Some("1Ki"), Some("1Kgs")),
        book("KI2", Some("2Ki"), Some("2Kgs")),
        book("CHR", None, None),
        book("CH1", Some("1Ch"), Some("1Chr")),
        book("CH2", Some("2Ch"), Some("2Chr")),
        book("EZR", Some("Ezr"), Some("Ezra")),
        book("NEH", Some("Neh"), Some("Neh")),
        book("EST", Some("Est"), Some("Esth")),
        book("JOB", Some("Job"), Some("Job")),
        book("PSA", Some("Psa"), Some("Ps")),
        book("PRO", Some("Pro"), Some("Prov")),
        book("ECC", Some("Ecc"), Some("Eccl")),
    ]
}

fn push_records_part_1(r: &mut Vec<BookRecord>)
    ensures
        final(r)@ == old(r)@ + records_part_1(),
{
    r.push(make_book("KI1", Some("1Ki"), Some("1Kgs")));
    r.push(make_book("KI2", Some("2Ki"), Some("2Kgs")));
    r.push(make_book("CHR", None, None));
    r.push(make_book("CH1", Some("1Ch"), Some("1Chr")));
    r.push(make_book("CH2", Some("2Ch"), Some("2Chr")));
    r.push(make_book("EZR", Some("Ezr"), Some("Ezra")));
    r.push(make_book("NEH", Some("Neh"), Some("Neh")));
    r.push(make_book("EST", Some("Est"), Some("Esth")));
    r.push(make_book("JOB", Some("Job"), Some("Job")));
    r.push(make_book("PSA", Some("Psa"), Some("Ps")));
    r.push(make_book("PRO", Some("Pro"), Some("Prov")));
    r.push(make_book("ECC", Some("Ecc"), Some("Eccl")));
    assert(r@ =~= old(r)@ + records_part_1());
}

/// The third part of the standard records.
pub open spec fn records_part_2() -> Seq<BookRecord> {
    seq![
        book("SNG", Some("Sng"), Some("Song")),
        book("ISA", Some("Isa"), Some("Isa")),
        book("JER", Some("Jer"), Some("Jer")),
        book("LAM", Some("Lam"), Some("Lam")),
        book("EZE", Some("Ezk"), Some("Ezek")),
        book("DAN", Some("Dan"), Some("Dan")),
        book("HOS", Some("Hos"), Some("Hos")),
        book("JOL", Some("Jol"), Some("Joel")),
        book("AMO", Some("Amo"), Some("Amos")),
        book("OBA", Some("Oba"), Some("Obad")),
        book("JNA", Some("Jon"), Some("Jonah")),
        book("MIC", Some("Mic"), Some("Mic")),
    ]
}

fn push_records_part_2(r: &mut Vec<BookRecord>)
    ensures
        final(r)@ == old(r)@ + records_part_2(),
{
    r.push(make_book("SNG", Some("Sng"), Some("Song")));
    r.push(make_book("ISA", Some("Isa"), Some("Isa")));
    r.push(make_book("JER", Some("Jer"), Some("Jer")));
    r.push(make_book("LAM", Some("Lam"), Some("Lam")));
    r.push(make_book("EZE", Some("Ezk"), Some("Ezek")));
    r.push(make_book("DAN", Some("Dan"), Some("Dan")));
    r.push(make_book("HOS", Some("Hos"), Some("Hos")));
    r.push(make_book("JOL", Some("Jol"), Some("Joel")));
    r.push(make_book("AMO", Some("Amo"), Some("Amos")));
    r.push(make_book("OBA", Some("Oba"), Some("Obad")));
    r.push(make_book("JNA", Some("Jon"), Some("Jonah")));
    r.push(make_book("MIC", Some("Mic"), Some("Mic")));
    assert(r@ =~= old(r)@ + records_part_2());
}

/// The fourth part of the standard records.
pub open spec fn records_part_3() -> Seq<BookRecord> {
    seq![
        book("NAH", Some("Nam"), Some("Nah")),
        book("HAB", Some("Hab"), Some("Hab")),
        book("ZEP", Some("Zep"), Some("Zeph")),
        book("HAG", Some("Hag"), Some("Hag")),
        book("ZEC", Some("Zec"), Some("Zech")),
        book("MAL", Some("Mal"), Some("Mal")),
        book("MAT", Some("Mat"), Some("Matt")),
        book("MRK", Some("Mrk"), Some("Mark")),
        book("LUK", Some("Luk"), Some("Luke")),
        book("JHN", Some("Jhn"), Some("John")),
        book("ACT", Some("Act"), Some("Acts")),
        book("ROM", Some("Rom"), Some("Rom")),
    ]
}

fn push_records_part_3(r: &mut Vec<BookRecord>)
    ensures
        final(r)@ == old(r)@ + records_part_3(),
{
    r.push(make_book("NAH", Some("Nam"), Some("Nah")));
    r.push(make_book("HAB", Some("Hab"), Some("Hab")));
    r.push(make_book("ZEP", Some("Zep"), Some("Zeph")));
    r.push(make_book("HAG", Some("Hag"), Some("Hag")));
    r.push(make_book("ZEC", Some("Zec"), Some("Zech")));
    r.push(make_book("MAL", Some("Mal"), Some("Mal")));
    r.push(make_book("MAT", Some("Mat"), Some("Matt")));
    r.push(make_book("MRK", Some("Mrk"), Some("Mark")));
    r.push(make_book("LUK", Some("Luk"), Some("Luke")));
    r.push(make_book("JHN", Some("Jhn"), Some("John")));
    r.push(make_book("ACT", Some("Act"), Some("Acts")));
    r.push(make_book("ROM", Some("Rom"), Some("Rom")));
    assert(r@ =~= old(r)@ + records_part_3());
}

/// The fifth part of the standard records.
pub open spec fn records_part_4() -> Seq<BookRecord> {
    seq![
        book("CO1", Some("1Co"), Some("1Cor")),
        book("CO2", Some("2Co"), Some("2Cor")),
        book("GAL", Some("Gal"), Some("Gal")),
        book("EPH", Some("Eph"), Some("Eph")),
        book("PHP", Some("Php"), Some("Phil")),
        book("COL", Some("Col"), Some("Col")),
        book("TH1", Some("1Th"), Some("1Thess")),
        book("TH2", Some("2Th"), Some("2Thess")),
        book("TI1", Some("1Ti"), Some("1Tim")),
        book("TI2", Some("2Ti"), Some("2Tim")),
        book("TIT", Some("Tit"), Some("Titus")),
        book("PHM", Some("Phm"), Some("Phlm")),
    ]
}

fn push_records_part_4(r: &mut Vec<BookRecord>)
    ensures
        final(r)@ == old(r)@ + records_part_4(),
{
    r.push(make_book("CO1", Some("1Co"), Some("1Cor")));
    r.push(make_book("CO2", Some("2Co"), Some("2Cor")));
    r.push(make_book("GAL", Some("Gal"), Some("Gal")));
    r.push(make_book("EPH", Some("Eph"), Some("Eph")));
    r.push(make_book("PHP", Some("Php"), Some("Phil")));
    r.push(make_book("COL", Some("Col"), Some("Col")));
    r.push(make_book("TH1", Some("1Th"), Some("1Thess")));
    r.push(make_book("TH2", Some("2Th"), Some("2Thess")));
    r.push(make_book("TI1", Some("1Ti"), Some("1Tim")));
    r.push(make_book("TI2", Some("2Ti"), Some("2Tim")));
    r.push(make_book("TIT", Some("Tit"), Some("Titus")));
    r.push(make_book("PHM", Some("Phm"), Some("Phlm")));
    assert(r@ =~= old(r)@ + records_part_4());
}

/// The sixth part of the standard records.
pub open spec fn records_part_5() -> Seq<BookRecord> {
    seq![
        book("HEB", Some("Heb"), Some("Heb")),
        book("JAM", Some("Jas"), Some("Jas")),
        book("PE1", Some("1Pe"), Some("1Pet")),
        book("PE2", Some("2Pe"), Some("2Pet")),
        book("JN1", Some("1Jn"), Some("1John")),
        book("JN2", Some("2Jn"), Some("2John")),
        book("JN3", Some("3Jn"), Some("3John")),
        book("JDE", Some("Jud"), Some("Jude")),
        book("REV", Some("Rev"), Some("Rev")),
        book("TOB", Some("Tob"), Some("Tob")),
        book("JDT", Some("Jdt"), Some("Jdt")),
        book("ESG", Some("Esg"), Some("EsthGr")),
    ]
}

fn push_records_part_5(r: &mut Vec<BookRecord>)
    ensures
        final(r)@ == old(r)@ + records_part_5(),
{
    r.push(make_book("HEB", Some("Heb"), Some("Heb")));
    r.push(make_book("JAM", Some("Jas"), Some("Jas")));
    r.push(make_book("PE1", Some("1Pe"), Some("1Pet")));
    r.push(make_book("PE2", Some("2Pe"), Some("2Pet")));
    r.push(make_book("JN1", Some("1Jn"), Some("1John")));
    r.push(make_book("JN2", Some("2Jn"), Some("2John")));
    r.push(make_book("JN3", Some("3Jn"), Some("3John")));
    r.push(make_book("JDE", Some("Jud"), Some("Jude")));
    r.push(make_book("REV", Some("Rev"), Some("Rev")));
    r.push(make_book("TOB", Some("Tob"), Some("Tob")));
    r.push(make_book("JDT", Some("Jdt"), Some("Jdt")));
    r.push(make_book("ESG", Some("Esg"), Some("EsthGr")));
    assert(r@ =~= old(r)@ + records_part_5());
}

/// The seventh part of the standard records.
pub open spec fn records_part_6() -> Seq<BookRecord> {
    seq![
        book("WIS", Some("Wis"), Some("Wis")),
        book("SIR", Some("Sir"), Some("Sir")),
        book("BAR", Some("Bar"), Some("Bar")),
        book("LJE", Some("Lje"), Some("EpJer")),
        book("PAZ", Some("S3y"), Some("PrAzar")),
        book("SUS", Some("Sus"), Some("Sus")),
        book("BEL", Some("Bel"), Some("Bel")),
        book("MA1", Some("1Ma"), Some("1Macc")),
        book("MA2", Some("2Ma"), Some("2Macc")),
        book("MA3", Some("3Ma"), Some("3Macc")),
        book("MA4", Some("4Ma"), Some("4Macc")),
        book("GES", Some("1Es"), Some("1Esd")),
    ]
}

fn push_records_part_6(r: &mut Vec<BookRecord>)
    ensures
        final(r)@ == old(r)@ + records_part_6(),
{
    r.push(make_book("WIS", Some("Wis"), Some("Wis")));
    r.push(make_book("SIR", Some("Sir"), Some("Sir")));
    r.push(make_book("BAR", Some("Bar"), Some("Bar")));
    r.push(make_book("LJE", Some("Lje"), Some("EpJer")));
    r.push(make_book("PAZ", Some("S3y"), Some("PrAzar")));
    r.push(make_book("SUS", Some("Sus"), Some("Sus")));
    r.push(make_book("BEL", Some("Bel"), Some("Bel")));
    r.push(make_book("MA1", Some("1Ma"), Some("1Macc")));
    r.push(make_book("MA2", Some("2Ma"), Some("2Macc")));
    r.push(make_book("MA3", Some("3Ma"), Some("3Macc")));
    r.push(make_book("MA4", Some("4Ma"), Some("4Macc")));
    r.push(make_book("GES", Some("1Es"), Some("1Esd")));
    assert(r@ =~= old(r)@ + records_part_6());
}

/// The eighth part of the standard records.
pub open spec fn records_part_7() -> Seq<BookRecord> {
    seq![
        book("LES", Some("2Es"), Some("2Esd")),
        book("MAN", Some("Man"), Some("PrMan")),
        book("PS2", Some("Ps2"), Some("AddPs")),
    ]
}

fn push_records_part_7(r: &mut Vec<BookRecord>)
    ensures
        final(r)@ == old(r)@ + records_part_7(),
{
    r.push(make_book("LES", Some("2Es"), Some("2Esd")));
    r.push(make_book("MAN", Some("Man"), Some("PrMan")));
    r.push(make_book("PS2", Some("Ps2"), Some("AddPs")));
    assert(r@ =~= old(r)@ + records_part_7());
}

/// The first part of the standard English-name index.
pub open spec fn names_part_0() -> Seq<(&'static str, usize)> {
    seq![
        ("GENESIS", 0),
        ("GEN", 0),
        ("GE", 0),
        ("GN", 0),
        ("EXODUS", 1),
        ("EXOD", 1),
        ("EXO", 1),
        ("EX", 1),
        ("LEVITICUS", 2),
        ("LEV", 2),
        ("LE", 2),
        ("LV", 2),
        ("NUMBERS", 3),
        ("NUM", 3),
        ("NU", 3),
        ("NB", 3),
        ("DEUTERONOMY", 4),
        ("DEUT", 4),
        ("DEU", 4),
        ("DT", 4),
        ("JOSHUA", 5),
        ("JOSH", 5),
        ("JOS", 5),
        ("JUDGES", 6),
    ]
}

fn push_names_part_0(r: &mut Vec<(&'static str, usize)>)
    ensures
        final(r)@ == old(r)@ + names_part_0(),
{
    r.push(("GENESIS", 0));
    r.push(("GEN", 0));
    r.push(("GE", 0));
    r.push(("GN", 0));
    r.push(("EXODUS", 1));
    r.push(("EXOD", 1));
    r.push(("EXO", 1));
    r.push(("EX", 1));
    r.push(("LEVITICUS", 2));
    r.push(("LEV", 2));
    r.push(("LE", 2));
    r.push(("LV", 2));
    r.push(("NUMBERS", 3));
    r.push(("NUM", 3));
    r.push(("NU", 3));
    r.push(("NB", 3));
    r.push(("DEUTERONOMY", 4));
    r.push(("DEUT", 4));
    r.push(("DEU", 4));
    r.push(("DT", 4));
    r.push(("JOSHUA", 5));
    r.push(("JOSH", 5));
    r.push(("JOS", 5));
    r.push(("JUDGES", 6));
    assert(r@ =~= old(r)@ + names_part_0());
}

/// The second part of the standard English-name index.
pub open spec fn names_part_1() -> Seq<(&'static str, usize)> {
    seq![
        ("JUDG", 6),
        ("JDG", 6),
        ("RUTH", 7),
        ("RUT", 7),
        ("RU", 7),
        ("SAMUEL", 8),
        ("1 SAMUEL", 9),
        ("1SAMUEL", 9),
        ("1 SAM", 9),
        ("1SAM", 9),
        ("1 SA", 9),
        ("1SA", 9),
        ("2 SAMUEL", 10),
        ("2SAMUEL", 10),
        ("2 SAM", 10),
        ("2SAM", 10),
        ("2 SA", 10),
        ("2SA", 10),
        ("KINGS", 11),
        ("1 KINGS", 12),
        ("1KINGS", 12),
        ("1 KGS", 12),
        ("1KGS", 12),
        ("1 KI", 12),
    ]
}

fn push_names_part_1(r: &mut Vec<(&'static str, usize)>)
    ensures
        final(r)@ == old(r)@ + names_part_1(),
{
    r.push(("JUDG", 6));
    r.push(("JDG", 6));
    r.push(("RUTH", 7));
    r.push(("RUT", 7));
    r.push(("RU", 7));
    r.push(("SAMUEL", 8));
    r.push(("1 SAMUEL", 9));
    r.push(("1SAMUEL", 9));
    r.push(("1 SAM", 9));
    r.push(("1SAM", 9));
    r.push(("1 SA", 9));
    r.push(("1SA", 9));
    r.push(("2 SAMUEL", 10));
    r.push(("2SAMUEL", 10));
    r.push(("2 SAM", 10));
    r.push(("2SAM", 10));
    r.push(("2 SA", 10));
    r.push(("2SA", 10));
    r.push(("KINGS", 11));
    r.push(("1 KINGS", 12));
    r.push(("1KINGS", 12));
    r.push(("1 KGS", 12));
    r.push(("1KGS", 12));
    r.push(("1 KI", 12));
    assert(r@ =~= old(r)@ + names_part_1());
}

/// The third part of the standard English-name index.
pub open spec fn names_part_2() -> Seq<(&'static str, usize)> {
    seq![
        ("1KI", 12),
        ("2 KINGS", 13),
        ("2KINGS", 13),
        ("2 KGS", 13),
        ("2KGS", 13),
        ("2 KI", 13),
        ("2KI", 13),
        ("CHRONICLES", 14),
        ("1 CHRONICLES", 15),
        ("1CHRONICLES", 15),
        ("1 CHR", 15),
        ("1CHR", 15),
        ("1 CH", 15),
        ("1CH", 15),
        ("2 CHRONICLES", 16),
        ("2CHRONICLES", 16),
        ("2 CHR", 16),
        ("2CHR", 16),
        ("2 CH", 16),
        ("2CH", 16),
        ("EZRA", 17),
        ("EZR", 17),
        ("NEHEMIAH", 18),
        ("NEH", 18),
    ]
}

fn push_names_part_2(r: &mut Vec<(&'static str, usize)>)
    ensures
        final(r)@ == old(r)@ + names_part_2(),
{
    r.push(("1KI", 12));
    r.push(("2 KINGS", 13));
    r.push(("2KINGS", 13));
    r.push(("2 KGS", 13));
    r.push(("2KGS", 13));
    r.push(("2 KI", 13));
    r.push(("2KI", 13));
    r.push(("CHRONICLES", 14));
    r.push(("1 CHRONICLES", 15));
    r.push(("1CHRONICLES", 15));
    r.push(("1 CHR", 15));
    r.push(("1CHR", 15));
    r.push(("1 CH", 15));
    r.push(("1CH", 15));
    r.push(("2 CHRONICLES", 16));
    r.push(("2CHRONICLES", 16));
    r.push(("2 CHR", 16));
    r.push(("2CHR", 16));
    r.push(("2 CH", 16));
    r.push(("2CH", 16));
    r.push(("EZRA", 17));
    r.push(("EZR", 17));
    r.push(("NEHEMIAH", 18));
    r.push(("NEH", 18));
    assert(r@ =~= old(r)@ + names_part_2());
}

/// The fourth part of the standard English-name index.
pub open spec fn names_part_3() -> Seq<(&'static str, usize)> {
    seq![
        ("NE", 18),
        ("ESTHER", 19),
        ("ESTER", 19),
        ("ESTH", 19),
        ("EST", 19),
        ("JOB", 20),
        ("JB", 20),
        ("PSALMS", 21),
        ("PSALM", 21),
        ("PSA", 21),
        ("PS", 21),
        ("PROVERBS", 22),
        ("PROV", 22),
        ("PRO", 22),
        ("PRV", 22),
        ("ECCLESIASTES", 23),
        ("QOHELETH", 23),
        ("ECCLE", 23),
        ("ECCL", 23),
        ("ECC", 23),
        ("QOH", 23),
        ("SONG OF SONGS", 24),
        ("SONG OF SOLOMON", 24),
        ("SONG", 24),
    ]
}

fn push_names_part_3(r: &mut Vec<(&'static str, usize)>)
    ensures
        final(r)@ == old(r)@ + names_part_3(),
{
    r.push(("NE", 18));
    r.push(("ESTHER", 19));
    r.push(("ESTER", 19));
    r.push(("ESTH", 19));
    r.push(("EST", 19));
    r.push(("JOB", 20));
    r.push(("JB", 20));
    r.push(("PSALMS", 21));
    r.push(("PSALM", 21));
    r.push(("PSA", 21));
    r.push(("PS", 21));
    r.push(("PROVERBS", 22));
    r.push(("PROV", 22));
    r.push(("PRO", 22));
    r.push(("PRV", 22));
    r.push(("ECCLESIASTES", 23));
    r.push(("QOHELETH", 23));
    r.push(("ECCLE", 23));
    r.push(("ECCL", 23));
    r.push(("ECC", 23));
    r.push(("QOH", 23));
    r.push(("SONG OF SONGS", 24));
    r.push(("SONG OF SOLOMON", 24));
    r.push(("SONG", 24));
    assert(r@ =~= old(r)@ + names_part_3());
}

/// The fifth part of the standard English-name index.
pub open spec fn names_part_4() -> Seq<(&'static str, usize)> {
    seq![
        ("SNG", 24),
        ("SOS", 24),
        ("CANTICLES", 24),
        ("ISAIAH", 25),
        ("ISA", 25),
        ("IS", 25),
        ("JEREMIAH", 26),
        ("JER", 26),
        ("JE", 26),
        ("LAMENTATIONS", 27),
        ("LAM", 27),
        ("LA", 27),
        ("EZEKIEL", 28),
        ("EZEK", 28),
        ("EZK", 28),
        ("EZE", 28),
        ("DANIEL", 29),
        ("DAN", 29),
        ("DA", 29),
        ("DN", 29),
        ("HOSEA", 30),
        ("HOS", 30),
        ("HO", 30),
        ("JOEL", 31),
    ]
}

fn push_names_part_4(r: &mut Vec<(&'static str, usize)>)
    ensures
        final(r)@ == old(r)@ + names_part_4(),
{
    r.push(("SNG", 24));
    r.push(("SOS", 24));
    r.push(("CANTICLES", 24));
    r.push(("ISAIAH", 25));
    r.push(("ISA", 25));
    r.push(("IS", 25));
    r.push(("JEREMIAH", 26));
    r.push(("JER", 26));
    r.push(("JE", 26));
    r.push(("LAMENTATIONS", 27));
    r.push(("LAM", 27));
    r.push(("LA", 27));
    r.push(("EZEKIEL", 28));
    r.push(("EZEK", 28));
    r.push(("EZK", 28));
    r.push(("EZE", 28));
    r.push(("DANIEL", 29));
    r.push(("DAN", 29));
    r.push(("DA", 29));
    r.push(("DN", 29));
    r.push(("HOSEA", 30));
    r.push(("HOS", 30));
    r.push(("HO", 30));
    r.push(("JOEL", 31));
    assert(r@ =~= old(r)@ + names_part_4());
}

/// The sixth part of the standard English-name index.
pub open spec fn names_part_5() -> Seq<(&'static str, usize)> {
    seq![
        ("JOL", 31),
        ("JL", 31),
        ("AMOS", 32),
        ("AMO", 32),
        ("AM", 32),
        ("OBADIAH", 33),
        ("OBAD", 33),
        ("OBA", 33),
        ("OB", 33),
        ("JONAH", 34),
        ("JON", 34),
        ("JNH", 34),
        ("MICAH", 35),
        ("MIC", 35),
        ("MI", 35),
        ("NAHUM", 36),
        ("NAH", 36),
        ("NAM", 36),
        ("NA", 36),
        ("HABAKKUK", 37),
        ("HAB", 37),
        ("ZEPHANIAH", 38),
        ("ZEPH", 38),
        ("ZEP", 38),
    ]
}

fn push_names_part_5(r: &mut Vec<(&'static str, usize)>)
    ensures
        final(r)@ == old(r)@ + names_part_5(),
{
    r.push(("JOL", 31));
    r.push(("JL", 31));
    r.push(("AMOS", 32));
    r.push(("AMO", 32));
    r.push(("AM", 32));
    r.push(("OBADIAH", 33));
    r.push(("OBAD", 33));
    r.push(("OBA", 33));
    r.push(("OB", 33));
    r.push(("JONAH", 34));
    r.push(("JON", 34));
    r.push(("JNH", 34));
    r.push(("MICAH", 35));
    r.push(("MIC", 35));
    r.push(("MI", 35));
    r.push(("NAHUM", 36));
    r.push(("NAH", 36));
    r.push(("NAM", 36));
    r.push(("NA", 36));
    r.push(("HABAKKUK", 37));
    r.push(("HAB", 37));
    r.push(("ZEPHANIAH", 38));
    r.push(("ZEPH", 38));
    r.push(("ZEP", 38));
    assert(r@ =~= old(r)@ + names_part_5());
}

/// The seventh part of the standard English-name index.
pub open spec fn names_part_6() -> Seq<(&'static str, usize)> {
    seq![
        ("HAGGAI", 39),
        ("HAG", 39),
        ("ZECHARIAH", 40),
        ("ZECH", 40),
        ("ZEC", 40),
        ("MALACHI", 41),
        ("MAL", 41),
        ("MATTHEW", 42),
        ("MATT", 42),
        ("MAT", 42),
        ("MT", 42),
        ("MARK", 43),
        ("MRK", 43),
        ("MK", 43),
        ("LUKE", 44),
        ("LUK", 44),
        ("LK", 44),
        ("JOHN", 45),
        ("JHN", 45),
        ("JN", 45),
        ("ACTS", 46),
        ("ACT", 46),
        ("ROMANS", 47),
        ("ROM", 47),
    ]
}

fn push_names_part_6(r: &mut Vec<(&'static str, usize)>)
    ensures
        final(r)@ == old(r)@ + names_part_6(),
{
    r.push(("HAGGAI", 39));
    r.push(("HAG", 39));
    r.push(("ZECHARIAH", 40));
    r.push(("ZECH", 40));
    r.push(("ZEC", 40));
    r.push(("MALACHI", 41));
    r.push(("MAL", 41));
    r.push(("MATTHEW", 42));
    r.push(("MATT", 42));
    r.push(("MAT", 42));
    r.push(("MT", 42));
    r.push(("MARK", 43));
    r.push(("MRK", 43));
    r.push(("MK", 43));
    r.push(("LUKE", 44));
    r.push(("LUK", 44));
    r.push(("LK", 44));
    r.push(("JOHN", 45));
    r.push(("JHN", 45));
    r.push(("JN", 45));
    r.push(("ACTS", 46));
    r.push(("ACT", 46));
    r.push(("ROMANS", 47));
    r.push(("ROM", 47));
    assert(r@ =~= old(r)@ + names_part_6());
}

/// The eighth part of the standard English-name index.
pub open spec fn names_part_7() -> Seq<(&'static str, usize)> {
    seq![
        ("RO", 47),
        ("1 CORINTHIANS", 48),
        ("1CORINTHIANS", 48),
        ("1 COR", 48),
        ("1COR", 48),
        ("1 CO", 48),
        ("1CO", 48),
        ("2 CORINTHIANS", 49),
        ("2CORINTHIANS", 49),
        ("2 COR", 49),
        ("2COR", 49),
        ("2 CO", 49),
        ("2CO", 49),
        ("GALATIANS", 50),
        ("GAL", 50),
        ("EPHESIANS", 51),
        ("EPH", 51),
        ("PHILIPPIANS", 52),
        ("PHIL", 52),
        ("PHP", 52),
        ("COLOSSIANS", 53),
        ("COL", 53),
        ("1 THESSALONIANS", 54),
        ("1THESSALONIANS", 54),
    ]
}

fn push_names_part_7(r: &mut Vec<(&'static str, usize)>)
    ensures
        final(r)@ == old(r)@ + names_part_7(),
{
    r.push(("RO", 47));
    r.push(("1 CORINTHIANS", 48));
    r.push(("1CORINTHIANS", 48));
    r.push(("1 COR", 48));
    r.push(("1COR", 48));
    r.push(("1 CO", 48));
    r.push(("1CO", 48));
    r.push(("2 CORINTHIANS", 49));
    r.push(("2CORINTHIANS", 49));
    r.push(("2 COR", 49));
    r.push(("2COR", 49));
    r.push(("2 CO", 49));
    r.push(("2CO", 49));
    r.push(("GALATIANS", 50));
    r.push(("GAL", 50));
    r.push(("EPHESIANS", 51));
    r.push(("EPH", 51));
    r.push(("PHILIPPIANS", 52));
    r.push(("PHIL", 52));
    r.push(("PHP", 52));
    r.push(("COLOSSIANS", 53));
    r.push(("COL", 53));
    r.push(("1 THESSALONIANS", 54));
    r.push(("1THESSALONIANS", 54));
    assert(r@ =~= old(r)@ + names_part_7());
}

/// The ninth part of the standard English-name index.
pub open spec fn names_part_8() -> Seq<(&'static str, usize)> {
    seq![
        ("1 THESS", 54),
        ("1THESS", 54),
        ("1 TH", 54),
        ("1TH", 54),
        ("2 THESSALONIANS", 55),
        ("2THESSALONIANS", 55),
        ("2 THESS", 55),
        ("2THESS", 55),
        ("2 TH", 55),
        ("2TH", 55),
        ("1 TIMOTHY", 56),
        ("1TIMOTHY", 56),
        ("1 TIM", 56),
        ("1TIM", 56),
        ("1 TI", 56),
        ("1TI", 56),
        ("2 TIMOTHY", 57),
        ("2TIMOTHY", 57),
        ("2 TIM", 57),
        ("2TIM", 57),
        ("2 TI", 57),
        ("2TI", 57),
        ("TITUS", 58),
        ("TIT", 58),
    ]
}

fn push_names_part_8(r: &mut Vec<(&'static str, usize)>)
    ensures
        final(r)@ == old(r)@ + names_part_8(),
{
    r.push(("1 THESS", 54));
    r.push(("1THESS", 54));
    r.push(("1 TH", 54));
    r.push(("1TH", 54));
    r.push(("2 THESSALONIANS", 55));
    r.push(("2THESSALONIANS", 55));
    r.push(("2 THESS", 55));
    r.push(("2THESS", 55));
    r.push(("2 TH", 55));
    r.push(("2TH", 55));
    r.push(("1 TIMOTHY", 56));
    r.push(("1TIMOTHY", 56));
    r.push(("1 TIM", 56));
    r.push(("1TIM", 56));
    r.push(("1 TI", 56));
    r.push(("1TI", 56));
    r.push(("2 TIMOTHY", 57));
    r.push(("2TIMOTHY", 57));
    r.push(("2 TIM", 57));
    r.push(("2TIM", 57));
    r.push(("2 TI", 57));
    r.push(("2TI", 57));
    r.push(("TITUS", 58));
    r.push(("TIT", 58));
    assert(r@ =~= old(r)@ + names_part_8());
}

/// The tenth part of the standard English-name index.
pub open spec fn names_part_9() -> Seq<(&'static str, usize)> {
    seq![
        ("PHILEMON", 59),
        ("PHLM", 59),
        ("PHM", 59),
        ("HEBREWS", 60),
        ("HEB", 60),
        ("JAMES", 61),
        ("JAS", 61),
        ("JAM", 61),
        ("JM", 61),
        ("1 PETER", 62),
        ("1PETER", 62),
        ("1 PET", 62),
        ("1PET", 62),
        ("1 PE", 62),
        ("1PE", 62),
        ("2 PETER", 63),
        ("2PETER", 63),
        ("2 PET", 63),
        ("2PET", 63),
        ("2 PE", 63),
        ("2PE", 63),
        ("1 JOHN", 64),
        ("1JOHN", 64),
        ("1 JN", 64),
    ]
}

fn push_names_part_9(r: &mut Vec<(&'static str, usize)>)
    ensures
        final(r)@ == old(r)@ + names_part_9(),
{
    r.push(("PHILEMON", 59));
    r.push(("PHLM", 59));
    r.push(("PHM", 59));
    r.push(("HEBREWS", 60));
    r.push(("HEB", 60));
    r.push(("JAMES", 61));
    r.push(("JAS", 61));
    r.push(("JAM", 61));
    r.push(("JM", 61));
    r.push(("1 PETER", 62));
    r.push(("1PETER", 62));
    r.push(("1 PET", 62));
    r.push(("1PET", 62));
    r.push(("1 PE", 62));
    r.push(("1PE", 62));
    r.push(("2 PETER", 63));
    r.push(("2PETER", 63));
    r.push(("2 PET", 63));
    r.push(("2PET", 63));
    r.push(("2 PE", 63));
    r.push(("2PE", 63));
    r.push(("1 JOHN", 64));
    r.push(("1JOHN", 64));
    r.push(("1 JN", 64));
    assert(r@ =~= old(r)@ + names_part_9());
}

/// The eleventh part of the standard English-name index.
pub open spec fn names_part_10() -> Seq<(&'static str, usize)> {
    seq![
        ("1JN", 64),
        ("1 JHN", 64),
        ("1JHN", 64),
        ("2 JOHN", 65),
        ("2JOHN", 65),
        ("2 JN", 65),
        ("2JN", 65),
        ("2 JHN", 65),
        ("2JHN", 65),
        ("3 JOHN", 66),
        ("3JOHN", 66),
        ("3 JN", 66),
        ("3JN", 66),
        ("3 JHN", 66),
        ("3JHN", 66),
        ("JUDE", 67),
        ("JUD", 67),
        ("JDE", 67),
        ("REVELATION", 68),
        ("APOCALYPSE", 68),
        ("REV", 68),
        ("RE", 68),
        ("TOBIT", 69),
        ("TOB", 69),
    ]
}

fn push_names_part_10(r: &mut Vec<(&'static str, usize)>)
    ensures
        final(r)@ == old(r)@ + names_part_10(),
{
    r.push(("1JN", 64));
    r.push(("1 JHN", 64));
    r.push(("1JHN", 64));
    r.push(("2 JOHN", 65));
    r.push(("2JOHN", 65));
    r.push(("2 JN", 65));
    r.push(("2JN", 65));
    r.push(("2 JHN", 65));
    r.push(("2JHN", 65));
    r.push(("3 JOHN", 66));
    r.push(("3JOHN", 66));
    r.push(("3 JN", 66));
    r.push(("3JN", 66));
    r.push(("3 JHN", 66));
    r.push(("3JHN", 66));
    r.push(("JUDE", 67));
    r.push(("JUD", 67));
    r.push(("JDE", 67));
    r.push(("REVELATION", 68));
    r.push(("APOCALYPSE", 68));
    r.push(("REV", 68));
    r.push(("RE", 68));
    r.push(("TOBIT", 69));
    r.push(("TOB", 69));
    assert(r@ =~= old(r)@ + names_part_10());
}

/// The twelfth part of the standard English-name index.
pub open spec fn names_part_11() -> Seq<(&'static str, usize)> {
    seq![
        ("JUDITH", 70),
        ("JDT", 70),
        ("ESTHER (GREEK)", 71),
        ("ESG", 71),
        ("WISDOM OF SOLOMON", 72),
        ("WISDOM", 72),
        ("WIS", 72),
        ("SIRACH", 73),
        ("ECCLESIASTICUS", 73),
        ("SIR", 73),
        ("BARUCH", 74),
        ("BAR", 74),
        ("LETTER OF JEREMIAH", 75),
        ("LJE", 75),
        ("PRAYER OF AZARIAH", 76),
        ("PAZ", 76),
        ("SUSANNA", 77),
        ("SUS", 77),
        ("BEL AND THE DRAGON", 78),
        ("BEL", 78),
        ("1 MACCABEES", 79),
        ("1MACCABEES", 79),
        ("1 MACC", 79),
        ("1MACC", 79),
    ]
}

fn push_names_part_11(r: &mut Vec<(&'static str, usize)>)
    ensures
        final(r)@ == old(r)@ + names_part_11(),
{
    r.push(("JUDITH", 70));
    r.push(("JDT", 70));
    r.push(("ESTHER (GREEK)", 71));
    r.push(("ESG", 71));
    r.push(("WISDOM OF SOLOMON", 72));
    r.push(("WISDOM", 72));
    r.push(("WIS", 72));
    r.push(("SIRACH", 73));
    r.push(("ECCLESIASTICUS", 73));
    r.push(("SIR", 73));
    r.push(("BARUCH", 74));
    r.push(("BAR", 74));
    r.push(("LETTER OF JEREMIAH", 75));
    r.push(("LJE", 75));
    r.push(("PRAYER OF AZARIAH", 76));
    r.push(("PAZ", 76));
    r.push(("SUSANNA", 77));
    r.push(("SUS", 77));
    r.push(("BEL AND THE DRAGON", 78));
    r.push(("BEL", 78));
    r.push(("1 MACCABEES", 79));
    r.push(("1MACCABEES", 79));
    r.push(("1 MACC", 79));
    r.push(("1MACC", 79));
    assert(r@ =~= old(r)@ + names_part_11());
}

/// The thirteenth part of the standard English-name index.
pub open spec fn names_part_12() -> Seq<(&'static str, usize)> {
    seq![
        ("1 MA", 79),
        ("1MA", 79),
        ("2 MACCABEES", 80),
        ("2MACCABEES", 80),
        ("2 MACC", 80),
        ("2MACC", 80),
        ("2 MA", 80),
        ("2MA", 80),
        ("3 MACCABEES", 81),
        ("3MACCABEES", 81),
        ("3 MACC", 81),
        ("3MACC", 81),
        ("3 MA", 81),
        ("3MA", 81),
        ("4 MACCABEES", 82),
        ("4MACCABEES", 82),
        ("4 MACC", 82),
        ("4MACC", 82),
        ("4 MA", 82),
        ("4MA", 82),
        ("1 ESDRAS", 83),
        ("1ESDRAS", 83),
        ("1 ESD", 83),
        ("1ESD", 83),
    ]
}

fn push_names_part_12(r: &mut Vec<(&'static str, usize)>)
    ensures
        final(r)@ == old(r)@ + names_part_12(),
{
    r.push(("1 MA", 79));
    r.push(("1MA", 79));
    r.push(("2 MACCABEES", 80));
    r.push(("2MACCABEES", 80));
    r.push(("2 MACC", 80));
    r.push(("2MACC", 80));
    r.push(("2 MA", 80));
    r.push(("2MA", 80));
    r.push(("3 MACCABEES", 81));
    r.push(("3MACCABEES", 81));
    r.push(("3 MACC", 81));
    r.push(("3MACC", 81));
    r.push(("3 MA", 81));
    r.push(("3MA", 81));
    r.push(("4 MACCABEES", 82));
    r.push(("4MACCABEES", 82));
    r.push(("4 MACC", 82));
    r.push(("4MACC", 82));
    r.push(("4 MA", 82));
    r.push(("4MA", 82));
    r.push(("1 ESDRAS", 83));
    r.push(("1ESDRAS", 83));
    r.push(("1 ESD", 83));
    r.push(("1ESD", 83));
    assert(r@ =~= old(r)@ + names_part_12());
}

/// The fourteenth part of the standard English-name index.
pub open spec fn names_part_13() -> Seq<(&'static str, usize)> {
    seq![
        ("2 ESDRAS", 84),
        ("2ESDRAS", 84),
        ("2 ESD", 84),
        ("2ESD", 84),
        ("PRAYER OF MANASSEH", 85),
        ("MAN", 85),
        ("PSALM 151", 86),
        ("PS2", 86),
    ]
}

fn push_names_part_13(r: &mut Vec<(&'static str, usize)>)
    ensures
        final(r)@ == old(r)@ + names_part_13(),
{
    r.push(("2 ESDRAS", 84));
    r.push(("2ESDRAS", 84));
    r.push(("2 ESD", 84));
    r.push(("2ESD", 84));
    r.push(("PRAYER OF MANASSEH", 85));
    r.push(("MAN", 85));
    r.push(("PSALM 151", 86));
    r.push(("PS2", 86));
    assert(r@ =~= old(r)@ + names_part_13());
}

/// The records of the standard table, in canonical order.
pub open spec fn standard_records() -> Seq<BookRecord> {
    records_part_0()
        + records_part_1()
        + records_part_2()
        + records_part_3()
        + records_part_4()
        + records_part_5()
        + records_part_6()
        + records_part_7()
}

/// The English-name index of the standard table: upper-case names, each
/// with the position of its record.
pub open spec fn standard_english_names() -> Seq<(&'static str, usize)> {
    names_part_0()
        + names_part_1()
        + names_part_2()
        + names_part_3()
        + names_part_4()
        + names_part_5()
        + names_part_6()
        + names_part_7()
        + names_part_8()
        + names_part_9()
        + names_part_10()
        + names_part_11()
        + names_part_12()
        + names_part_13()
}

impl BookTable {
    /// The standard table of canonical books.
    pub fn standard() -> (t: BookTable)
        ensures
            t.records@ == standard_records(),
            t.english_names@ == standard_english_names(),
    {
        let mut records: Vec<BookRecord> = Vec::new();
        push_records_part_0(&mut records);
        push_records_part_1(&mut records);
        push_records_part_2(&mut records);
        push_records_part_3(&mut records);
        push_records_part_4(&mut records);
        push_records_part_5(&mut records);
        push_records_part_6(&mut records);
        push_records_part_7(&mut records);
        assert(records@ =~= standard_records());
        let mut names: Vec<(&'static str, usize)> = Vec::new();
        push_names_part_0(&mut names);
        push_names_part_1(&mut names);
        push_names_part_2(&mut names);
        push_names_part_3(&mut names);
        push_names_part_4(&mut names);
        push_names_part_5(&mut names);
        push_names_part_6(&mut names);
        push_names_part_7(&mut names);
        push_names_part_8(&mut names);
        push_names_part_9(&mut names);
        push_names_part_10(&mut names);
        push_names_part_11(&mut names);
        push_names_part_12(&mut names);
        push_names_part_13(&mut names);
        assert(names@ =~= standard_english_names());
        BookTable { records, english_names: names }
    }
}

} // verus!
