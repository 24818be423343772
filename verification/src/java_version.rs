//! From the version of a Java class file to the Java release that writes it.
//! Release 5 writes class files of version 49.0, and each release after it
//! one more, up to release 21 with 65.0.

use crate::pattern::opt_text;
use crate::text::text_eq;
use vstd::prelude::*;

verus! {

/// The least major number of a class file version whose release is known.
pub const FIRST_CLASSFILE_MAJOR: u32 = 49;

/// The greatest major number of a class file version whose release is known.
pub const LAST_CLASSFILE_MAJOR: u32 = 65;

/// The character of a digit.
pub open spec fn digit(d: nat) -> char {
    if d == 0 {
        '0'
    } else if d == 1 {
        '1'
    } else if d == 2 {
        '2'
    } else if d == 3 {
        '3'
    } else if d == 4 {
        '4'
    } else if d == 5 {
        '5'
    } else if d == 6 {
        '6'
    } else if d == 7 {
        '7'
    } else if d == 8 {
        '8'
    } else {
        '9'
    }
}

/// A number below 100 written in decimal, without leading zeros.
pub open spec fn decimal(n: nat) -> Seq<char> {
    if n < 10 {
        seq![digit(n)]
    } else {
        seq![digit(n / 10), digit(n % 10)]
    }
}

/// The text of the class file version with the given major number.
pub open spec fn classfile_version(major: nat) -> Seq<char> {
    decimal(major) + seq!['.', '0']
}

/// The Java release for a class file version, where the version is one of
/// those in the table.
pub open spec fn java_version_of(classfile: Seq<char>) -> Option<Seq<char>> {
    if classfile == "49.0"@ {
        Some("5"@)
    } else if classfile == "50.0"@ {
        Some("6"@)
    } else if classfile == "51.0"@ {
        Some("7"@)
    } else if classfile == "52.0"@ {
        Some("8"@)
    } else if classfile == "53.0"@ {
        Some("9"@)
    } else if classfile == "54.0"@ {
        Some("10"@)
    } else if classfile == "55.0"@ {
        Some("11"@)
    } else if classfile == "56.0"@ {
        Some("12"@)
    } else if classfile == "57.0"@ {
        Some("13"@)
    } else if classfile == "58.0"@ {
        Some("14"@)
    } else if classfile == "59.0"@ {
        Some("15"@)
    } else if classfile == "60.0"@ {
        Some("16"@)
    } else if classfile == "61.0"@ {
        Some("17"@)
    } else if classfile == "62.0"@ {
        Some("18"@)
    } else if classfile == "63.0"@ {
        Some("19"@)
    } else if classfile == "64.0"@ {
        Some("20"@)
    } else if classfile == "65.0"@ {
        Some("21"@)
    } else {
        None
    }
}

/// A lookup agrees with the table: for each class file version of the
/// table, the release found is the one that the table holds for it.
pub open spec fn java_table_agrees(classfile: Seq<char>, release: Option<Seq<char>>) -> bool {
    &&& (classfile == "49.0"@ ==> release == Some("5"@))
    &&& (classfile == "50.0"@ ==> release == Some("6"@))
    &&& (classfile == "51.0"@ ==> release == Some("7"@))
    &&& (classfile == "52.0"@ ==> release == Some("8"@))
    &&& (classfile == "53.0"@ ==> release == Some("9"@))
    &&& (classfile == "54.0"@ ==> release == Some("10"@))
    &&& (classfile == "55.0"@ ==> release == Some("11"@))
    &&& (classfile == "56.0"@ ==> release == Some("12"@))
    &&& (classfile == "57.0"@ ==> release == Some("13"@))
    &&& (classfile == "58.0"@ ==> release == Some("14"@))
    &&& (classfile == "59.0"@ ==> release == Some("15"@))
    &&& (classfile == "60.0"@ ==> release == Some("16"@))
    &&& (classfile == "61.0"@ ==> release == Some("17"@))
    &&& (classfile == "62.0"@ ==> release == Some("18"@))
    &&& (classfile == "63.0"@ ==> release == Some("19"@))
    &&& (classfile == "64.0"@ ==> release == Some("20"@))
    &&& (classfile == "65.0"@ ==> release == Some("21"@))
}

/// The table, entry by entry.
pub proof fn lemma_java_version_table()
    ensures
        java_version_of("49.0"@) == Some("5"@),
        java_version_of("50.0"@) == Some("6"@),
        java_version_of("51.0"@) == Some("7"@),
        java_version_of("52.0"@) == Some("8"@),
        java_version_of("53.0"@) == Some("9"@),
        java_version_of("54.0"@) == Some("10"@),
        java_version_of("55.0"@) == Some("11"@),
        java_version_of("56.0"@) == Some("12"@),
        java_version_of("57.0"@) == Some("13"@),
        java_version_of("58.0"@) == Some("14"@),
        java_version_of("59.0"@) == Some("15"@),
        java_version_of("60.0"@) == Some("16"@),
        java_version_of("61.0"@) == Some("17"@),
        java_version_of("62.0"@) == Some("18"@),
        java_version_of("63.0"@) == Some("19"@),
        java_version_of("64.0"@) == Some("20"@),
        java_version_of("65.0"@) == Some("21"@),
{
    lemma_classfile_texts();
    lemma_classfile_versions_distinct();
}

/// Looks up the Java release that writes class files of the given version,
/// as a log prints it. Any other text has no release.
pub fn match_java_classfile_version(classfile_version: &str) -> (release: Option<&'static str>)
    ensures
        opt_text(release) == java_version_of(classfile_version@),
        java_table_agrees(classfile_version@, opt_text(release)),
{
    proof {
        lemma_java_version_table();
    }
    if text_eq(classfile_version, "49.0") {
        Some("5")
    } else if text_eq(classfile_version, "50.0") {
        Some("6")
    } else if text_eq(classfile_version, "51.0") {
        Some("7")
    } else if text_eq(classfile_version, "52.0") {
        Some("8")
    } else if text_eq(classfile_version, "53.0") {
        Some("9")
    } else if text_eq(classfile_version, "54.0") {
        Some("10")
    } else if text_eq(classfile_version, "55.0") {
        Some("11")
    } else if text_eq(classfile_version, "56.0") {
        Some("12")
    } else if text_eq(classfile_version, "57.0") {
        Some("13")
    } else if text_eq(classfile_version, "58.0") {
        Some("14")
    } else if text_eq(classfile_version, "59.0") {
        Some("15")
    } else if text_eq(classfile_version, "60.0") {
        Some("16")
    } else if text_eq(classfile_version, "61.0") {
        Some("17")
    } else if text_eq(classfile_version, "62.0") {
        Some("18")
    } else if text_eq(classfile_version, "63.0") {
        Some("19")
    } else if text_eq(classfile_version, "64.0") {
        Some("20")
    } else if text_eq(classfile_version, "65.0") {
        Some("21")
    } else {
        None
    }
}

proof fn lemma_classfile_texts()
    ensures
        "49.0"@ == classfile_version(49),
        "50.0"@ == classfile_version(50),
        "51.0"@ == classfile_version(51),
        "52.0"@ == classfile_version(52),
        "53.0"@ == classfile_version(53),
        "54.0"@ == classfile_version(54),
        "55.0"@ == classfile_version(55),
        "56.0"@ == classfile_version(56),
        "57.0"@ == classfile_version(57),
        "58.0"@ == classfile_version(58),
        "59.0"@ == classfile_version(59),
        "60.0"@ == classfile_version(60),
        "61.0"@ == classfile_version(61),
        "62.0"@ == classfile_version(62),
        "63.0"@ == classfile_version(63),
        "64.0"@ == classfile_version(64),
        "65.0"@ == classfile_version(65),
{
    reveal_strlit("49.0");
    reveal_strlit("50.0");
    reveal_strlit("51.0");
    reveal_strlit("52.0");
    reveal_strlit("53.0");
    reveal_strlit("54.0");
    reveal_strlit("55.0");
    reveal_strlit("56.0");
    reveal_strlit("57.0");
    reveal_strlit("58.0");
    reveal_strlit("59.0");
    reveal_strlit("60.0");
    reveal_strlit("61.0");
    reveal_strlit("62.0");
    reveal_strlit("63.0");
    reveal_strlit("64.0");
    reveal_strlit("65.0");
    assert("49.0"@ =~= classfile_version(49));
    assert("50.0"@ =~= classfile_version(50));
    assert("51.0"@ =~= classfile_version(51));
    assert("52.0"@ =~= classfile_version(52));
    assert("53.0"@ =~= classfile_version(53));
    assert("54.0"@ =~= classfile_version(54));
    assert("55.0"@ =~= classfile_version(55));
    assert("56.0"@ =~= classfile_version(56));
    assert("57.0"@ =~= classfile_version(57));
    assert("58.0"@ =~= classfile_version(58));
    assert("59.0"@ =~= classfile_version(59));
    assert("60.0"@ =~= classfile_version(60));
    assert("61.0"@ =~= classfile_version(61));
    assert("62.0"@ =~= classfile_version(62));
    assert("63.0"@ =~= classfile_version(63));
    assert("64.0"@ =~= classfile_version(64));
    assert("65.0"@ =~= classfile_version(65));
}

proof fn lemma_release_texts()
    ensures
        "5"@ == decimal(5),
        "6"@ == decimal(6),
        "7"@ == decimal(7),
        "8"@ == decimal(8),
        "9"@ == decimal(9),
        "10"@ == decimal(10),
        "11"@ == decimal(11),
        "12"@ == decimal(12),
        "13"@ == decimal(13),
        "14"@ == decimal(14),
        "15"@ == decimal(15),
        "16"@ == decimal(16),
        "17"@ == decimal(17),
        "18"@ == decimal(18),
        "19"@ == decimal(19),
        "20"@ == decimal(20),
        "21"@ == decimal(21),
{
    reveal_strlit("5");
    reveal_strlit("6");
    reveal_strlit("7");
    reveal_strlit("8");
    reveal_strlit("9");
    reveal_strlit("10");
    reveal_strlit("11");
    reveal_strlit("12");
    reveal_strlit("13");
    reveal_strlit("14");
    reveal_strlit("15");
    reveal_strlit("16");
    reveal_strlit("17");
    reveal_strlit("18");
    reveal_strlit("19");
    reveal_strlit("20");
    reveal_strlit("21");
    assert("5"@ =~= decimal(5));
    assert("6"@ =~= decimal(6));
    assert("7"@ =~= decimal(7));
    assert("8"@ =~= decimal(8));
    assert("9"@ =~= decimal(9));
    assert("10"@ =~= decimal(10));
    assert("11"@ =~= decimal(11));
    assert("12"@ =~= decimal(12));
    assert("13"@ =~= decimal(13));
    assert("14"@ =~= decimal(14));
    assert("15"@ =~= decimal(15));
    assert("16"@ =~= decimal(16));
    assert("17"@ =~= decimal(17));
    assert("18"@ =~= decimal(18));
    assert("19"@ =~= decimal(19));
    assert("20"@ =~= decimal(20));
    assert("21"@ =~= decimal(21));
}

/// Two numbers below 100 with the same decimal text are the same number.
pub proof fn lemma_decimal_injective(a: nat, b: nat)
    requires
        a < 100,
        b < 100,
        decimal(a) == decimal(b),
    ensures
        a == b,
{
    lemma_decimal_digits(a);
    lemma_decimal_digits(b);
    if a >= 10 {
        lemma_digit_injective(a / 10, b / 10);
        lemma_digit_injective(a % 10, b % 10);
    } else {
        lemma_digit_injective(a, b);
    }
}

proof fn lemma_decimal_digits(n: nat)
    requires
        n < 100,
    ensures
        n < 10 ==> decimal(n).len() == 1 && decimal(n)[0] == digit(n),
        n >= 10 ==> decimal(n).len() == 2 && decimal(n)[0] == digit(n / 10) && decimal(n)[1]
            == digit(n % 10),
{
}

proof fn lemma_digit_injective(x: nat, y: nat)
    requires
        x < 10,
        y < 10,
        digit(x) == digit(y),
    ensures
        x == y,
{
}

/// Every class file version from 49.0 to 65.0 has a release: the one whose
/// number is 44 less than the version's major number.
pub proof fn lemma_java_version_total(major: nat)
    requires
        FIRST_CLASSFILE_MAJOR <= major <= LAST_CLASSFILE_MAJOR,
    ensures
        java_version_of(classfile_version(major)) == Some(decimal((major - 44) as nat)),
{
    lemma_classfile_texts();
    lemma_release_texts();
    lemma_classfile_versions_distinct();
}

/// A text has a release only if it is the class file version of a major
/// number from 49 to 65.
pub proof fn lemma_java_version_domain(classfile: Seq<char>) -> (major: nat)
    requires
        java_version_of(classfile) is Some,
    ensures
        FIRST_CLASSFILE_MAJOR <= major <= LAST_CLASSFILE_MAJOR,
        classfile == classfile_version(major),
{
    lemma_classfile_texts();
    if classfile == "49.0"@ {
        49
    } else if classfile == "50.0"@ {
        50
    } else if classfile == "51.0"@ {
        51
    } else if classfile == "52.0"@ {
        52
    } else if classfile == "53.0"@ {
        53
    } else if classfile == "54.0"@ {
        54
    } else if classfile == "55.0"@ {
        55
    } else if classfile == "56.0"@ {
        56
    } else if classfile == "57.0"@ {
        57
    } else if classfile == "58.0"@ {
        58
    } else if classfile == "59.0"@ {
        59
    } else if classfile == "60.0"@ {
        60
    } else if classfile == "61.0"@ {
        61
    } else if classfile == "62.0"@ {
        62
    } else if classfile == "63.0"@ {
        63
    } else if classfile == "64.0"@ {
        64
    } else {
        65
    }
}

/// The lookup is one to one: two texts with the same release are the same
/// text.
pub proof fn lemma_java_version_injective(a: Seq<char>, b: Seq<char>)
    requires
        java_version_of(a) is Some,
        java_version_of(a) == java_version_of(b),
    ensures
        a == b,
{
    let m = lemma_java_version_domain(a);
    let n = lemma_java_version_domain(b);
    lemma_java_version_total(m);
    lemma_java_version_total(n);
    lemma_decimal_injective((m - 44) as nat, (n - 44) as nat);
}

proof fn lemma_classfile_versions_distinct()
    ensures
        forall|a: nat, b: nat|
            a < 100 && b < 100 && #[trigger] classfile_version(a) == #[trigger] classfile_version(b)
                ==> a == b,
{
    assert forall|a: nat, b: nat|
        a < 100 && b < 100 && #[trigger] classfile_version(a) == #[trigger] classfile_version(
            b,
        ) implies a == b by {
        lemma_classfile_version_injective(a, b);
    }
}

proof fn lemma_classfile_version_injective(a: nat, b: nat)
    requires
        a < 100,
        b < 100,
    ensures
        classfile_version(a) == classfile_version(b) ==> a == b,
{
    if classfile_version(a) == classfile_version(b) {
        let x = classfile_version(a);
        let y = classfile_version(b);
        assert(x.len() == y.len());
        assert(x[0] == y[0]);
        assert(x[1] == y[1]);
        assert(decimal(a) =~= decimal(b));
        lemma_decimal_injective(a, b);
    }
}

} // verus!
