use vstd::prelude::*;
use vstd::string::StringExecFns;
use crate::decimal::{decimal_digits, digit_char};

verus! {

/// The emulated iOS version that a dropdown tag selects: tag 0 is "latest"
/// (no override), tags 1 to 18 name one release each.
pub open spec fn version_of_tag(tag: int) -> Option<(i32, i32, i32)> {
    if tag == 1 { Some((2, 0, 0)) }
    else if tag == 2 { Some((3, 0, 0)) }
    else if tag == 3 { Some((4, 3, 0)) }
    else if tag == 4 { Some((5, 1, 0)) }
    else if tag == 5 { Some((6, 1, 0)) }
    else if tag == 6 { Some((7, 1, 0)) }
    else if tag == 7 { Some((8, 4, 0)) }
    else if tag == 8 { Some((9, 3, 0)) }
    else if tag == 9 { Some((10, 3, 0)) }
    else if tag == 10 { Some((11, 4, 0)) }
    else if tag == 11 { Some((12, 4, 1)) }
    else if tag == 12 { Some((13, 7, 0)) }
    else if tag == 13 { Some((14, 8, 1)) }
    else if tag == 14 { Some((15, 8, 8)) }
    else if tag == 15 { Some((16, 7, 16)) }
    else if tag == 16 { Some((17, 7, 11)) }
    else if tag == 17 { Some((18, 7, 9)) }
    else if tag == 18 { Some((26, 6, 0)) }
    else { None }
}

/// The dropdown tag that shows `value`: the tag of a listed release, and 0
/// for "latest" and for every release that the dropdown does not list.
pub open spec fn tag_of_version(value: Option<(i32, i32, i32)>) -> int {
    match value {
        None => 0,
        Some(v) => {
            if v == (2i32, 0i32, 0i32) {
                1
            } else if v == (3i32, 0i32, 0i32) {
                2
            } else if v == (4i32, 3i32, 0i32) {
                3
            } else if v == (5i32, 1i32, 0i32) {
                4
            } else if v == (6i32, 1i32, 0i32) {
                5
            } else if v == (7i32, 1i32, 0i32) {
                6
            } else if v == (8i32, 4i32, 0i32) {
                7
            } else if v == (9i32, 3i32, 0i32) {
                8
            } else if v == (10i32, 3i32, 0i32) {
                9
            } else if v == (11i32, 4i32, 0i32) {
                10
            } else if v == (12i32, 4i32, 1i32) {
                11
            } else if v == (13i32, 7i32, 0i32) {
                12
            } else if v == (14i32, 8i32, 1i32) {
                13
            } else if v == (15i32, 8i32, 8i32) {
                14
            } else if v == (16i32, 7i32, 16i32) {
                15
            } else if v == (17i32, 7i32, 11i32) {
                16
            } else if v == (18i32, 7i32, 9i32) {
                17
            } else if v == (26i32, 6i32, 0i32) {
                18
            } else {
                0
            }
        },
    }
}

/// The text of the dropdown entry with tag `tag`.
pub open spec fn version_label(tag: int) -> Seq<char> {
    if tag == 0 {
        "Latest (iOS 26.6)"@
    } else if tag == 1 {
        "iOS 2.0"@
    } else if tag == 2 {
        "iOS 3.0"@
    } else if tag == 3 {
        "iOS 4.3"@
    } else if tag == 4 {
        "iOS 5.1"@
    } else if tag == 5 {
        "iOS 6.1"@
    } else if tag == 6 {
        "iOS 7.1"@
    } else if tag == 7 {
        "iOS 8.4"@
    } else if tag == 8 {
        "iOS 9.3"@
    } else if tag == 9 {
        "iOS 10.3"@
    } else if tag == 10 {
        "iOS 11.4"@
    } else if tag == 11 {
        "iOS 12.4.1"@
    } else if tag == 12 {
        "iOS 13.7"@
    } else if tag == 13 {
        "iOS 14.8.1"@
    } else if tag == 14 {
        "iOS 15.8.8"@
    } else if tag == 15 {
        "iOS 16.7.16"@
    } else if tag == 16 {
        "iOS 17.7.11"@
    } else if tag == 17 {
        "iOS 18.7.9"@
    } else if tag == 18 {
        "iOS 26.6"@
    } else {
        Seq::empty()
    }
}

/// Maps a dropdown tag to the iOS version it selects.
pub fn ios_version_for_tag(tag: i32) -> (r: Option<(i32, i32, i32)>)
    ensures
        r == version_of_tag(tag as int),
{
    match tag {
        1 => Some((2, 0, 0)),
        2 => Some((3, 0, 0)),
        3 => Some((4, 3, 0)),
        4 => Some((5, 1, 0)),
        5 => Some((6, 1, 0)),
        6 => Some((7, 1, 0)),
        7 => Some((8, 4, 0)),
        8 => Some((9, 3, 0)),
        9 => Some((10, 3, 0)),
        10 => Some((11, 4, 0)),
        11 => Some((12, 4, 1)),
        12 => Some((13, 7, 0)),
        13 => Some((14, 8, 1)),
        14 => Some((15, 8, 8)),
        15 => Some((16, 7, 16)),
        16 => Some((17, 7, 11)),
        17 => Some((18, 7, 9)),
        18 => Some((26, 6, 0)),
        _ => None,
    }
}


/// The dropdown tag that shows an iOS version choice.
pub fn ios_version_tag(value: Option<(i32, i32, i32)>) -> (r: i32)
    ensures
        r as int == tag_of_version(value),
{
    match value {
        None => 0,
        Some((2, 0, 0)) => 1,
        Some((3, 0, 0)) => 2,
        Some((4, 3, 0)) => 3,
        Some((5, 1, 0)) => 4,
        Some((6, 1, 0)) => 5,
        Some((7, 1, 0)) => 6,
        Some((8, 4, 0)) => 7,
        Some((9, 3, 0)) => 8,
        Some((10, 3, 0)) => 9,
        Some((11, 4, 0)) => 10,
        Some((12, 4, 1)) => 11,
        Some((13, 7, 0)) => 12,
        Some((14, 8, 1)) => 13,
        Some((15, 8, 8)) => 14,
        Some((16, 7, 16)) => 15,
        Some((17, 7, 11)) => 16,
        Some((18, 7, 9)) => 17,
        Some((26, 6, 0)) => 18,
        _ => 0,
    }
}

/// The text of the dropdown entry with tag `tag`, when 0 <= tag <= 18.
fn version_entry_label(tag: i32) -> (r: Option<&'static str>)
    ensures
        0 <= tag <= 18 ==> r is Some && r->0@ == version_label(tag as int),
        !(0 <= tag <= 18) ==> r is None,
{
    match tag {
        0 => Some("Latest (iOS 26.6)"),
        1 => Some("iOS 2.0"),
        2 => Some("iOS 3.0"),
        3 => Some("iOS 4.3"),
        4 => Some("iOS 5.1"),
        5 => Some("iOS 6.1"),
        6 => Some("iOS 7.1"),
        7 => Some("iOS 8.4"),
        8 => Some("iOS 9.3"),
        9 => Some("iOS 10.3"),
        10 => Some("iOS 11.4"),
        11 => Some("iOS 12.4.1"),
        12 => Some("iOS 13.7"),
        13 => Some("iOS 14.8.1"),
        14 => Some("iOS 15.8.8"),
        15 => Some("iOS 16.7.16"),
        16 => Some("iOS 17.7.11"),
        17 => Some("iOS 18.7.9"),
        18 => Some("iOS 26.6"),
        _ => None,
    }
}

/// The title shown for an iOS version choice: the text of the dropdown entry
/// whose tag shows it.
pub fn ios_version_label(value: Option<(i32, i32, i32)>) -> (r: String)
    ensures
        r@ == version_label(tag_of_version(value)),
{
    let tag = ios_version_tag(value);
    match version_entry_label(tag) {
        Some(label) => String::from_str(label),
        None => String::from_str("Latest (iOS 26.6)"),
    }
}


/// Every dropdown tag from 0 to 18 comes back unchanged when the version it
/// selects is turned into a tag again.
pub proof fn lemma_tag_roundtrip(tag: int)
    requires
        0 <= tag <= 18,
    ensures
        tag_of_version(version_of_tag(tag)) == tag,
{
}

/// Turning a version choice into a tag and back gives the choice itself when
/// the dropdown lists it (or it is "latest"), and "latest" otherwise.
pub proof fn lemma_version_roundtrip(value: Option<(i32, i32, i32)>)
    ensures
        0 <= tag_of_version(value) <= 18,
        tag_of_version(value) == 0 ==> version_of_tag(tag_of_version(value)) is None,
        tag_of_version(value) != 0 ==> version_of_tag(tag_of_version(value)) == value,
{
}

/// Tags outside the dropdown select no override, which is shown as "latest".
pub proof fn lemma_unknown_tag_is_latest(tag: int)
    requires
        !(0 <= tag <= 18),
    ensures
        version_of_tag(tag) is None,
        tag_of_version(version_of_tag(tag)) == 0,
        version_label(tag_of_version(version_of_tag(tag))) == "Latest (iOS 26.6)"@,
{
}


/// How a release is written in the dropdown: "iOS ", the major and minor
/// numbers joined by a dot, then a dot and the patch number when the patch
/// number is not zero.
pub open spec fn release_text(v: (i32, i32, i32)) -> Seq<char> {
    "iOS "@ + decimal_digits(v.0 as nat) + "."@ + decimal_digits(v.1 as nat) + if v.2 != 0 {
        "."@ + decimal_digits(v.2 as nat)
    } else {
        Seq::empty()
    }
}

/// The characters of `n`, written in decimal, for a number below 100.
spec fn two_digit_text(n: nat) -> Seq<char> {
    if n < 10 {
        seq![digit_char(n)]
    } else {
        seq![digit_char(n / 10), digit_char(n % 10)]
    }
}

proof fn lemma_two_digits(n: nat)
    requires
        n < 100,
    ensures
        decimal_digits(n) == two_digit_text(n),
{
    reveal_with_fuel(decimal_digits, 2);
    if n >= 10 {
        assert(decimal_digits(n / 10) == seq![digit_char(n / 10)]);
        assert(decimal_digits(n) =~= seq![digit_char(n / 10), digit_char(n % 10)]);
    }
}

proof fn lemma_release_text_parts(major: i32, minor: i32, patch: i32)
    requires
        0 <= major < 100,
        0 <= minor < 100,
        0 <= patch < 100,
    ensures
        release_text((major, minor, patch)) == "iOS "@ + two_digit_text(major as nat) + "."@
            + two_digit_text(minor as nat) + if patch != 0 {
            "."@ + two_digit_text(patch as nat)
        } else {
            Seq::empty()
        },
{
    lemma_two_digits(major as nat);
    lemma_two_digits(minor as nat);
    lemma_two_digits(patch as nat);
    reveal_strlit("iOS ");
    reveal_strlit(".");
}

/// Every release of the dropdown is labelled with the version it selects:
/// for each tag from 1 to 18, the entry's text is that version written out.
pub proof fn lemma_label_names_selected_version(tag: int)
    requires
        1 <= tag <= 18,
    ensures
        version_of_tag(tag) is Some,
        version_label(tag) == release_text(version_of_tag(tag)->0),
{
    reveal_strlit("iOS ");
    reveal_strlit(".");
    if tag == 1 {
        reveal_strlit("iOS 2.0");
        lemma_release_text_parts(2, 0, 0);
        assert(version_label(tag) =~= release_text((2, 0, 0)));
    }     else if tag == 2 {
        reveal_strlit("iOS 3.0");
        lemma_release_text_parts(3, 0, 0);
        assert(version_label(tag) =~= release_text((3, 0, 0)));
    }     else if tag == 3 {
        reveal_strlit("iOS 4.3");
        lemma_release_text_parts(4, 3, 0);
        assert(version_label(tag) =~= release_text((4, 3, 0)));
    }     else if tag == 4 {
        reveal_strlit("iOS 5.1");
        lemma_release_text_parts(5, 1, 0);
        assert(version_label(tag) =~= release_text((5, 1, 0)));
    }     else if tag == 5 {
        reveal_strlit("iOS 6.1");
        lemma_release_text_parts(6, 1, 0);
        assert(version_label(tag) =~= release_text((6, 1, 0)));
    }     else if tag == 6 {
        reveal_strlit("iOS 7.1");
        lemma_release_text_parts(7, 1, 0);
        assert(version_label(tag) =~= release_text((7, 1, 0)));
    }     else if tag == 7 {
        reveal_strlit("iOS 8.4");
        lemma_release_text_parts(8, 4, 0);
        assert(version_label(tag) =~= release_text((8, 4, 0)));
    }     else if tag == 8 {
        reveal_strlit("iOS 9.3");
        lemma_release_text_parts(9, 3, 0);
        assert(version_label(tag) =~= release_text((9, 3, 0)));
    }     else if tag == 9 {
        reveal_strlit("iOS 10.3");
        lemma_release_text_parts(10, 3, 0);
        assert(version_label(tag) =~= release_text((10, 3, 0)));
    }     else if tag == 10 {
        reveal_strlit("iOS 11.4");
        lemma_release_text_parts(11, 4, 0);
        assert(version_label(tag) =~= release_text((11, 4, 0)));
    }     else if tag == 11 {
        reveal_strlit("iOS 12.4.1");
        lemma_release_text_parts(12, 4, 1);
        assert(version_label(tag) =~= release_text((12, 4, 1)));
    }     else if tag == 12 {
        reveal_strlit("iOS 13.7");
        lemma_release_text_parts(13, 7, 0);
        assert(version_label(tag) =~= release_text((13, 7, 0)));
    }     else if tag == 13 {
        reveal_strlit("iOS 14.8.1");
        lemma_release_text_parts(14, 8, 1);
        assert(version_label(tag) =~= release_text((14, 8, 1)));
    }     else if tag == 14 {
        reveal_strlit("iOS 15.8.8");
        lemma_release_text_parts(15, 8, 8);
        assert(version_label(tag) =~= release_text((15, 8, 8)));
    }     else if tag == 15 {
        reveal_strlit("iOS 16.7.16");
        lemma_release_text_parts(16, 7, 16);
        assert(version_label(tag) =~= release_text((16, 7, 16)));
    }     else if tag == 16 {
        reveal_strlit("iOS 17.7.11");
        lemma_release_text_parts(17, 7, 11);
        assert(version_label(tag) =~= release_text((17, 7, 11)));
    }     else if tag == 17 {
        reveal_strlit("iOS 18.7.9");
        lemma_release_text_parts(18, 7, 9);
        assert(version_label(tag) =~= release_text((18, 7, 9)));
    }     else if tag == 18 {
        reveal_strlit("iOS 26.6");
        lemma_release_text_parts(26, 6, 0);
        assert(version_label(tag) =~= release_text((26, 6, 0)));
    }
}

/// The title shown for a listed release names that release, and "latest"
/// names the newest one.
pub proof fn lemma_title_names_version(value: Option<(i32, i32, i32)>)
    ensures
        tag_of_version(value) != 0 ==> version_label(tag_of_version(value)) == release_text(
            value->0,
        ),
        version_label(0) == "Latest ("@ + release_text(version_of_tag(18)->0) + ")"@,
{
    if tag_of_version(value) != 0 {
        lemma_label_names_selected_version(tag_of_version(value));
    }
    reveal_strlit("Latest (iOS 26.6)");
    reveal_strlit("Latest (");
    reveal_strlit(")");
    reveal_strlit("iOS ");
    reveal_strlit(".");
    lemma_release_text_parts(26, 6, 0);
    assert(version_label(0) =~= "Latest ("@ + release_text((26, 6, 0)) + ")"@);
}

} // verus!
