//! The fixed Persian word tables: units, teens, multiples of ten and
//! multiples of one hundred.

use vstd::prelude::*;

verus! {

/// The word for a unit digit `d` (1 through 9).
pub open spec fn spec_yekan(d: int) -> Seq<char> {
    if d == 1 {
        "یک"@
    } else if d == 2 {
        "دو"@
    } else if d == 3 {
        "سه"@
    } else if d == 4 {
        "چهار"@
    } else if d == 5 {
        "پنج"@
    } else if d == 6 {
        "شش"@
    } else if d == 7 {
        "هفت"@
    } else if d == 8 {
        "هشت"@
    } else {
        "نه"@
    }
}

/// The word for the teen value `10 + d` (`d` from 0 through 9).
pub open spec fn spec_dah(d: int) -> Seq<char> {
    if d == 0 {
        "ده"@
    } else if d == 1 {
        "یازده"@
    } else if d == 2 {
        "دوازده"@
    } else if d == 3 {
        "سیزده"@
    } else if d == 4 {
        "چهارده"@
    } else if d == 5 {
        "پانزده"@
    } else if d == 6 {
        "شانزده"@
    } else if d == 7 {
        "هفده"@
    } else if d == 8 {
        "هیجده"@
    } else {
        "نوزده"@
    }
}

/// The word for the multiple of ten `10 * d` (`d` from 2 through 9).
pub open spec fn spec_dahgan(d: int) -> Seq<char> {
    if d == 2 {
        "بیست"@
    } else if d == 3 {
        "سی"@
    } else if d == 4 {
        "چهل"@
    } else if d == 5 {
        "پنجاه"@
    } else if d == 6 {
        "شصت"@
    } else if d == 7 {
        "هفتاد"@
    } else if d == 8 {
        "هشتاد"@
    } else {
        "نود"@
    }
}

/// The word for the multiple of one hundred `100 * d` (`d` from 1 through 9).
pub open spec fn spec_sadgan(d: int) -> Seq<char> {
    if d == 1 {
        "یکصد"@
    } else if d == 2 {
        "دویست"@
    } else if d == 3 {
        "سیصد"@
    } else if d == 4 {
        "چهارصد"@
    } else if d == 5 {
        "پانصد"@
    } else if d == 6 {
        "ششصد"@
    } else if d == 7 {
        "هفتصد"@
    } else if d == 8 {
        "هشتصد"@
    } else {
        "نهصد"@
    }
}

/// Looks the unit digit `d` up in the units table.
pub(crate) fn yekan(d: i64) -> (r: &'static str)
    requires
        1 <= d <= 9,
    ensures
        r@ == spec_yekan(d as int),
{
    if d == 1 {
        "یک"
    } else if d == 2 {
        "دو"
    } else if d == 3 {
        "سه"
    } else if d == 4 {
        "چهار"
    } else if d == 5 {
        "پنج"
    } else if d == 6 {
        "شش"
    } else if d == 7 {
        "هفت"
    } else if d == 8 {
        "هشت"
    } else {
        "نه"
    }
}

/// Looks the teen offset `d` up in the teens table (the word for `10 + d`).
pub(crate) fn dah(d: i64) -> (r: &'static str)
    requires
        0 <= d <= 9,
    ensures
        r@ == spec_dah(d as int),
{
    if d == 0 {
        "ده"
    } else if d == 1 {
        "یازده"
    } else if d == 2 {
        "دوازده"
    } else if d == 3 {
        "سیزده"
    } else if d == 4 {
        "چهارده"
    } else if d == 5 {
        "پانزده"
    } else if d == 6 {
        "شانزده"
    } else if d == 7 {
        "هفده"
    } else if d == 8 {
        "هیجده"
    } else {
        "نوزده"
    }
}

/// Looks the tens digit `d` up in the tens table (the word for `10 * d`).
pub(crate) fn dahgan(d: i64) -> (r: &'static str)
    requires
        2 <= d <= 9,
    ensures
        r@ == spec_dahgan(d as int),
{
    if d == 2 {
        "بیست"
    } else if d == 3 {
        "سی"
    } else if d == 4 {
        "چهل"
    } else if d == 5 {
        "پنجاه"
    } else if d == 6 {
        "شصت"
    } else if d == 7 {
        "هفتاد"
    } else if d == 8 {
        "هشتاد"
    } else {
        "نود"
    }
}

/// Looks the hundreds digit `d` up in the hundreds table (the word for `100 * d`).
pub(crate) fn sadgan(d: i64) -> (r: &'static str)
    requires
        1 <= d <= 9,
    ensures
        r@ == spec_sadgan(d as int),
{
    if d == 1 {
        "یکصد"
    } else if d == 2 {
        "دویست"
    } else if d == 3 {
        "سیصد"
    } else if d == 4 {
        "چهارصد"
    } else if d == 5 {
        "پانصد"
    } else if d == 6 {
        "ششصد"
    } else if d == 7 {
        "هفتصد"
    } else if d == 8 {
        "هشتصد"
    } else {
        "نهصد"
    }
}

} // verus!
