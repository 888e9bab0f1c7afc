//! Writing signed integers out in Persian words, with an optional
//! ordinal suffix.
//!
//! [`num_to_persian`] converts a number band by band (units, teens, tens,
//! hundreds, and the thousand-scale groups), joining the bands with the
//! Persian connector particle; [`add_ordinal_suffix`] turns a written-out
//! number into its ordinal form.

pub mod words;

use vstd::prelude::*;
use vstd::string::StrSliceExecFns;
use vstd::string::StringExecFns;

verus! {

/// An upper bound, by band, on how far above `level` the fresh sub-level
/// counters of the conversion of `num` can reach: with this much room left
/// in an `i32`, no counter arithmetic in the recursion overflows.
pub open spec fn level_headroom(num: int) -> int {
    let m = if num < 0 {
        -num
    } else {
        num
    };
    if m == 0 {
        0
    } else if m < 20 {
        1
    } else if m < 100 {
        2
    } else if m < 1000 {
        3
    } else if m < 1000000 {
        4
    } else if m < 1000000000 {
        5
    } else if m < 1000000000000 {
        6
    } else if m < 1000000000000000 {
        7
    } else {
        1
    }
}

/// The value the recursion-level counter holds once the conversion of `num`
/// returns: each band that produces a word consumes one pending connector
/// (when `level > 0`), and the thousand-scale bands hand the counter on to
/// the conversion of their quotient.
pub open spec fn spec_final_level(num: int, level: int) -> int
    decreases (if num < 0 { -num } else { num }), (if num < 0 { 1int } else { 0int }),
{
    if num == 0 {
        level
    } else if num < 0 {
        spec_final_level(-num, level)
    } else {
        let lev1 = if level > 0 { level - 1 } else { level };
        if num < 1000 {
            lev1
        } else if num < 1000000 {
            spec_final_level(num / 1000, lev1)
        } else if num < 1000000000 {
            spec_final_level(num / 1000000, lev1)
        } else if num < 1000000000000 {
            spec_final_level(num / 1000000000, lev1)
        } else if num < 1000000000000000 {
            spec_final_level(num / 1000000000000, lev1)
        } else {
            lev1
        }
    }
}

/// The connector and band words that the conversion of a positive `num`
/// assembles at recursion level `level`, before any ordinal suffix: the
/// pending connector " و " when `level > 0`, then the word of the band that
/// `num` falls in, then the conversion of the remainder below that band at
/// a fresh sub-level. A magnitude of a thousand million millions or more
/// lies beyond the last band and leaves only the connector (or nothing).
pub open spec fn spec_positive_words(num: int, level: int, is_ordinal: bool) -> Seq<char>
    decreases (if num < 0 { -num } else { num }), (if num < 0 { 1int } else { 0int }), 0int,
{
    let tmp1 = level + 1;
    let lev1 = if level > 0 { level - 1 } else { level };
    let head: Seq<char> = if level > 0 {
        " و "@
    } else {
        Seq::<char>::empty()
    };
    let body: Seq<char> = if num < 10 {
        words::spec_yekan(num)
    } else if num < 20 {
        words::spec_dah(num - 10)
    } else if num < 100 {
        words::spec_dahgan(num / 10) + spec_num_to_persian(num % 10, tmp1, is_ordinal)
    } else if num < 1000 {
        words::spec_sadgan(num / 100) + spec_num_to_persian(num % 100, tmp1, is_ordinal)
    } else if num < 1000000 {
        spec_num_to_persian(num / 1000, lev1, is_ordinal) + " هزار"@ + spec_num_to_persian(
            num % 1000,
            tmp1,
            is_ordinal,
        )
    } else if num < 1000000000 {
        spec_num_to_persian(num / 1000000, lev1, is_ordinal) + " میلیون"@ + spec_num_to_persian(
            num % 1000000,
            tmp1,
            is_ordinal,
        )
    } else if num < 1000000000000 {
        spec_num_to_persian(num / 1000000000, lev1, is_ordinal) + " میلیارد"@ + spec_num_to_persian(
            num % 1000000000,
            tmp1,
            is_ordinal,
        )
    } else if num < 1000000000000000 {
        spec_num_to_persian(num / 1000000000000, lev1, is_ordinal) + " تریلیارد"@
            + spec_num_to_persian(num % 1000000000000, tmp1, is_ordinal)
    } else {
        Seq::<char>::empty()
    };
    head + body
}

/// The Persian words for `num`, converted at recursion level `level`.
///
/// Zero is "صفر" at the top level and nothing inside a larger number; a
/// negative number is "منفی " before its magnitude; a positive number is
/// assembled band by band by [`spec_positive_words`]. With `is_ordinal`
/// set, every recursion level appends the ordinal form of what it has built
/// to itself.
pub open spec fn spec_num_to_persian(num: int, level: int, is_ordinal: bool) -> Seq<char>
    decreases (if num < 0 { -num } else { num }), (if num < 0 { 1int } else { 0int }), 1int,
{
    if num == 0 {
        if level == 0 {
            "صفر"@
        } else {
            Seq::<char>::empty()
        }
    } else if num < 0 {
        "منفی "@ + spec_num_to_persian(-num, level, is_ordinal)
    } else {
        let assembled = spec_positive_words(num, level, is_ordinal);
        if is_ordinal {
            assembled + spec_add_ordinal_suffix(assembled)
        } else {
            assembled
        }
    }
}

/// Writes `num` out in Persian words.
///
/// `level` is the recursion-level counter: callers pass a fresh counter
/// holding 0 for a standalone conversion. A positive entry value makes the
/// conversion begin with the connector " و " and costs one decrement of the
/// counter. With `is_ordinal` set, each recursion level appends the ordinal
/// form of what it has built to itself. A magnitude of a thousand million
/// millions or more lies beyond the last band and degrades silently to the
/// connector alone (or to nothing) instead of failing.
pub fn num_to_persian(num: i64, level: &mut i32, is_ordinal: bool) -> (r: String)
    requires
        num > i64::MIN,
        *old(level) + level_headroom(num as int) <= i32::MAX,
    ensures
        r@ == spec_num_to_persian(num as int, *old(level) as int, is_ordinal),
        *final(level) == spec_final_level(num as int, *old(level) as int),
    decreases (if num < 0 { -(num as int) } else { num as int }), (if num < 0 { 1int } else { 0int }),
{
    if num == 0 {
        if *level == 0 {
            return String::from_str("صفر");
        } else {
            return String::new();
        }
    }

    if num < 0 {
        let mut r = String::from_str("منفی ");
        let rest = num_to_persian(-num, level, is_ordinal);
        r.append(rest.as_str());
        return r;
    }

    let mut result = String::new();
    let mut tmp1: i32 = *level + 1;

    if *level > 0 {
        result.append(" و ");
        *level = *level - 1;
    }

    let ghost lev0 = *old(level) as int;

    if num < 10 {
        result.append(words::yekan(num));
    } else if num < 20 {
        result.append(words::dah(num - 10));
    } else if num < 100 {
        result.append(words::dahgan(num / 10));
        let rest = num_to_persian(num % 10, &mut tmp1, is_ordinal);
        result.append(rest.as_str());
    } else if num < 1000 {
        result.append(words::sadgan(num / 100));
        let rest = num_to_persian(num % 100, &mut tmp1, is_ordinal);
        result.append(rest.as_str());
    } else if num < 1000000 {
        let above = num_to_persian(num / 1000, level, is_ordinal);
        result.append(above.as_str());
        result.append(" هزار");
        let rest = num_to_persian(num % 1000, &mut tmp1, is_ordinal);
        result.append(rest.as_str());
    } else if num < 1000000000 {
        let above = num_to_persian(num / 1000000, level, is_ordinal);
        result.append(above.as_str());
        result.append(" میلیون");
        let rest = num_to_persian(num % 1000000, &mut tmp1, is_ordinal);
        result.append(rest.as_str());
    } else if num < 1000000000000 {
        let above = num_to_persian(num / 1000000000, level, is_ordinal);
        result.append(above.as_str());
        result.append(" میلیارد");
        let rest = num_to_persian(num % 1000000000, &mut tmp1, is_ordinal);
        result.append(rest.as_str());
    } else if num < 1000000000000000 {
        let above = num_to_persian(num / 1000000000000, level, is_ordinal);
        result.append(above.as_str());
        result.append(" تریلیارد");
        let rest = num_to_persian(num % 1000000000000, &mut tmp1, is_ordinal);
        result.append(rest.as_str());
    }

    proof {
        assert(result@ =~= spec_positive_words(num as int, lev0, is_ordinal));
    }

    if is_ordinal {
        let suffixed = add_ordinal_suffix(result.as_str());
        result.append(suffixed.as_str());
    }

    result
}

/// A negative number converts to the particle "منفی ", a single space
/// included, followed by the conversion of its magnitude, whatever the
/// recursion level and the ordinal flag; the level counter ends where the
/// conversion of the magnitude leaves it.
pub proof fn lemma_negative_prefix(num: int, level: int, is_ordinal: bool)
    requires
        num > 0,
    ensures
        spec_num_to_persian(-num, level, is_ordinal) == "منفی "@ + spec_num_to_persian(
            num,
            level,
            is_ordinal,
        ),
        spec_final_level(-num, level) == spec_final_level(num, level),
{
}

/// The ordinal form of a written-out number: after a final "ی" the suffix
/// " ام" is added; a final "سه" is replaced by the irregular form "سوم";
/// every other word takes the plain suffix "م".
pub open spec fn spec_add_ordinal_suffix(s: Seq<char>) -> Seq<char> {
    if s.len() > 0 && s.last() == 'ی' {
        s + " ام"@
    } else if s.len() >= 2 && s[s.len() - 2] == 'س' && s.last() == 'ه' {
        s.subrange(0, s.len() - 2) + "سوم"@
    } else {
        s + "م"@
    }
}

/// Appends the Persian ordinal suffix to a written-out number.
///
/// A word ending in "ی" takes "ام" after a space; a word ending in "سه"
/// has those two letters replaced by the irregular "سوم"; any other word
/// takes "م" directly.
pub fn add_ordinal_suffix(number: &str) -> (r: String)
    ensures
        r@ == spec_add_ordinal_suffix(number@),
{
    let n = number.unicode_len();
    if n >= 1 && number.get_char(n - 1) == 'ی' {
        let mut r = String::from_str(number);
        r.append(" ام");
        r
    } else if n >= 2 && number.get_char(n - 2) == 'س' && number.get_char(n - 1) == 'ه' {
        let mut r = String::from_str(number.substring_char(0, n - 2));
        r.append("سوم");
        r
    } else {
        let mut r = String::from_str(number);
        r.append("م");
        r
    }
}

} // verus!
