use persian_numbers::add_ordinal_suffix;
use persian_numbers::num_to_persian;

#[test]
fn zero_at_top_level() {
    let mut level: i32 = 0;
    assert_eq!(num_to_persian(0, &mut level, false), "صفر");
    assert_eq!(level, 0);
}

#[test]
fn zero_inside_a_larger_number() {
    let mut level: i32 = 1;
    assert_eq!(num_to_persian(0, &mut level, false), "");
    assert_eq!(level, 1);
}

#[test]
fn units() {
    let mut level: i32 = 0;
    assert_eq!(num_to_persian(1, &mut level, false), "یک");
    level = 0;
    assert_eq!(num_to_persian(5, &mut level, false), "پنج");
    level = 0;
    assert_eq!(num_to_persian(9, &mut level, false), "نه");
}

#[test]
fn teens() {
    let mut level: i32 = 0;
    assert_eq!(num_to_persian(10, &mut level, false), "ده");
    level = 0;
    assert_eq!(num_to_persian(13, &mut level, false), "سیزده");
    level = 0;
    assert_eq!(num_to_persian(19, &mut level, false), "نوزده");
}

#[test]
fn tens_with_connector() {
    let mut level: i32 = 0;
    assert_eq!(num_to_persian(20, &mut level, false), "بیست");
    level = 0;
    assert_eq!(num_to_persian(25, &mut level, false), "بیست و پنج");
    level = 0;
    assert_eq!(num_to_persian(47, &mut level, false), "چهل و هفت");
    level = 0;
    assert_eq!(num_to_persian(90, &mut level, false), "نود");
}

#[test]
fn round_hundred_has_no_trailing_content() {
    let mut level: i32 = 0;
    assert_eq!(num_to_persian(100, &mut level, false), "یکصد");
    level = 0;
    assert_eq!(num_to_persian(900, &mut level, false), "نهصد");
}

#[test]
fn hundreds_with_remainders() {
    let mut level: i32 = 0;
    assert_eq!(num_to_persian(345, &mut level, false), "سیصد و چهل و پنج");
    level = 0;
    assert_eq!(num_to_persian(705, &mut level, false), "هفتصد و پنج");
    level = 0;
    assert_eq!(num_to_persian(118, &mut level, false), "یکصد و هیجده");
}

#[test]
fn thousands() {
    let mut level: i32 = 0;
    assert_eq!(num_to_persian(1000, &mut level, false), "یک هزار");
    level = 0;
    assert_eq!(
        num_to_persian(1340, &mut level, false),
        "یک هزار و سیصد و چهل"
    );
}

#[test]
fn millions_and_billions() {
    let mut level: i32 = 0;
    assert_eq!(num_to_persian(2_000_000, &mut level, false), "دو میلیون");
    level = 0;
    assert_eq!(
        num_to_persian(1_500_000_000, &mut level, false),
        "یک میلیارد و پانصد میلیون"
    );
    level = 0;
    assert_eq!(
        num_to_persian(1_000_000_000_000, &mut level, false),
        "یک تریلیارد"
    );
}

#[test]
fn negative_numbers() {
    let mut level: i32 = 0;
    assert_eq!(num_to_persian(-5, &mut level, false), "منفی پنج");
    level = 0;
    assert_eq!(
        num_to_persian(-1340, &mut level, false),
        "منفی یک هزار و سیصد و چهل"
    );
}

#[test]
fn negation_is_a_prefix() {
    let magnitudes: [i64; 6] = [5, 13, 25, 100, 1340, 1_500_000_000];
    let levels: [i32; 3] = [0, 1, 2];
    let flags: [bool; 2] = [false, true];
    for &m in magnitudes.iter() {
        for &l in levels.iter() {
            for &flag in flags.iter() {
                let mut neg_level: i32 = l;
                let neg = num_to_persian(-m, &mut neg_level, flag);
                let mut pos_level: i32 = l;
                let pos = num_to_persian(m, &mut pos_level, flag);
                assert_eq!(neg, format!("منفی {}", pos));
                assert_eq!(neg_level, pos_level);
            }
        }
    }
}

#[test]
fn positive_level_prepends_the_connector_and_costs_one_decrement() {
    let mut level: i32 = 3;
    assert_eq!(num_to_persian(5, &mut level, false), " و پنج");
    assert_eq!(level, 2);
}

#[test]
fn magnitudes_beyond_the_last_band_degenerate_silently() {
    let mut level: i32 = 0;
    assert_eq!(num_to_persian(1_000_000_000_000_000, &mut level, false), "");
    level = 1;
    assert_eq!(num_to_persian(1_000_000_000_000_000, &mut level, false), " و ");
    assert_eq!(level, 0);
    level = 0;
    assert_eq!(num_to_persian(i64::MAX, &mut level, false), "");
    level = 0;
    assert_eq!(num_to_persian(i64::MIN + 1, &mut level, false), "منفی ");
}

#[test]
fn scale_words_and_connectors_interleave() {
    let mut level: i32 = 0;
    assert_eq!(
        num_to_persian(200_005, &mut level, false),
        "دویست هزار و پنج"
    );
    level = 0;
    assert_eq!(
        num_to_persian(1_000_001, &mut level, false),
        "یک میلیون و یک"
    );
    level = 1;
    assert_eq!(num_to_persian(1000, &mut level, false), " و یک هزار");
    assert_eq!(level, 0);
}

#[test]
fn ordinal_flag_appends_the_suffixed_string_to_itself() {
    let mut level: i32 = 0;
    assert_eq!(num_to_persian(4, &mut level, true), "چهارچهارم");
    level = 0;
    assert_eq!(num_to_persian(30, &mut level, true), "سیسی ام");
}

#[test]
fn ordinal_flag_reaches_every_recursion_level() {
    let mut inner_level: i32 = 1;
    let inner = num_to_persian(3, &mut inner_level, true);
    assert_eq!(inner, " و سه و سوم");
    let assembled = format!("بیست{}", inner);
    let mut level: i32 = 0;
    assert_eq!(
        num_to_persian(23, &mut level, true),
        format!("{}{}", assembled, add_ordinal_suffix(&assembled))
    );
}
