use png_size_check::classify::{check_file, Classification, Config, FileRecord, PNG};
use png_size_check::header::{BitDepth, ColorType, PngHeader};
use png_size_check::ratio::{ratio_gt, Ratio, RatioBound};

fn rgb8_100x50() -> PngHeader {
    // Estimate: 100 x 50 x 1.0 x 3.0 = 15000 bytes = 120000 eighths.
    PngHeader {
        width: 100,
        height: 50,
        bit_depth: BitDepth::Eight,
        color_type: ColorType::RGB,
    }
}

fn config(min_size: u64, ratio_num: u64, ratio_den: u64) -> Config {
    Config { min_size, min_ratio: RatioBound { num: ratio_num, den: ratio_den } }
}

fn expect_flagged(c: Classification) -> FileRecord {
    match c {
        Classification::Flagged(rec) => rec,
        Classification::NotFlagged => panic!("expected the file to be flagged"),
    }
}

#[test]
fn ratio_alone_flags_a_file() {
    // 20000 / 15000 = 1.333... exceeds 1.2 although the size threshold
    // 100000 is not met.
    let cfg = config(100_000, 12, 10);
    let rec = expect_flagged(check_file("a.png", 20000, &rgb8_100x50(), &cfg));
    assert_eq!(rec.path, "a.png");
    assert_eq!(rec.size_kib, 19);
    assert_eq!(rec.ratio, Ratio { num: 8 * 20000, den: 120_000 });
}

#[test]
fn a_file_under_both_thresholds_is_not_flagged() {
    // 500 / 15000 = 0.0333... under 5.0, and 500 under 100000: a normal
    // not-flagged outcome, not an error.
    let cfg = config(100_000, 5, 1);
    let c = check_file("b.png", 500, &rgb8_100x50(), &cfg);
    assert_eq!(c, Classification::NotFlagged);
}

#[test]
fn size_alone_flags_a_file() {
    // 200000 bytes exceeds min_size although 200000 / 15000 is far under
    // the ratio threshold of 1000.
    let cfg = config(100_000, 1000, 1);
    let rec = expect_flagged(check_file("c.png", 200_000, &rgb8_100x50(), &cfg));
    assert_eq!(rec.size_kib, 195);
}

#[test]
fn size_kib_is_truncating_division_by_1024() {
    let cfg = config(0, 1000, 1);
    let rec = expect_flagged(check_file("d.png", 20480, &rgb8_100x50(), &cfg));
    assert_eq!(rec.size_kib, 20);
    let rec = expect_flagged(check_file("d.png", 20479, &rgb8_100x50(), &cfg));
    assert_eq!(rec.size_kib, 19);
    let rec = expect_flagged(check_file("d.png", 1023, &rgb8_100x50(), &cfg));
    assert_eq!(rec.size_kib, 0);
}

#[test]
fn a_threshold_must_be_strictly_exceeded() {
    // Exactly min_size, and a ratio of exactly min_ratio (15000/15000 = 1):
    // neither is strictly above its threshold.
    let cfg = config(15000, 1, 1);
    let c = check_file("e.png", 15000, &rgb8_100x50(), &cfg);
    assert_eq!(c, Classification::NotFlagged);
    let cfg = config(15001, 9, 10);
    let rec = expect_flagged(check_file("e.png", 15000, &rgb8_100x50(), &cfg));
    assert_eq!(rec.size_kib, 14);
}

#[test]
fn zero_pixel_image_with_bytes_is_flagged() {
    // A zero-dimension image has estimate 0; any non-empty file stands in
    // an unbounded ratio to it and is flagged whatever the thresholds.
    let zero = PngHeader {
        width: 0,
        height: 50,
        bit_depth: BitDepth::Eight,
        color_type: ColorType::RGB,
    };
    let cfg = config(u64::MAX, u64::MAX, 1);
    let rec = expect_flagged(check_file("f.png", 1, &zero, &cfg));
    assert_eq!(rec.ratio, Ratio { num: 8, den: 0 });
}

#[test]
fn zero_pixel_image_with_an_empty_file_is_not_flagged() {
    let zero = PngHeader {
        width: 0,
        height: 0,
        bit_depth: BitDepth::One,
        color_type: ColorType::Grayscale,
    };
    let cfg = config(10, 1, 1);
    let c = check_file("g.png", 0, &zero, &cfg);
    assert_eq!(c, Classification::NotFlagged);
}

#[test]
fn ratio_comparison_is_exact_on_huge_values() {
    // num x den crosses 2^128; the split comparison must still be exact.
    let one = RatioBound { num: u64::MAX, den: u64::MAX };
    let big: u128 = 1u128 << 100;
    assert!(!ratio_gt(&Ratio { num: big, den: big }, &one));
    assert!(ratio_gt(&Ratio { num: big + 1, den: big }, &one));
    assert!(!ratio_gt(&Ratio { num: big - 1, den: big }, &one));
}

#[test]
fn new_record_has_no_ratio_until_measured() {
    let mut p = PNG::new("h.png");
    assert_eq!(p.path, "h.png");
    assert_eq!(p.size, 0);
    assert!(p.ratio.is_none());
    p.size_ratio(20000, &rgb8_100x50());
    assert_eq!(p.size, 20000);
    assert_eq!(p.ratio, Some(Ratio { num: 8 * 20000, den: 120_000 }));
    assert_eq!(p.path, "h.png");
}
