use invoice_pdf::codec::{canonical_decimal, canonical_timestamp};
use invoice_pdf::template_env::{date_label, dollar_prefixed, format_ymd, pretty_price, price_label};
use invoice_pdf::{CodecError, Decimal, Timestamp};

fn dec(text: &str) -> Decimal {
    Decimal::parse(text).unwrap()
}

fn plain(text: &str) -> String {
    dec(text).to_text()
}

#[test]
fn test_deserialize_bigdecimal() {
    let _ = Decimal::parse("12.50").unwrap();
    let x = Decimal::parse("reee");
    assert!(x.is_err())
}

#[test]
fn test_deserialize_datetime() {
    let _ = Timestamp::parse_rfc3339("2026-02-10T12:00:00+00:00").unwrap();
    let x = Timestamp::parse_rfc3339("reee");
    assert!(x.is_err())
}

#[test]
fn test_serialize_bigdecimal() {
    let bd = Decimal::parse("12.34").unwrap();
    assert_eq!(bd.to_text().as_str(), "12.34");
}

#[test]
fn serialize_bigdecimal() {
    let bd = Decimal::parse("12.34").unwrap();
    assert_eq!(Some(bd.to_text().as_str()), Some("12.34"));
}

#[test]
fn test_serialize_datetime() {
    // 2026-02-09 12:00:00 UTC
    let dt = Timestamp::from_parts(1_770_638_400, 0, 0).unwrap();
    let s = dt.to_rfc3339();
    assert_eq!("2026-02-09T12:00:00+00:00", s);
}

#[test]
fn invoice_test_serialize_datetime() {
    let seconds = chrono::NaiveDate::from_ymd_opt(2026, 02, 09)
        .unwrap()
        .and_hms_opt(12, 00, 00)
        .unwrap()
        .and_utc()
        .timestamp();
    let dt = Timestamp::from_parts(seconds, 0, 0).unwrap();
    assert_eq!("2026-02-09T12:00:00+00:00", dt.to_rfc3339());
}

#[test]
fn malformed_number_carries_the_text() {
    match Decimal::parse("reee") {
        Err(CodecError::MalformedNumber(raw)) => assert_eq!(raw, "reee"),
        other => panic!("unexpected: {:?}", other),
    }
    let e = Decimal::parse("").unwrap_err();
    assert!(matches!(e, CodecError::MalformedNumber(_)));
    assert_eq!(e.offending_text(), "");
    assert!(Decimal::parse("12.3.4").is_err());
    assert!(Decimal::parse("1e").is_err());
    assert!(Decimal::parse("twelve").is_err());
}

#[test]
fn malformed_timestamp_carries_the_text() {
    match Timestamp::parse_rfc3339("2026-02-30T12:00:00Z") {
        Err(CodecError::MalformedTimestamp(raw)) => assert_eq!(raw, "2026-02-30T12:00:00Z"),
        other => panic!("unexpected: {:?}", other),
    }
    assert!(Timestamp::parse_rfc3339("2026-02-10").is_err());
    assert!(Timestamp::parse_rfc3339("2026-02-10T12:00:00").is_err());
    assert!(Timestamp::parse_rfc3339("").is_err());
}

#[test]
fn scale_beyond_the_limit_is_malformed() {
    assert!(Decimal::parse("1e-2147483647").is_ok());
    assert!(Decimal::parse("1e2147483647").is_ok());
    assert!(matches!(Decimal::parse("1e-2147483648"), Err(CodecError::MalformedNumber(_))));
    assert!(matches!(Decimal::parse("1e2147483648"), Err(CodecError::MalformedNumber(_))));
    assert!(Decimal::parse("1e99999999999999999999999999").is_err());
}

#[test]
fn parse_keeps_every_digit() {
    let d = Decimal::parse("9.50").unwrap();
    assert_eq!(d.scale(), 2);
    assert_eq!(Decimal::parse("1331.107").unwrap().scale(), 3);
    assert_eq!(Decimal::parse("2e1").unwrap().scale(), -1);
    assert_eq!(Decimal::parse("1.23E-8").unwrap().scale(), 10);
    assert_eq!(Decimal::from_i64(19).scale(), 0);
}

#[test]
fn plain_text_is_never_scientific() {
    assert_eq!(plain("123.45678"), "123.45678");
    assert_eq!(plain("1e-10"), "0.0000000001");
    assert_eq!(plain("-1e-10"), "-0.0000000001");
    assert_eq!(plain("1e3"), "1000");
    assert_eq!(plain("-25e2"), "-2500");
    assert_eq!(plain("0e3"), "0000");
    assert_eq!(plain("0.00"), "0.00");
    assert_eq!(plain("0"), "0");
    assert_eq!(plain("-0.05"), "-0.05");
    assert_eq!(plain("0.95"), "0.95");
    assert_eq!(plain("9.5"), "9.5");
    assert_eq!(plain("+1.5"), "1.5");
    assert_eq!(plain("1_000.5"), "1000.5");
    assert_eq!(plain("100."), "100");
    assert_eq!(plain("1e20"), "100000000000000000000");
    assert_eq!(plain("0.0000001"), "0.0000001");
    assert_eq!(
        plain("123456789012345678901234567890.123456789012345678901234567890"),
        "123456789012345678901234567890.123456789012345678901234567890"
    );
    assert_eq!(Decimal::from_i64(i64::MIN).to_text(), "-9223372036854775808");
    assert_eq!(Decimal::from_i64(i64::MAX).to_text(), "9223372036854775807");
    assert_eq!(Decimal::from_i64(-128).to_text(), "-128");
    assert_eq!(Decimal::from_i64(128).to_text(), "128");
    assert_eq!(Decimal::from_i64(255).to_text(), "255");
    assert_eq!(Decimal::from_i64(-1).to_text(), "-1");
}

#[test]
fn text_then_parse_gives_the_same_number() {
    let samples = [
        "0", "0.00", "0e3", "1", "-1", "9.50", "12.34", "1e3", "-25e2", "1e-10", "1.23E+3",
        "0.333333333333333333333333333333", "98765432109876543210.5", "-0.05", "1_000.5",
    ];
    for s in samples {
        let first = Decimal::parse(s).unwrap();
        let text = first.to_text();
        let second = Decimal::parse(&text).unwrap();
        assert!(second.equals(&first), "{} -> {}", s, text);
        assert_eq!(second, first);
        assert!(second.scale() >= 0);
        assert_eq!(second.scale(), first.scale().max(0));
        // a second pass keeps the number as well
        let third = Decimal::parse(&second.to_text()).unwrap();
        assert_eq!(third, first);
        assert_eq!(third.scale(), second.scale());
    }
}

/// The plain text worked out by hand: the digits of the magnitude, the point
/// `scale` places from the right, zeros where the digits do not reach.
fn expected_plain(unscaled: i64, scale: i64) -> String {
    let digits = unscaled.unsigned_abs().to_string();
    let body = if scale <= 0 {
        format!("{}{}", digits, "0".repeat((-scale) as usize))
    } else if (scale as usize) < digits.len() {
        let split = digits.len() - scale as usize;
        format!("{}.{}", &digits[..split], &digits[split..])
    } else {
        format!("0.{}{}", "0".repeat(scale as usize - digits.len()), digits)
    };
    if unscaled < 0 {
        format!("-{}", body)
    } else {
        body
    }
}

#[test]
fn plain_text_places_the_point_by_the_scale() {
    let magnitudes = [0i64, 1, 5, 9, 10, 19, 99, 100, 101, 950, 1234, 99999, 1000000, 123456789];
    for magnitude in magnitudes {
        for sign in [1i64, -1] {
            for scale in -6i64..=12 {
                let unscaled = sign * magnitude;
                let amount = Decimal::parse(&format!("{}e{}", unscaled, -scale)).unwrap();
                assert_eq!(amount.scale(), scale);
                let text = amount.to_text();
                assert_eq!(text, expected_plain(unscaled, scale), "{}e{}", unscaled, -scale);
                let back = Decimal::parse(&text).unwrap();
                assert_eq!(back.scale(), scale.max(0));
                assert_eq!(back, amount);
                if scale <= 0 {
                    let factor = 10i64.pow((-scale) as u32);
                    assert_eq!(back.to_text(), Decimal::from_i64(unscaled * factor).to_text());
                }
            }
        }
    }
}

#[test]
fn arithmetic_agrees_with_integers_at_a_common_scale() {
    let values = [0i64, 1, -1, 7, 10, -25, 950, 1001, -99999];
    let scales = [-2i64, 0, 1, 3];
    for a in values {
        for sa in scales {
            for b in values {
                for sb in scales {
                    let x = Decimal::parse(&format!("{}e{}", a, -sa)).unwrap();
                    let y = Decimal::parse(&format!("{}e{}", b, -sb)).unwrap();
                    let s = sa.max(sb);
                    let xa = a * 10i64.pow((s - sa) as u32);
                    let yb = b * 10i64.pow((s - sb) as u32);
                    let sum = x.plus(&y);
                    assert_eq!(sum.scale(), s);
                    assert_eq!(sum.to_text(), expected_plain(xa + yb, s));
                    let difference = x.minus(&y);
                    assert_eq!(difference.scale(), s);
                    assert_eq!(difference.to_text(), expected_plain(xa - yb, s));
                    assert_eq!(x.equals(&y), xa == yb);
                }
            }
            for quantity in [0i32, 1, -1, 2, 12, -300] {
                let x = Decimal::parse(&format!("{}e{}", a, -sa)).unwrap();
                let product = x.times(quantity);
                assert_eq!(product.scale(), sa);
                assert_eq!(product.to_text(), expected_plain(a * quantity as i64, sa));
            }
        }
    }
}

#[test]
fn canonical_decimal_keeps_the_number() {
    assert_eq!(canonical_decimal("12.340").unwrap(), "12.340");
    assert_eq!(canonical_decimal("+1.5").unwrap(), "1.5");
    assert_eq!(canonical_decimal("1.23E+3").unwrap(), "1230");
    assert_eq!(canonical_decimal("1.23e-3").unwrap(), "0.00123");
    assert_eq!(canonical_decimal("-.5").unwrap(), "-0.5");
    assert_eq!(canonical_decimal("1_000").unwrap(), "1000");
    assert_eq!(canonical_decimal("007").unwrap(), "7");
    let e = canonical_decimal("1,5").unwrap_err();
    assert!(matches!(e, CodecError::MalformedNumber(ref raw) if raw == "1,5"));
    for s in ["0", "-0", "9.50", "1e3", "1e-3", "123456789.000000001", "-42e7"] {
        let canonical = canonical_decimal(s).unwrap();
        assert_eq!(Decimal::parse(&canonical).unwrap(), Decimal::parse(s).unwrap());
        assert_eq!(canonical_decimal(&canonical).unwrap(), canonical);
    }
}

#[test]
fn canonical_timestamp_keeps_the_instant() {
    assert_eq!(canonical_timestamp("2024-01-02T15:04:05Z").unwrap(), "2024-01-02T15:04:05+00:00");
    assert_eq!(
        canonical_timestamp("2024-01-02 15:04:05.10-03:30").unwrap(),
        "2024-01-02T15:04:05.100-03:30"
    );
    let e = canonical_timestamp("2024-01-02").unwrap_err();
    assert!(matches!(e, CodecError::MalformedTimestamp(ref raw) if raw == "2024-01-02"));
    for s in ["1999-12-31T23:59:59z", "2000-02-29t12:00:00.123456789+14:00", "2016-12-31T23:59:60Z"] {
        let canonical = canonical_timestamp(s).unwrap();
        let first = Timestamp::parse_rfc3339(s).unwrap();
        let second = Timestamp::parse_rfc3339(&canonical).unwrap();
        assert_eq!(second.seconds(), first.seconds());
        assert_eq!(second.nanos(), first.nanos());
        assert_eq!(second.offset(), first.offset());
        assert_eq!(canonical_timestamp(&canonical).unwrap(), canonical);
    }
}

#[test]
fn zero_with_a_negative_scale_is_written_with_its_zeros() {
    let zero = Decimal::parse("0e3").unwrap();
    assert_eq!(zero.scale(), -3);
    assert_eq!(zero.to_text(), "0000");
    let again = Decimal::parse("0000").unwrap();
    assert_eq!(again.scale(), 0);
    assert_eq!(again.to_text(), "0");
    assert_eq!(again, zero);
}

#[test]
fn equality_is_by_value() {
    assert!(Decimal::parse("1.50").unwrap().equals(&Decimal::parse("1.5").unwrap()));
    assert!(Decimal::parse("1e2").unwrap().equals(&Decimal::from_i64(100)));
    assert!(Decimal::parse("0.000").unwrap().equals(&Decimal::zero()));
    assert!(!Decimal::parse("1.51").unwrap().equals(&Decimal::parse("1.5").unwrap()));
    assert!(!Decimal::parse("-1.5").unwrap().equals(&Decimal::parse("1.5").unwrap()));
    assert_ne!(Decimal::from_i64(2), Decimal::from_i64(3));
}

#[test]
fn equality_holds_for_large_amounts_at_different_scales() {
    let integer = Decimal::parse("7922816251533193472").unwrap();
    let padded = Decimal::parse("7922816251533193472.0000000000").unwrap();
    assert!(padded.equals(&integer));
    assert!(integer.equals(&padded));
    assert_eq!(padded, integer);
    let nearly = Decimal::parse("7922816251533193472.0000000001").unwrap();
    assert!(!nearly.equals(&integer));
    assert!(!integer.equals(&nearly));
    let huge = Decimal::parse("1e400").unwrap();
    let written = Decimal::parse(&huge.to_text()).unwrap();
    assert!(huge.equals(&written));
    assert!(!huge.equals(&written.plus(&Decimal::from_i64(1))));
}

#[test]
fn zero_is_zero_at_every_scale() {
    assert!(Decimal::zero().is_zero());
    assert!(Decimal::parse("0.000").unwrap().is_zero());
    assert!(Decimal::parse("0e5").unwrap().is_zero());
    assert!(Decimal::parse("-0").unwrap().is_zero());
    assert!(Decimal::from_i64(5).minus(&Decimal::parse("5.00").unwrap()).is_zero());
    assert!(!Decimal::from_i64(1).is_zero());
    assert!(!Decimal::from_i64(-1).is_zero());
    assert!(!Decimal::from_i64(256).is_zero());
    assert!(!Decimal::from_i64(-256).is_zero());
    assert!(!Decimal::from_i64(i64::MIN).is_zero());
    assert!(!Decimal::parse("1e-30").unwrap().is_zero());
}

#[test]
fn arithmetic_is_exact_and_keeps_the_larger_scale() {
    let a = Decimal::parse("10.00").unwrap();
    let b = Decimal::parse("7.5").unwrap();
    assert_eq!(a.plus(&b).to_text(), "17.50");
    assert_eq!(b.plus(&a).to_text(), "17.50");
    assert_eq!(a.minus(&b).to_text(), "2.50");
    assert_eq!(b.minus(&a).to_text(), "-2.50");
    assert_eq!(a.minus(&a).to_text(), "0.00");
    assert_eq!(Decimal::zero().plus(&b).to_text(), "7.5");
    assert_eq!(b.plus(&Decimal::parse("0.000").unwrap()).to_text(), "7.500");
    assert_eq!(b.minus(&Decimal::parse("0.000").unwrap()).to_text(), "7.500");
    assert_eq!(Decimal::parse("0.000").unwrap().minus(&b).to_text(), "-7.500");
    assert_eq!(Decimal::zero().minus(&b).to_text(), "-7.5");
    assert_eq!(Decimal::parse("1e2").unwrap().plus(&Decimal::parse("0.01").unwrap()).to_text(), "100.01");
    assert_eq!(Decimal::parse("1e2").unwrap().plus(&Decimal::parse("1e1").unwrap()).to_text(), "110");
    assert_eq!(Decimal::parse("1e2").unwrap().plus(&Decimal::parse("1e1").unwrap()).scale(), -1);
    assert_eq!(b.times(3).to_text(), "22.5");
    assert_eq!(b.times(1).to_text(), "7.5");
    assert_eq!(b.times(0).to_text(), "0.0");
    assert_eq!(b.times(-1).to_text(), "-7.5");
    assert_eq!(a.times(1).to_text(), "10.00");
    assert_eq!(Decimal::parse("1.0").unwrap().times(7).to_text(), "7.0");
    assert_eq!(Decimal::parse("1").unwrap().times(7).to_text(), "7");
    assert_eq!(b.times(i32::MIN).to_text(), "-16106127360.0");
    assert_eq!(Decimal::parse("0.1").unwrap().times(i32::MAX).to_text(), "214748364.7");
}

#[test]
fn arithmetic_is_exact_on_amounts_of_many_digits() {
    let a = dec("12345678901234567890.12345678901234567890");
    assert_eq!(a.times(1_000_000_007).to_text(), "12345678987654320198765432019.87654320198641975230");
    assert_eq!(a.times(i32::MIN).to_text(), "-26512143563859841556385984155.63859841556120862720");
    assert_eq!(
        dec("1e40").minus(&dec("1e-40")).to_text(),
        "9999999999999999999999999999999999999999.9999999999999999999999999999999999999999"
    );
    assert_eq!(
        dec("99999999999999999999999999999999999999.99").plus(&dec("0.01")).to_text(),
        "100000000000000000000000000000000000000.00"
    );
    assert_eq!(
        dec("340282366920938463463374607431768211456")
            .times(3)
            .minus(&dec("0.000000000000000000000000000000000000001"))
            .to_text(),
        "1020847100762815390390123822295304634367.999999999999999999999999999999999999999"
    );
}

#[test]
fn sums_do_not_drift() {
    let tenth = Decimal::parse("0.1").unwrap();
    let mut total = Decimal::zero();
    for _ in 0..1000 {
        total = total.plus(&tenth);
    }
    assert_eq!(total.to_text(), "100.0");
    assert_eq!(total, Decimal::from_i64(100));
}

#[test]
fn timestamp_text_round_trips() {
    let samples = [
        "2026-02-09T12:00:00+00:00",
        "1996-12-19T16:39:57-08:00",
        "2016-12-31T23:59:60+00:00",
        "0000-01-01T00:00:00+00:00",
        "0000-01-01T00:00:00+23:59",
        "9999-12-31T23:59:59-23:59",
        "9999-12-31T23:59:59.999999999+00:00",
        "2024-02-29T00:00:00.500+05:30",
        "1969-12-31T23:59:59.000001-00:30",
    ];
    for s in samples {
        let t = Timestamp::parse_rfc3339(s).unwrap();
        assert!(t.is_in_profile());
        let text = t.to_rfc3339();
        assert_eq!(text, s);
        let again = Timestamp::parse_rfc3339(&text).unwrap();
        assert_eq!(again.seconds(), t.seconds());
        assert_eq!(again.nanos(), t.nanos());
        assert_eq!(again.offset(), t.offset());
    }
}

#[test]
fn every_timestamp_in_the_profile_reads_back() {
    let seconds = [
        -62_167_219_200i64,
        -62_167_219_141,
        -1,
        0,
        59,
        951_782_399,
        1_483_228_799,
        1_770_638_400,
        253_402_300_739,
        253_402_300_799,
    ];
    let nanos = [0u32, 1, 1_000, 1_000_000, 123_456_789, 999_999_999, 1_000_000_000, 1_999_999_999];
    let offsets = [-86_340i32, -3_600, -60, 0, 60, 19_800, 86_340];
    let mut checked = 0;
    for s in seconds {
        for n in nanos {
            for o in offsets {
                let t = match Timestamp::from_parts(s, n, o) {
                    Some(t) => t,
                    None => {
                        assert!(n >= 1_000_000_000 && s.rem_euclid(60) != 59);
                        continue;
                    },
                };
                if !t.is_in_profile() {
                    continue;
                }
                let text = t.to_rfc3339();
                let back = Timestamp::parse_rfc3339(&text).unwrap();
                assert_eq!((back.seconds(), back.nanos(), back.offset()), (s, n, o), "{}", text);
                assert_eq!(&text[..10], t.to_ymd());
                checked += 1;
            }
        }
    }
    assert!(checked > 300);
}

#[test]
fn timestamp_text_is_normalised() {
    let t = Timestamp::parse_rfc3339("2024-01-02T15:04:05Z").unwrap();
    assert_eq!(t.to_rfc3339(), "2024-01-02T15:04:05+00:00");
    assert_eq!(t.seconds(), 1_704_207_845);
    assert_eq!(t.nanos(), 0);
    assert_eq!(t.offset(), 0);
    let t = Timestamp::parse_rfc3339("2024-01-02t15:04:05.25+01:00").unwrap();
    assert_eq!(t.to_rfc3339(), "2024-01-02T15:04:05.250+01:00");
    assert_eq!(t.seconds(), 1_704_207_845 - 3600);
    assert_eq!(t.nanos(), 250_000_000);
    assert_eq!(t.offset(), 3600);
}

#[test]
fn timestamp_parts_are_validated() {
    assert!(Timestamp::from_parts(0, 0, 0).is_some());
    assert!(Timestamp::from_parts(0, 999_999_999, 86_399).is_some());
    assert!(Timestamp::from_parts(0, 0, 86_400).is_none());
    assert!(Timestamp::from_parts(0, 0, -86_400).is_none());
    assert!(Timestamp::from_parts(0, 2_000_000_000, 0).is_none());
    // a leap second stands only at the end of a minute
    assert!(Timestamp::from_parts(59, 1_500_000_000, 0).is_some());
    assert!(Timestamp::from_parts(58, 1_500_000_000, 0).is_none());
    assert!(Timestamp::from_parts(-1, 1_000_000_000, 0).is_some());
    assert!(Timestamp::from_parts(-2, 1_000_000_000, 0).is_none());
    assert!(Timestamp::from_parts(8_210_266_876_799, 0, 0).is_some());
    assert!(Timestamp::from_parts(8_210_266_876_800, 0, 0).is_none());
    assert!(Timestamp::from_parts(-8_334_601_228_800, 0, 0).is_some());
    assert!(Timestamp::from_parts(-8_334_601_228_801, 0, 0).is_none());
}

#[test]
fn timestamps_at_the_ends_of_the_range_are_written() {
    let last = Timestamp::from_parts(8_210_266_876_799, 1_999_999_999, 86_399).unwrap();
    assert!(!last.is_in_profile());
    assert!(!last.to_rfc3339().is_empty());
    assert!(!last.to_ymd().is_empty());
    let first = Timestamp::from_parts(-8_334_601_228_800, 0, -86_399).unwrap();
    assert!(!first.is_in_profile());
    assert!(!first.to_rfc3339().is_empty());
    assert!(!first.to_ymd().is_empty());
    assert_eq!(Timestamp::from_parts(-8_334_601_228_800, 0, 0).unwrap().to_ymd(), "-262143-01-01");
    assert_eq!(Timestamp::from_parts(8_210_266_876_799, 0, 0).unwrap().to_ymd(), "+262142-12-31");
}

#[test]
fn profile_is_four_digit_local_year_and_whole_minutes() {
    assert!(Timestamp::from_parts(0, 0, 0).unwrap().is_in_profile());
    assert!(Timestamp::from_parts(0, 0, 3600).unwrap().is_in_profile());
    assert!(Timestamp::from_parts(0, 0, -60).unwrap().is_in_profile());
    assert!(!Timestamp::from_parts(0, 0, 30).unwrap().is_in_profile());
    assert!(!Timestamp::from_parts(0, 0, -1).unwrap().is_in_profile());
    assert!(Timestamp::from_parts(253_402_300_799, 0, 0).unwrap().is_in_profile());
    assert!(!Timestamp::from_parts(253_402_300_799, 0, 60).unwrap().is_in_profile());
    assert!(Timestamp::from_parts(253_402_300_800, 0, -60).unwrap().is_in_profile());
    assert!(Timestamp::from_parts(-62_167_219_200, 0, 0).unwrap().is_in_profile());
    assert!(!Timestamp::from_parts(-62_167_219_200, 0, -60).unwrap().is_in_profile());
    assert_eq!(
        Timestamp::from_parts(253_402_300_799, 0, 0).unwrap().to_rfc3339(),
        "9999-12-31T23:59:59+00:00"
    );
    assert_eq!(
        Timestamp::from_parts(-62_167_219_200, 0, 0).unwrap().to_rfc3339(),
        "0000-01-01T00:00:00+00:00"
    );
}

#[test]
fn now_is_a_timestamp_of_the_present() {
    let now = Timestamp::now();
    let reference = chrono::Utc::now().timestamp();
    assert!((now.seconds() - reference).abs() <= 5);
    assert!(now.nanos() < 1_000_000_000);
    assert!(Timestamp::from_parts(now.seconds(), now.nanos(), now.offset()).is_some());
}

#[test]
fn format_ymd_gives_the_local_date() {
    assert_eq!(&format_ymd("2024-01-02T15:04:05Z"), "2024-01-02");
    assert_eq!(&format_ymd("2026-02-09T12:00:00+00:00"), "2026-02-09");
    assert_eq!(&format_ymd("2024-01-01T23:30:00-05:00"), "2024-01-01");
    assert_eq!(&format_ymd("2024-01-02T00:30:00+05:00"), "2024-01-02");
    assert_eq!(&format_ymd("0000-01-01T00:00:00+23:59"), "0000-01-01");
    assert_eq!(&format_ymd("9999-12-31T23:59:59-23:59"), "9999-12-31");
    assert_eq!(&format_ymd("2016-12-31T23:59:60Z"), "2016-12-31");
}

#[test]
fn format_ymd_of_anything_else_is_not_available() {
    assert_eq!(&format_ymd("reee"), "N/A");
    assert_eq!(&format_ymd(""), "N/A");
    assert_eq!(&format_ymd("2024-01-02"), "N/A");
    assert_eq!(&format_ymd("2024-13-02T15:04:05Z"), "N/A");
    assert_eq!(&date_label(None), "N/A");
    assert_eq!(&date_label(Timestamp::from_parts(0, 0, 0)), "1970-01-01");
    assert_eq!(&date_label(Timestamp::from_parts(0, 0, -60)), "1969-12-31");
}

#[test]
fn pretty_price_shows_two_places() {
    assert_eq!(&pretty_price("12.5"), "$12.50");
    assert_eq!(&pretty_price("12.34"), "$12.34");
    assert_eq!(&pretty_price("2"), "$2.00");
    assert_eq!(&pretty_price("0"), "$0.00");
    assert_eq!(&pretty_price("17.50"), "$17.50");
    assert_eq!(&pretty_price("1e3"), "$1000.00");
    assert_eq!(&pretty_price("-7.5"), "$-7.50");
    assert_eq!(&pretty_price("0.129"), "$0.13");
    assert_eq!(&pretty_price("0.121"), "$0.12");
    assert_eq!(&pretty_price("99.999"), "$100.00");
}

#[test]
fn pretty_price_rounds_to_the_nearest_cent() {
    assert_eq!(&pretty_price("0.999"), "$1.00");
    assert_eq!(&pretty_price("9.999"), "$10.00");
    assert_eq!(&pretty_price("0.005"), "$0.00");
    assert_eq!(&pretty_price("0.015"), "$0.02");
    assert_eq!(&pretty_price("0.0051"), "$0.01");
    assert_eq!(&pretty_price("0.00001"), "$0.00");
    assert_eq!(&pretty_price("0.00"), "$0.00");
    assert_eq!(&pretty_price("0.000"), "$0.00");
    assert_eq!(&pretty_price("1e-10"), "$0.00");
    assert_eq!(&pretty_price("12.345"), "$12.34");
    assert_eq!(&pretty_price("12.355"), "$12.36");
    assert_eq!(&pretty_price("-12.345"), "$-12.34");
    assert_eq!(&pretty_price("123456789012345678901234567890.555"), "$123456789012345678901234567890.56");
    assert_eq!(&pretty_price("1e5"), "$100000.00");
    assert_eq!(&pretty_price("0e5"), "$0.00");
    assert_eq!(&pretty_price("0.1e-2147483646"), "$0.00");
    assert!(pretty_price("1e2147483647").starts_with("$1e"));
    assert!(pretty_price("1e2000").starts_with('$'));
}

#[test]
fn pretty_price_of_anything_else_is_not_a_number() {
    assert_eq!(&pretty_price("reee"), "NaN");
    assert_eq!(&pretty_price(""), "NaN");
    assert_eq!(&pretty_price("$12.50"), "NaN");
    assert_eq!(&price_label(None), "NaN");
    assert_eq!(&price_label(Some(Decimal::from_i64(3))), "$3.00");
    assert_eq!(&dollar_prefixed("1.00"), "$1.00");
    assert_eq!(&dollar_prefixed(""), "$");
}

#[test]
fn two_place_text_differs_from_plain_text() {
    let d = Decimal::parse("12.5").unwrap();
    assert_eq!(d.to_two_place_text(), "12.50");
    assert_eq!(d.to_text(), "12.5");
    let d = Decimal::parse("0.125").unwrap();
    assert_eq!(d.to_text(), "0.125");
    assert_eq!(d.to_two_place_text().len(), 4);
}
