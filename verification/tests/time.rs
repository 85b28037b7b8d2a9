use chrono::TimeZone as _;
use cnoidc::time::{
    has_renewal_time, is_readable, renewal_time, Duration, Timestamp, MAX_SECS, MIN_SECS,
    SPAN_LIMIT,
};

fn at(time: chrono::DateTime<chrono::Utc>) -> Timestamp {
    Timestamp {
        secs: time.timestamp(),
        nanos: time.timestamp_subsec_nanos(),
    }
}

#[test]
fn renewal_is_due_after_two_thirds() {
    let issued = chrono::Utc
        .with_ymd_and_hms(2026, 1, 1, 0, 0, 0)
        .single()
        .expect("valid");
    let expires = issued + chrono::Duration::hours(24);
    assert_eq!(
        renewal_time(at(issued), at(expires)),
        at(issued + chrono::Duration::hours(16))
    );
    // Degenerate lifetimes never underflow.
    assert_eq!(renewal_time(at(expires), at(issued)), at(expires));
}

#[test]
fn renewal_is_computed_like_chrono_does() {
    let base = chrono::DateTime::from_timestamp(1_767_225_600, 123_456_789).expect("valid");
    for nanos in [
        0i64,
        1,
        2,
        3,
        999_999_999,
        1_000_000_000,
        1_000_000_001,
        86_400_000_000_001,
        -1,
        -5_000_000_000,
    ] {
        let expires = base + chrono::Duration::nanoseconds(nanos);
        let lifetime = (expires - base).max(chrono::Duration::zero());
        assert!(has_renewal_time(at(base), at(expires)));
        assert_eq!(
            renewal_time(at(base), at(expires)),
            at(base + lifetime * 2 / 3)
        );
    }
}

#[test]
fn renewal_in_a_leap_second() {
    let issued = Timestamp {
        secs: 1_483_228_799,
        nanos: 1_500_000_000,
    };
    let expires = Timestamp {
        secs: 1_483_228_802,
        nanos: 0,
    };
    let as_chrono = |t: Timestamp| chrono::DateTime::from_timestamp(t.secs, t.nanos).expect("valid");
    let lifetime = as_chrono(expires) - as_chrono(issued);
    assert_eq!(
        renewal_time(issued, expires),
        at(as_chrono(issued) + lifetime * 2 / 3)
    );
}

#[test]
fn the_calendar_has_ends() {
    assert_eq!(MAX_SECS, chrono::DateTime::<chrono::Utc>::MAX_UTC.timestamp());
    assert_eq!(MIN_SECS, chrono::DateTime::<chrono::Utc>::MIN_UTC.timestamp());
    let first = Timestamp {
        secs: MIN_SECS,
        nanos: 0,
    };
    let last = Timestamp {
        secs: MAX_SECS,
        nanos: 999_999_999,
    };
    assert!(has_renewal_time(first, last));
    assert_eq!(renewal_time(last, first), last);
    let renewal = renewal_time(first, last);
    assert!(first.is_before(&renewal) && renewal.is_before(&last));
}

#[test]
fn durations_compare_and_subtract() {
    let short = Duration {
        secs: 1,
        nanos: 999_999_999,
    };
    let long = Duration::from_secs(2);
    assert!(short.shorter_than(&long));
    assert!(!long.shorter_than(&short));
    assert!(!long.shorter_than(&long));
    assert_eq!(long.shortest(short), short);
    assert_eq!(short.shortest(long), short);
    assert_eq!(long.since(&short), Duration { secs: 0, nanos: 1 });
    assert_eq!(short.since(&long), Duration::from_secs(0));
    assert!(Duration::from_secs(0).is_zero());
    assert!(!Duration { secs: 0, nanos: 1 }.is_zero());
}

#[test]
fn one_span_is_always_readable() {
    for text in [
        "",
        "0",
        "5",
        "5s",
        " 5 s ",
        "600000000000ns",
        "99999999999999999999s",
        "18446744073709551615s",
        "18446744073709551616s",
        "18446744073709551615.999999999s",
        "99999999999999999999999999999999999999999999999y",
        "soon",
    ] {
        assert!(is_readable(text), "{text}");
        let _ = humantime::parse_duration(text);
    }
}

#[test]
fn several_spans_are_readable() {
    for text in [
        "1h 30m",
        "1h30m",
        "23h 59m 59s 999ms 999us 999ns",
        "600000000000ns 1s",
        "1.5h 2.25m",
        "18446744073709551615s 999999999ns",
        "18446744073709551615s 999 ms 999 us 999 ns",
        // Too much, and refused for it.
        "18446744073709551615s 1s",
        "1000ms 18446744073709551615s",
        "9223372036854775808s 9223372036854775808s",
        "18446744073709551615s 2000000000ns",
        "18446744073709551615s 1001ms",
        "18446744073709551615.5s 600ms",
        "307445734561825860m 16s",
        "99999999999999999999s 18446744073709551615s 1000ms",
        "5 parsecs 18446744073709551615s 1000ms",
        "1.00000000000000000000s 18446744073709551614s 1000ms",
        "99999999999999999999999999999999999999999999999y 1s",
        "1s 340282366920938463463374607431768211456ns",
    ] {
        assert!(is_readable(text), "{text}");
        let _ = humantime::parse_duration(text);
    }
}

#[test]
fn the_last_second_must_not_be_filled_up() {
    for text in [
        "18446744073709551615s 1000000000ns",
        "18446744073709551615s1000000000ns",
        "18446744073709551615s 1000000000ns x",
        "18446744073709551615s 1000ms",
        "18446744073709551615s 1000000\u{b5}s",
        "18446744073709551614s 1000ms 1000ms",
        "18446744073709551615s 500ms 500ms",
        "18446744073709551615s 500ms 0.5s",
        "18446744073709551615.5s 500ms",
        "18446744073709551615s 999999.999us 1ns",
        "307445734561825860m 15s 1000ms",
        // Whitespace does not end a number.
        "1844674407370955 1615s 10\t00ms",
    ] {
        assert!(!is_readable(text), "{text}");
    }
}

#[test]
fn every_unit_counts() {
    let nanos: [(&str, u128); 40] = [
        ("nanos", 1),
        ("nsec", 1),
        ("ns", 1),
        ("usec", 1_000),
        ("us", 1_000),
        ("\u{b5}s", 1_000),
        ("millis", 1_000_000),
        ("msec", 1_000_000),
        ("ms", 1_000_000),
        ("seconds", 1_000_000_000),
        ("second", 1_000_000_000),
        ("secs", 1_000_000_000),
        ("sec", 1_000_000_000),
        ("s", 1_000_000_000),
        ("minutes", 60_000_000_000),
        ("minute", 60_000_000_000),
        ("min", 60_000_000_000),
        ("mins", 60_000_000_000),
        ("m", 60_000_000_000),
        ("hours", 3_600_000_000_000),
        ("hour", 3_600_000_000_000),
        ("hr", 3_600_000_000_000),
        ("hrs", 3_600_000_000_000),
        ("h", 3_600_000_000_000),
        ("days", 86_400_000_000_000),
        ("day", 86_400_000_000_000),
        ("d", 86_400_000_000_000),
        ("weeks", 604_800_000_000_000),
        ("week", 604_800_000_000_000),
        ("wk", 604_800_000_000_000),
        ("wks", 604_800_000_000_000),
        ("w", 604_800_000_000_000),
        ("months", 2_630_016_000_000_000),
        ("month", 2_630_016_000_000_000),
        ("M", 2_630_016_000_000_000),
        ("years", 31_557_600_000_000_000),
        ("year", 31_557_600_000_000_000),
        ("yr", 31_557_600_000_000_000),
        ("yrs", 31_557_600_000_000_000),
        ("y", 31_557_600_000_000_000),
    ];
    for (unit, each) in nanos {
        let read = humantime::parse_duration(&format!("1{unit}")).expect("a duration");
        assert_eq!(read.as_nanos(), each, "{unit}");
        // With seven of the unit, one second is left to 2^64.
        let rest = SPAN_LIMIT - 1_000_000_000 - 7 * each;
        let text = format!("{}s {}ns 7{unit}", rest / 1_000_000_000, rest % 1_000_000_000);
        assert!(is_readable(&text), "{unit}");
        assert_eq!(
            humantime::parse_duration(&text).expect("a duration").as_secs(),
            u64::MAX,
            "{unit}"
        );
        assert!(!is_readable(&format!("{text} 1000ms")), "{unit}");
        assert!(is_readable(&format!("{text} 1001ms")), "{unit}");
        assert!(humantime::parse_duration(&format!("{text} 1001ms")).is_err());
    }
}
