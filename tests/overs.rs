use wicketick::{Error, Overs};

fn overs(full_overs: u32, spare_balls: u32) -> Overs {
    Overs { full_overs, spare_balls }
}

#[test]
fn overs_with_balls_round_trip() {
    let o = Overs::from_str_with_default("12,3");
    assert_eq!(o, overs(12, 3));
    assert_eq!(o.display(), "12.3");
}

#[test]
fn overs_with_zero_balls_show_whole_overs() {
    let with_zero = Overs::from_str_with_default("12,0");
    let plain = Overs::from_str_with_default("12");
    assert_eq!(with_zero, overs(12, 0));
    assert_eq!(plain, overs(12, 0));
    assert_eq!(with_zero.display(), "12");
    assert_eq!(plain.display(), "12");
}

#[test]
fn overs_round_trip_on_several_values() {
    for (text, shown) in [("0,1", "0.1"), ("49,5", "49.5"), ("4294967295,4294967295", "4294967295.4294967295")] {
        assert_eq!(Overs::from_str_with_default(text).display(), shown);
    }
}

#[test]
fn malformed_overs_fall_back_to_zero() {
    for text in ["abc", "1,2,3", "", ",", "1,", ",3", "-1", "1.2", " 1", "4294967296", "1,4294967296", "+"] {
        assert_eq!(Overs::from_str_with_default(text), overs(0, 0), "{text:?}");
    }
}

#[test]
fn malformed_overs_report_a_parse_error() {
    match Overs::from_str("abc") {
        Err(Error::ParseError(m)) => assert_eq!(m, "overs"),
        other => panic!("unexpected {other:?}"),
    }
    assert!(Overs::from_str("1,2,3").is_err());
}

#[test]
fn overs_accept_a_plus_sign_and_leading_zeros() {
    assert_eq!(Overs::from_str_with_default("+7,+2"), overs(7, 2));
    assert_eq!(Overs::from_str_with_default("007,02"), overs(7, 2));
}

#[test]
fn out_of_range_balls_are_kept() {
    let o = Overs::from_str_with_default("3,9");
    assert_eq!(o, overs(3, 9));
    assert_eq!(o.display(), "3.9");
}

#[test]
fn overs_parse_through_from_str_trait() {
    let o: Overs = "35,2".parse().unwrap();
    assert_eq!(o, overs(35, 2));
    assert_eq!(o.display(), "35.2");
}

#[test]
fn default_overs_are_zero() {
    assert_eq!(Overs::default(), overs(0, 0));
    assert_eq!(Overs::default().display(), "0");
}
