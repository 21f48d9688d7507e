use nethex::filter::{decide, FilterError, RxFilter, Verdict};

#[test]
fn test_white() {
    // Whitelist only filter
    let whitelist = RxFilter::create(Some("001122".to_string()), None);

    assert!(whitelist.filter(&[1, 2, 3, 4, 5]).is_none());
    assert!(whitelist.filter(&[0x00, 0x11, 0x22, 4, 5]).is_some());
    assert!(whitelist.filter(&[0x00, 0x22, 0x11]).is_none());
    assert!(whitelist.filter(&[0x00, 0x11]).is_none());
}

#[test]
fn test_black() {
    // Blacklist only filter
    let blacklist = RxFilter::create(None, Some("123456".to_string()));

    assert!(blacklist.filter(&[0x12, 0x34, 0x56, 0x78]).is_none());
    assert!(blacklist.filter(&[0x56, 0x34, 0x12]).is_some());
    assert!(blacklist.filter(&[0x12, 0x34]).is_some());
    assert!(blacklist
        .filter(&[0x33, 0x12, 0x12, 0x34, 0x56, 0x78])
        .is_none());
}

#[test]
fn test_combo() {
    let both = RxFilter::create(Some("12".to_string()), Some("65".to_string()));
    // Stopped by whitelist
    assert!(both.filter(&[0x34, 0x56]).is_none());
    // Stopped by blacklist
    assert!(both.filter(&[0x12, 0x34, 0x65]).is_none());
    // Stopped by both
    assert!(both.filter(&[0x34, 0x56]).is_none());
    // Allowed by both
    assert!(both.filter(&[0x34, 0x56, 0x12]).is_some());
}

#[test]
fn whitelist_only_accepts_exactly_the_matching_frames() {
    let filter = RxFilter::create(Some("001122".to_string()), None);
    assert_eq!(filter.evaluate(&[1, 2, 3, 4, 5]), Verdict::RejectByWhitelist);
    assert_eq!(filter.evaluate(&[0x00, 0x11, 0x22, 4, 5]), Verdict::Accept);
    assert_eq!(filter.evaluate(&[0x00, 0x22, 0x11]), Verdict::RejectByWhitelist);
    assert_eq!(filter.evaluate(&[0x00, 0x11]), Verdict::RejectByWhitelist);
    assert_eq!(filter.evaluate(&[]), Verdict::RejectByWhitelist);
}

#[test]
fn blacklist_only_accepts_exactly_the_frames_that_do_not_match() {
    let filter = RxFilter::create(None, Some("123456".to_string()));
    assert_eq!(filter.evaluate(&[0x12, 0x34, 0x56, 0x78]), Verdict::RejectByBlacklist);
    assert_eq!(filter.evaluate(&[0x56, 0x34, 0x12]), Verdict::Accept);
    assert_eq!(
        filter.evaluate(&[0x33, 0x12, 0x12, 0x34, 0x56, 0x78]),
        Verdict::RejectByBlacklist
    );
    assert_eq!(filter.evaluate(&[]), Verdict::Accept);
}

#[test]
fn both_lists_accept_only_what_passes_both() {
    let filter = RxFilter::create(Some("12".to_string()), Some("65".to_string()));
    assert_eq!(filter.evaluate(&[0x34, 0x56]), Verdict::RejectByWhitelist);
    assert_eq!(filter.evaluate(&[0x12, 0x34, 0x65]), Verdict::RejectByBlacklist);
    assert_eq!(filter.evaluate(&[0x34, 0x56, 0x12]), Verdict::Accept);
    // A frame that fails both lists is charged to the whitelist.
    assert_eq!(filter.evaluate(&[0x65]), Verdict::RejectByWhitelist);
}

#[test]
fn no_lists_accept_everything() {
    let filter = RxFilter::create(None, None);
    assert_eq!(filter.evaluate(&[]), Verdict::Accept);
    assert_eq!(filter.evaluate(&[0xff; 64]), Verdict::Accept);
    assert!(filter.filter(&[]).is_some());
    assert!(filter.filter(&[0, 1, 2]).is_some());
}

#[test]
fn decide_asks_the_whitelist_first() {
    assert_eq!(decide(None, None), Verdict::Accept);
    assert_eq!(decide(Some(true), None), Verdict::Accept);
    assert_eq!(decide(Some(false), None), Verdict::RejectByWhitelist);
    assert_eq!(decide(None, Some(false)), Verdict::Accept);
    assert_eq!(decide(None, Some(true)), Verdict::RejectByBlacklist);
    assert_eq!(decide(Some(true), Some(false)), Verdict::Accept);
    assert_eq!(decide(Some(true), Some(true)), Verdict::RejectByBlacklist);
    assert_eq!(decide(Some(false), Some(false)), Verdict::RejectByWhitelist);
    assert_eq!(decide(Some(false), Some(true)), Verdict::RejectByWhitelist);
}

#[test]
fn patterns_match_anywhere_in_the_hex_text() {
    // The match may straddle a byte boundary: "0112" sits in "f011 2f".
    let filter = RxFilter::create(Some("0112".to_string()), None);
    assert_eq!(filter.evaluate(&[0xf0, 0x11, 0x2f]), Verdict::Accept);
    let anchored = RxFilter::create(Some("^0011$".to_string()), None);
    assert_eq!(anchored.evaluate(&[0x00, 0x11]), Verdict::Accept);
    assert_eq!(anchored.evaluate(&[0x00, 0x11, 0x22]), Verdict::RejectByWhitelist);
    assert_eq!(anchored.evaluate(&[0xff, 0x00, 0x11]), Verdict::RejectByWhitelist);
}

#[test]
fn patterns_ignore_case_and_whitespace() {
    let upper = RxFilter::create(Some("AABB".to_string()), None);
    assert_eq!(upper.evaluate(&[0xaa, 0xbb]), Verdict::Accept);
    let spaced = RxFilter::create(Some("aa bb  cc".to_string()), None);
    assert_eq!(spaced.evaluate(&[0xaa, 0xbb, 0xcc]), Verdict::Accept);
    assert_eq!(spaced.evaluate(&[0xaa, 0xbb]), Verdict::RejectByWhitelist);
    let dots = RxFilter::create(None, Some("de.{4}ef".to_string()));
    assert_eq!(dots.evaluate(&[0xde, 0xad, 0xbe, 0xef]), Verdict::RejectByBlacklist);
    assert_eq!(dots.evaluate(&[0xde, 0xad, 0xef]), Verdict::Accept);
}

#[test]
fn try_create_reports_the_first_pattern_that_does_not_compile() {
    let bad_white = RxFilter::try_create(Some("(".to_string()), Some("12".to_string()));
    assert!(matches!(bad_white, Err(FilterError::Whitelist(_))));
    let bad_black = RxFilter::try_create(Some("12".to_string()), Some("[".to_string()));
    assert!(matches!(bad_black, Err(FilterError::Blacklist(_))));
    let bad_both = RxFilter::try_create(Some("a{2,1}".to_string()), Some("(".to_string()));
    assert!(matches!(bad_both, Err(FilterError::Whitelist(_))));
    let only_black = RxFilter::try_create(None, Some("*".to_string()));
    assert!(matches!(only_black, Err(FilterError::Blacklist(_))));
}

#[test]
fn try_create_builds_the_same_filter_as_create() {
    let filter = RxFilter::try_create(Some("12".to_string()), Some("65".to_string()))
        .expect("both patterns compile");
    assert_eq!(filter.evaluate(&[0x34, 0x56]), Verdict::RejectByWhitelist);
    assert_eq!(filter.evaluate(&[0x12, 0x34, 0x65]), Verdict::RejectByBlacklist);
    assert_eq!(filter.evaluate(&[0x34, 0x56, 0x12]), Verdict::Accept);
    let open = RxFilter::try_create(None, None).expect("no pattern cannot fail");
    assert_eq!(open.evaluate(&[]), Verdict::Accept);
}

#[test]
fn filter_shows_an_accepted_frame_as_a_hex_dump() {
    let filter = RxFilter::create(None, None);
    let short = filter.filter(&[b'a'; 10]).expect("accepted");
    assert_eq!(
        short,
        "00000000  61 61 61 61 61 61 61 61 61 61                    | aaaaaaaaaa       |"
    );
    let row: Vec<u8> = (0x40..0x50).collect();
    let full = filter.filter(&row).expect("accepted");
    assert_eq!(
        full,
        "00000000  40 41 42 43 44 45 46 47 48 49 4A 4B 4C 4D 4E 4F  | @ABCDEFGHIJKLMNO |"
    );
}

#[test]
fn filter_shows_nothing_of_a_rejected_frame() {
    let filter = RxFilter::create(Some("ff".to_string()), Some("00".to_string()));
    assert_eq!(filter.filter(&[0x12]), None);
    assert_eq!(filter.filter(&[0xff, 0x00]), None);
    assert!(filter.filter(&[0xff, 0x01]).is_some());
}
