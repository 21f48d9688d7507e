use nethex::filter::RxFilter;
use nethex::receiver::{render, Control, Event, Receiver, RxBound};

const SECOND: u128 = 1_000_000_000;

#[test]
fn a_count_of_zero_never_polls() {
    assert!(!RxBound::new(0, None).is_open());
    assert!(!RxBound::new(0, Some(5)).is_open());
    assert!(RxBound::new(1, None).is_open());
    assert!(RxBound::new(-1, None).is_open());
}

#[test]
fn the_receiver_finishes_after_exactly_count_accepted_frames() {
    let mut bound = RxBound::new(3, Some(10));
    assert_eq!(bound.record(Event::Accepted, SECOND), Control::Continue);
    assert_eq!(bound.remaining, 2);
    assert_eq!(bound.record(Event::Rejected, SECOND), Control::Continue);
    assert_eq!(bound.remaining, 2);
    assert_eq!(bound.record(Event::Quiet, SECOND), Control::Continue);
    assert_eq!(bound.remaining, 2);
    assert_eq!(bound.record(Event::Accepted, 2 * SECOND), Control::Continue);
    assert_eq!(bound.remaining, 1);
    assert!(bound.is_open());
    assert_eq!(bound.record(Event::Accepted, 3 * SECOND), Control::Finished);
    assert_eq!(bound.remaining, 0);
    assert!(!bound.is_open());
}

#[test]
fn an_unbounded_receiver_runs_until_the_time_limit() {
    let mut bound = RxBound::new(-1, Some(2));
    for _ in 0..1000 {
        assert_eq!(bound.record(Event::Accepted, SECOND), Control::Continue);
    }
    assert_eq!(bound.remaining, -1);
    assert!(bound.is_open());
    // The limit itself is still in time; the first reading behind it is not.
    assert_eq!(bound.record(Event::Quiet, 2 * SECOND), Control::Continue);
    assert_eq!(bound.record(Event::Quiet, 2 * SECOND + 1), Control::TimedOut);
    assert_eq!(bound.record(Event::Accepted, 3 * SECOND), Control::TimedOut);
    assert_eq!(bound.remaining, -1);
}

#[test]
fn an_unbounded_receiver_without_a_limit_never_stops() {
    let mut bound = RxBound::new(-1, None);
    assert_eq!(bound.record(Event::Accepted, u128::MAX), Control::Continue);
    assert_eq!(bound.record(Event::Rejected, u128::MAX), Control::Continue);
    assert_eq!(bound.record(Event::Quiet, u128::MAX), Control::Continue);
    assert_eq!(bound.remaining, -1);
    assert!(!bound.expired(u128::MAX));
}

#[test]
fn the_time_limit_goes_before_the_count() {
    let mut bound = RxBound::new(1, Some(1));
    assert_eq!(bound.record(Event::Accepted, SECOND + 1), Control::TimedOut);
    assert_eq!(bound.remaining, 0);
}

#[test]
fn a_failed_read_is_fatal_whatever_the_bounds() {
    let mut bound = RxBound::new(5, Some(1));
    assert_eq!(bound.record(Event::Fault, 0), Control::Fatal);
    assert_eq!(bound.record(Event::Fault, 2 * SECOND), Control::Fatal);
    assert_eq!(bound.remaining, 5);
}

#[test]
fn expired_compares_nanoseconds_with_whole_seconds() {
    let bound = RxBound::new(-1, Some(3));
    assert!(!bound.expired(0));
    assert!(!bound.expired(3_000_000_000));
    assert!(bound.expired(3_000_000_001));
    let zero = RxBound::new(-1, Some(0));
    assert!(!zero.expired(0));
    assert!(zero.expired(1));
    let longest = RxBound::new(-1, Some(u64::MAX));
    assert!(!longest.expired(u64::MAX as u128 * SECOND));
    assert!(longest.expired(u64::MAX as u128 * SECOND + 1));
}

#[test]
fn a_rejected_frame_uses_up_the_read_and_not_the_count() {
    let filter = RxFilter::create(Some("001122".to_string()), None);
    let mut rx = Receiver::new(filter, 2, None, true);
    let got = rx.on_frame(&[1, 2, 3], 0);
    assert_eq!(got.output, None);
    assert_eq!(got.control, Control::Continue);
    let got = rx.on_frame(&[0x00, 0x11, 0x22, 0x33], 0);
    assert_eq!(got.output, Some("00112233".to_string()));
    assert_eq!(got.control, Control::Continue);
    let got = rx.on_frame(&[0xff], 0);
    assert_eq!(got.output, None);
    assert_eq!(got.control, Control::Continue);
    assert!(rx.is_open());
    let got = rx.on_frame(&[0x00, 0x11, 0x22], 0);
    assert_eq!(got.output, Some("001122".to_string()));
    assert_eq!(got.control, Control::Finished);
    assert!(!rx.is_open());
}

#[test]
fn the_output_mode_picks_bare_hex_or_a_dump() {
    let mut raw = Receiver::new(RxFilter::create(None, None), -1, None, true);
    assert_eq!(raw.on_frame(&[b'a'; 10], 0).output, Some("61616161616161616161".to_string()));
    let mut dump = Receiver::new(RxFilter::create(None, None), -1, None, false);
    assert_eq!(
        dump.on_frame(&[b'a'; 10], 0).output,
        Some(
            "00000000  61 61 61 61 61 61 61 61 61 61                    | aaaaaaaaaa       |"
                .to_string()
        )
    );
}

#[test]
fn an_empty_poll_only_checks_the_bounds() {
    let mut rx = Receiver::new(RxFilter::create(None, None), 1, Some(1), false);
    assert_eq!(rx.on_quiet(0), Control::Continue);
    assert_eq!(rx.on_quiet(SECOND), Control::Continue);
    assert_eq!(rx.on_quiet(SECOND + 1), Control::TimedOut);
    assert_eq!(rx.on_fault(), Control::Fatal);
    assert!(rx.is_open());
    let got = rx.on_frame(&[], 0);
    assert_eq!(got.control, Control::Finished);
    assert_eq!(rx.on_quiet(0), Control::Finished);
}

#[test]
fn check_looks_at_the_count_as_it_stands() {
    let bound = RxBound::new(0, Some(1));
    assert_eq!(bound.check(Event::Quiet, 0), Control::Finished);
    assert_eq!(bound.check(Event::Accepted, 0), Control::Finished);
    assert_eq!(bound.check(Event::Quiet, SECOND + 1), Control::TimedOut);
    assert_eq!(bound.check(Event::Fault, 0), Control::Fatal);
    let open = RxBound::new(1, None);
    assert_eq!(open.check(Event::Accepted, 0), Control::Continue);
    assert_eq!(open.remaining, 1);
}

#[test]
fn render_follows_the_output_mode() {
    assert_eq!(render(&[0xde, 0xad], true), "dead");
    assert_eq!(render(&[], true), "");
    assert_eq!(
        render(&[0x40, 0x41], false),
        "00000000  40 41                                            | @A               |"
    );
}
