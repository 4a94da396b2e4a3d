use socket2::error::Error;
use socket2::time::Duration;
use socket2::timeout::{dur2linger, dur2ms, linger2dur, ms2dur, Linger, INFINITE};

#[test]
fn dur2ms_none_is_zero() {
    assert_eq!(dur2ms(None), Ok(0));
}

#[test]
fn dur2ms_whole_milliseconds() {
    assert_eq!(dur2ms(Some(Duration::new(2, 500_000_000))), Ok(2500));
    assert_eq!(dur2ms(Some(Duration::from_secs(1))), Ok(1000));
}

#[test]
fn dur2ms_rounds_nanoseconds_up() {
    assert_eq!(dur2ms(Some(Duration::new(0, 1))), Ok(1));
    assert_eq!(dur2ms(Some(Duration::new(1, 1_000_001))), Ok(1002));
    assert_eq!(dur2ms(Some(Duration::new(0, 999_999_999))), Ok(1000));
}

#[test]
fn dur2ms_zero_is_refused() {
    assert_eq!(dur2ms(Some(Duration::new(0, 0))), Err(Error::InvalidInput));
    assert_eq!(dur2ms(Some(Duration::from_secs(0))), Err(Error::InvalidInput));
}

#[test]
fn dur2ms_saturates_to_infinite() {
    // u32::MAX milliseconds is about 49.7 days.
    assert_eq!(dur2ms(Some(Duration::from_secs(4_294_967))), Ok(4_294_967_000));
    assert_eq!(dur2ms(Some(Duration::new(4_294_967, 295_000_000))), Ok(INFINITE));
    assert_eq!(dur2ms(Some(Duration::from_secs(5_000_000))), Ok(INFINITE));
    assert_eq!(dur2ms(Some(Duration::from_secs(u64::MAX))), Ok(INFINITE));
    assert_eq!(dur2ms(Some(Duration::new(u64::MAX, 999_999_999))), Ok(INFINITE));
}

#[test]
fn ms2dur_values() {
    assert_eq!(ms2dur(0), None);
    assert_eq!(ms2dur(1), Some(Duration::new(0, 1_000_000)));
    assert_eq!(ms2dur(1500), Some(Duration::new(1, 500_000_000)));
    assert_eq!(ms2dur(u32::MAX), Some(Duration::new(4_294_967, 295_000_000)));
}

#[test]
fn timeout_read_then_set_is_identity() {
    for raw in [0u32, 1, 999, 1000, 1001, 123_456, u32::MAX] {
        assert_eq!(dur2ms(ms2dur(raw)), Ok(raw));
    }
}

#[test]
fn timeout_set_then_read_rounds_up() {
    let d = Duration::new(3, 250_000_001);
    let ms = dur2ms(Some(d)).unwrap();
    assert_eq!(ms, 3251);
    assert_eq!(ms2dur(ms), Some(Duration::new(3, 251_000_000)));
}

#[test]
fn duration_new_carries_nanoseconds() {
    let d = Duration::new(1, 2_500_000_000);
    assert_eq!(d.as_secs(), 3);
    assert_eq!(d.subsec_nanos(), 500_000_000);
    assert_eq!(d, Duration::new(3, 500_000_000));
}

#[test]
fn linger_values() {
    assert_eq!(dur2linger(None), Linger { l_onoff: 0, l_linger: 0 });
    assert_eq!(dur2linger(Some(Duration::new(5, 900_000_000))), Linger { l_onoff: 1, l_linger: 5 });
    // The seconds are truncated to 16 bits.
    assert_eq!(dur2linger(Some(Duration::from_secs(65_537))), Linger { l_onoff: 1, l_linger: 1 });
    assert_eq!(linger2dur(Linger { l_onoff: 0, l_linger: 7 }), None);
    assert_eq!(linger2dur(Linger { l_onoff: 1, l_linger: 7 }), Some(Duration::from_secs(7)));
}

#[test]
fn linger_set_then_read() {
    assert_eq!(linger2dur(dur2linger(None)), None);
    assert_eq!(linger2dur(dur2linger(Some(Duration::new(10, 1)))), Some(Duration::from_secs(10)));
}
