use p2pio::codec;
use p2pio::error::FatalError;
use p2pio::tick;

#[test]
fn test_codec_round_trip() {
    for v in [0i32, 1, -1, 17, -17, 1_000_000, -1_000_000, i32::MIN, i32::MAX] {
        assert_eq!(codec::decode(codec::encode(v)), v);
    }
    assert_eq!(codec::encode(0), 4_294_967_295);
    assert_eq!(codec::encode(1), 4_294_967_296);
    assert_eq!(codec::encode(-1), 4_294_967_294);
}

#[test]
fn test_encode_strictly_monotonic() {
    let samples = [i32::MIN, -70_000, -1, 0, 1, 70_000, i32::MAX];
    for pair in samples.windows(2) {
        assert!(codec::encode(pair[0]) < codec::encode(pair[1]));
    }
}

#[test]
fn test_try_decode_range() {
    assert_eq!(codec::try_decode(codec::WIRE_MIN), Ok(i32::MIN));
    assert_eq!(codec::try_decode(codec::WIRE_MAX), Ok(i32::MAX));
    assert_eq!(
        codec::try_decode(codec::WIRE_MIN - 1),
        Err(FatalError::CoordinateOutOfRange)
    );
    assert_eq!(
        codec::try_decode(codec::WIRE_MAX + 1),
        Err(FatalError::CoordinateOutOfRange)
    );
    assert_eq!(codec::try_decode(0), Err(FatalError::CoordinateOutOfRange));
}

#[test]
fn test_try_encode_range() {
    assert_eq!(codec::try_encode(0), Ok(4_294_967_295));
    assert_eq!(codec::try_encode(i32::MAX as i64), Ok(codec::WIRE_MAX));
    assert_eq!(codec::try_encode(i32::MIN as i64), Ok(codec::WIRE_MIN));
    assert_eq!(
        codec::try_encode(i32::MAX as i64 + 1),
        Err(FatalError::CoordinateOutOfRange)
    );
    assert_eq!(
        codec::try_encode(i32::MIN as i64 - 1),
        Err(FatalError::CoordinateOutOfRange)
    );
}

#[test]
fn test_ms_to_tick() {
    assert_eq!(tick::ms_to_tick(0), 0);
    assert_eq!(tick::ms_to_tick(6000), 360);
    assert_eq!(tick::ms_to_tick(16), 0);
    assert_eq!(tick::ms_to_tick(17), 1);
    assert_eq!(tick::ms_to_tick(999), 59);
    assert_eq!(tick::ms_to_tick(1000), 60);
    // floor(u64::MAX * 60 / 1000), computed without overflowing.
    assert_eq!(tick::ms_to_tick(u64::MAX), 1_106_804_644_422_573_096);
}

#[test]
fn test_game_tick() {
    assert_eq!(tick::game_tick(7000, 1000), Ok(360));
    assert_eq!(tick::game_tick(1000, 1000), Ok(0));
    assert_eq!(tick::game_tick(500, 1000), Err(FatalError::TimeBeforeStart));
    assert_eq!(tick::game_tick_i64(7000, 1000), Ok(360));
    assert_eq!(
        tick::game_tick_i64(500, 1000),
        Err(FatalError::TimeBeforeStart)
    );
}

#[test]
fn test_fatal_error_messages() {
    assert!(!FatalError::TickBeforeBaseline.message().is_empty());
    assert_ne!(
        FatalError::CoordinateOutOfRange.message(),
        FatalError::WrongArgumentCount.message()
    );
}
