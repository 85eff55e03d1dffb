use snowflake::layout::{pack, CUSTOM_EPOCH, MAX_TIMESTAMP_OFFSET};
use snowflake::{Snowflake, Tick};

#[test]
fn test_snowflake_id_generation() {
    let mut generator = Snowflake::new(1, 1);
    let id1 = generator.next_id().unwrap();
    let id2 = generator.next_id().unwrap();
    assert!(id2 > id1, "IDs should be monotonically increasing");
}

#[test]
fn test_unique_and_ordered() {
    let mut gen = Snowflake::new(1, 1);
    let mut last = 0;
    for _ in 0..1000 {
        let id = gen.next_id().unwrap();
        assert!(id > last, "IDs must be ordered");
        last = id;
    }
}

#[test]
fn test_decode() {
    let mut gen = Snowflake::new(2, 3);
    let id = gen.next_id().unwrap();
    let (ts, dc, mc, seq) = Snowflake::decode(id);

    assert_eq!(dc, 2);
    assert_eq!(mc, 3);
    assert!(seq >= 0);
    assert!(ts >= CUSTOM_EPOCH);
}

#[test]
fn ten_thousand_ids_strictly_increase() {
    let mut gen = Snowflake::new(4, 9);
    let mut last = gen.next_id().unwrap();
    for _ in 1..10_000 {
        let id = gen.next_id().unwrap();
        assert!(id > last);
        last = id;
    }
}

#[test]
fn issued_ids_decode_to_the_node() {
    let mut gen = Snowflake::new(17, 30);
    for _ in 0..5000 {
        let id = gen.next_id().unwrap();
        let (ts, dc, mc, seq) = Snowflake::decode(id);
        assert_eq!(dc, 17);
        assert_eq!(mc, 30);
        assert!(seq <= 4095);
        assert!(ts >= CUSTOM_EPOCH);
    }
}

#[test]
fn node_ids_must_fit_five_bits() {
    assert!(Snowflake::try_new(32, 0).is_none());
    assert!(Snowflake::try_new(0, 32).is_none());
    assert!(Snowflake::try_new(31, 31).is_some());
    let mut gen = Snowflake::new(31, 31);
    let (_, dc, mc, _) = Snowflake::decode(gen.next_id().unwrap());
    assert_eq!((dc, mc), (31, 31));
}

#[test]
fn decode_of_hand_built_id() {
    let id = (0u64 << 22) | (5u64 << 17) | (7u64 << 12) | 42;
    assert_eq!(Snowflake::decode(id), (CUSTOM_EPOCH, 5, 7, 42));
}

#[test]
fn decode_takes_any_u64() {
    assert_eq!(Snowflake::decode(0), (CUSTOM_EPOCH, 0, 0, 0));
    assert_eq!(
        Snowflake::decode(u64::MAX),
        (CUSTOM_EPOCH + ((1u64 << 42) - 1), 31, 31, 4095)
    );
}

#[test]
fn pack_places_each_field() {
    assert_eq!(pack(0, 5, 7, 42), (5u64 << 17) | (7u64 << 12) | 42);
    assert_eq!(pack(1, 0, 0, 0), 1u64 << 22);
    assert_eq!(pack(MAX_TIMESTAMP_OFFSET, 31, 31, 4095), u64::MAX >> 1);
    assert_eq!(
        Snowflake::decode(pack(123_456, 5, 7, 42)),
        (CUSTOM_EPOCH + 123_456, 5, 7, 42)
    );
}

#[test]
fn reading_gives_exact_id() {
    let mut gen = Snowflake::new(5, 7);
    let now = CUSTOM_EPOCH + 1000;
    assert_eq!(gen.next_id_at(now), Tick::Issued((1000u64 << 22) | (5 << 17) | (7 << 12)));
    assert_eq!(
        gen.next_id_at(now),
        Tick::Issued((1000u64 << 22) | (5 << 17) | (7 << 12) | 1)
    );
    assert_eq!(
        gen.next_id_at(now + 3),
        Tick::Issued((1003u64 << 22) | (5 << 17) | (7 << 12))
    );
}

#[test]
fn sequence_wraps_within_a_millisecond() {
    let mut gen = Snowflake::new(1, 2);
    let now = CUSTOM_EPOCH + 77;
    let mut last = 0;
    for i in 0..4096u64 {
        match gen.next_id_at(now) {
            Tick::Issued(id) => {
                let (ts, _, _, seq) = Snowflake::decode(id);
                assert_eq!(ts, now);
                assert_eq!(seq, i);
                assert!(id > last);
                last = id;
            }
            other => panic!("expected an id, got {:?}", other),
        }
    }
    assert_eq!(gen.next_id_at(now), Tick::Wait);
    assert_eq!(gen.next_id_at(now - 1), Tick::Wait);
    match gen.next_id_at(now + 1) {
        Tick::Issued(id) => {
            let (ts, _, _, seq) = Snowflake::decode(id);
            assert!(ts > now);
            assert_eq!(seq, 0);
            assert!(id > last);
        }
        other => panic!("expected an id, got {:?}", other),
    }
}

#[test]
fn clock_moved_back_waits() {
    let mut gen = Snowflake::new(0, 0);
    let now = CUSTOM_EPOCH + 500;
    assert!(matches!(gen.next_id_at(now), Tick::Issued(_)));
    assert_eq!(gen.next_id_at(now - 200), Tick::Wait);
    assert_eq!(gen.next_id_at(1), Tick::Wait);
    assert_eq!(
        gen.next_id_at(now),
        Tick::Issued((500u64 << 22) | 1)
    );
}

#[test]
fn clock_outside_the_timestamp_field() {
    let mut gen = Snowflake::new(3, 3);
    assert_eq!(gen.next_id_at(0), Tick::ClockOutOfRange);
    assert_eq!(gen.next_id_at(CUSTOM_EPOCH - 1), Tick::ClockOutOfRange);
    assert_eq!(
        gen.next_id_at(CUSTOM_EPOCH + MAX_TIMESTAMP_OFFSET + 1),
        Tick::ClockOutOfRange
    );
    assert_eq!(
        gen.next_id_at(CUSTOM_EPOCH + MAX_TIMESTAMP_OFFSET),
        Tick::Issued((MAX_TIMESTAMP_OFFSET << 22) | (3 << 17) | (3 << 12))
    );
}
