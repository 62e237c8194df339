use starboard_bot::discord::{bigint_to_id, id_to_bigint};

#[test]
/// Ids are kept as signed integers in the database and read back as unsigned ones.
fn i64_to_u64_conversion() {
    let signed: i64 = i64::MAX;

    let unsigned: u64 = u64::MAX / 2;

    // This means that as long as we're in the range of u64 with our i64 (which it always will)
    // we're safe to cast it to u64, as it uses two's complement for number representation.
    assert_eq!(signed as u64, unsigned);
}

#[test]
fn bigint_conversion_keeps_the_bits() {
    assert_eq!(bigint_to_id(i64::MAX), u64::MAX / 2);
    assert_eq!(id_to_bigint(u64::MAX / 2), i64::MAX);
    assert_eq!(id_to_bigint(u64::MAX), -1);
    assert_eq!(bigint_to_id(-1), u64::MAX);
    assert_eq!(id_to_bigint(794949887028232192), 794949887028232192);
}

#[test]
fn bigint_round_trip() {
    for id in [1u64, 42, 794949887028232192, u64::MAX / 2 + 1, u64::MAX] {
        assert_eq!(bigint_to_id(id_to_bigint(id)), id);
    }
}
