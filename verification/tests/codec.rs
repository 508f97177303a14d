use bilirust::codec::{av_to_bv, bv_to_av, DecodeError, ADD_OFFSET, ALPHABET, SLOTS, XOR_MASK};

#[test]
fn encode_known_id() {
    assert_eq!(av_to_bv(722327931), "BV1TS4y1Q7Y9");
}

#[test]
fn decode_known_code() {
    assert_eq!(bv_to_av("BV1TS4y1Q7Y9"), Ok(722327931));
    assert_eq!(bv_to_av("BV17x411w7KC"), Ok(170001));
    assert_eq!(bv_to_av("BV1fK4y1t7hj"), Ok(883362563));
}

#[test]
fn encode_small_ids() {
    assert_eq!(av_to_bv(0), "BV1xx411c7mX");
    assert_eq!(av_to_bv(1), "BV1xx411c7mQ");
    assert_eq!(av_to_bv(170001), "BV17x411w7KC");
}

#[test]
fn encode_largest_round_trip_id() {
    let top: i64 = (1i64 << 53) - 1;
    assert_eq!(av_to_bv(top), "BVpNiVRyoZpG");
    assert_eq!(bv_to_av("BVpNiVRyoZpG"), Ok(top));
}

#[test]
fn encode_largest_id_keeps_ten_digits() {
    assert_eq!(av_to_bv(i64::MAX), "BVfvur4n53wr");
}

#[test]
fn round_trip_on_many_ids() {
    let mut id: i64 = 0;
    let mut step: i64 = 1;
    while id < (1i64 << 53) {
        assert_eq!(bv_to_av(&av_to_bv(id)), Ok(id));
        id += step;
        step = step * 3 + 1;
    }
}

#[test]
fn decode_rejects_eleven_characters() {
    assert_eq!(bv_to_av("BV1TS4y1Q7Y"), Err(DecodeError::InvalidLength));
}

#[test]
fn decode_rejects_thirteen_characters() {
    assert_eq!(bv_to_av("BV1TS4y1Q7Y99"), Err(DecodeError::InvalidLength));
}

#[test]
fn decode_rejects_empty() {
    assert_eq!(bv_to_av(""), Err(DecodeError::InvalidLength));
}

#[test]
fn decode_rejects_wrong_prefix() {
    assert_eq!(bv_to_av("bv1TS4y1Q7Y9"), Err(DecodeError::InvalidLength));
    assert_eq!(bv_to_av("AV1TS4y1Q7Y9"), Err(DecodeError::InvalidLength));
}

#[test]
fn decode_rejects_symbol_outside_alphabet() {
    assert_eq!(bv_to_av("BV1TS4y1Q7Y0"), Err(DecodeError::UnknownSymbol));
    assert_eq!(bv_to_av("BV1TS4y1Q7Y_"), Err(DecodeError::UnknownSymbol));
    assert_eq!(bv_to_av("BVO111111111"), Err(DecodeError::UnknownSymbol));
}

#[test]
fn decode_counts_characters_not_bytes() {
    assert_eq!(bv_to_av("BV1TS4y1Q7Y\u{e9}"), Err(DecodeError::UnknownSymbol));
    assert_eq!(bv_to_av("BV1TS4y1Q7\u{e9}"), Err(DecodeError::InvalidLength));
}

#[test]
fn decode_below_the_offset_is_negative() {
    assert_eq!(bv_to_av("BVffffffffff"), Ok(-100618342026575580));
}

#[test]
fn decode_top_code() {
    assert_eq!(bv_to_av("BVFFFFFFFFFF"), Ok(330185864604477147));
}

#[test]
fn codec_constants() {
    assert_eq!(ALPHABET, "fZodR9XQDSUm21yCkr6zBqiveYah8bt4xsWpHnJE7jL5VG3guMTKNPAwcF");
    assert_eq!(ALPHABET.len(), 58);
    assert_eq!(XOR_MASK, 177451812);
    assert_eq!(ADD_OFFSET, 100618342136696320);
    assert_eq!(SLOTS, [9, 8, 1, 6, 2, 4, 0, 7, 3, 5]);
}
