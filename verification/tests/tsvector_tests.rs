use pgdecode::tsvector::LexemeMeta;
use pgdecode::tsvector::TsVector;

fn encode(lexemes: &[(&str, &[u16])]) -> Vec<u8> {
    let mut out: Vec<u8> = Vec::new();
    out.extend_from_slice(&(lexemes.len() as u32).to_be_bytes());
    for (word, packed) in lexemes {
        out.extend_from_slice(word.as_bytes());
        out.push(0);
        out.extend_from_slice(&(packed.len() as u16).to_be_bytes());
        for p in *packed {
            out.extend_from_slice(&p.to_be_bytes());
        }
    }
    out
}

#[test]
fn round_trip_weighted_positions() {
    // weight 3 ("A") at position 1, weight 0 at position 5
    let bytes = encode(&[("cat", &[(3 << 14) | 1, 5])]);
    let v = TsVector::try_from(&bytes).unwrap();
    assert_eq!(v.to_string(), "'cat':1A,5");
}

#[test]
fn unpacks_weight_and_position() {
    let m = LexemeMeta::from((3u16 << 14) | 1);
    assert_eq!(m.weight, 3);
    assert_eq!(m.position, 1);
    let m = LexemeMeta::from(0xffff);
    assert_eq!(m.weight, 3);
    assert_eq!(m.position, 0x3fff);
    let m = LexemeMeta::from(5);
    assert_eq!(m.weight, 0);
    assert_eq!(m.position, 5);
}

#[test]
fn weight_letters() {
    let bytes = encode(&[("w", &[(3 << 14) | 7, (2 << 14) | 8, (1 << 14) | 9, 10])]);
    let v = TsVector::try_from(&bytes).unwrap();
    assert_eq!(v.to_string(), "'w':7A,8B,9C,10");
}

#[test]
fn zero_positions_renders_bare_word() {
    let bytes = encode(&[("word", &[])]);
    let v = TsVector::try_from(&bytes).unwrap();
    assert_eq!(v.to_string(), "'word'");
}

#[test]
fn zero_lexemes_renders_empty_string() {
    let bytes = encode(&[]);
    let v = TsVector::try_from(&bytes).unwrap();
    assert_eq!(v.words.len(), 0);
    assert_eq!(v.to_string(), "");
}

#[test]
fn several_lexemes_joined_with_spaces() {
    let bytes = encode(&[("cat", &[1]), ("dog", &[]), ("fish", &[(2 << 14) | 3])]);
    let v = TsVector::try_from(&bytes).unwrap();
    assert_eq!(v.to_string(), "'cat':1 'dog' 'fish':3B");
}

#[test]
fn count_exceeding_bytes_is_a_parse_error() {
    // declares five lexemes but carries none
    let bytes = 5u32.to_be_bytes().to_vec();
    assert!(TsVector::try_from(&bytes).is_err());
}

#[test]
fn truncated_positions_are_a_parse_error() {
    // one lexeme, word "a", declares two positions but carries one byte
    let mut bytes = 1u32.to_be_bytes().to_vec();
    bytes.extend_from_slice(b"a\x00");
    bytes.extend_from_slice(&2u16.to_be_bytes());
    bytes.push(0x40);
    assert!(TsVector::try_from(&bytes).is_err());
}

#[test]
fn missing_terminator_is_a_parse_error() {
    let mut bytes = 1u32.to_be_bytes().to_vec();
    bytes.extend_from_slice(b"abc");
    assert!(TsVector::try_from(&bytes).is_err());
}

#[test]
fn invalid_utf8_word_is_a_parse_error() {
    let mut bytes = 1u32.to_be_bytes().to_vec();
    bytes.extend_from_slice(&[0xff, 0xfe, 0x00]);
    bytes.extend_from_slice(&0u16.to_be_bytes());
    assert!(TsVector::try_from(&bytes).is_err());
}

#[test]
fn short_input_is_a_parse_error() {
    assert!(TsVector::try_from(&[0, 0]).is_err());
}

#[test]
fn trailing_bytes_are_ignored() {
    let mut bytes = encode(&[("x", &[])]);
    bytes.extend_from_slice(b"junk after the end");
    let v = TsVector::try_from(&bytes).unwrap();
    assert_eq!(v.to_string(), "'x'");
}

#[test]
fn rendering_twice_is_identical() {
    let bytes = encode(&[("cat", &[(3 << 14) | 1, 5]), ("dog", &[])]);
    let v = TsVector::try_from(&bytes).unwrap();
    let first = v.to_string();
    let second = v.to_string();
    assert_eq!(first, second);
}

#[test]
fn large_position_renders_in_decimal() {
    let bytes = encode(&[("w", &[0x3fff])]);
    let v = TsVector::try_from(&bytes).unwrap();
    assert_eq!(v.to_string(), "'w':16383");
}

#[test]
fn unicode_word_survives() {
    let bytes = encode(&[("héllo", &[])]);
    let v = TsVector::try_from(&bytes).unwrap();
    assert_eq!(v.to_string(), "'héllo'");
}
