use nntp_client::bytes::{parse_u64, tokenize_from};
use nntp_client::error::NntpError;
use nntp_client::types::Group;

#[test]
fn parse_u64_exact_values() {
    assert_eq!(parse_u64(&b"0".to_vec()), Some(0));
    assert_eq!(parse_u64(&b"3002322".to_vec()), Some(3002322));
    assert_eq!(parse_u64(&b"18446744073709551615".to_vec()), Some(u64::MAX));
}

#[test]
fn parse_u64_rejects_overflow_and_junk() {
    assert_eq!(parse_u64(&b"18446744073709551616".to_vec()), None);
    assert_eq!(parse_u64(&b"".to_vec()), None);
    assert_eq!(parse_u64(&b"12a".to_vec()), None);
    assert_eq!(parse_u64(&b"-1".to_vec()), None);
}

#[test]
fn tokenize_skips_space_runs() {
    let tokens = tokenize_from(&b"a  bb   ccc ".to_vec(), 0);
    assert_eq!(tokens, vec![b"a".to_vec(), b"bb".to_vec(), b"ccc".to_vec()]);
    let from_four = tokenize_from(&b"211 6 1 6 misc.test".to_vec(), 4);
    assert_eq!(
        from_four,
        vec![b"6".to_vec(), b"1".to_vec(), b"6".to_vec(), b"misc.test".to_vec()]
    );
    assert_eq!(tokenize_from(&b"   ".to_vec(), 0), Vec::<Vec<u8>>::new());
}

#[test]
fn group_from_first_line_exact_fields() {
    let g = Group::from_first_line(&b"211 1234 3000234 3002322 alt.test extra".to_vec()).unwrap();
    assert_eq!(g.number, 1234);
    assert_eq!(g.low, 3000234);
    assert_eq!(g.high, 3002322);
    assert_eq!(g.name, b"alt.test".to_vec());
}

#[test]
fn group_from_first_line_rejects_bad_lines() {
    match Group::from_first_line(&b"211 6 1 misc.test".to_vec()) {
        Err(NntpError::MalformedLine) => {}
        other => panic!("expected malformed line, got {:?}", other),
    }
    match Group::from_first_line(&b"211 x 1 6 misc.test".to_vec()) {
        Err(NntpError::MalformedLine) => {}
        other => panic!("expected malformed line, got {:?}", other),
    }
}
