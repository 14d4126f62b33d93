use ijvm::container::MAGIC;
use ijvm::{get_big_endian_word, match_op_code, parse_container, LoadError, OpError, Stack};

fn container(pool: &[u8], text: &[u8]) -> Vec<u8> {
    let mut b = MAGIC.to_be_bytes().to_vec();
    b.extend(0u32.to_be_bytes());
    b.extend((pool.len() as u32).to_be_bytes());
    b.extend(pool);
    b.extend(0u32.to_be_bytes());
    b.extend((text.len() as u32).to_be_bytes());
    b.extend(text);
    b
}

#[test]
fn big_endian_word() {
    let buf = vec![0x1D, 0xEA, 0xDF, 0xAD, 0xFF, 0xFF, 0xFF, 0xFF];
    let mut at = 0;
    assert_eq!(get_big_endian_word(&buf, &mut at), 0x1DEADFAD);
    assert_eq!(at, 4);
    assert_eq!(get_big_endian_word(&buf, &mut at), -1);
    assert_eq!(at, 8);
}

#[test]
fn parses_a_container() {
    let bytes = container(&[0, 0, 0, 7], &[0x10, 1, 0xFF]);
    let p = parse_container(&bytes).ok().unwrap();
    assert_eq!(p.constant_pool, vec![0, 0, 0, 7]);
    assert_eq!(p.text, vec![0x10, 1, 0xFF]);
    let p = parse_container(&container(&[], &[])).ok().unwrap();
    assert!(p.constant_pool.is_empty());
    assert!(p.text.is_empty());
}

#[test]
fn rejects_bad_magic_and_truncation() {
    let mut bytes = container(&[0, 0, 0, 7], &[0xFF]);
    bytes[0] = 0;
    assert!(matches!(parse_container(&bytes), Err(LoadError::BadMagic)));
    let bytes = container(&[0, 0, 0, 7], &[0x10, 1, 0xFF]);
    assert!(matches!(parse_container(&bytes[..bytes.len() - 1].to_vec()), Err(LoadError::Truncated)));
    assert!(matches!(parse_container(&vec![0x1D, 0xEA]), Err(LoadError::Truncated)));
    assert!(matches!(parse_container(&bytes[..10].to_vec()), Err(LoadError::Truncated)));
    let mut bytes = container(&[], &[]);
    bytes[8] = 0x80;
    assert!(matches!(parse_container(&bytes), Err(LoadError::Truncated)));
}

#[test]
fn names_opcodes() {
    assert_eq!(match_op_code(0x10), "BIPUSH");
    assert_eq!(match_op_code(0xB6), "INVOKEVIRTUAL");
    assert_eq!(match_op_code(0x9F), "IF_ICMPEQ");
    assert_eq!(match_op_code(0x00), "NOP");
    assert_eq!(match_op_code(0x01), "invalid, likely arg");
}

#[test]
fn stack_push_pop_and_emptiness() {
    let mut s = Stack::new(16, 3);
    assert_eq!(s.sp(), 4);
    assert_eq!(s.get(0), 3);
    assert!(s.is_empty());
    s.push(11);
    s.push(12);
    assert!(!s.is_empty());
    assert_eq!(s.top(), Ok(12));
    assert_eq!(s.pop(), Ok(12));
    assert_eq!(s.pop(), Ok(11));
    assert_eq!(s.sp(), 4);
    s.set(2, 99);
    assert_eq!(s.get(2), 99);
    s.set_cursors(0, 0);
    assert_eq!(s.pop(), Err(OpError::EmptyStackError));
    assert_eq!(s.capacity(), 16);
}
