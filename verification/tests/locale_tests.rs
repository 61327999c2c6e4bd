use marktext_ru_patcher::locale::NOT_UTF8;
use marktext_ru_patcher::{minify_json_bytes, strip_bom, Error};

#[test]
fn minify_removes_whitespace() {
    let out = minify_json_bytes(b"{\n  \"a\" : [1, 2],\n  \"b\": \"x y\"\n}\n").unwrap();
    assert_eq!(out, b"{\"a\":[1,2],\"b\":\"x y\"}".to_vec());
}

#[test]
fn minify_strips_byte_order_mark() {
    let mut raw = vec![0xEF, 0xBB, 0xBF];
    raw.extend_from_slice("{ \"ru\" : \"Русский\" }".as_bytes());
    let out = minify_json_bytes(&raw).unwrap();
    assert_eq!(out, "{\"ru\":\"Русский\"}".as_bytes().to_vec());
    assert_ne!(&out[..3], &[0xEF, 0xBB, 0xBF]);
}

#[test]
fn minify_same_with_and_without_mark() {
    let plain = b"[ true , null ]".to_vec();
    let mut marked = vec![0xEF, 0xBB, 0xBF];
    marked.extend_from_slice(&plain);
    assert_eq!(minify_json_bytes(&plain).unwrap(), minify_json_bytes(&marked).unwrap());
}

#[test]
fn minify_rejects_invalid_utf8() {
    match minify_json_bytes(&[b'{', 0xFF, b'}']) {
        Err(Error::InvalidJson(m)) => assert_eq!(m, NOT_UTF8),
        other => panic!("unexpected {:?}", other),
    }
    assert_eq!(NOT_UTF8, "файл не в UTF-8");
}

#[test]
fn minify_rejects_invalid_json() {
    match minify_json_bytes(b"{\"a\": }") {
        Err(Error::InvalidJson(m)) => assert_ne!(m, NOT_UTF8),
        other => panic!("unexpected {:?}", other),
    }
}

#[test]
fn minify_keeps_only_one_mark_off() {
    let mut raw = vec![0xEF, 0xBB, 0xBF, 0xEF, 0xBB, 0xBF];
    raw.extend_from_slice(b"{}");
    assert!(matches!(minify_json_bytes(&raw), Err(Error::InvalidJson(_))));
}

#[test]
fn strip_bom_cases() {
    assert_eq!(strip_bom(&[0xEF, 0xBB, 0xBF, b'x']), &[b'x']);
    assert_eq!(strip_bom(&[0xEF, 0xBB, 0xBF]), &[] as &[u8]);
    assert_eq!(strip_bom(&[0xEF, 0xBB]), &[0xEF, 0xBB]);
    assert_eq!(strip_bom(b"{}"), b"{}");
    assert_eq!(strip_bom(&[0xEF, 0xBB, 0xBF, 0xEF, 0xBB, 0xBF]), &[0xEF, 0xBB, 0xBF]);
}

#[test]
fn minify_same_error_with_and_without_mark() {
    let plain = b"{\"a\": }".to_vec();
    let mut marked = vec![0xEF, 0xBB, 0xBF];
    marked.extend_from_slice(&plain);
    match (minify_json_bytes(&plain), minify_json_bytes(&marked)) {
        (Err(Error::InvalidJson(a)), Err(Error::InvalidJson(b))) => assert_eq!(a, b),
        other => panic!("unexpected {:?}", other),
    }
}

#[test]
fn minify_orders_object_keys() {
    let out = minify_json_bytes(b"{ \"b\": 1, \"a\": [ {}, \"x\" ] }").unwrap();
    assert_eq!(out, b"{\"a\":[{},\"x\"],\"b\":1}".to_vec());
}

#[test]
fn minify_scalars() {
    assert_eq!(minify_json_bytes(b" -12 ").unwrap(), b"-12".to_vec());
    assert_eq!(minify_json_bytes(b"\n null\n").unwrap(), b"null".to_vec());
}
