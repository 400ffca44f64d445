use externs::bridge::Externs;
use externs::buffer::{UTF8Buffer, ValueBuffer};
use externs::handles::{Field, Id, Key, TypeId, Value};
use externs::host::Host;
use externs::text::{decimal, decode_or_placeholder, placeholder, tagged, text_or_placeholder};

/// Renders every handle as the same fixed bytes.
struct Fixed {
    bytes: Vec<u8>,
}

impl Host for Fixed {
    fn key_for(&self, _val: &Value) -> Key {
        unreachable!()
    }
    fn val_for(&self, _key: &Key) -> Value {
        unreachable!()
    }
    fn issubclass(&self, _cls: &TypeId, _super_cls: &TypeId) -> bool {
        unreachable!()
    }
    fn store_list(&self, _values: &[Value], _merge: bool) -> Value {
        unreachable!()
    }
    fn project(&self, _value: &Value, _field: &Field, _type_id: &TypeId) -> Value {
        unreachable!()
    }
    fn project_multi(&self, _value: &Value, _field: &Field) -> ValueBuffer {
        unreachable!()
    }
    fn id_to_str(&self, _digest: &Id) -> UTF8Buffer {
        UTF8Buffer::new(self.bytes.clone())
    }
    fn val_to_str(&self, _val: &Value) -> UTF8Buffer {
        UTF8Buffer::new(self.bytes.clone())
    }
}

fn std_reason(bytes: &[u8]) -> String {
    String::from_utf8(bytes.to_vec()).unwrap_err().to_string()
}

#[test]
fn decimal_of_single_digits() {
    let expected = ["0", "1", "2", "3", "4", "5", "6", "7", "8", "9"];
    for (n, text) in expected.iter().enumerate() {
        assert_eq!(decimal(n as u64), *text);
    }
}

#[test]
fn decimal_of_longer_numbers() {
    assert_eq!(decimal(10), "10");
    assert_eq!(decimal(42), "42");
    assert_eq!(decimal(100), "100");
    assert_eq!(decimal(1_000_000_007), "1000000007");
    assert_eq!(decimal(9_007_199_254_740_993), "9007199254740993");
    assert_eq!(decimal(u64::MAX), "18446744073709551615");
}

#[test]
fn decimal_agrees_with_the_standard_formatter() {
    let mut n: u64 = 1;
    for _ in 0..64 {
        assert_eq!(decimal(n), format!("{}", n));
        assert_eq!(decimal(n - 1), format!("{}", n - 1));
        n = n.wrapping_mul(3).wrapping_add(7) | 1;
    }
}

#[test]
fn tagged_writes_kind_and_token() {
    assert_eq!(tagged("Id", 7), "Id(7)");
    assert_eq!(tagged("Value", 0), "Value(0)");
    assert_eq!(tagged("", 12), "(12)");
}

#[test]
fn debug_text_is_the_debug_form() {
    for token in [0u64, 7, 10, 255, 65_536, u64::MAX] {
        assert_eq!(Id(token).debug_text(), format!("{:?}", Id(token)));
        assert_eq!(Value(token).debug_text(), format!("{:?}", Value(token)));
    }
    assert_eq!(Id(7).debug_text(), "Id(7)");
    assert_eq!(Value(31).debug_text(), "Value(31)");
}

#[test]
fn placeholder_has_the_fixed_shape() {
    assert_eq!(placeholder("Id(7)", "boom"), "<failed to decode unicode for Id(7): boom>");
    assert_eq!(placeholder("", ""), "<failed to decode unicode for : >");
}

#[test]
fn text_or_placeholder_keeps_decoded_text() {
    assert_eq!(text_or_placeholder(Ok(String::from("plain")), "Id(1)"), "plain");
    assert_eq!(text_or_placeholder(Ok(String::new()), "Id(1)"), "");
}

#[test]
fn text_or_placeholder_wraps_the_reason() {
    assert_eq!(
        text_or_placeholder(Err(String::from("bad byte")), "Value(2)"),
        "<failed to decode unicode for Value(2): bad byte>"
    );
}

#[test]
fn well_formed_bytes_decode_to_their_text() {
    assert_eq!(decode_or_placeholder(b"hello".to_vec(), "Id(1)"), "hello");
    assert_eq!(decode_or_placeholder(Vec::new(), "Id(1)"), "");
    let text = "h\u{e9}llo \u{2713} \u{1f980}";
    assert_eq!(decode_or_placeholder(text.as_bytes().to_vec(), "Id(1)"), text);
}

#[test]
fn an_invalid_byte_gives_the_placeholder() {
    let bytes = vec![0x61, 0xff, 0x62];
    let out = decode_or_placeholder(bytes.clone(), "Id(9)");
    assert_eq!(
        out,
        format!("<failed to decode unicode for Id(9): {}>", std_reason(&bytes))
    );
    assert!(out.contains("Id(9)"));
    assert_ne!(out.as_bytes(), &bytes[..]);
}

#[test]
fn a_truncated_sequence_gives_the_placeholder() {
    let bytes = vec![0xe2, 0x82];
    let out = decode_or_placeholder(bytes.clone(), "Value(3)");
    assert_eq!(
        out,
        format!("<failed to decode unicode for Value(3): {}>", std_reason(&bytes))
    );
}

#[test]
fn an_overlong_or_surrogate_encoding_is_not_text() {
    for bytes in [vec![0xc0, 0x80], vec![0xed, 0xa0, 0x80], vec![0xf4, 0x90, 0x80, 0x80]] {
        let out = decode_or_placeholder(bytes.clone(), "Id(0)");
        assert!(out.starts_with("<failed to decode unicode for Id(0): "));
        assert!(out.ends_with('>'));
    }
}

#[test]
fn id_to_str_renders_host_text() {
    let bridge = Externs::new(Fixed { bytes: b"sha256:abc".to_vec() });
    assert_eq!(bridge.id_to_str(&Id(1)), "sha256:abc");
}

#[test]
fn val_to_str_renders_host_text() {
    let bridge = Externs::new(Fixed { bytes: "Target(name='\u{fc}')".as_bytes().to_vec() });
    assert_eq!(bridge.val_to_str(&Value(1)), "Target(name='\u{fc}')");
}

#[test]
fn id_to_str_falls_back_to_the_placeholder() {
    let bytes = vec![0xff, 0xfe];
    let bridge = Externs::new(Fixed { bytes: bytes.clone() });
    let id = Id(4242);
    let out = bridge.id_to_str(&id);
    assert_eq!(
        out,
        format!("<failed to decode unicode for {:?}: {}>", id, std_reason(&bytes))
    );
    assert!(out.contains(&format!("{:?}", id)));
}

#[test]
fn val_to_str_falls_back_to_the_placeholder() {
    let bytes = vec![0x80];
    let bridge = Externs::new(Fixed { bytes: bytes.clone() });
    let val = Value(u64::MAX);
    let out = bridge.val_to_str(&val);
    assert_eq!(
        out,
        format!("<failed to decode unicode for {:?}: {}>", val, std_reason(&bytes))
    );
    assert!(out.contains("Value(18446744073709551615)"));
}

#[test]
fn an_empty_rendering_is_empty_text() {
    let bridge = Externs::new(Fixed { bytes: Vec::new() });
    assert_eq!(bridge.id_to_str(&Id(0)), "");
    assert_eq!(bridge.val_to_str(&Value(0)), "");
}
