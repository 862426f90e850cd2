use bluetooth::text::{payload_string, runtime_thread_name, string_payload};

#[test]
fn string_payload_is_utf8() {
    assert_eq!(string_payload("hi"), vec![0x68, 0x69]);
    assert_eq!(string_payload(""), Vec::<u8>::new());
    assert_eq!(string_payload("é"), vec![0xC3, 0xA9]);
}

#[test]
fn payload_string_decodes_utf8() {
    assert_eq!(payload_string(vec![0x68, 0x69]), "hi");
    assert_eq!(payload_string(vec![0xE2, 0x82, 0xAC]), "€");
    assert_eq!(payload_string(Vec::new()), "");
}

#[test]
fn payload_roundtrip() {
    for s in ["", "hello", "héllo wörld", "黑风雷", "👨‍👩‍👧"] {
        assert_eq!(payload_string(string_payload(s)), s);
    }
    let bytes = vec![0x41, 0xC3, 0xA9, 0xF0, 0x9F, 0x98, 0x80];
    assert_eq!(string_payload(&payload_string(bytes.clone())), bytes);
}

#[test]
fn thread_names() {
    assert_eq!(runtime_thread_name(0), "intiface-thread-0");
    assert_eq!(runtime_thread_name(7), "intiface-thread-7");
    assert_eq!(runtime_thread_name(42), "intiface-thread-42");
    assert_eq!(runtime_thread_name(100), "intiface-thread-100");
    assert_eq!(runtime_thread_name(usize::MAX), format!("intiface-thread-{}", usize::MAX));
}

#[test]
fn thread_names_differ() {
    assert_ne!(runtime_thread_name(1), runtime_thread_name(10));
    assert_ne!(runtime_thread_name(12), runtime_thread_name(21));
}
