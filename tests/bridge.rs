use hello_bridge::boundary::{hello, BoundaryAction, CallbackLookup};
use hello_bridge::payload::{decode_c_string, greeting, payload};

/// A host string constructor that copies the buffer's content into an owned
/// string, the way a managed runtime builds its string object.
fn copying_constructor(buf: &[u8]) -> String {
    let end = buf.iter().position(|&b| b == 0).expect("buffer without terminator");
    String::from_utf8(buf[..end].to_vec()).expect("buffer is not UTF-8")
}

/// A stand-in for the host's environment: a callback table that may be
/// missing, and a constructor slot that may be empty.
struct StubEnv {
    table: Option<Option<fn(&[u8]) -> String>>,
}

impl StubEnv {
    fn lookup(&self) -> CallbackLookup {
        match self.table {
            None => CallbackLookup::NullTable,
            Some(None) => CallbackLookup::EmptySlot,
            Some(Some(_)) => CallbackLookup::Present,
        }
    }

    /// Runs the entry point against this environment; `None` stands for the
    /// process being terminated.
    fn call_entry<T>(&self, this: &T) -> Option<String> {
        match hello(self.lookup(), this) {
            BoundaryAction::NewStringUtf(buf) => {
                let f = self.table.unwrap().unwrap();
                Some(f(&buf))
            }
            BoundaryAction::Abort => None,
        }
    }
}

#[test]
fn copying_stub_yields_greeting() {
    let env = StubEnv { table: Some(Some(copying_constructor)) };
    let s = env.call_entry(&"caller");
    assert_eq!(s, Some("this is string from rust!".to_string()));
}

#[test]
fn null_table_terminates() {
    let env = StubEnv { table: None };
    assert_eq!(env.lookup(), CallbackLookup::NullTable);
    assert!(matches!(hello(env.lookup(), &0u32), BoundaryAction::Abort));
    assert_eq!(env.call_entry(&0u32), None);
}

#[test]
fn every_missing_constructor_terminates() {
    for lookup in [
        CallbackLookup::NullEnvironment,
        CallbackLookup::NullTable,
        CallbackLookup::EmptySlot,
    ] {
        assert!(matches!(hello(lookup, &()), BoundaryAction::Abort));
    }
}

#[test]
fn present_constructor_gets_payload() {
    match hello(CallbackLookup::Present, &()) {
        BoundaryAction::NewStringUtf(buf) => {
            assert_eq!(buf, b"this is string from rust!\0".to_vec());
        }
        BoundaryAction::Abort => panic!("constructor was present"),
    }
}

#[test]
fn decoded_content_has_no_trailing_nul() {
    let p = payload();
    assert_eq!(p.len(), 26);
    assert_eq!(p[25], 0);
    let content = decode_c_string(&p).unwrap();
    assert_eq!(content.len(), 25);
    let text = String::from_utf8(content).unwrap();
    assert_eq!(text.chars().count(), 25);
    assert!(!text.contains('\0'));
    assert_eq!(text, "this is string from rust!");
}

#[test]
fn greeting_text() {
    assert_eq!(greeting(), "this is string from rust!");
    assert!(greeting().is_ascii());
}

#[test]
fn caller_handle_has_no_effect() {
    let env = StubEnv { table: Some(Some(copying_constructor)) };
    let a = env.call_entry(&1u64);
    let b = env.call_entry(&vec!["another", "caller"]);
    assert_eq!(a, b);
    assert!(a.is_some());
}

#[test]
fn thousand_calls_agree_and_payload_stays() {
    let env = StubEnv { table: Some(Some(copying_constructor)) };
    for _ in 0..1000 {
        assert_eq!(env.call_entry(&()), Some("this is string from rust!".to_string()));
        // Whatever a caller does to the buffer it was given does not reach
        // the next call.
        if let BoundaryAction::NewStringUtf(mut buf) = hello(CallbackLookup::Present, &()) {
            for b in buf.iter_mut() {
                *b = b'x';
            }
        }
    }
    assert_eq!(payload(), b"this is string from rust!\0".to_vec());
}

#[test]
fn decode_rejects_empty_buffer() {
    assert_eq!(decode_c_string(&[]), None);
}

#[test]
fn decode_rejects_missing_terminator() {
    assert_eq!(decode_c_string(b"abc"), None);
}

#[test]
fn decode_rejects_interior_nul() {
    assert_eq!(decode_c_string(b"ab\0c\0"), None);
}

#[test]
fn decode_lone_terminator_is_empty() {
    assert_eq!(decode_c_string(b"\0"), Some(Vec::new()));
}

#[test]
fn decode_drops_terminator() {
    assert_eq!(decode_c_string(b"hi\0"), Some(b"hi".to_vec()));
}
