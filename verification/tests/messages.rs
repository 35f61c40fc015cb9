use std::any::Any;
use task::exit::{ExitValue, KillReason};
use task::panic_info::{PanicInfoOwned, PanicLocation, PanicReport};
use task::text::{append_decimal, append_hexadecimal, append_option, append_quoted};

type Payload = Box<dyn Any + Send>;

fn decimal(n: u64) -> String {
    let mut out = String::from("n=");
    append_decimal(&mut out, n);
    out
}

fn hexadecimal(n: u8) -> String {
    let mut out = String::new();
    append_hexadecimal(&mut out, n);
    out
}

#[test]
fn numerals_agree_with_the_standard_library() {
    for n in [0u64, 1, 9, 10, 11, 99, 100, 12345, u32::MAX as u64, u64::MAX] {
        assert_eq!(decimal(n), format!("n={}", n));
    }
    for n in 0..=255u8 {
        assert_eq!(hexadecimal(n), format!("{:X}", n));
    }
}

#[test]
fn options_agree_with_the_standard_library() {
    for value in [None, Some(0u8), Some(7), Some(42), Some(255)] {
        let mut out = String::from("core: ");
        append_option(&mut out, value);
        assert_eq!(out, format!("core: {:?}", value));
    }
}

#[test]
fn quoted_text_is_escaped() {
    let mut out = String::from("<");
    append_quoted(&mut out, "a \"b\"\n\\");
    assert_eq!(out, "<\"a \\\"b\\\"\\n\\\\\"");
}

#[test]
fn from_payload_has_no_message_and_no_location() {
    let info: PanicInfoOwned<Payload> = PanicInfoOwned::from_payload(Box::new(17i32));
    assert_eq!(info.payload.unwrap().downcast_ref::<i32>(), Some(&17));
    assert_eq!(info.msg, "");
    assert_eq!(info.file, "");
    assert_eq!(info.line, 0);
    assert_eq!(info.column, 0);
}

#[test]
fn default_is_blank() {
    let info: PanicInfoOwned<Payload> = Default::default();
    assert!(info.payload.is_none());
    assert_eq!(info.to_string(), ":0:0 -- \"\"");
}

#[test]
fn report_with_message_and_location() {
    let report = PanicReport {
        message: Some(String::from("index out of bounds")),
        location: Some(PanicLocation { file: String::from("src/app.rs"), line: 12, column: 345 }),
    };
    let info: PanicInfoOwned<Payload> = PanicInfoOwned::from(&report);
    assert!(info.payload.is_none());
    assert_eq!(info.msg, "index out of bounds");
    assert_eq!(info.file, "src/app.rs");
    assert_eq!((info.line, info.column), (12, 345));
    assert_eq!(info.to_string(), "src/app.rs:12:345 -- \"index out of bounds\"");
}

#[test]
fn report_without_message_and_location() {
    let info: PanicInfoOwned<Payload> =
        PanicInfoOwned::from(&PanicReport { message: None, location: None });
    assert_eq!(info.msg, "");
    assert_eq!(info.file, "");
    assert_eq!((info.line, info.column), (0, 0));
}

#[test]
fn report_with_location_alone() {
    let report = PanicReport {
        message: None,
        location: Some(PanicLocation { file: String::from("x.rs"), line: 1, column: 2 }),
    };
    let info: PanicInfoOwned<Payload> = PanicInfoOwned::from(&report);
    assert_eq!(info.to_string(), "x.rs:1:2 -- \"\"");
}

#[test]
fn kill_reasons_are_told() {
    let requested: KillReason<Payload> = KillReason::Requested;
    assert_eq!(requested.to_string(), "Requested");

    let page_fault: KillReason<Payload> = KillReason::Exception(14);
    assert_eq!(page_fault.to_string(), "Exception 0xE(14)");
    let last: KillReason<Payload> = KillReason::Exception(255);
    assert_eq!(last.to_string(), "Exception 0xFF(255)");
    let first: KillReason<Payload> = KillReason::Exception(0);
    assert_eq!(first.to_string(), "Exception 0x0(0)");

    let report = PanicReport {
        message: Some(String::from("no \"luck\"")),
        location: Some(PanicLocation { file: String::from("y.rs"), line: 3, column: 9 }),
    };
    let panicked: KillReason<Payload> = KillReason::Panic(PanicInfoOwned::from(&report));
    assert_eq!(panicked.to_string(), "Panicked at y.rs:3:9 -- \"no \\\"luck\\\"\"");
}

#[test]
fn exit_values_carry_any_payload() {
    let value: ExitValue<Payload> = ExitValue::Completed(Box::new(-1isize));
    match value {
        ExitValue::Completed(payload) => assert_eq!(payload.downcast_ref::<isize>(), Some(&-1)),
        ExitValue::Killed(_) => panic!("not killed"),
    }
}
