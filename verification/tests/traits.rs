use lessons::traits::lesson10;
use lessons::traits::lesson7::{self, do_closure, Entity, X};
use lessons::traits::lesson8::client::{debug_line, readline, Connection};
use lessons::traits::lesson8::error::{
    validate_message, Bad, Bye, Foreign, ImapError, No, ParseError, ValidateError,
};
use lessons::traits::lesson8::{settle, ClientBuilder, ConnectionMode, TlsKind, Transport};
use lessons::traits::lesson_3;
use lessons::traits::lesson_3::gpio::{
    AnyIOPin, AnyInputPin, AnyOutputPin, Gpio0, Gpio34, IOPin, InputPin, OutputPin, Pin,
    PinDriver,
};
use lessons::traits::lesson_3::peripheral::{Peripheral, PeripheralRef};
use lessons::traits::{decimal, lesson_2, runner, BlanketError, Device, RTCDevice};

#[test]
fn validate_error_display() {
    assert_eq!(
        ValidateError {
            command_synopsis: "COMMAND arg1 arg2".to_owned(),
            argument: "arg2".to_string(),
            offending_char: '\n'
        }
        .to_string(),
        "Invalid character '\\n' in argument 'arg2' of command 'COMMAND arg1 arg2'"
    );
}

#[test]
fn validate_error_quotes_the_character() {
    let error = ValidateError {
        command_synopsis: "LOGIN user".to_owned(),
        argument: "user".to_string(),
        offending_char: 'x',
    };
    assert_eq!(
        error.to_string(),
        "Invalid character 'x' in argument 'user' of command 'LOGIN user'"
    );
    assert_eq!(error.description(), "Invalid character in command argument");
    assert!(error.cause().is_none());
    assert_eq!(
        validate_message("Q", "a", "c"),
        "Invalid character Q in argument 'a' of command 'c'"
    );
}

#[test]
fn decimal_of_bytes() {
    assert_eq!(decimal(0), "0");
    assert_eq!(decimal(9), "9");
    assert_eq!(decimal(10), "10");
    assert_eq!(decimal(99), "99");
    assert_eq!(decimal(100), "100");
    assert_eq!(decimal(101), "101");
    assert_eq!(decimal(255), "255");
    for n in 0..=255u8 {
        assert_eq!(decimal(n), n.to_string());
    }
}

#[test]
fn devices_show_their_number() {
    assert_eq!(Device::new(1).to_text(), "Device (1)");
    assert_eq!(Device::new(255).to_text(), "Device (255)");
    assert_eq!(RTCDevice(42).to_text(), "42");
}

#[test]
fn blanket_error_keeps_the_message() {
    let error = BlanketError::new(String::from("disk full"));
    assert_eq!(error.to_text(), "disk full");
    assert_eq!(error.into_inner(), "disk full");
}

#[test]
fn trait_lessons_run() {
    lesson_2();
    assert_eq!(lesson_3::run(), Ok(()));
    assert_eq!(lesson7::run(), (100, 10));
    assert_eq!(lesson10::run(), (2, 0));
    assert_eq!(runner(), Ok((100, 10)));
}

#[test]
fn entity_calls_the_closure() {
    let e = Entity {};
    let x: u8 = 7;
    assert_eq!(e.foo(&move || x + 1), 8);
    assert_eq!(e.foo(&do_closure), 10);
    assert_eq!(do_closure(), 10);
}

#[test]
fn counter_starts_at_zero() {
    let shown = format!("{:?}", lesson10::Entity::new());
    assert!(shown.contains('0'));
}

#[test]
fn pins_keep_their_number() {
    assert_eq!(Gpio0::new().pin(), 0);
    assert_eq!(Gpio34::new().pin(), 34);
    assert_eq!(Gpio0::new().downgrade().pin(), 0);
    assert_eq!(Gpio0::new().downgrade_input().pin(), 0);
    assert_eq!(Gpio0::new().downgrade_output().pin(), 0);
    assert_eq!(Gpio34::new().downgrade_input().pin(), 34);
    assert_eq!(AnyIOPin::new(7).downgrade_input().pin(), 7);
    assert_eq!(AnyIOPin::new(7).downgrade_output().pin(), 7);
    assert_eq!(AnyInputPin::from(AnyIOPin::new(-3)).pin(), -3);
    assert_eq!(AnyOutputPin::from(AnyIOPin::new(i32::MAX)).pin(), i32::MAX);
    assert_eq!(AnyInputPin::new(5).pin(), 5);
    assert_eq!(AnyOutputPin::new(6).pin(), 6);
}

#[test]
fn drivers_keep_the_pin() {
    let mut driver = PinDriver::input_output(AnyIOPin::new(12)).unwrap();
    assert_eq!(driver.pin(), 12);
    assert_eq!(driver.toggle(), Ok(()));
    assert_eq!(driver.pin(), 12);
    let driver = driver.into_input().unwrap();
    assert_eq!(driver.pin(), 12);
    let driver = driver.into_output().unwrap();
    assert_eq!(driver.pin(), 12);
    let driver = driver.into_input_output().unwrap();
    assert_eq!(driver.pin(), 12);
    assert_eq!(PinDriver::input(Gpio34::new()).unwrap().pin(), 34);
    assert_eq!(PinDriver::output(AnyOutputPin::new(2)).unwrap().pin(), 2);
}

#[test]
fn handles_hold_the_peripheral() {
    let mut handle = PeripheralRef::new(AnyIOPin::new(4));
    assert_eq!(handle.pin(), 4);
    assert_eq!(handle.clone_unchecked().pin(), 4);
    assert_eq!(handle.reborrow().pin(), 4);
    let input: PeripheralRef<'_, AnyInputPin> = handle.map_into();
    assert_eq!(input.pin(), 4);
    let mut pin = AnyIOPin::new(9);
    assert_eq!(pin.clone_unchecked().pin(), 9);
    assert_eq!(pin.into_ref().pin(), 9);
    let mut handle = PeripheralRef::new(AnyOutputPin::new(1));
    handle.pin = 3;
    assert_eq!(handle.pin(), 3);
}

#[test]
fn builder_insists_on_tls_by_default() {
    let builder = ClientBuilder::new("imap.example.com", 143);
    assert_eq!(builder.transport(), Transport::Upgrade { required: true });
    assert_eq!(builder.port(), 143);
    assert_eq!(*builder.domain(), "imap.example.com");
    assert_eq!(builder.backend(), TlsKind::Any);
    assert!(!builder.skips_tls_verify());
    let builder = ClientBuilder::new("imap.example.com", 993);
    assert_eq!(builder.transport(), Transport::Handshake);
}

#[test]
fn builder_settings_are_chained() {
    let mut builder = ClientBuilder::new(String::from("mail"), 143);
    builder
        .mode(ConnectionMode::Plaintext)
        .tls_kind(TlsKind::Rust)
        .danger_skip_tls_verify(true);
    assert_eq!(builder.transport(), Transport::Plain);
    assert_eq!(builder.backend(), TlsKind::Rust);
    assert!(builder.skips_tls_verify());
    assert_eq!(builder.port(), 143);
    assert_eq!(builder.domain(), "mail");
    builder.tls_kind(TlsKind::Native);
    assert_eq!(builder.backend(), TlsKind::Native);
    assert_eq!(builder.clone().transport(), Transport::Plain);
}

#[test]
fn transport_follows_mode_and_port() {
    let table = [
        (ConnectionMode::AutoTls, 993, Transport::Handshake),
        (
            ConnectionMode::AutoTls,
            143,
            Transport::Upgrade { required: true },
        ),
        (ConnectionMode::Auto, 993, Transport::Handshake),
        (
            ConnectionMode::Auto,
            143,
            Transport::Upgrade { required: false },
        ),
        (ConnectionMode::Plaintext, 993, Transport::Plain),
        (ConnectionMode::Plaintext, 143, Transport::Plain),
        (
            ConnectionMode::StartTls,
            993,
            Transport::Upgrade { required: true },
        ),
        (
            ConnectionMode::StartTls,
            143,
            Transport::Upgrade { required: true },
        ),
        (ConnectionMode::Tls, 993, Transport::Handshake),
        (ConnectionMode::Tls, 143, Transport::Handshake),
    ];
    for (mode, port, transport) in table {
        let mut builder = ClientBuilder::new("imap.example.com", port);
        builder.mode(mode);
        assert_eq!(builder.transport(), transport);
    }
}

#[test]
fn settle_tells_whether_the_greeting_was_read() {
    assert!(matches!(settle(Transport::Handshake, false), Ok(false)));
    assert!(matches!(settle(Transport::Handshake, true), Ok(false)));
    assert!(matches!(settle(Transport::Plain, false), Ok(false)));
    assert!(matches!(
        settle(Transport::Upgrade { required: false }, false),
        Ok(true)
    ));
    assert!(matches!(
        settle(Transport::Upgrade { required: false }, true),
        Ok(true)
    ));
    assert!(matches!(
        settle(Transport::Upgrade { required: true }, true),
        Ok(true)
    ));
    assert!(matches!(
        settle(Transport::Upgrade { required: true }, false),
        Err(ImapError::StartTlsNotAvailable)
    ));
}

#[test]
fn greeting_is_read_once() {
    let mut connection = Connection::new();
    assert_eq!(connection.tag, 0);
    assert!(!connection.debug);
    assert!(!connection.greeting_read);
    assert!(matches!(
        connection.read_greeting(0, vec![]),
        Err(ImapError::ConnectionLost)
    ));
    assert!(!connection.greeting_read);
    let greeting = connection.read_greeting(7, b"* OK \r\n".to_vec());
    assert_eq!(greeting.unwrap(), b"* OK \r\n".to_vec());
    assert!(connection.greeting_read);
    assert_eq!(connection.tag, 0);
}

#[test]
fn lines_are_counted_and_shown() {
    assert!(matches!(readline(0), Err(ImapError::ConnectionLost)));
    assert!(matches!(readline(1), Ok(1)));
    assert!(matches!(readline(usize::MAX), Ok(usize::MAX)));
    let into = b"* OK one\r\n* OK two\r\n";
    assert_eq!(debug_line(into, 10), Some(&b"* OK two"[..]));
    assert_eq!(debug_line(into, 20), Some(&b"* OK one\r\n* OK two"[..]));
    assert_eq!(debug_line(into, 2), Some(&b""[..]));
    assert_eq!(debug_line(into, 1), None);
    assert_eq!(debug_line(into, 21), None);
}

fn foreign(message: &str, description: &str) -> Foreign {
    Foreign {
        message: message.to_string(),
        description: description.to_string(),
    }
}

#[test]
fn every_error_says_what_it_is() {
    let cases = vec![
        (
            ImapError::Io(foreign("broken pipe", "io")),
            "broken pipe",
            "io",
        ),
        (
            ImapError::RustlsHandshakeErr(foreign("bad certificate", "tls")),
            "bad certificate",
            "tls",
        ),
        (
            ImapError::Bad(Bad {
                information: "syntax".to_string(),
                code: None,
            }),
            "Bad Response: syntax",
            "Bad Response",
        ),
        (
            ImapError::No(No {
                information: "denied".to_string(),
                code: Some("AUTH".to_string()),
            }),
            "No Response: denied",
            "No Response",
        ),
        (
            ImapError::Bye(Bye {
                information: "going down".to_string(),
                code: None,
            }),
            "Bye Response: going down",
            "Bye Response",
        ),
        (
            ImapError::ConnectionLost,
            "Connection Lost",
            "Connection lost",
        ),
        (
            ImapError::Parse(ParseError::Invalid(vec![1, 2])),
            "Unable to parse status response",
            "Unable to parse status response",
        ),
        (
            ImapError::Parse(ParseError::Authentication("x".to_string(), None)),
            "Unable to parse authentication response",
            "Unable to parse authentication response",
        ),
        (
            ImapError::Parse(ParseError::DataNotUtf8(vec![0xff], foreign("invalid utf-8", "utf8"))),
            "Unable to parse data as UTF-8 text",
            "Unable to parse data as UTF-8 text",
        ),
        (
            ImapError::Validate(ValidateError {
                command_synopsis: "C a".to_string(),
                argument: "a".to_string(),
                offending_char: '\r',
            }),
            "Invalid character '\\r' in argument 'a' of command 'C a'",
            "Invalid character in command argument",
        ),
        (
            ImapError::Append,
            "Could not append mail to mailbox",
            "Could not append mail to mailbox",
        ),
        (
            ImapError::Unexpected("Done".to_string()),
            "Unexpected Response: Done",
            "Unexpected Response",
        ),
        (
            ImapError::MissingStatusResponse,
            "Missing STATUS Response",
            "Missing STATUS Response",
        ),
        (
            ImapError::StartTlsNotAvailable,
            "StartTls is not available on the server",
            "StartTls is not available on the server",
        ),
        (
            ImapError::TlsNotConfigured,
            "No Tls feature is available",
            "No Tls feature is available",
        ),
    ];
    for (error, text, description) in cases {
        assert_eq!(error.to_text(), text);
        assert_eq!(error.description(), description);
    }
}

#[test]
fn causes_are_the_errors_underneath() {
    let io = ImapError::Io(foreign("broken pipe", "io"));
    assert_eq!(io.cause().map(|e| e.message.as_str()), Some("broken pipe"));
    let tls = ImapError::RustlsHandshakeErr(foreign("bad certificate", "tls"));
    assert_eq!(tls.cause().map(|e| e.description.as_str()), Some("tls"));
    let data = ImapError::Parse(ParseError::DataNotUtf8(vec![], foreign("invalid utf-8", "u")));
    assert_eq!(
        data.cause().map(|e| e.message.as_str()),
        Some("invalid utf-8")
    );
    let auth = ParseError::Authentication("x".to_string(), Some(foreign("bad padding", "b64")));
    assert_eq!(
        auth.cause().map(|e| e.message.as_str()),
        Some("bad padding")
    );
    assert!(ImapError::from(auth).cause().is_none());
    assert!(ParseError::Authentication("x".to_string(), None)
        .cause()
        .is_none());
    assert!(ParseError::Invalid(vec![]).cause().is_none());
    assert!(ParseError::DataNotUtf8(vec![], foreign("m", "d"))
        .cause()
        .is_none());
    assert!(ImapError::ConnectionLost.cause().is_none());
    assert!(ImapError::Append.cause().is_none());
}

#[test]
fn responses_say_their_information() {
    let bad = Bad {
        information: "syntax".to_string(),
        code: None,
    };
    assert_eq!(bad.to_text(), "syntax");
    let no = No {
        information: "denied".to_string(),
        code: None,
    };
    assert_eq!(no.to_text(), "denied");
    let bye = Bye {
        information: "".to_string(),
        code: None,
    };
    assert_eq!(bye.to_text(), "");
    assert_eq!(
        ParseError::Invalid(vec![]).to_text(),
        "Unable to parse status response"
    );
}
