use pollua::error::{
    Error, ErrorKind, LUA_ERRERR, LUA_ERRFILE, LUA_ERRGCMM, LUA_ERRMEM, LUA_ERRRUN,
    LUA_ERRSYNTAX, LUA_OK, LUA_YIELD,
};

#[test]
fn status_codes_classify() {
    assert_eq!(ErrorKind::from_status(LUA_ERRRUN), ErrorKind::Runtime);
    assert_eq!(ErrorKind::from_status(LUA_ERRSYNTAX), ErrorKind::Syntax);
    assert_eq!(ErrorKind::from_status(LUA_ERRMEM), ErrorKind::OutOfMemory);
    assert_eq!(ErrorKind::from_status(LUA_ERRERR), ErrorKind::MessageHandler);
    assert_eq!(ErrorKind::from_status(LUA_ERRGCMM), ErrorKind::GarbageCollection);
    assert_eq!(ErrorKind::from_status(LUA_ERRFILE), ErrorKind::Io);
}

#[test]
fn unknown_status_codes_fall_back_to_io() {
    assert_eq!(ErrorKind::from_status(LUA_YIELD), ErrorKind::Io);
    assert_eq!(ErrorKind::from_status(42), ErrorKind::Io);
    assert_eq!(ErrorKind::from_status(-3), ErrorKind::Io);
}

#[test]
fn success_status_is_ok() {
    assert!(Error::from_status(LUA_OK, None).is_ok());
    assert!(Error::from_status(LUA_OK, Some(b"ignored".to_vec())).is_ok());
}

#[test]
fn failure_status_carries_message() {
    let e = Error::from_status(LUA_ERRSYNTAX, Some(b"[string \"x\"]:1: unexpected symbol".to_vec()))
        .unwrap_err();
    assert_eq!(e.kind(), ErrorKind::Syntax);
    assert_eq!(e.msg(), Some("[string \"x\"]:1: unexpected symbol"));

    let e = Error::from_status(LUA_ERRMEM, None).unwrap_err();
    assert_eq!(e.kind(), ErrorKind::OutOfMemory);
    assert_eq!(e.msg(), None);
}

#[test]
fn invalid_utf8_message_is_replaced() {
    let e = Error::from_status(LUA_ERRRUN, Some(vec![b'a', 0xff, b'b'])).unwrap_err();
    assert_eq!(e.msg(), Some("a\u{FFFD}b"));
}

#[test]
fn error_text_with_and_without_message() {
    let e = Error::new(ErrorKind::Runtime, Some("oops".to_string()));
    assert_eq!(e.to_text(), "runtime error: oops");
    let e = Error::new(ErrorKind::Io, None);
    assert_eq!(e.to_text(), "IO error");
    assert_eq!(e.description(), "IO error");
}

#[test]
fn kind_descriptions() {
    assert_eq!(ErrorKind::Runtime.description(), "runtime error");
    assert_eq!(ErrorKind::Syntax.description(), "syntax error");
    assert_eq!(ErrorKind::OutOfMemory.description(), "out of memory");
    assert_eq!(
        ErrorKind::MessageHandler.description(),
        "error while running the message handler"
    );
    assert_eq!(
        ErrorKind::GarbageCollection.description(),
        "error while running a __gc metamethod"
    );
    assert_eq!(ErrorKind::Io.description(), "IO error");
}

#[test]
fn panic_texts() {
    let e = Error::new(ErrorKind::Runtime, Some("attempt to call a nil value".to_string()));
    assert_eq!(e.panic_text(), "Lua panic: attempt to call a nil value");
    let e = Error::new(ErrorKind::Runtime, None);
    assert_eq!(e.panic_text(), "Lua panic: <no error message>");
}
