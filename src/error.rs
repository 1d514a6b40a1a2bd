use vstd::prelude::*;
use vstd::string::StringExecFns;
use crate::util::{lossy_string, utf8_lossy};

verus! {

/// Status code of a call that completed normally.
pub const LUA_OK: i32 = 0;
/// Status code of a coroutine that yielded.
pub const LUA_YIELD: i32 = 1;
/// Status code of a runtime error.
pub const LUA_ERRRUN: i32 = 2;
/// Status code of a syntax error raised while compiling a chunk.
pub const LUA_ERRSYNTAX: i32 = 3;
/// Status code of a failed memory allocation.
pub const LUA_ERRMEM: i32 = 4;
/// Status code of an error raised by a `__gc` metamethod.
pub const LUA_ERRGCMM: i32 = 5;
/// Status code of an error raised while running the message handler.
pub const LUA_ERRERR: i32 = 6;
/// Status code of a file that could not be opened or read.
pub const LUA_ERRFILE: i32 = 7;

/// Categories of Lua errors, used by [`Error`].
#[derive(Debug, PartialEq, Eq, Clone, Copy, Structural)]
pub enum ErrorKind {
    Runtime,
    Syntax,
    OutOfMemory,
    MessageHandler,
    GarbageCollection,
    Io,
}

/// The kind of failure that a non-success status code stands for.
/// Codes outside the known set count as I/O failures.
pub open spec fn kind_of_status(code: i32) -> ErrorKind {
    if code == LUA_ERRRUN {
        ErrorKind::Runtime
    } else if code == LUA_ERRSYNTAX {
        ErrorKind::Syntax
    } else if code == LUA_ERRMEM {
        ErrorKind::OutOfMemory
    } else if code == LUA_ERRERR {
        ErrorKind::MessageHandler
    } else if code == LUA_ERRGCMM {
        ErrorKind::GarbageCollection
    } else {
        ErrorKind::Io
    }
}

impl ErrorKind {
    /// Classifies a non-success status code.
    pub fn from_status(code: i32) -> (r: ErrorKind)
        ensures
            r == kind_of_status(code),
    {
        if code == LUA_ERRRUN {
            ErrorKind::Runtime
        } else if code == LUA_ERRSYNTAX {
            ErrorKind::Syntax
        } else if code == LUA_ERRMEM {
            ErrorKind::OutOfMemory
        } else if code == LUA_ERRERR {
            ErrorKind::MessageHandler
        } else if code == LUA_ERRGCMM {
            ErrorKind::GarbageCollection
        } else {
            ErrorKind::Io
        }
    }
}

/// The text that describes a kind of error.
pub open spec fn kind_text(k: ErrorKind) -> Seq<char> {
    match k {
        ErrorKind::Runtime => "runtime error"@,
        ErrorKind::Syntax => "syntax error"@,
        ErrorKind::OutOfMemory => "out of memory"@,
        ErrorKind::MessageHandler => "error while running the message handler"@,
        ErrorKind::GarbageCollection => "error while running a __gc metamethod"@,
        ErrorKind::Io => "IO error"@,
    }
}

impl ErrorKind {
    /// Returns the text that describes this kind of error.
    pub fn description(self) -> (r: &'static str)
        ensures
            r@ == kind_text(self),
    {
        match self {
            ErrorKind::Runtime => "runtime error",
            ErrorKind::Syntax => "syntax error",
            ErrorKind::OutOfMemory => "out of memory",
            ErrorKind::MessageHandler => "error while running the message handler",
            ErrorKind::GarbageCollection => "error while running a __gc metamethod",
            ErrorKind::Io => "IO error",
        }
    }
}

/// The view of an optional message.
pub open spec fn msg_view(m: Option<String>) -> Option<Seq<char>> {
    match m {
        Some(s) => Some(s@),
        None => None,
    }
}

/// The message recovered from the bytes of an error object, if any.
pub open spec fn msg_of_bytes(b: Option<Seq<u8>>) -> Option<Seq<char>> {
    match b {
        Some(s) => Some(utf8_lossy(s)),
        None => None,
    }
}

/// The view of an optional byte string.
pub open spec fn bytes_view(b: Option<Vec<u8>>) -> Option<Seq<u8>> {
    match b {
        Some(v) => Some(v@),
        None => None,
    }
}

/// The Lua error type: a kind and, when the VM provided one, a message.
#[derive(Debug, Clone)]
pub struct Error {
    kind: ErrorKind,
    msg: Option<String>,
}

/// The abstract content of an [`Error`].
pub struct ErrorView {
    pub kind: ErrorKind,
    pub msg: Option<Seq<char>>,
}

impl View for Error {
    type V = ErrorView;

    closed spec fn view(&self) -> ErrorView {
        ErrorView { kind: self.kind, msg: msg_view(self.msg) }
    }
}

/// The error that a failed status code stands for, with the message read
/// off the error object.
pub open spec fn status_error(code: i32, msg: Option<Seq<u8>>) -> ErrorView {
    ErrorView { kind: kind_of_status(code), msg: msg_of_bytes(msg) }
}

/// The text of an error: its kind's description, then `": "` and the
/// message when there is one.
pub open spec fn error_text(e: ErrorView) -> Seq<char> {
    match e.msg {
        Some(m) => kind_text(e.kind) + ": "@ + m,
        None => kind_text(e.kind),
    }
}

impl Error {
    /// Creates an error of the given kind with an optional message.
    pub fn new(kind: ErrorKind, msg: Option<String>) -> (r: Error)
        ensures
            r@ == (ErrorView { kind, msg: msg_view(msg) }),
    {
        Error { kind, msg }
    }

    /// Returns the kind of this error.
    pub fn kind(&self) -> (r: ErrorKind)
        ensures
            r == self@.kind,
    {
        self.kind
    }

    /// Returns the text that describes this error's kind.
    pub fn description(&self) -> (r: &'static str)
        ensures
            r@ == kind_text(self@.kind),
    {
        self.kind.description()
    }

    /// Returns the message of this error.
    pub fn msg(&self) -> (r: Option<&str>)
        ensures
            r is Some <==> self@.msg is Some,
            r matches Some(m) ==> self@.msg == Some(m@),
    {
        match &self.msg {
            Some(m) => Some(m.as_str()),
            None => None,
        }
    }

    /// Translates a status code. `msg` holds the bytes of the error object's
    /// displayable form when the stack held one; it is ignored on success.
    pub fn from_status(code: i32, msg: Option<Vec<u8>>) -> (r: Result<(), Error>)
        ensures
            r is Ok <==> code == LUA_OK,
            r matches Err(e) ==> e@ == status_error(code, bytes_view(msg)),
    {
        if code == LUA_OK {
            Ok(())
        } else {
            let m = match msg {
                Some(b) => Some(lossy_string(b.as_slice())),
                None => None,
            };
            Err(Error { kind: ErrorKind::from_status(code), msg: m })
        }
    }

    /// Renders this error as text.
    pub fn to_text(&self) -> (r: String)
        ensures
            r@ == error_text(self@),
    {
        let mut s = String::from_str(self.kind.description());
        match &self.msg {
            Some(m) => {
                s.append(": ");
                s.append(m.as_str());
            },
            None => {},
        }
        s
    }
}

/// The text of the panic raised when an error escapes every protected call.
pub open spec fn panic_text(e: ErrorView) -> Seq<char> {
    match e.msg {
        Some(m) => "Lua panic: "@ + m,
        None => "Lua panic: <no error message>"@,
    }
}

impl Error {
    /// Returns the text of the panic that this error causes when it escapes
    /// every protected call.
    pub fn panic_text(&self) -> (r: String)
        ensures
            r@ == panic_text(self@),
    {
        match &self.msg {
            Some(m) => {
                let mut s = String::from_str("Lua panic: ");
                s.append(m.as_str());
                s
            },
            None => String::from_str("Lua panic: <no error message>"),
        }
    }
}

/// The Lua result type.
pub type LuaResult<T> = Result<T, Error>;

} // verus!
