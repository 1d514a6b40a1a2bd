use vstd::prelude::*;
use crate::call::Caller;
use crate::error::{bytes_view, status_error, Error, ErrorKind, ErrorView, LuaResult};
use crate::value::LUA_TFUNCTION;

verus! {

/// How the bytes handed to the loader are to be read.
#[derive(Debug, Copy, Clone, PartialEq, Eq, Structural)]
pub enum LoadingMode {
    Binary,
    Text,
    Auto,
}

/// The mode string the loader takes for each loading mode, nul included.
pub open spec fn mode_text(m: LoadingMode) -> Seq<char> {
    match m {
        LoadingMode::Binary => "b\0"@,
        LoadingMode::Text => "t\0"@,
        LoadingMode::Auto => "bt\0"@,
    }
}

impl LoadingMode {
    /// Returns the mode string, as a C string, that the loader takes.
    pub fn mode_str(self) -> (r: &'static str)
        ensures
            r@ == mode_text(self),
    {
        match self {
            LoadingMode::Binary => "b\0",
            LoadingMode::Text => "t\0",
            LoadingMode::Auto => "bt\0",
        }
    }
}

/// What the default allocator does for one request from the state.
#[derive(Debug, Copy, Clone, PartialEq, Eq, Structural)]
pub enum AllocRequest {
    /// Free the block; the answer is null.
    Free,
    /// Nothing to free; the answer is null.
    Nothing,
    /// Allocate a new block of the new size.
    Allocate,
    /// Resize the block from the old size to the new size.
    Reallocate,
}

/// Classifies an allocator request by whether it names a block and by the
/// size asked for: a size of zero frees.
pub fn alloc_request(block_is_null: bool, nsize: usize) -> (r: AllocRequest)
    ensures
        nsize == 0 && !block_is_null ==> r == AllocRequest::Free,
        nsize == 0 && block_is_null ==> r == AllocRequest::Nothing,
        nsize > 0 && block_is_null ==> r == AllocRequest::Allocate,
        nsize > 0 && !block_is_null ==> r == AllocRequest::Reallocate,
{
    if nsize == 0 {
        if block_is_null {
            AllocRequest::Nothing
        } else {
            AllocRequest::Free
        }
    } else if block_is_null {
        AllocRequest::Allocate
    } else {
        AllocRequest::Reallocate
    }
}

/// The owner of one Lua state, and the account of its value stack.
///
/// The host performs each operation on the state; the methods here decide
/// what the operation means and keep count of the stack slots that the
/// wrapper's own objects hold. The view is that stack depth.
#[derive(Debug)]
pub struct Thread {
    top: usize,
}

impl View for Thread {
    type V = nat;

    closed spec fn view(&self) -> nat {
        self.top as nat
    }
}

impl Thread {
    /// Starts the account of a freshly created state, whose stack is empty.
    /// `created` tells whether the state could be allocated at all; if not,
    /// the result is an out-of-memory error without message.
    pub fn open(created: bool) -> (r: LuaResult<Thread>)
        ensures
            r is Ok <==> created,
            r matches Ok(t) ==> t@ == 0,
            r matches Err(e) ==> e@ == (ErrorView { kind: ErrorKind::OutOfMemory, msg: None }),
    {
        if created {
            Ok(Thread { top: 0 })
        } else {
            Err(Error::new(ErrorKind::OutOfMemory, None))
        }
    }

    /// Interprets the outcome of the version probe, which the host pushes and
    /// runs protected with no arguments and no results. A version mismatch
    /// makes the probe raise a runtime error. On failure the host reads the
    /// message into `msg` and pops the error object, so the stack is left as
    /// it was either way and the thread stays fit to be closed.
    pub fn check_version(&mut self, status: i32, msg: Option<Vec<u8>>) -> (r: LuaResult<()>)
        ensures
            final(self)@ == old(self)@,
            status == crate::error::LUA_ERRRUN ==> (r matches Err(e) && e@.kind
                == ErrorKind::Runtime),
            r is Ok <==> status == crate::error::LUA_OK,
            r matches Err(e) ==> e@ == status_error(status, bytes_view(msg)),
    {
        self.get_error(status, msg)
    }

    /// Returns the error for the status `code`. When `code` is not a success,
    /// `msg` holds the displayable form of the object on top of the stack, if
    /// there is one; the host pops the copy it made to read it.
    pub fn get_error(&mut self, code: i32, msg: Option<Vec<u8>>) -> (r: LuaResult<()>)
        ensures
            final(self)@ == old(self)@,
            r is Ok <==> code == crate::error::LUA_OK,
            r matches Err(e) ==> e@ == status_error(code, bytes_view(msg)),
    {
        Error::from_status(code, msg)
    }

    /// Returns the accounted stack depth.
    pub fn top(&self) -> (r: usize)
        ensures
            r == self@,
    {
        self.top
    }

    /// Takes over the stack depth after the host has changed the stack by
    /// itself (pushing values, registering functions).
    pub fn set_top(&mut self, top: usize)
        ensures
            final(self)@ == top,
    {
        self.top = top;
    }

    /// Interprets a global lookup: the host has pushed `_G[name]`, whose type
    /// code is `code`. When it is a function, a caller for it is returned and
    /// holds that slot; otherwise the result is `None` and the host pops the
    /// value again.
    pub fn caller_global(&mut self, code: i32) -> (r: Option<Caller>)
        requires
            old(self)@ < usize::MAX,
        ensures
            r is Some <==> code == LUA_TFUNCTION,
            r matches Some(c) ==> c.base_depth() == old(self)@ && c.arg_count() == 0
                && final(self)@ == c.depth(),
            r is None ==> final(self)@ == old(self)@,
    {
        if code == LUA_TFUNCTION {
            let c = Caller::on_stack(self.top);
            self.top = self.top + 1;
            Some(c)
        } else {
            None
        }
    }

    /// Interprets the loader's status: it has pushed either the compiled
    /// chunk, a function, or an error object. On success a caller for the
    /// chunk is returned; on failure the host reads the message into `msg` and
    /// pops the error object.
    pub fn caller_load(&mut self, status: i32, msg: Option<Vec<u8>>) -> (r: LuaResult<Caller>)
        requires
            old(self)@ < usize::MAX,
        ensures
            r is Ok <==> status == crate::error::LUA_OK,
            r matches Ok(c) ==> c.base_depth() == old(self)@ && c.arg_count() == 0
                && final(self)@ == c.depth(),
            r matches Err(e) ==> e@ == status_error(status, bytes_view(msg))
                && final(self)@ == old(self)@,
    {
        match Error::from_status(status, msg) {
            Ok(()) => {
                let c = Caller::on_stack(self.top);
                self.top = self.top + 1;
                Ok(c)
            },
            Err(e) => Err(e),
        }
    }

    /// Gives up the account of the state, which the host then closes. The
    /// thread is consumed, so a state is closed once.
    pub fn close(self) {
    }
}

} // verus!
