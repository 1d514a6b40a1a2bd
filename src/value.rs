use vstd::prelude::*;
use vstd::utf8::{decode_utf8, valid_utf8};
use core::marker::PhantomData;
use crate::util::{lossy_string, str_from_utf8, utf8_lossy};

verus! {

/// Type code of an absent stack slot.
pub const LUA_TNONE: i32 = -1;
/// Type code of `nil`.
pub const LUA_TNIL: i32 = 0;
/// Type code of a boolean.
pub const LUA_TBOOLEAN: i32 = 1;
/// Type code of a light userdata.
pub const LUA_TLIGHTUSERDATA: i32 = 2;
/// Type code of a number.
pub const LUA_TNUMBER: i32 = 3;
/// Type code of a string.
pub const LUA_TSTRING: i32 = 4;
/// Type code of a table.
pub const LUA_TTABLE: i32 = 5;
/// Type code of a function.
pub const LUA_TFUNCTION: i32 = 6;
/// Type code of a full userdata.
pub const LUA_TUSERDATA: i32 = 7;
/// Type code of a thread.
pub const LUA_TTHREAD: i32 = 8;

/// Lua value type.
#[derive(Debug, Copy, Clone, PartialEq, Eq, Structural)]
pub enum ValueType {
    Nil,
    Boolean,
    Number,
    String,
    Function,
    LightUserdata,
    Userdata,
    Thread,
    Table,
}

/// The type code of each value type.
pub open spec fn type_code(t: ValueType) -> i32 {
    match t {
        ValueType::Nil => LUA_TNIL,
        ValueType::Boolean => LUA_TBOOLEAN,
        ValueType::Number => LUA_TNUMBER,
        ValueType::String => LUA_TSTRING,
        ValueType::Function => LUA_TFUNCTION,
        ValueType::LightUserdata => LUA_TLIGHTUSERDATA,
        ValueType::Userdata => LUA_TUSERDATA,
        ValueType::Thread => LUA_TTHREAD,
        ValueType::Table => LUA_TTABLE,
    }
}

/// The value type of a type code, if the code names one.
pub open spec fn type_of_code(code: i32) -> Option<ValueType> {
    if code == LUA_TNIL {
        Some(ValueType::Nil)
    } else if code == LUA_TBOOLEAN {
        Some(ValueType::Boolean)
    } else if code == LUA_TNUMBER {
        Some(ValueType::Number)
    } else if code == LUA_TSTRING {
        Some(ValueType::String)
    } else if code == LUA_TFUNCTION {
        Some(ValueType::Function)
    } else if code == LUA_TLIGHTUSERDATA {
        Some(ValueType::LightUserdata)
    } else if code == LUA_TUSERDATA {
        Some(ValueType::Userdata)
    } else if code == LUA_TTHREAD {
        Some(ValueType::Thread)
    } else if code == LUA_TTABLE {
        Some(ValueType::Table)
    } else {
        None
    }
}

impl ValueType {
    /// Returns the value type of a type code, or `None` for a code that names
    /// no type (such as that of an absent slot).
    pub fn from_code(code: i32) -> (r: Option<ValueType>)
        ensures
            r == type_of_code(code),
    {
        if code == LUA_TNIL {
            Some(ValueType::Nil)
        } else if code == LUA_TBOOLEAN {
            Some(ValueType::Boolean)
        } else if code == LUA_TNUMBER {
            Some(ValueType::Number)
        } else if code == LUA_TSTRING {
            Some(ValueType::String)
        } else if code == LUA_TFUNCTION {
            Some(ValueType::Function)
        } else if code == LUA_TLIGHTUSERDATA {
            Some(ValueType::LightUserdata)
        } else if code == LUA_TUSERDATA {
            Some(ValueType::Userdata)
        } else if code == LUA_TTHREAD {
            Some(ValueType::Thread)
        } else if code == LUA_TTABLE {
            Some(ValueType::Table)
        } else {
            None
        }
    }

    /// Returns the type code of this value type.
    pub fn code(self) -> (r: i32)
        ensures
            r == type_code(self),
    {
        match self {
            ValueType::Nil => LUA_TNIL,
            ValueType::Boolean => LUA_TBOOLEAN,
            ValueType::Number => LUA_TNUMBER,
            ValueType::String => LUA_TSTRING,
            ValueType::Function => LUA_TFUNCTION,
            ValueType::LightUserdata => LUA_TLIGHTUSERDATA,
            ValueType::Userdata => LUA_TUSERDATA,
            ValueType::Thread => LUA_TTHREAD,
            ValueType::Table => LUA_TTABLE,
        }
    }
}

/// Type codes and value types correspond one to one.
pub proof fn lemma_type_code_round_trip(t: ValueType, code: i32)
    ensures
        type_of_code(type_code(t)) == Some(t),
        type_of_code(code) matches Some(u) ==> type_code(u) == code,
{
}

/// Kinds of values that can be read off the stack.
pub trait Sealed {}

/// A kind of value that can be read off the top of the stack.
pub trait Value: Sealed {
    /// Returns the type of this kind of value.
    fn value_type() -> ValueType;
}

/// The Lua `nil` value.
#[derive(Default, Debug, Copy, Clone, PartialEq, Eq, Structural)]
pub struct LuaNil;

impl Sealed for LuaNil {}

impl Value for LuaNil {
    fn value_type() -> ValueType {
        ValueType::Nil
    }
}

impl LuaNil {
    /// Returns the text of `nil`.
    pub fn to_text(&self) -> (r: String)
        ensures
            r@ == "nil"@,
    {
        String::from_str("nil")
    }
}

/// A borrowed Lua string: a sequence of bytes, not necessarily UTF-8.
#[derive(Debug, Copy, Clone)]
pub struct LuaStr<'a> {
    bytes: &'a [u8],
}

impl<'a> View for LuaStr<'a> {
    type V = Seq<u8>;

    closed spec fn view(&self) -> Seq<u8> {
        self.bytes@
    }
}

impl<'a> Sealed for LuaStr<'a> {}

impl<'a> Value for LuaStr<'a> {
    fn value_type() -> ValueType {
        ValueType::String
    }
}

impl<'a> LuaStr<'a> {
    /// Creates a Lua string wrapper from a byte slice.
    pub fn from_bytes(bytes: &'a [u8]) -> (r: LuaStr<'a>)
        ensures
            r@ == bytes@,
    {
        LuaStr { bytes }
    }

    /// Converts this Lua string to a byte slice.
    pub fn as_bytes(&self) -> (r: &'a [u8])
        ensures
            r@ == self@,
    {
        self.bytes
    }

    /// Returns the string as `&str` when its bytes are valid UTF-8.
    pub fn to_str(&self) -> (r: Result<&'a str, core::str::Utf8Error>)
        ensures
            r is Ok <==> valid_utf8(self@),
            r matches Ok(s) ==> s@ == decode_utf8(self@),
    {
        str_from_utf8(self.bytes)
    }

    /// Converts the string to text, replacing each invalid UTF-8 sequence with
    /// U+FFFD.
    pub fn to_string_lossy(&self) -> (r: String)
        ensures
            r@ == utf8_lossy(self@),
            valid_utf8(self@) ==> r@ == decode_utf8(self@),
    {
        lossy_string(self.bytes)
    }
}

/// A light userdata: a bare address handed to Lua, typed by what it points to.
#[derive(Debug)]
pub struct LightUserdata<T> {
    addr: usize,
    marker: PhantomData<T>,
}

impl<T> Clone for LightUserdata<T> {
    fn clone(&self) -> (r: LightUserdata<T>)
        ensures
            r@ == self@,
    {
        LightUserdata { addr: self.addr, marker: PhantomData }
    }
}

impl<T> Copy for LightUserdata<T> {}

impl<T> View for LightUserdata<T> {
    type V = usize;

    closed spec fn view(&self) -> usize {
        self.addr
    }
}

impl<T> LightUserdata<T> {
    /// Creates a light userdata holding the null address.
    pub fn null() -> (r: LightUserdata<T>)
        ensures
            r@ == 0,
    {
        LightUserdata { addr: 0, marker: PhantomData }
    }

    /// Creates a light userdata holding `addr`.
    pub fn new(addr: usize) -> (r: LightUserdata<T>)
        ensures
            r@ == addr,
    {
        LightUserdata { addr, marker: PhantomData }
    }

    /// Returns true if the address is null.
    pub fn is_null(&self) -> (r: bool)
        ensures
            r == (self@ == 0),
    {
        self.addr == 0
    }

    /// Returns the address.
    pub fn as_ptr(&self) -> (r: usize)
        ensures
            r == self@,
    {
        self.addr
    }

    /// Returns the address when it is not null.
    pub fn into_non_null(self) -> (r: Option<usize>)
        ensures
            r == (if self@ == 0 { None } else { Some(self@) }),
    {
        if self.addr == 0 {
            None
        } else {
            Some(self.addr)
        }
    }

    /// Reinterprets the address as pointing to a `U`.
    pub fn cast<U>(self) -> (r: LightUserdata<U>)
        ensures
            r@ == self@,
    {
        LightUserdata { addr: self.addr, marker: PhantomData }
    }
}

impl<T> PartialEq for LightUserdata<T> {
    fn eq(&self, other: &LightUserdata<T>) -> (r: bool)
        ensures
            r == (self@ == other@),
    {
        self.addr == other.addr
    }
}

impl<T> vstd::std_specs::cmp::PartialEqSpecImpl for LightUserdata<T> {
    open spec fn obeys_eq_spec() -> bool {
        true
    }

    open spec fn eq_spec(&self, other: &LightUserdata<T>) -> bool {
        self@ == other@
    }
}

impl<T> Eq for LightUserdata<T> {}

} // verus!
