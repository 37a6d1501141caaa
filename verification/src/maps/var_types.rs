//! The typed values that map element attributes hold.
use vstd::prelude::*;

use crate::maps::lookup::{LookupIndex, LookupTable, ResolvableString};
use crate::utils::num::{Float, Integer};

verus! {

/// An attribute value as stored in the map binary.
///
/// A `Float` is kept as the bit pattern of its `f32`, exactly as the file stores it.
#[derive(Debug, Clone)]
pub enum EncodedVar {
    Bool(bool),
    Byte(u8),
    Short(i16),
    Int(i32),
    Float(u32),
    LookupIndex(LookupIndex),
    String(String),
    LengthEncodedString(String),
}

/// The mathematical value of an [EncodedVar].
pub enum VarValue {
    Bool(bool),
    Byte(u8),
    Short(i16),
    Int(i32),
    Float(u32),
    LookupIndex(u16),
    String(Seq<char>),
    LengthEncodedString(Seq<char>),
}

impl View for EncodedVar {
    type V = VarValue;

    open spec fn view(&self) -> VarValue {
        match self {
            EncodedVar::Bool(b) => VarValue::Bool(*b),
            EncodedVar::Byte(b) => VarValue::Byte(*b),
            EncodedVar::Short(s) => VarValue::Short(*s),
            EncodedVar::Int(i) => VarValue::Int(*i),
            EncodedVar::Float(f) => VarValue::Float(*f),
            EncodedVar::LookupIndex(i) => VarValue::LookupIndex(i.0),
            EncodedVar::String(s) => VarValue::String(s@),
            EncodedVar::LengthEncodedString(s) => VarValue::LengthEncodedString(s@),
        }
    }
}

/// The name of the kind of a value, as error messages give it.
pub open spec fn kind_name(v: VarValue) -> Seq<char> {
    match v {
        VarValue::Bool(_) => "bool"@,
        VarValue::Byte(_) => "byte"@,
        VarValue::Short(_) => "short"@,
        VarValue::Int(_) => "int"@,
        VarValue::Float(_) => "float"@,
        VarValue::LookupIndex(_) => "lookup index"@,
        VarValue::String(_) => "string"@,
        VarValue::LengthEncodedString(_) => "rle string"@,
    }
}

#[derive(Debug)]
/// A value of one kind was found where another was wanted.
pub struct EncodedVarError {
    expected: &'static str,
    found: &'static str,
}

impl EncodedVarError {
    fn new(expected: &'static str, found: &'static str) -> (e: Self)
        ensures
            e.expected() == expected@,
            e.found() == found@,
    {
        EncodedVarError { expected, found }
    }

    /// The kind that was wanted.
    pub closed spec fn expected(self) -> Seq<char> {
        self.expected@
    }

    /// The kind that was found.
    pub closed spec fn found(self) -> Seq<char> {
        self.found@
    }

    /// The kind that was wanted.
    pub fn expected_kind(&self) -> (r: &'static str)
        ensures
            r@ == self.expected(),
    {
        self.expected
    }

    /// The kind that was found.
    pub fn found_kind(&self) -> (r: &'static str)
        ensures
            r@ == self.found(),
    {
        self.found
    }
}

/// A typed read of a value: `Ok` exactly when the value is of the wanted kind,
/// otherwise an error naming the wanted and the found kind.
pub open spec fn typed<T>(r: Result<T, EncodedVarError>, v: VarValue, ok: bool, expected: Seq<char>) -> bool {
    &&& r is Ok <==> ok
    &&& r matches Err(e) ==> e.expected() == expected && e.found() == kind_name(v)
}

impl EncodedVar {
    pub fn kind(&self) -> (r: &'static str)
        ensures
            r@ == kind_name(self@),
    {
        match &self {
            EncodedVar::Bool(_) => "bool",
            EncodedVar::Byte(_) => "byte",
            EncodedVar::Short(_) => "short",
            EncodedVar::Int(_) => "int",
            EncodedVar::Float(_) => "float",
            EncodedVar::LookupIndex(_) => "lookup index",
            EncodedVar::String(_) => "string",
            EncodedVar::LengthEncodedString(_) => "rle string",
        }
    }

    pub fn bool(&self) -> (r: Result<bool, EncodedVarError>)
        ensures
            typed(r, self@, self@ is Bool, "bool"@),
            r matches Ok(b) ==> self@ == VarValue::Bool(b),
    {
        if let EncodedVar::Bool(val) = self {
            Ok(*val)
        } else {
            Err(EncodedVarError::new("bool", self.kind()))
        }
    }

    pub fn u8(&self) -> (r: Result<u8, EncodedVarError>)
        ensures
            typed(r, self@, self@ is Byte, "u8"@),
            r matches Ok(b) ==> self@ == VarValue::Byte(b),
    {
        if let EncodedVar::Byte(val) = self {
            Ok(*val)
        } else {
            Err(EncodedVarError::new("u8", self.kind()))
        }
    }

    pub fn i16(&self) -> (r: Result<i16, EncodedVarError>)
        ensures
            typed(r, self@, self@ is Short, "i16"@),
            r matches Ok(b) ==> self@ == VarValue::Short(b),
    {
        if let EncodedVar::Short(val) = self {
            Ok(*val)
        } else {
            Err(EncodedVarError::new("i16", self.kind()))
        }
    }

    pub fn i32(&self) -> (r: Result<i32, EncodedVarError>)
        ensures
            typed(r, self@, self@ is Int, "i32"@),
            r matches Ok(b) ==> self@ == VarValue::Int(b),
    {
        if let EncodedVar::Int(val) = self {
            Ok(*val)
        } else {
            Err(EncodedVarError::new("i32", self.kind()))
        }
    }

    /// The bit pattern of a float value.
    pub fn f32_bits(&self) -> (r: Result<u32, EncodedVarError>)
        ensures
            typed(r, self@, self@ is Float, "f32"@),
            r matches Ok(b) ==> self@ == VarValue::Float(b),
    {
        if let EncodedVar::Float(val) = self {
            Ok(*val)
        } else {
            Err(EncodedVarError::new("f32", self.kind()))
        }
    }

    pub fn lookup_index(&self) -> (r: Result<LookupIndex, EncodedVarError>)
        ensures
            typed(r, self@, self@ is LookupIndex, "lookup index"@),
            r matches Ok(i) ==> self@ == VarValue::LookupIndex(i.0),
    {
        if let EncodedVar::LookupIndex(val) = self {
            Ok(*val)
        } else {
            Err(EncodedVarError::new("lookup index", self.kind()))
        }
    }

    /// The text of a plain or run-length encoded string.
    pub fn string(&self) -> (r: Result<String, EncodedVarError>)
        ensures
            typed(r, self@, self@ is String || self@ is LengthEncodedString, "string"@),
            r matches Ok(s) ==> (self@ == VarValue::String(s@) || self@
                == VarValue::LengthEncodedString(s@)),
    {
        match self {
            EncodedVar::String(val) => Ok(val.clone()),
            EncodedVar::LengthEncodedString(val) => Ok(val.clone()),
            _ => Err(EncodedVarError::new("string", self.kind())),
        }
    }

    /// A plain string or lookup index as a [ResolvableString].
    pub fn index_string(&self) -> (r: Result<ResolvableString, EncodedVarError>)
        ensures
            typed(r, self@, self@ is String || self@ is LookupIndex, "indexed string"@),
            r matches Ok(rs) ==> match rs {
                ResolvableString::String(s) => self@ == VarValue::String(s@),
                ResolvableString::LookupIndex(i) => self@ == VarValue::LookupIndex(i.0),
            },
    {
        match self {
            EncodedVar::String(s) => Ok(ResolvableString::String(s.clone())),
            EncodedVar::LookupIndex(i) => Ok(ResolvableString::LookupIndex(*i)),
            _ => Err(EncodedVarError::new("indexed string", self.kind())),
        }
    }

    /// A byte, short, int or float as a [Float] of the same kind.
    pub fn float(&self) -> (r: Result<Float, EncodedVarError>)
        ensures
            typed(r, self@, self@ is Byte || self@ is Short || self@ is Int || self@ is Float, "float"@),
            r matches Ok(n) ==> self@ == var_of_float(n),
    {
        match self {
            EncodedVar::Byte(b) => Ok(Float::U8(*b)),
            EncodedVar::Short(s) => Ok(Float::I16(*s)),
            EncodedVar::Int(i) => Ok(Float::I32(*i)),
            EncodedVar::Float(f) => Ok(Float::F32(*f)),
            _ => Err(EncodedVarError::new("float", self.kind())),
        }
    }

    /// A byte, short or int as an [Integer] of the same width.
    pub fn integer(&self) -> (r: Result<Integer, EncodedVarError>)
        ensures
            typed(r, self@, self@ is Byte || self@ is Short || self@ is Int, "integer"@),
            r matches Ok(n) ==> self@ == var_of_integer(n),
    {
        match self {
            EncodedVar::Byte(b) => Ok(Integer::U8(*b)),
            EncodedVar::Short(s) => Ok(Integer::I16(*s)),
            EncodedVar::Int(i) => Ok(Integer::I32(*i)),
            _ => Err(EncodedVarError::new("integer", self.kind())),
        }
    }

    /// A byte, plain string or lookup index as a [Character].
    pub fn char(&self) -> (r: Result<Character, EncodedVarError>)
        ensures
            typed(r, self@, self@ is Byte || self@ is String || self@ is LookupIndex, "character"@),
            r matches Ok(c) ==> self@ == var_of_character(c),
    {
        match self {
            EncodedVar::Byte(b) => Ok(Character::Byte(*b)),
            EncodedVar::String(s) => Ok(Character::String(ResolvableString::String(s.clone()))),
            EncodedVar::LookupIndex(i) => Ok(Character::String(ResolvableString::LookupIndex(*i))),
            _ => Err(EncodedVarError::new("character", self.kind())),
        }
    }

    pub fn new_rle_str(str: &str) -> (r: EncodedVar)
        ensures
            r@ == VarValue::LengthEncodedString(str@),
    {
        EncodedVar::LengthEncodedString(str.to_owned())
    }

    /// The value a [ResolvableString] is stored as.
    pub fn from_resolvable(value: ResolvableString) -> (r: EncodedVar)
        ensures
            r@ == var_of_resolvable(value),
    {
        match value {
            ResolvableString::LookupIndex(l) => EncodedVar::LookupIndex(l),
            ResolvableString::String(s) => EncodedVar::String(s),
        }
    }

    /// The value an [Integer] is stored as.
    pub fn from_integer(value: Integer) -> (r: EncodedVar)
        ensures
            r@ == var_of_integer(value),
    {
        match value {
            Integer::U8(b) => EncodedVar::Byte(b),
            Integer::I16(s) => EncodedVar::Short(s),
            Integer::I32(i) => EncodedVar::Int(i),
        }
    }

    /// The value a [Character] is stored as.
    pub fn from_character(value: Character) -> (r: EncodedVar)
        ensures
            r@ == var_of_character(value),
    {
        match value {
            Character::String(s) => EncodedVar::from_resolvable(s),
            Character::Byte(b) => EncodedVar::Byte(b),
        }
    }

    pub fn from_float(value: Float) -> (r: EncodedVar)
        ensures
            r@ == var_of_float(value),
    {
        match value {
            Float::U8(b) => EncodedVar::Byte(b),
            Float::I16(s) => EncodedVar::Short(s),
            Float::I32(i) => EncodedVar::Int(i),
            Float::F32(f) => EncodedVar::Float(f),
        }
    }

    /// A copy of the value.
    pub fn duplicate(&self) -> (r: EncodedVar)
        ensures
            r@ == self@,
    {
        match self {
            EncodedVar::Bool(b) => EncodedVar::Bool(*b),
            EncodedVar::Byte(b) => EncodedVar::Byte(*b),
            EncodedVar::Short(s) => EncodedVar::Short(*s),
            EncodedVar::Int(i) => EncodedVar::Int(*i),
            EncodedVar::Float(f) => EncodedVar::Float(*f),
            EncodedVar::LookupIndex(i) => EncodedVar::LookupIndex(*i),
            EncodedVar::String(s) => EncodedVar::String(s.clone()),
            EncodedVar::LengthEncodedString(s) => EncodedVar::LengthEncodedString(s.clone()),
        }
    }
}

/// How a [ResolvableString] is stored.
pub open spec fn var_of_resolvable(r: ResolvableString) -> VarValue {
    match r {
        ResolvableString::LookupIndex(l) => VarValue::LookupIndex(l.0),
        ResolvableString::String(s) => VarValue::String(s@),
    }
}

/// How an [Integer] is stored.
pub open spec fn var_of_integer(n: Integer) -> VarValue {
    match n {
        Integer::U8(b) => VarValue::Byte(b),
        Integer::I16(s) => VarValue::Short(s),
        Integer::I32(i) => VarValue::Int(i),
    }
}

/// How a [Float] is stored.
pub open spec fn var_of_float(n: Float) -> VarValue {
    match n {
        Float::U8(b) => VarValue::Byte(b),
        Float::I16(s) => VarValue::Short(s),
        Float::I32(i) => VarValue::Int(i),
        Float::F32(f) => VarValue::Float(f),
    }
}

/// How a [Character] is stored.
pub open spec fn var_of_character(c: Character) -> VarValue {
    match c {
        Character::String(s) => var_of_resolvable(s),
        Character::Byte(b) => VarValue::Byte(b),
    }
}

#[derive(Debug, Clone)]
/// A character
///
/// Implementation wise it is possible for the `String` variant to not be length one.
/// Running [verify](Self::verify) will verify that the string is valid to be used as a byte.<br>
/// Realistically these should always be characters as long as the map was made correctly but
/// we wanted to offer a way to verify that the character was valid.
pub enum Character {
    String(ResolvableString),
    Byte(u8),
}

impl Character {
    /// Returns whether or not the [Character] is valid as a [char]
    pub fn verify(&self, lookup_table: &LookupTable) -> (r: bool)
        requires
            self matches Character::String(s) ==> s.valid_for(lookup_table.strings().len()),
        ensures
            r == match self {
                Character::String(s) => s.text_in(lookup_table.strings()).len() == 1,
                Character::Byte(_) => true,
            },
    {
        match self {
            Character::String(s) => crate::utils::text::chars_of(s.to_string(lookup_table)).len() == 1,
            Character::Byte(_) => true,
        }
    }

    /// Returns whether or not the [Character] is valid as a [char] before resolution
    fn static_verify(&self) -> (r: bool)
        ensures
            r == match self {
                Character::String(ResolvableString::String(s)) => s@.len() == 1,
                Character::String(ResolvableString::LookupIndex(_)) => false,
                Character::Byte(_) => true,
            },
    {
        match self {
            Character::String(s) => match s {
                ResolvableString::LookupIndex(_) => false,
                ResolvableString::String(s) => crate::utils::text::chars_of(s.as_str()).len() == 1,
            },
            Character::Byte(_) => true,
        }
    }

    /// Resolves the [ResolvableString] if the [Character] is a [String](Character::String)
    pub fn resolve(&mut self, lookup_table: &LookupTable)
        requires
            *old(self) matches Character::String(s) ==> s.valid_for(lookup_table.strings().len()),
        ensures
            match *old(self) {
                Character::String(s) => *final(self) matches Character::String(t) && t.text() == Some(
                    s.text_in(lookup_table.strings()),
                ),
                Character::Byte(b) => *final(self) == Character::Byte(b),
            },
    {
        if let Character::String(str) = self {
            str.resolve(lookup_table)
        }
    }

    /// Unresolves the [ResolvableString] if the [Character] is a [String](Character::String)
    pub fn unresolve(&mut self, lookup_table: &LookupTable)
        ensures
            match *old(self) {
                Character::String(ResolvableString::String(s)) => *final(self) matches Character::String(t)
                    && LookupTable::found(
                    lookup_table.strings(),
                    s@,
                    match t {
                        ResolvableString::LookupIndex(i) => Some(i),
                        ResolvableString::String(_) => None,
                    },
                ) && (t matches ResolvableString::String(u) ==> u@ == s@),
                _ => *final(self) == *old(self),
            },
    {
        if let Character::String(str) = self {
            str.to_index(lookup_table)
        }
    }

    /// Converts the [Character] to a [char] if it would be valid before resolution.
    ///
    /// If you have already called [Character::resolve] this is okay to use
    ///
    /// This returns `None` if the string is unresolved or is not exactly one character long
    pub fn static_as_char(&self) -> (r: Option<char>)
        ensures
            r == match self {
                Character::String(ResolvableString::String(s)) => if s@.len() == 1 {
                    Some(s@[0])
                } else {
                    None::<char>
                },
                Character::String(ResolvableString::LookupIndex(_)) => None,
                Character::Byte(b) => Some(*b as char),
            },
    {
        match self {
            Character::String(s) => {
                if !self.static_verify() {
                    return None;
                }
                match s.as_str() {
                    Some(text) => {
                        let cs = crate::utils::text::chars_of(text);
                        Some(cs[0])
                    },
                    None => None,
                }
            },
            Character::Byte(b) => Some(*b as char),
        }
    }

    /// Converts the [Character] to a [char] if it would be valid.
    ///
    /// This returns `None` if the string is not exactly one character long
    pub fn as_char(&self, lookup_table: &LookupTable) -> (r: Option<char>)
        requires
            self matches Character::String(s) ==> s.valid_for(lookup_table.strings().len()),
        ensures
            r == match self {
                Character::String(s) => if s.text_in(lookup_table.strings()).len() == 1 {
                    Some(s.text_in(lookup_table.strings())[0])
                } else {
                    None::<char>
                },
                Character::Byte(b) => Some(*b as char),
            },
    {
        match self {
            Character::String(s) => {
                let cs = crate::utils::text::chars_of(s.to_string(lookup_table));
                if cs.len() != 1 {
                    return None;
                }
                Some(cs[0])
            },
            Character::Byte(b) => Some(*b as char),
        }
    }
}

} // verus!
