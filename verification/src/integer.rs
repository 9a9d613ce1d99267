//! The fixed-width integer types, and which of them stands for a C integer
//! type of a given size and signedness.

use vstd::prelude::*;

verus! {

/// A fixed-width integer type of Rust.
#[derive(Copy, Debug, PartialEq, Eq, Structural)]
pub enum RustInteger {
    I8,
    I16,
    I32,
    I64,
    U8,
    U16,
    U32,
    U64,
}

impl Clone for RustInteger {
    fn clone(&self) -> (copy: Self)
        ensures
            copy == *self,
    {
        *self
    }
}

impl RustInteger {
    /// The size of the type in bytes.
    pub open spec fn bytes(self) -> nat {
        match self {
            RustInteger::I8 | RustInteger::U8 => 1,
            RustInteger::I16 | RustInteger::U16 => 2,
            RustInteger::I32 | RustInteger::U32 => 4,
            RustInteger::I64 | RustInteger::U64 => 8,
        }
    }

    /// Whether the type is signed.
    pub open spec fn signed(self) -> bool {
        match self {
            RustInteger::I8 | RustInteger::I16 | RustInteger::I32 | RustInteger::I64 => true,
            RustInteger::U8 | RustInteger::U16 | RustInteger::U32 | RustInteger::U64 => false,
        }
    }

    /// The name of the type: `i` or `u`, then its width in bits.
    pub open spec fn name_text(self) -> Seq<char> {
        (if self.signed() {
            "i"@
        } else {
            "u"@
        }) + crate::text::decimal(self.bytes() * 8)
    }

    /// The size of the type in bytes.
    pub fn size(&self) -> (bytes: usize)
        ensures
            bytes == self.bytes(),
    {
        match self {
            RustInteger::I8 | RustInteger::U8 => 1,
            RustInteger::I16 | RustInteger::U16 => 2,
            RustInteger::I32 | RustInteger::U32 => 4,
            RustInteger::I64 | RustInteger::U64 => 8,
        }
    }

    /// Tells whether the type is signed.
    pub fn is_signed(&self) -> (signed: bool)
        ensures
            signed == self.signed(),
    {
        match self {
            RustInteger::I8 | RustInteger::I16 | RustInteger::I32 | RustInteger::I64 => true,
            RustInteger::U8 | RustInteger::U16 | RustInteger::U32 | RustInteger::U64 => false,
        }
    }

    /// The name of the type, as it is written in Rust.
    pub fn name(&self) -> (name: &'static str)
        ensures
            name@ == self.name_text(),
    {
        proof {
            reveal_strlit("i");
            reveal_strlit("u");
            reveal_strlit("i8");
            reveal_strlit("i16");
            reveal_strlit("i32");
            reveal_strlit("i64");
            reveal_strlit("u8");
            reveal_strlit("u16");
            reveal_strlit("u32");
            reveal_strlit("u64");
            reveal_with_fuel(crate::text::decimal, 3);
        }
        let name: &'static str = match self {
            RustInteger::I8 => "i8",
            RustInteger::I16 => "i16",
            RustInteger::I32 => "i32",
            RustInteger::I64 => "i64",
            RustInteger::U8 => "u8",
            RustInteger::U16 => "u16",
            RustInteger::U32 => "u32",
            RustInteger::U64 => "u64",
        };
        assert(name@ =~= self.name_text());
        name
    }
}

/// The fixed-width type that a C integer type of `size` bytes and the given
/// signedness is interchangeable with, if there is one.
pub open spec fn equivalent_integer(size: usize, signed: bool) -> Option<RustInteger> {
    if size == 1 {
        Some(if signed { RustInteger::I8 } else { RustInteger::U8 })
    } else if size == 2 {
        Some(if signed { RustInteger::I16 } else { RustInteger::U16 })
    } else if size == 4 {
        Some(if signed { RustInteger::I32 } else { RustInteger::U32 })
    } else if size == 8 {
        Some(if signed { RustInteger::I64 } else { RustInteger::U64 })
    } else {
        None
    }
}

/// Finds the fixed-width type that a C integer type of `size` bytes and the
/// given signedness is interchangeable with.
///
/// There is one exactly when the size is 1, 2, 4 or 8 bytes, and it then
/// has that size and that signedness. For any other size the answer is
/// `None`: a wrong width would corrupt whatever is generated from it.
pub fn equivalent_rust_integer(size: usize, signed: bool) -> (found: Option<RustInteger>)
    ensures
        found == equivalent_integer(size, signed),
        found is Some <==> size == 1 || size == 2 || size == 4 || size == 8,
        found matches Some(integer) ==> integer.bytes() == size && integer.signed() == signed,
{
    match (size, signed) {
        (1, true) => Some(RustInteger::I8),
        (1, false) => Some(RustInteger::U8),
        (2, true) => Some(RustInteger::I16),
        (2, false) => Some(RustInteger::U16),
        (4, true) => Some(RustInteger::I32),
        (4, false) => Some(RustInteger::U32),
        (8, true) => Some(RustInteger::I64),
        (8, false) => Some(RustInteger::U64),
        _ => None,
    }
}

/// The answer names a type of the size and signedness that were asked
/// for, and no two types share both: the answer is the only right one.
pub proof fn lemma_equivalent_integer_unique(size: usize, signed: bool, integer: RustInteger)
    ensures
        equivalent_integer(size, signed) == Some(integer) <==> (integer.bytes() == size
            && integer.signed() == signed),
{
}

} // verus!
