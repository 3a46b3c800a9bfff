//! Checked lookups in a module's pools and tables.

use vstd::prelude::*;
use crate::types::{
    Bytecode, Function, ObjField, RefFloat, RefFun, RefGlobal, RefInt, RefString, RefType, Type,
};

verus! {

/// Which table a lookup went to.
#[derive(Clone, Copy, Debug, PartialEq, Eq, Structural)]
pub enum Table {
    Ints,
    Floats,
    Strings,
    Types,
    Fields,
    Globals,
    Functions,
}

/// A lookup failed.
#[derive(Clone, Copy, Debug, PartialEq, Eq, Structural)]
pub enum PoolError {
    /// The index is not below the size of the table.
    OutOfRange(Table, usize),
}

/// The fields that a type declares, if it is a class or structural type.
pub open spec fn declared_fields(t: Type) -> Option<Seq<ObjField>> {
    match t {
        Type::Obj(o) => Some(o.fields@),
        Type::Virtual { fields } => Some(fields@),
        _ => None,
    }
}

impl Bytecode {
    pub fn resolve_int(&self, r: RefInt) -> (res: Result<i32, PoolError>)
        ensures
            r.0 < self.ints@.len() ==> res == Ok::<i32, PoolError>(self.ints@[r.0 as int]),
            r.0 >= self.ints@.len() ==> res == Err::<i32, PoolError>(PoolError::OutOfRange(Table::Ints, r.0)),
    {
        if r.0 < self.ints.len() {
            Ok(self.ints[r.0])
        } else {
            Err(PoolError::OutOfRange(Table::Ints, r.0))
        }
    }

    /// The decimal text of a float constant.
    pub fn resolve_float(&self, r: RefFloat) -> (res: Result<&String, PoolError>)
        ensures
            r.0 < self.floats@.len() ==> (res matches Ok(s) && *s == self.floats@[r.0 as int]),
            r.0 >= self.floats@.len() ==> res == Err::<&String, PoolError>(PoolError::OutOfRange(Table::Floats, r.0)),
    {
        if r.0 < self.floats.len() {
            Ok(&self.floats[r.0])
        } else {
            Err(PoolError::OutOfRange(Table::Floats, r.0))
        }
    }

    pub fn resolve_string(&self, r: RefString) -> (res: Result<&String, PoolError>)
        ensures
            r.0 < self.strings@.len() ==> (res matches Ok(s) && *s == self.strings@[r.0 as int]),
            r.0 >= self.strings@.len() ==> res == Err::<&String, PoolError>(PoolError::OutOfRange(Table::Strings, r.0)),
    {
        if r.0 < self.strings.len() {
            Ok(&self.strings[r.0])
        } else {
            Err(PoolError::OutOfRange(Table::Strings, r.0))
        }
    }

    pub fn resolve_type(&self, r: RefType) -> (res: Result<&Type, PoolError>)
        ensures
            r.0 < self.types@.len() ==> (res matches Ok(t) && *t == self.types@[r.0 as int]),
            r.0 >= self.types@.len() ==> res == Err::<&Type, PoolError>(PoolError::OutOfRange(Table::Types, r.0)),
    {
        if r.0 < self.types.len() {
            Ok(&self.types[r.0])
        } else {
            Err(PoolError::OutOfRange(Table::Types, r.0))
        }
    }

    /// Field `i` of the class or structural type `r`; a type that declares no fields has
    /// none in range.
    pub fn resolve_field(&self, r: RefType, i: usize) -> (res: Result<&ObjField, PoolError>)
        ensures
            r.0 >= self.types@.len() ==> res == Err::<&ObjField, PoolError>(PoolError::OutOfRange(Table::Types, r.0)),
            r.0 < self.types@.len() ==> match declared_fields(self.types@[r.0 as int]) {
                Some(fs) => if i < fs.len() {
                    (res matches Ok(f) && *f == fs[i as int])
                } else {
                    res == Err::<&ObjField, PoolError>(PoolError::OutOfRange(Table::Fields, i))
                },
                None => res == Err::<&ObjField, PoolError>(PoolError::OutOfRange(Table::Fields, i)),
            },
    {
        if r.0 >= self.types.len() {
            return Err(PoolError::OutOfRange(Table::Types, r.0));
        }
        let fields = match &self.types[r.0] {
            Type::Obj(o) => &o.fields,
            Type::Virtual { fields } => fields,
            _ => {
                return Err(PoolError::OutOfRange(Table::Fields, i));
            },
        };
        if i < fields.len() {
            Ok(&fields[i])
        } else {
            Err(PoolError::OutOfRange(Table::Fields, i))
        }
    }

    /// The type of a global.
    pub fn resolve_global(&self, r: RefGlobal) -> (res: Result<RefType, PoolError>)
        ensures
            r.0 < self.globals@.len() ==> res == Ok::<RefType, PoolError>(self.globals@[r.0 as int]),
            r.0 >= self.globals@.len() ==> res == Err::<RefType, PoolError>(PoolError::OutOfRange(Table::Globals, r.0)),
    {
        if r.0 < self.globals.len() {
            Ok(self.globals[r.0])
        } else {
            Err(PoolError::OutOfRange(Table::Globals, r.0))
        }
    }

    pub fn resolve_function(&self, r: RefFun) -> (res: Result<&Function, PoolError>)
        ensures
            r.0 < self.functions@.len() ==> (res matches Ok(f) && *f == self.functions@[r.0 as int]),
            r.0 >= self.functions@.len() ==> res == Err::<&Function, PoolError>(
                PoolError::OutOfRange(Table::Functions, r.0),
            ),
    {
        if r.0 < self.functions.len() {
            Ok(&self.functions[r.0])
        } else {
            Err(PoolError::OutOfRange(Table::Functions, r.0))
        }
    }
}

} // verus!
