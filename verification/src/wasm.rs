//! Plain descriptor data of the WebAssembly bindings.
//!
//! The WebAssembly capability module itself — compiling, instantiating
//! and running modules — is an external collaborator. What belongs here
//! is the plain data scripts hand it, with the validation rules the
//! bindings apply before anything reaches the runtime.

use vstd::prelude::*;

use crate::strutil::str_eq;

verus! {

/// `s` names one of the value types a global descriptor accepts.
pub open spec fn is_global_value_type(s: Seq<char>) -> bool {
    ||| s == "i32"@
    ||| s == "i64"@
    ||| s == "f32"@
    ||| s == "f64"@
    ||| s == "v128"@
    ||| s == "externref"@
    ||| s == "anyref"@
}

/// A global's descriptor: its value type and whether it is mutable.
#[derive(Clone, Debug)]
pub struct GlobalDescriptor {
    /// The value type's name; always one the validation accepts.
    pub value: String,
    /// Whether the global is mutable; absent means immutable.
    pub mutable: Option<bool>,
}

impl GlobalDescriptor {
    /// Build a descriptor, rejecting a value type that is not a
    /// WebAssembly type name.
    pub fn new(value: String, mutable: Option<bool>) -> (r: Result<GlobalDescriptor, ()>)
        ensures
            match r {
                Ok(d) => is_global_value_type(value@) && d.value@ == value@ && d.mutable
                    == mutable,
                Err(_) => !is_global_value_type(value@),
            },
    {
        let v = value.as_str();
        if str_eq(v, "i32") || str_eq(v, "i64") || str_eq(v, "f32") || str_eq(v, "f64") || str_eq(
            v,
            "v128",
        ) || str_eq(v, "externref") || str_eq(v, "anyref") {
            Ok(GlobalDescriptor { value, mutable })
        } else {
            Err(())
        }
    }
}

/// The element kind of a table.
#[derive(Clone, Copy, Debug, PartialEq, Eq, Structural)]
pub enum TableElementKind {
    /// External references.
    ExternRef,
    /// Function references.
    FuncRef,
}

/// A table's descriptor: its initial and maximum size and its element
/// type's name.
#[derive(Clone, Debug)]
pub struct TableDescriptor {
    /// The number of elements the table starts with.
    pub initial: u32,
    /// The most elements the table may grow to, when bounded.
    pub maximum: Option<u32>,
    /// The element type's name.
    pub element: String,
}

impl TableDescriptor {
    /// The element kind the descriptor names: only `externref` and
    /// `anyfunc` are accepted.
    pub fn element_kind(&self) -> (r: Result<TableElementKind, ()>)
        ensures
            self.element@ == "externref"@ ==> r == Ok::<TableElementKind, ()>(
                TableElementKind::ExternRef,
            ),
            self.element@ == "anyfunc"@ ==> r == Ok::<TableElementKind, ()>(
                TableElementKind::FuncRef,
            ),
            (self.element@ != "externref"@ && self.element@ != "anyfunc"@) ==> r == Err::<
                TableElementKind,
                (),
            >(()),
    {
        proof {
            reveal_strlit("externref");
            reveal_strlit("anyfunc");
            assert("externref"@.len() == 9);
            assert("anyfunc"@.len() == 7);
        }
        if str_eq(self.element.as_str(), "externref") {
            Ok(TableElementKind::ExternRef)
        } else if str_eq(self.element.as_str(), "anyfunc") {
            Ok(TableElementKind::FuncRef)
        } else {
            Err(())
        }
    }
}

} // verus!
