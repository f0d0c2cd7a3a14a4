//! Values and messages.

use vstd::prelude::*;
use vstd::std_specs::cmp::PartialEqSpecImpl;
use vstd::string::StringSliceAdditionalSpecFns;
use vstd::utf8::encode_utf8_decode_utf8;

verus! {

/// Data that can be handled by the machine.
#[derive(Clone, Copy, Debug)]
pub enum Value {
    /// A string that lives as long as the program.
    Str(&'static str),
    /// A signed integer.
    Int(i64),
    /// The identifier of a process.
    Pid(u64),
}

/// A named envelope around one value, as it travels between processes.
#[derive(Clone, Copy, Debug)]
pub struct Message {
    pub name: &'static str,
    pub value: Value,
}

/// Whether two strings hold the same characters.
pub fn same_text(a: &str, b: &str) -> (same: bool)
    ensures
        same == (a@ == b@),
{
    let x = a.as_bytes();
    let y = b.as_bytes();
    proof {
        // The bytes determine the characters: decoding undoes encoding.
        encode_utf8_decode_utf8(a@);
        encode_utf8_decode_utf8(b@);
    }
    if x.len() != y.len() {
        return false;
    }
    let mut i: usize = 0;
    while i < x.len()
        invariant
            i <= x.len(),
            x.len() == y.len(),
            x@ == a.spec_bytes(),
            y@ == b.spec_bytes(),
            forall|j: int| 0 <= j < i ==> x@[j] == y@[j],
        decreases x.len() - i,
    {
        if x[i] != y[i] {
            return false;
        }
        i += 1;
    }
    assert(x@ =~= y@);
    true
}

impl Value {
    /// Whether both values are strings, both integers or both pids.
    pub open spec fn same_variant(self, other: Value) -> bool {
        match (self, other) {
            (Value::Str(_), Value::Str(_)) => true,
            (Value::Int(_), Value::Int(_)) => true,
            (Value::Pid(_), Value::Pid(_)) => true,
            _ => false,
        }
    }

    /// Equality of values: the same variant with the same content. Strings
    /// are compared by their characters. Two values of different variants are
    /// never equal.
    pub open spec fn same(self, other: Value) -> bool {
        match (self, other) {
            (Value::Str(a), Value::Str(b)) => a@ == b@,
            (Value::Int(a), Value::Int(b)) => a == b,
            (Value::Pid(a), Value::Pid(b)) => a == b,
            _ => false,
        }
    }
}

/// `same` is an equivalence: every value is the same as itself, and the
/// relation is symmetric and transitive.
pub proof fn lemma_same_is_equivalence(a: Value, b: Value, c: Value)
    ensures
        a.same(a),
        a.same(b) ==> b.same(a),
        a.same(b) && b.same(c) ==> a.same(c),
{
}

/// Values of different variants are never the same.
pub proof fn lemma_same_needs_same_variant(a: Value, b: Value)
    ensures
        a.same(b) ==> a.same_variant(b),
{
}

impl PartialEq for Value {
    fn eq(&self, other: &Value) -> (equal: bool) {
        match (*self, *other) {
            (Value::Str(a), Value::Str(b)) => same_text(a, b),
            (Value::Int(a), Value::Int(b)) => a == b,
            (Value::Pid(a), Value::Pid(b)) => a == b,
            _ => false,
        }
    }
}

impl PartialEqSpecImpl for Value {
    open spec fn obeys_eq_spec() -> bool {
        true
    }

    open spec fn eq_spec(&self, other: &Value) -> bool {
        self.same(*other)
    }
}

} // verus!
