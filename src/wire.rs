//! The structured wire form of a message: strings, integers, booleans,
//! ordered lists and objects with ordered keys.

use vstd::prelude::*;
use vstd::string::StringExecFns;

use crate::color::HexColor;
use crate::text::SlackText;
use crate::time::{unix_seconds, SlackTime};

verus! {

/// The mathematical form of a wire value.
pub enum Wire {
    Str(Seq<char>),
    Int(int),
    Bool(bool),
    List(Seq<Wire>),
    Object(Seq<(Seq<char>, Wire)>),
}

/// A wire value, as handed to a serializer.
#[derive(Debug, PartialEq)]
pub enum Value {
    Str(String),
    Int(i64),
    Bool(bool),
    List(Vec<Value>),
    Object(Vec<(String, Value)>),
}

impl Value {
    pub open spec fn wire(self) -> Wire
        decreases self,
    {
        match self {
            Value::Str(s) => Wire::Str(s@),
            Value::Int(n) => Wire::Int(n as int),
            Value::Bool(b) => Wire::Bool(b),
            Value::List(items) => Wire::List(
                Seq::new(
                    items@.len(),
                    |i: int|
                        if 0 <= i < items@.len() {
                            items@[i].wire()
                        } else {
                            Wire::Int(0)
                        },
                ),
            ),
            Value::Object(entries) => Wire::Object(
                Seq::new(
                    entries@.len(),
                    |i: int|
                        if 0 <= i < entries@.len() {
                            (entries@[i].0@, entries@[i].1.wire())
                        } else {
                            (Seq::empty(), Wire::Int(0))
                        },
                ),
            ),
        }
    }
}

/// Object entries in mathematical form.
pub open spec fn entries_wire(entries: Seq<(String, Value)>) -> Seq<(Seq<char>, Wire)> {
    Seq::new(entries.len(), |i: int| (entries[i].0@, entries[i].1.wire()))
}

/// The object made of `entries`.
pub fn object(entries: Vec<(String, Value)>) -> (r: Value)
    ensures
        r.wire() == Wire::Object(entries_wire(entries@)),
{
    let r = Value::Object(entries);
    assert(r.wire()->Object_0 =~= entries_wire(entries@));
    r
}

/// A value with a wire form of its own.
pub trait Encode {
    /// The wire form of the value.
    spec fn wire_form(&self) -> Wire;

    /// The value on the wire.
    fn to_value(&self) -> (r: Value)
        ensures
            r.wire() == self.wire_form(),
    ;
}

/// The single entry of an optional value under `key`, or no entry at all
/// where the value is absent.
pub open spec fn opt_entry<T: Encode>(key: Seq<char>, v: Option<T>) -> Seq<(Seq<char>, Wire)> {
    match v {
        Some(x) => seq![(key, x.wire_form())],
        None => Seq::empty(),
    }
}

/// Appends the entry `key: v`.
pub fn put<T: Encode>(entries: &mut Vec<(String, Value)>, key: &str, v: &T)
    ensures
        entries_wire(final(entries)@) == entries_wire(old(entries)@).push((key@, v.wire_form())),
{
    let value = v.to_value();
    entries.push((String::from_str(key), value));
    assert(entries_wire(final(entries)@) =~= entries_wire(old(entries)@).push((key@, v.wire_form())));
}

/// Appends the entry `key: v` where `v` is present, and nothing where it is
/// absent.
pub fn put_opt<T: Encode>(entries: &mut Vec<(String, Value)>, key: &str, v: &Option<T>)
    ensures
        entries_wire(final(entries)@) == entries_wire(old(entries)@) + opt_entry(key@, *v),
{
    match v {
        Some(x) => {
            put(entries, key, x);
            assert(entries_wire(final(entries)@) =~= entries_wire(old(entries)@) + opt_entry(key@, *v));
        },
        None => {
            assert(entries_wire(final(entries)@) =~= entries_wire(old(entries)@) + opt_entry(key@, *v));
        },
    }
}

impl Encode for String {
    open spec fn wire_form(&self) -> Wire {
        Wire::Str(self@)
    }

    fn to_value(&self) -> (r: Value) {
        Value::Str(self.clone())
    }
}

impl Encode for bool {
    open spec fn wire_form(&self) -> Wire {
        Wire::Bool(*self)
    }

    fn to_value(&self) -> (r: Value) {
        Value::Bool(*self)
    }
}

impl Encode for u8 {
    open spec fn wire_form(&self) -> Wire {
        Wire::Int(*self as int)
    }

    fn to_value(&self) -> (r: Value) {
        Value::Int(*self as i64)
    }
}

impl<T: Encode> Encode for Vec<T> {
    open spec fn wire_form(&self) -> Wire {
        Wire::List(self@.map_values(|x: T| x.wire_form()))
    }

    fn to_value(&self) -> (r: Value) {
        let mut items: Vec<Value> = Vec::new();
        let mut i: usize = 0;
        while i < self.len()
            invariant
                i <= self@.len(),
                items@.len() == i,
                forall|j: int| 0 <= j < i ==> (#[trigger] items@[j]).wire() == self@[j].wire_form(),
            decreases self@.len() - i,
        {
            items.push(self[i].to_value());
            i = i + 1;
        }
        let r = Value::List(items);
        assert(r.wire()->List_0 =~= self@.map_values(|x: T| x.wire_form()));
        r
    }
}

impl Encode for SlackText {
    open spec fn wire_form(&self) -> Wire {
        Wire::Str(self@)
    }

    fn to_value(&self) -> (r: Value) {
        Value::Str(self.encode())
    }
}

impl Encode for HexColor {
    open spec fn wire_form(&self) -> Wire {
        Wire::Str(self@)
    }

    fn to_value(&self) -> (r: Value) {
        Value::Str(self.encode())
    }
}

impl Encode for SlackTime {
    open spec fn wire_form(&self) -> Wire {
        Wire::Int(unix_seconds(self@))
    }

    fn to_value(&self) -> (r: Value) {
        Value::Int(self.encode())
    }
}

} // verus!
