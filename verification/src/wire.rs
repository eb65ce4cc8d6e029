//! The wire forms of the types: how each is written as a JSON tree and read
//! back from one.

use crate::json::{lemma_values_view, Number, Value, ValueView};
use vstd::prelude::*;

verus! {

/// A type with a wire form: a JSON shape that it is written to and read back
/// from.
///
/// `encoded` and `decoded` define the shape over the mathematical models;
/// `to_value` and `from_value` compute them. Every implementation proves that
/// reading back what was written gives the value that was written, and that
/// no value is written as `null`, which is how an absent optional is written.
pub trait Wire: DeepView + Sized {
    /// The wire form of `v`.
    spec fn encoded(v: Self::V) -> ValueView;

    /// The value that `w` is the wire form of; nothing where `w` has not the
    /// shape of one.
    spec fn decoded(w: ValueView) -> Option<Self::V>;

    /// Writing, then reading, gives the same value back.
    proof fn lemma_round_trip(v: Self::V)
        ensures
            Self::decoded(Self::encoded(v)) == Some(v),
            !(Self::encoded(v) is Null),
    ;

    /// Writes the value in its wire form.
    fn to_value(&self) -> (w: Value)
        ensures
            w.deep_view() == Self::encoded(self.deep_view()),
    ;

    /// Reads a value from its wire form; nothing where `w` has not the
    /// shape of one.
    fn from_value(w: &Value) -> (r: Option<Self>)
        ensures
            r.deep_view() == Self::decoded(w.deep_view()),
    ;
}

impl Wire for bool {
    open spec fn encoded(v: bool) -> ValueView {
        ValueView::Bool(v)
    }

    open spec fn decoded(w: ValueView) -> Option<bool> {
        match w {
            ValueView::Bool(b) => Some(b),
            _ => None,
        }
    }

    proof fn lemma_round_trip(v: bool) {
    }

    fn to_value(&self) -> (w: Value) {
        Value::Bool(*self)
    }

    fn from_value(w: &Value) -> (r: Option<bool>) {
        match w {
            Value::Bool(b) => Some(*b),
            _ => None,
        }
    }
}

impl Wire for u8 {
    open spec fn encoded(v: u8) -> ValueView {
        ValueView::Number(Number::PosInt(v as u64))
    }

    open spec fn decoded(w: ValueView) -> Option<u8> {
        match w {
            ValueView::Number(Number::PosInt(n)) if n <= u8::MAX => Some(n as u8),
            _ => None,
        }
    }

    proof fn lemma_round_trip(v: u8) {
    }

    fn to_value(&self) -> (w: Value) {
        Value::Number(Number::PosInt(*self as u64))
    }

    fn from_value(w: &Value) -> (r: Option<u8>) {
        match w {
            Value::Number(Number::PosInt(n)) => {
                if *n <= 255 {
                    Some(*n as u8)
                } else {
                    None
                }
            },
            _ => None,
        }
    }
}

impl Wire for u32 {
    open spec fn encoded(v: u32) -> ValueView {
        ValueView::Number(Number::PosInt(v as u64))
    }

    open spec fn decoded(w: ValueView) -> Option<u32> {
        match w {
            ValueView::Number(Number::PosInt(n)) if n <= u32::MAX => Some(n as u32),
            _ => None,
        }
    }

    proof fn lemma_round_trip(v: u32) {
    }

    fn to_value(&self) -> (w: Value) {
        Value::Number(Number::PosInt(*self as u64))
    }

    fn from_value(w: &Value) -> (r: Option<u32>) {
        match w {
            Value::Number(Number::PosInt(n)) => {
                if *n <= 0xffff_ffff {
                    Some(*n as u32)
                } else {
                    None
                }
            },
            _ => None,
        }
    }
}

impl Wire for u64 {
    open spec fn encoded(v: u64) -> ValueView {
        ValueView::Number(Number::PosInt(v))
    }

    open spec fn decoded(w: ValueView) -> Option<u64> {
        match w {
            ValueView::Number(Number::PosInt(n)) => Some(n),
            _ => None,
        }
    }

    proof fn lemma_round_trip(v: u64) {
    }

    fn to_value(&self) -> (w: Value) {
        Value::Number(Number::PosInt(*self))
    }

    fn from_value(w: &Value) -> (r: Option<u64>) {
        match w {
            Value::Number(Number::PosInt(n)) => Some(*n),
            _ => None,
        }
    }
}

impl Wire for i64 {
    open spec fn encoded(v: i64) -> ValueView {
        if v >= 0 {
            ValueView::Number(Number::PosInt(v as u64))
        } else {
            ValueView::Number(Number::NegInt(v))
        }
    }

    open spec fn decoded(w: ValueView) -> Option<i64> {
        match w {
            ValueView::Number(Number::PosInt(n)) if n <= i64::MAX => Some(n as i64),
            ValueView::Number(Number::NegInt(n)) => Some(n),
            _ => None,
        }
    }

    proof fn lemma_round_trip(v: i64) {
    }

    fn to_value(&self) -> (w: Value) {
        if *self >= 0 {
            Value::Number(Number::PosInt(*self as u64))
        } else {
            Value::Number(Number::NegInt(*self))
        }
    }

    fn from_value(w: &Value) -> (r: Option<i64>) {
        match w {
            Value::Number(Number::PosInt(n)) => {
                if *n <= 0x7fff_ffff_ffff_ffff {
                    Some(*n as i64)
                } else {
                    None
                }
            },
            Value::Number(Number::NegInt(n)) => Some(*n),
            _ => None,
        }
    }
}

impl Wire for Number {
    open spec fn encoded(v: Number) -> ValueView {
        ValueView::Number(v)
    }

    open spec fn decoded(w: ValueView) -> Option<Number> {
        match w {
            ValueView::Number(n) => Some(n),
            _ => None,
        }
    }

    proof fn lemma_round_trip(v: Number) {
    }

    fn to_value(&self) -> (w: Value) {
        Value::Number(*self)
    }

    fn from_value(w: &Value) -> (r: Option<Number>) {
        match w {
            Value::Number(n) => Some(*n),
            _ => None,
        }
    }
}

impl Wire for String {
    open spec fn encoded(v: Seq<char>) -> ValueView {
        ValueView::String(v)
    }

    open spec fn decoded(w: ValueView) -> Option<Seq<char>> {
        match w {
            ValueView::String(s) => Some(s),
            _ => None,
        }
    }

    proof fn lemma_round_trip(v: Seq<char>) {
    }

    fn to_value(&self) -> (w: Value) {
        Value::String(self.clone())
    }

    fn from_value(w: &Value) -> (r: Option<String>) {
        match w {
            Value::String(s) => Some(s.clone()),
            _ => None,
        }
    }
}

/// The items that a sequence of wire forms stands for; nothing unless each of
/// them has the shape of a `T`.
pub open spec fn decoded_items<T: Wire>(items: Seq<ValueView>) -> Option<Seq<T::V>> {
    if forall|i: int| 0 <= i < items.len() ==> (#[trigger] T::decoded(items[i])) is Some {
        Some(Seq::new(items.len(), |i: int| T::decoded(items[i])->Some_0))
    } else {
        None
    }
}

impl<T: Wire> Wire for Vec<T> {
    open spec fn encoded(v: Seq<T::V>) -> ValueView {
        ValueView::Array(Seq::new(v.len(), |i: int| T::encoded(v[i])))
    }

    open spec fn decoded(w: ValueView) -> Option<Seq<T::V>> {
        match w {
            ValueView::Array(items) => decoded_items::<T>(items),
            _ => None,
        }
    }

    proof fn lemma_round_trip(v: Seq<T::V>) {
        let items = Seq::new(v.len(), |i: int| T::encoded(v[i]));
        assert forall|i: int| 0 <= i < items.len() implies (#[trigger] T::decoded(items[i]))
            == Some(v[i]) by {
            T::lemma_round_trip(v[i]);
        }
        assert(decoded_items::<T>(items)->Some_0 =~= v);
    }

    fn to_value(&self) -> (w: Value) {
        let mut items: Vec<Value> = Vec::new();
        let mut i: usize = 0;
        while i < self.len()
            invariant
                i <= self@.len(),
                items@.len() == i,
                forall|j: int|
                    0 <= j < i ==> items@[j].deep_view() == T::encoded(self@[j].deep_view()),
            decreases self@.len() - i,
        {
            items.push(self[i].to_value());
            i += 1;
        }
        let w = Value::Array(items);
        proof {
            lemma_values_view(items@);
            assert(w.deep_view()->Array_0 =~= Self::encoded(self.deep_view())->Array_0);
        }
        w
    }

    fn from_value(w: &Value) -> (r: Option<Vec<T>>) {
        match w {
            Value::Array(items) => {
                proof {
                    lemma_values_view(items@);
                }
                let ghost all = w.deep_view()->Array_0;
                let mut out: Vec<T> = Vec::new();
                let mut i: usize = 0;
                while i < items.len()
                    invariant
                        i <= items@.len(),
                        out@.len() == i,
                        w.deep_view() == ValueView::Array(all),
                        all.len() == items@.len(),
                        forall|j: int| 0 <= j < items@.len() ==> all[j] == items@[j].deep_view(),
                        forall|j: int|
                            0 <= j < i ==> T::decoded(all[j]) == Some(out@[j].deep_view()),
                    decreases items@.len() - i,
                {
                    match T::from_value(&items[i]) {
                        Some(item) => {
                            out.push(item);
                        },
                        None => {
                            assert(T::decoded(all[i as int]) is None);
                            return None;
                        },
                    }
                    i += 1;
                }
                assert(out.deep_view() =~= decoded_items::<T>(all)->Some_0);
                Some(out)
            },
            _ => None,
        }
    }
}

/// The wire form of an optional value: `null` where it is absent.
pub open spec fn encoded_option<T: Wire>(v: Option<T::V>) -> ValueView {
    match v {
        Some(x) => T::encoded(x),
        None => ValueView::Null,
    }
}

/// The member `key` of `w`, read as a `T`; nothing where the member is
/// missing or has not the shape of a `T`.
pub open spec fn field<T: Wire>(w: ValueView, key: Seq<char>) -> Option<T::V> {
    match w.member(key) {
        Some(m) => T::decoded(m),
        None => None,
    }
}

/// The member `key` of `w`, read as an optional `T`: absent where the member
/// is missing or `null`; nothing where it is there and has not the shape of a
/// `T`.
pub open spec fn optional_field<T: Wire>(w: ValueView, key: Seq<char>) -> Option<Option<T::V>> {
    match w.member(key) {
        None => Some(None),
        Some(ValueView::Null) => Some(None),
        Some(m) => match T::decoded(m) {
            Some(x) => Some(Some(x)),
            None => None,
        },
    }
}

/// Writes an optional value: `null` where it is absent.
pub fn option_to_value<T: Wire>(v: &Option<T>) -> (w: Value)
    ensures
        w.deep_view() == encoded_option::<T>(v.deep_view()),
{
    match v {
        Some(x) => x.to_value(),
        None => Value::Null,
    }
}

/// Reads the member `key` of `w` as a `T`.
pub fn read_field<T: Wire>(w: &Value, key: &str) -> (r: Option<T>)
    ensures
        r.deep_view() == field::<T>(w.deep_view(), key@),
{
    match w.get(key) {
        Some(m) => T::from_value(m),
        None => None,
    }
}

/// Reads the member `key` of `w` as an optional `T`: absent where the
/// member is missing or `null`.
pub fn read_optional_field<T: Wire>(w: &Value, key: &str) -> (r: Option<Option<T>>)
    ensures
        r.deep_view() == optional_field::<T>(w.deep_view(), key@),
{
    match w.get(key) {
        None => Some(None),
        Some(Value::Null) => Some(None),
        Some(m) => match T::from_value(m) {
            Some(x) => Some(Some(x)),
            None => None,
        },
    }
}

} // verus!

verus! {

/// A required member that holds the wire form of `v` is read back as `v`.
pub proof fn lemma_field_round_trip<T: Wire>(w: ValueView, key: Seq<char>, v: T::V)
    requires
        w.member(key) == Some(T::encoded(v)),
    ensures
        field::<T>(w, key) == Some(v),
{
    T::lemma_round_trip(v);
}

/// An optional member that holds the wire form of `v` is read back as `v`.
pub proof fn lemma_optional_field_round_trip<T: Wire>(
    w: ValueView,
    key: Seq<char>,
    v: Option<T::V>,
)
    requires
        w.member(key) == Some(encoded_option::<T>(v)),
    ensures
        optional_field::<T>(w, key) == Some(v),
{
    if let Some(x) = v {
        T::lemma_round_trip(x);
    }
}

} // verus!
