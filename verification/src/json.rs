//! JSON documents as trees, and their mathematical model.

use crate::text::str_eq;
use vstd::prelude::*;

verus! {

/// A JSON number, kept in the form in which it was written: a whole number
/// that is not negative, a negative whole number, or a number with a
/// fraction or an exponent.
///
/// `Float` holds the bit pattern of an IEEE 754 double, so that a number is
/// carried through bit for bit.
#[derive(Debug, PartialEq, Eq, Clone, Copy, Structural)]
pub enum Number {
    PosInt(u64),
    NegInt(i64),
    Float(u64),
}

/// A JSON document as a tree. An object keeps its members in the order in
/// which they were written; a key is looked up by its first occurrence.
#[derive(Debug, PartialEq)]
pub enum Value {
    Null,
    Bool(bool),
    Number(Number),
    String(String),
    Array(Vec<Value>),
    Object(Vec<(String, Value)>),
}

/// The mathematical model of a [`Value`].
pub enum ValueView {
    Null,
    Bool(bool),
    Number(Number),
    String(Seq<char>),
    Array(Seq<ValueView>),
    Object(Seq<(Seq<char>, ValueView)>),
}

impl DeepView for Number {
    type V = Number;

    open spec fn deep_view(&self) -> Number {
        *self
    }
}

impl DeepView for Value {
    type V = ValueView;

    open spec fn deep_view(&self) -> ValueView
        decreases self,
    {
        match self {
            Value::Null => ValueView::Null,
            Value::Bool(b) => ValueView::Bool(*b),
            Value::Number(n) => ValueView::Number(*n),
            Value::String(s) => ValueView::String(s@),
            Value::Array(items) => ValueView::Array(values_view(items@)),
            Value::Object(members) => ValueView::Object(members_view(members@)),
        }
    }
}

/// The models of the items of an array, in order.
pub open spec fn values_view(items: Seq<Value>) -> Seq<ValueView>
    decreases items,
{
    if items.len() == 0 {
        Seq::empty()
    } else {
        values_view(items.drop_last()).push(items.last().deep_view())
    }
}

/// The models of the members of an object, in order.
pub open spec fn members_view(members: Seq<(String, Value)>) -> Seq<(Seq<char>, ValueView)>
    decreases members,
{
    if members.len() == 0 {
        Seq::empty()
    } else {
        members_view(members.drop_last()).push(
            (members.last().0@, members.last().1.deep_view()),
        )
    }
}

/// `values_view` goes item by item.
pub proof fn lemma_values_view(items: Seq<Value>)
    ensures
        values_view(items).len() == items.len(),
        forall|i: int|
            0 <= i < items.len() ==> #[trigger] values_view(items)[i] == items[i].deep_view(),
    decreases items.len(),
{
    reveal_with_fuel(values_view, 2);
    if items.len() > 0 {
        lemma_values_view(items.drop_last());
    }
}

/// `members_view` goes member by member.
pub proof fn lemma_members_view(members: Seq<(String, Value)>)
    ensures
        members_view(members).len() == members.len(),
        forall|i: int|
            0 <= i < members.len() ==> #[trigger] members_view(members)[i] == (
                members[i].0@,
                members[i].1.deep_view(),
            ),
    decreases members.len(),
{
    reveal_with_fuel(members_view, 2);
    if members.len() > 0 {
        lemma_members_view(members.drop_last());
    }
}

/// The value of the first member of `members` whose key is `key`.
pub open spec fn lookup(members: Seq<(Seq<char>, ValueView)>, key: Seq<char>) -> Option<ValueView>
    decreases members.len(),
{
    if members.len() == 0 {
        None
    } else if members[0].0 == key {
        Some(members[0].1)
    } else {
        lookup(members.skip(1), key)
    }
}

impl ValueView {
    /// The member `key` of an object; nothing for a missing key and for a
    /// value that is no object.
    pub open spec fn member(self, key: Seq<char>) -> Option<ValueView> {
        match self {
            ValueView::Object(members) => lookup(members, key),
            _ => None,
        }
    }
}

/// A key that occurs at `i` and nowhere before `i` is found at `i`.
pub proof fn lemma_lookup_first(members: Seq<(Seq<char>, ValueView)>, key: Seq<char>, i: int)
    requires
        0 <= i < members.len(),
        members[i].0 == key,
        forall|j: int| 0 <= j < i ==> members[j].0 != key,
    ensures
        lookup(members, key) == Some(members[i].1),
    decreases i,
{
    if i > 0 {
        let rest = members.skip(1);
        assert(rest[i - 1] == members[i]);
        assert forall|j: int| 0 <= j < i - 1 implies rest[j].0 != key by {
            assert(rest[j] == members[j + 1]);
        }
        lemma_lookup_first(rest, key, i - 1);
    }
}

/// A key that occurs nowhere is not found.
pub proof fn lemma_lookup_absent(members: Seq<(Seq<char>, ValueView)>, key: Seq<char>)
    requires
        forall|j: int| 0 <= j < members.len() ==> members[j].0 != key,
    ensures
        lookup(members, key) is None,
    decreases members.len(),
{
    if members.len() > 0 {
        let rest = members.skip(1);
        assert forall|j: int| 0 <= j < rest.len() implies rest[j].0 != key by {
            assert(rest[j] == members[j + 1]);
        }
        lemma_lookup_absent(rest, key);
    }
}

impl Value {
    /// The member `key` of an object, by its first occurrence.
    pub fn get(&self, key: &str) -> (found: Option<&Value>)
        ensures
            found.deep_view() == self.deep_view().member(key@),
    {
        match self {
            Value::Object(members) => {
                let ghost all = self.deep_view()->Object_0;
                proof {
                    lemma_members_view(members@);
                    assert(all.skip(0) =~= all);
                }
                let mut i: usize = 0;
                while i < members.len()
                    invariant
                        i <= members@.len(),
                        self.deep_view() == ValueView::Object(all),
                        all.len() == members@.len(),
                        forall|j: int|
                            0 <= j < members@.len() ==> all[j] == (
                                members@[j].0@,
                                members@[j].1.deep_view(),
                            ),
                        lookup(all, key@) == lookup(all.skip(i as int), key@),
                    decreases members@.len() - i,
                {
                    let ghost rest = all.skip(i as int);
                    assert(rest[0] == all[i as int]);
                    assert(rest.skip(1) =~= all.skip(i + 1));
                    if str_eq(members[i].0.as_str(), key) {
                        return Some(&members[i].1);
                    }
                    i += 1;
                }
                assert(all.skip(i as int).len() == 0);
                None
            },
            _ => None,
        }
    }
}

impl Clone for Value {
    #[verifier::loop_isolation(false)]
    fn clone(&self) -> (copy: Value)
        ensures
            copy.deep_view() == self.deep_view(),
        decreases self,
    {
        match self {
            Value::Null => Value::Null,
            Value::Bool(b) => Value::Bool(*b),
            Value::Number(n) => Value::Number(*n),
            Value::String(s) => Value::String(s.clone()),
            Value::Array(items) => {
                let mut copies: Vec<Value> = Vec::new();
                let mut i: usize = 0;
                while i < items.len()
                    invariant
                        i <= items@.len(),
                        copies@.len() == i,
                        forall|j: int|
                            0 <= j < i ==> copies@[j].deep_view() == items@[j].deep_view(),
                    decreases items@.len() - i,
                {
                    copies.push(items[i].clone());
                    i += 1;
                }
                let copy = Value::Array(copies);
                proof {
                    lemma_values_view(copies@);
                    lemma_values_view(items@);
                }
                assert(copy.deep_view()->Array_0 =~= self.deep_view()->Array_0);
                copy
            },
            Value::Object(members) => {
                let mut copies: Vec<(String, Value)> = Vec::new();
                let mut i: usize = 0;
                while i < members.len()
                    invariant
                        i <= members@.len(),
                        copies@.len() == i,
                        forall|j: int|
                            0 <= j < i ==> copies@[j].0@ == members@[j].0@
                                && copies@[j].1.deep_view() == members@[j].1.deep_view(),
                    decreases members@.len() - i,
                {
                    copies.push((members[i].0.clone(), members[i].1.clone()));
                    i += 1;
                }
                let copy = Value::Object(copies);
                proof {
                    lemma_members_view(copies@);
                    lemma_members_view(members@);
                }
                assert(copy.deep_view()->Object_0 =~= self.deep_view()->Object_0);
                copy
            },
        }
    }
}

} // verus!


