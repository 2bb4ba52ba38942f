//! An in-memory JSON document, as the frame layer reads and builds it.
//!
//! The frame logic works on this type directly; `json_text` turns text into
//! it and back through serde_json.

use vstd::prelude::*;

verus! {

/// A JSON number, kept in the form it was read in.
#[derive(Debug, PartialEq)]
pub enum JsonNumber {
    /// A non-negative integer.
    PosInt(u64),
    /// A negative integer.
    NegInt(i64),
    /// Any other number, as its JSON text.
    Float(String),
}

/// A JSON value.
#[derive(Debug, PartialEq)]
pub enum JsonValue {
    Null,
    Bool(bool),
    Number(JsonNumber),
    String(String),
    Array(Vec<JsonValue>),
    /// Members in document order.
    Object(Vec<(String, JsonValue)>),
}

/// The mathematical content of a JSON number.
pub enum NumberView {
    PosInt(u64),
    NegInt(i64),
    Float(Seq<char>),
}

/// The mathematical content of a JSON value: strings as characters,
/// arrays and objects as sequences.
pub enum JsonView {
    Null,
    Bool(bool),
    Number(NumberView),
    String(Seq<char>),
    Array(Seq<JsonView>),
    Object(Seq<(Seq<char>, JsonView)>),
}

pub open spec fn number_view(n: JsonNumber) -> NumberView {
    match n {
        JsonNumber::PosInt(u) => NumberView::PosInt(u),
        JsonNumber::NegInt(i) => NumberView::NegInt(i),
        JsonNumber::Float(t) => NumberView::Float(t@),
    }
}

pub open spec fn json_view(v: JsonValue) -> JsonView
    decreases v,
{
    match v {
        JsonValue::Null => JsonView::Null,
        JsonValue::Bool(b) => JsonView::Bool(b),
        JsonValue::Number(n) => JsonView::Number(number_view(n)),
        JsonValue::String(s) => JsonView::String(s@),
        JsonValue::Array(items) => {
            proof {
                assert(decreases_to!(items => items@));
            }
            JsonView::Array(items_view(items@))
        },
        JsonValue::Object(members) => {
            proof {
                assert(decreases_to!(members => members@));
            }
            JsonView::Object(members_view(members@))
        },
    }
}

pub open spec fn items_view(s: Seq<JsonValue>) -> Seq<JsonView>
    decreases s,
{
    if s.len() == 0 {
        Seq::empty()
    } else {
        items_view(s.subrange(0, s.len() - 1)).push(json_view(s[s.len() - 1]))
    }
}

pub open spec fn members_view(s: Seq<(String, JsonValue)>) -> Seq<(Seq<char>, JsonView)>
    decreases s,
{
    if s.len() == 0 {
        Seq::empty()
    } else {
        members_view(s.subrange(0, s.len() - 1)).push(
            (s[s.len() - 1].0@, json_view(s[s.len() - 1].1)),
        )
    }
}

/// Strict lexicographic order of two texts, character by character: the
/// order in which `String` compares UTF-8 text.
pub open spec fn text_lt(a: Seq<char>, b: Seq<char>) -> bool
    decreases a.len(),
{
    if b.len() == 0 {
        false
    } else if a.len() == 0 {
        true
    } else if a[0] != b[0] {
        (a[0] as u32) < (b[0] as u32)
    } else {
        text_lt(a.drop_first(), b.drop_first())
    }
}

/// The member names of an object come in strictly increasing order, so no
/// name occurs twice.
pub open spec fn names_increasing(m: Seq<(Seq<char>, JsonView)>) -> bool {
    forall|i: int, j: int| 0 <= i < j < m.len() ==> text_lt(#[trigger] m[i].0, #[trigger] m[j].0)
}

/// A JSON value in the form a parsed document has: a negative integer is the
/// only kind kept as `NegInt`, and the members of every object are sorted by
/// name with no name repeated.
pub open spec fn json_wf(v: JsonView) -> bool
    decreases v,
{
    match v {
        JsonView::Number(NumberView::NegInt(i)) => i < 0,
        JsonView::Array(items) => items_wf(items),
        JsonView::Object(m) => names_increasing(m) && members_wf(m),
        _ => true,
    }
}

/// Every element is well formed.
pub open spec fn items_wf(s: Seq<JsonView>) -> bool
    decreases s,
{
    if s.len() == 0 {
        true
    } else {
        items_wf(s.subrange(0, s.len() - 1)) && json_wf(s[s.len() - 1])
    }
}

/// Every member's value is well formed.
pub open spec fn members_wf(s: Seq<(Seq<char>, JsonView)>) -> bool
    decreases s,
{
    if s.len() == 0 {
        true
    } else {
        proof {
            assert(decreases_to!(s => s[s.len() - 1]));
        }
        members_wf(s.subrange(0, s.len() - 1)) && json_wf(s[s.len() - 1].1)
    }
}

/// The elements are all well formed exactly when each of them is.
pub proof fn lemma_items_wf(s: Seq<JsonView>)
    ensures
        items_wf(s) <==> forall|k: int| 0 <= k < s.len() ==> #[trigger] json_wf(s[k]),
    decreases s.len(),
{
    if s.len() > 0 {
        let t = s.subrange(0, s.len() - 1);
        lemma_items_wf(t);
        assert(items_wf(s) == (items_wf(t) && json_wf(s[s.len() - 1])));
        if items_wf(s) {
            assert forall|k: int| 0 <= k < s.len() implies #[trigger] json_wf(s[k]) by {
                if k < s.len() - 1 {
                    assert(t[k] == s[k]);
                }
            }
        } else if forall|k: int| 0 <= k < s.len() ==> #[trigger] json_wf(s[k]) {
            assert forall|k: int| 0 <= k < t.len() implies #[trigger] json_wf(t[k]) by {
                assert(t[k] == s[k]);
            }
            assert(false);
        }
    }
}

impl View for JsonValue {
    type V = JsonView;

    open spec fn view(&self) -> JsonView {
        json_view(*self)
    }
}

impl JsonNumber {
    /// A copy of this number.
    pub fn duplicate(&self) -> (r: JsonNumber)
        ensures
            r == *self,
    {
        match self {
            JsonNumber::PosInt(u) => JsonNumber::PosInt(*u),
            JsonNumber::NegInt(i) => JsonNumber::NegInt(*i),
            JsonNumber::Float(t) => JsonNumber::Float(t.clone()),
        }
    }

    /// The number as a `u64`, when it is a non-negative integer.
    pub fn as_u64(&self) -> (r: Option<u64>)
        ensures
            r == number_as_u64(*self),
    {
        match self {
            JsonNumber::PosInt(u) => Some(*u),
            _ => None,
        }
    }
}

/// A number as a `u64`: only non-negative integers have one.
pub open spec fn number_as_u64(n: JsonNumber) -> Option<u64> {
    match n {
        JsonNumber::PosInt(u) => Some(u),
        _ => None,
    }
}

/// A value as a `u64`: only non-negative integer numbers have one.
pub open spec fn value_as_u64(v: JsonValue) -> Option<u64> {
    match v {
        JsonValue::Number(n) => number_as_u64(n),
        _ => None,
    }
}

proof fn lemma_items_view_push(s: Seq<JsonValue>, x: JsonValue)
    ensures
        items_view(s.push(x)) == items_view(s).push(json_view(x)),
{
    assert(s.push(x).subrange(0, s.len() as int) =~= s);
}

proof fn lemma_members_view_push(s: Seq<(String, JsonValue)>, x: (String, JsonValue))
    ensures
        members_view(s.push(x)) == members_view(s).push((x.0@, json_view(x.1))),
{
    assert(s.push(x).subrange(0, s.len() as int) =~= s);
}

impl JsonValue {
    /// A copy of this value with the same content.
    pub fn duplicate(&self) -> (r: JsonValue)
        ensures
            r@ == self@,
        decreases self,
    {
        match self {
            JsonValue::Null => JsonValue::Null,
            JsonValue::Bool(b) => JsonValue::Bool(*b),
            JsonValue::Number(n) => JsonValue::Number(n.duplicate()),
            JsonValue::String(s) => JsonValue::String(s.clone()),
            JsonValue::Array(items) => {
                let mut out: Vec<JsonValue> = Vec::new();
                let mut i: usize = 0;
                while i < items.len()
                    invariant
                        *self == JsonValue::Array(*items),
                        i <= items@.len(),
                        out@.len() == i,
                        items_view(out@) == items_view(items@.subrange(0, i as int)),
                    decreases items@.len() - i,
                {
                    proof {
                        assert(decreases_to!(*self => self->Array_0));
                        assert(decreases_to!(*items => items@));
                        assert(decreases_to!(items@ => items@[i as int]));
                    }
                    let y = items[i].duplicate();
                    proof {
                        lemma_items_view_push(out@, y);
                        lemma_items_view_push(items@.subrange(0, i as int), items@[i as int]);
                        assert(items@.subrange(0, i as int).push(items@[i as int])
                            =~= items@.subrange(0, i + 1));
                    }
                    out.push(y);
                    i = i + 1;
                }
                assert(items@.subrange(0, items@.len() as int) =~= items@);
                JsonValue::Array(out)
            },
            JsonValue::Object(members) => {
                let mut out: Vec<(String, JsonValue)> = Vec::new();
                let mut i: usize = 0;
                while i < members.len()
                    invariant
                        *self == JsonValue::Object(*members),
                        i <= members@.len(),
                        out@.len() == i,
                        members_view(out@) == members_view(members@.subrange(0, i as int)),
                    decreases members@.len() - i,
                {
                    proof {
                        assert(decreases_to!(*self => self->Object_0));
                        assert(decreases_to!(*members => members@));
                        assert(decreases_to!(members@ => members@[i as int]));
                        assert(decreases_to!(members@[i as int] => members@[i as int].1));
                    }
                    let entry = (members[i].0.clone(), members[i].1.duplicate());
                    proof {
                        lemma_members_view_push(out@, entry);
                        lemma_members_view_push(members@.subrange(0, i as int), members@[i as int]);
                        assert(members@.subrange(0, i as int).push(members@[i as int])
                            =~= members@.subrange(0, i + 1));
                    }
                    out.push(entry);
                    i = i + 1;
                }
                assert(members@.subrange(0, members@.len() as int) =~= members@);
                JsonValue::Object(out)
            },
        }
    }

    /// The elements, when this value is an array.
    pub fn as_array(&self) -> (r: Option<&Vec<JsonValue>>)
        ensures
            match *self {
                JsonValue::Array(items) => r == Some(&items),
                _ => r is None,
            },
    {
        match self {
            JsonValue::Array(items) => Some(items),
            _ => None,
        }
    }

    /// The text, when this value is a string.
    pub fn as_str(&self) -> (r: Option<&str>)
        ensures
            match *self {
                JsonValue::String(s) => r matches Some(t) && t@ == s@,
                _ => r is None,
            },
    {
        match self {
            JsonValue::String(s) => Some(s.as_str()),
            _ => None,
        }
    }

    /// The value as a `u64`, when it is a non-negative integer number.
    pub fn as_u64(&self) -> (r: Option<u64>)
        ensures
            r == value_as_u64(*self),
    {
        match self {
            JsonValue::Number(n) => n.as_u64(),
            _ => None,
        }
    }
}

impl Clone for JsonValue {
    fn clone(&self) -> (r: Self)
        ensures
            r@ == self@,
    {
        self.duplicate()
    }
}

impl Clone for JsonNumber {
    fn clone(&self) -> (r: Self)
        ensures
            r == *self,
    {
        self.duplicate()
    }
}

/// The view of an array value is the view of its elements.
pub proof fn lemma_view_array(v: JsonValue)
    ensures
        v matches JsonValue::Array(items) ==> {
            &&& v@ == JsonView::Array(items_view(items@))
            &&& items_view(items@).len() == items@.len()
            &&& forall|i: int| 0 <= i < items@.len() ==> #[trigger] items_view(items@)[i] == items@[i]@
        },
{
    if let JsonValue::Array(items) = v {
        lemma_items_view_index(items@);
    }
}

proof fn lemma_items_view_index(s: Seq<JsonValue>)
    ensures
        items_view(s).len() == s.len(),
        forall|i: int| 0 <= i < s.len() ==> #[trigger] items_view(s)[i] == json_view(s[i]),
    decreases s.len(),
{
    if s.len() > 0 {
        lemma_items_view_index(s.subrange(0, s.len() - 1));
    }
}

pub proof fn lemma_items_view_3(s: Seq<JsonValue>)
    requires
        s.len() == 3,
    ensures
        items_view(s) == seq![s[0]@, s[1]@, s[2]@],
{
    lemma_items_view_index(s);
    assert(items_view(s) =~= seq![s[0]@, s[1]@, s[2]@]);
}

pub proof fn lemma_items_view_4(s: Seq<JsonValue>)
    requires
        s.len() == 4,
    ensures
        items_view(s) == seq![s[0]@, s[1]@, s[2]@, s[3]@],
{
    lemma_items_view_index(s);
    assert(items_view(s) =~= seq![s[0]@, s[1]@, s[2]@, s[3]@]);
}

pub proof fn lemma_items_view_5(s: Seq<JsonValue>)
    requires
        s.len() == 5,
    ensures
        items_view(s) == seq![s[0]@, s[1]@, s[2]@, s[3]@, s[4]@],
{
    lemma_items_view_index(s);
    assert(items_view(s) =~= seq![s[0]@, s[1]@, s[2]@, s[3]@, s[4]@]);
}

} // verus!
