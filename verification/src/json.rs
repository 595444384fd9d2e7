//! A small JSON value tree: the shape in which course data crosses the
//! library boundary, both when a fetched page body is decoded and when the
//! aggregate is emitted.
//!
//! Numbers carry their decimal text (`Num`) unless they are small
//! non-negative integers (`Int`); the course model never needs more.

use vstd::prelude::*;

verus! {

/// One `"key": value` member of a JSON object.
#[derive(Debug)]
pub struct JsonMember {
    pub key: String,
    pub value: Json,
}

/// A JSON value.
#[derive(Debug)]
pub enum Json {
    Null,
    Bool(bool),
    /// A non-negative integer that fits in `u32`.
    Int(u32),
    /// Any other number, kept as its decimal text.
    Num(String),
    Str(String),
    Arr(Vec<Json>),
    Obj(Vec<JsonMember>),
}

/// Mathematical image of a `JsonMember`.
#[verifier::ext_equal]
pub ghost struct MemberV {
    pub key: Seq<char>,
    pub value: JsonV,
}

/// Mathematical image of a `Json` value.
#[verifier::ext_equal]
pub ghost enum JsonV {
    Null,
    Bool(bool),
    Int(u32),
    Num(Seq<char>),
    Str(Seq<char>),
    Arr(Seq<JsonV>),
    Obj(Seq<MemberV>),
}

impl DeepView for JsonMember {
    type V = MemberV;

    open spec fn deep_view(&self) -> MemberV
        decreases self,
    {
        MemberV { key: self.key@, value: self.value.deep_view() }
    }
}

impl DeepView for Json {
    type V = JsonV;

    open spec fn deep_view(&self) -> JsonV
        decreases self,
    {
        match self {
            Json::Null => JsonV::Null,
            Json::Bool(b) => JsonV::Bool(*b),
            Json::Int(n) => JsonV::Int(*n),
            Json::Num(s) => JsonV::Num(s@),
            Json::Str(s) => JsonV::Str(s@),
            Json::Arr(items) => JsonV::Arr(jsons_view(self->Arr_0@)),
            Json::Obj(members) => JsonV::Obj(members_view(self->Obj_0@)),
        }
    }
}

/// The member-wise image of a sequence of JSON values.
pub open spec fn jsons_view(s: Seq<Json>) -> Seq<JsonV>
    decreases s,
{
    if s.len() == 0 {
        Seq::empty()
    } else {
        seq![s.first().deep_view()] + jsons_view(s.drop_first())
    }
}

/// The member-wise image of a sequence of object members.
pub open spec fn members_view(s: Seq<JsonMember>) -> Seq<MemberV>
    decreases s,
{
    if s.len() == 0 {
        Seq::empty()
    } else {
        seq![s.first().deep_view()] + members_view(s.drop_first())
    }
}

/// `jsons_view` maps the sequence element by element.
pub broadcast proof fn jsons_view_elements(s: Seq<Json>)
    ensures
        (#[trigger] jsons_view(s)).len() == s.len(),
        forall|i: int| 0 <= i < s.len() ==> jsons_view(s)[i] == s[i].deep_view(),
    decreases s.len(),
{
    if s.len() > 0 {
        jsons_view_elements(s.drop_first());
        assert(jsons_view(s) == seq![s.first().deep_view()] + jsons_view(s.drop_first()));
        assert forall|i: int| 0 <= i < s.len() implies jsons_view(s)[i] == s[i].deep_view() by {
            if i > 0 {
                assert(jsons_view(s)[i] == jsons_view(s.drop_first())[i - 1]);
                assert(s.drop_first()[i - 1] == s[i]);
            }
        }
    }
}

/// `members_view` maps the sequence element by element.
pub broadcast proof fn members_view_elements(s: Seq<JsonMember>)
    ensures
        (#[trigger] members_view(s)).len() == s.len(),
        forall|i: int| 0 <= i < s.len() ==> members_view(s)[i] == s[i].deep_view(),
    decreases s.len(),
{
    if s.len() > 0 {
        members_view_elements(s.drop_first());
        assert(members_view(s) == seq![s.first().deep_view()] + members_view(s.drop_first()));
        assert forall|i: int| 0 <= i < s.len() implies members_view(s)[i] == s[i].deep_view() by {
            if i > 0 {
                assert(members_view(s)[i] == members_view(s.drop_first())[i - 1]);
                assert(s.drop_first()[i - 1] == s[i]);
            }
        }
    }
}

} // verus!
