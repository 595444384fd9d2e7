//! The JSON shape of the model: camelCase keys on the wire, snake_case
//! fields inside, and nothing lost in either direction.
//!
//! Every record encodes to an object that carries all of its keys in a fixed
//! order, an absent optional field as `null`. Decoding accepts that shape
//! and also tolerates absent optional keys, but no unknown or misplaced key:
//! a cursor walks the members in the expected order, skipping an optional
//! key that is not there, and the object must be consumed whole.

use vstd::prelude::*;
use crate::json::{Json, JsonMember, JsonV, MemberV, jsons_view, members_view,
    jsons_view_elements, members_view_elements};
use crate::model::{Instructor, InstructorV, GeneralEducation, GeneralEducationV,
    TimeLocation, TimeLocationV, CourseSection, CourseSectionV, Course, CourseV,
    APIResponse, APIResponseV};

verus! {

broadcast use jsons_view_elements, members_view_elements;

/// The cursor of a decode in progress: the next member to read, or `None`
/// once the object failed to match.
pub open spec fn spec_cursor(ok: bool, pos: int) -> Option<int> {
    if ok {
        Some(pos)
    } else {
        None
    }
}

/// One JSON member for an optional string field: `null` when absent.
pub open spec fn spec_opt_str_json(v: Option<Seq<char>>) -> JsonV {
    match v {
        Some(s) => JsonV::Str(s),
        None => JsonV::Null,
    }
}

/// One JSON member for an optional boolean field: `null` when absent.
pub open spec fn spec_opt_bool_json(v: Option<bool>) -> JsonV {
    match v {
        Some(b) => JsonV::Bool(b),
        None => JsonV::Null,
    }
}

/// One JSON member for an optional count field: `null` when absent.
pub open spec fn spec_opt_u32_json(v: Option<u32>) -> JsonV {
    match v {
        Some(n) => JsonV::Int(n),
        None => JsonV::Null,
    }
}

/// One JSON member for an optional fractional field, carried as its decimal
/// text: `null` when absent.
pub open spec fn spec_opt_num_json(v: Option<Seq<char>>) -> JsonV {
    match v {
        Some(s) => JsonV::Num(s),
        None => JsonV::Null,
    }
}

fn opt_str_json(v: &Option<String>) -> (r: Json)
    ensures
        r.deep_view() == spec_opt_str_json(v.deep_view()),
{
    match v {
        Some(s) => Json::Str(s.clone()),
        None => Json::Null,
    }
}

fn opt_bool_json(v: &Option<bool>) -> (r: Json)
    ensures
        r.deep_view() == spec_opt_bool_json(*v),
{
    match v {
        Some(b) => Json::Bool(*b),
        None => Json::Null,
    }
}

fn opt_u32_json(v: &Option<u32>) -> (r: Json)
    ensures
        r.deep_view() == spec_opt_u32_json(*v),
{
    match v {
        Some(n) => Json::Int(*n),
        None => Json::Null,
    }
}

fn opt_num_json(v: &Option<String>) -> (r: Json)
    ensures
        r.deep_view() == spec_opt_num_json(v.deep_view()),
{
    match v {
        Some(s) => Json::Num(s.clone()),
        None => Json::Null,
    }
}

/// Read a required string member at the cursor.
pub open spec fn spec_take_req_str(ms: Seq<MemberV>, cur: Option<int>, key: Seq<char>) -> (
    Seq<char>,
    Option<int>,
) {
    match cur {
        None => (Seq::empty(), None),
        Some(i) => {
            if 0 <= i < ms.len() && ms[i].key == key {
                match ms[i].value {
                    JsonV::Str(s) => (s, Some(i + 1)),
                    _ => (Seq::empty(), None),
                }
            } else {
                (Seq::empty(), None)
            }
        },
    }
}

/// Read an optional string member at the cursor: `null` or an absent key is
/// an absent field.
pub open spec fn spec_take_opt_str(ms: Seq<MemberV>, cur: Option<int>, key: Seq<char>) -> (
    Option<Seq<char>>,
    Option<int>,
) {
    match cur {
        None => (None, None),
        Some(i) => {
            if 0 <= i < ms.len() && ms[i].key == key {
                match ms[i].value {
                    JsonV::Null => (None, Some(i + 1)),
                    JsonV::Str(s) => (Some(s), Some(i + 1)),
                    _ => (None, None),
                }
            } else {
                (None, Some(i))
            }
        },
    }
}

/// Read a required boolean member at the cursor.
pub open spec fn spec_take_req_bool(ms: Seq<MemberV>, cur: Option<int>, key: Seq<char>) -> (
    bool,
    Option<int>,
) {
    match cur {
        None => (false, None),
        Some(i) => {
            if 0 <= i < ms.len() && ms[i].key == key {
                match ms[i].value {
                    JsonV::Bool(b) => (b, Some(i + 1)),
                    _ => (false, None),
                }
            } else {
                (false, None)
            }
        },
    }
}

/// Read an optional boolean member at the cursor.
pub open spec fn spec_take_opt_bool(ms: Seq<MemberV>, cur: Option<int>, key: Seq<char>) -> (
    Option<bool>,
    Option<int>,
) {
    match cur {
        None => (None, None),
        Some(i) => {
            if 0 <= i < ms.len() && ms[i].key == key {
                match ms[i].value {
                    JsonV::Null => (None, Some(i + 1)),
                    JsonV::Bool(b) => (Some(b), Some(i + 1)),
                    _ => (None, None),
                }
            } else {
                (None, Some(i))
            }
        },
    }
}

/// Read a required count member at the cursor.
pub open spec fn spec_take_req_u32(ms: Seq<MemberV>, cur: Option<int>, key: Seq<char>) -> (
    u32,
    Option<int>,
) {
    match cur {
        None => (0u32, None),
        Some(i) => {
            if 0 <= i < ms.len() && ms[i].key == key {
                match ms[i].value {
                    JsonV::Int(n) => (n, Some(i + 1)),
                    _ => (0u32, None),
                }
            } else {
                (0u32, None)
            }
        },
    }
}

/// Read an optional count member at the cursor.
pub open spec fn spec_take_opt_u32(ms: Seq<MemberV>, cur: Option<int>, key: Seq<char>) -> (
    Option<u32>,
    Option<int>,
) {
    match cur {
        None => (None, None),
        Some(i) => {
            if 0 <= i < ms.len() && ms[i].key == key {
                match ms[i].value {
                    JsonV::Null => (None, Some(i + 1)),
                    JsonV::Int(n) => (Some(n), Some(i + 1)),
                    _ => (None, None),
                }
            } else {
                (None, Some(i))
            }
        },
    }
}

/// Read an optional fractional member at the cursor: the decimal text.
pub open spec fn spec_take_opt_num(ms: Seq<MemberV>, cur: Option<int>, key: Seq<char>) -> (
    Option<Seq<char>>,
    Option<int>,
) {
    match cur {
        None => (None, None),
        Some(i) => {
            if 0 <= i < ms.len() && ms[i].key == key {
                match ms[i].value {
                    JsonV::Null => (None, Some(i + 1)),
                    JsonV::Num(s) => (Some(s), Some(i + 1)),
                    _ => (None, None),
                }
            } else {
                (None, Some(i))
            }
        },
    }
}

fn take_req_str(ms: &Vec<JsonMember>, cur: &mut usize, ok: &mut bool, key: &str) -> (r: String)
    ensures
        ({
            let (v, c2) = spec_take_req_str(
                members_view(ms@),
                spec_cursor(*old(ok), *old(cur) as int),
                key@,
            );
            r@ == v && spec_cursor(*final(ok), *final(cur) as int) == c2
        }),
{
    if !*ok {
        return String::new();
    }
    if *cur < ms.len() {
        let k: String = key.to_owned();
        if ms[*cur].key == k {
            match &ms[*cur].value {
                Json::Str(s) => {
                    let v = s.clone();
                    *cur = *cur + 1;
                    return v;
                },
                _ => {
                    *ok = false;
                    return String::new();
                },
            }
        }
    }
    *ok = false;
    String::new()
}

fn take_opt_str(ms: &Vec<JsonMember>, cur: &mut usize, ok: &mut bool, key: &str) -> (r: Option<
    String,
>)
    ensures
        ({
            let (v, c2) = spec_take_opt_str(
                members_view(ms@),
                spec_cursor(*old(ok), *old(cur) as int),
                key@,
            );
            r.deep_view() == v && spec_cursor(*final(ok), *final(cur) as int) == c2
        }),
{
    if !*ok {
        return None;
    }
    if *cur < ms.len() {
        let k: String = key.to_owned();
        if ms[*cur].key == k {
            match &ms[*cur].value {
                Json::Null => {
                    *cur = *cur + 1;
                    return None;
                },
                Json::Str(s) => {
                    let v = s.clone();
                    *cur = *cur + 1;
                    return Some(v);
                },
                _ => {
                    *ok = false;
                    return None;
                },
            }
        }
    }
    None
}

fn take_req_bool(ms: &Vec<JsonMember>, cur: &mut usize, ok: &mut bool, key: &str) -> (r: bool)
    ensures
        ({
            let (v, c2) = spec_take_req_bool(
                members_view(ms@),
                spec_cursor(*old(ok), *old(cur) as int),
                key@,
            );
            r == v && spec_cursor(*final(ok), *final(cur) as int) == c2
        }),
{
    if !*ok {
        return false;
    }
    if *cur < ms.len() {
        let k: String = key.to_owned();
        if ms[*cur].key == k {
            match &ms[*cur].value {
                Json::Bool(b) => {
                    let v = *b;
                    *cur = *cur + 1;
                    return v;
                },
                _ => {
                    *ok = false;
                    return false;
                },
            }
        }
    }
    *ok = false;
    false
}

fn take_opt_bool(ms: &Vec<JsonMember>, cur: &mut usize, ok: &mut bool, key: &str) -> (r: Option<
    bool,
>)
    ensures
        ({
            let (v, c2) = spec_take_opt_bool(
                members_view(ms@),
                spec_cursor(*old(ok), *old(cur) as int),
                key@,
            );
            r == v && spec_cursor(*final(ok), *final(cur) as int) == c2
        }),
{
    if !*ok {
        return None;
    }
    if *cur < ms.len() {
        let k: String = key.to_owned();
        if ms[*cur].key == k {
            match &ms[*cur].value {
                Json::Null => {
                    *cur = *cur + 1;
                    return None;
                },
                Json::Bool(b) => {
                    let v = *b;
                    *cur = *cur + 1;
                    return Some(v);
                },
                _ => {
                    *ok = false;
                    return None;
                },
            }
        }
    }
    None
}

fn take_req_u32(ms: &Vec<JsonMember>, cur: &mut usize, ok: &mut bool, key: &str) -> (r: u32)
    ensures
        ({
            let (v, c2) = spec_take_req_u32(
                members_view(ms@),
                spec_cursor(*old(ok), *old(cur) as int),
                key@,
            );
            r == v && spec_cursor(*final(ok), *final(cur) as int) == c2
        }),
{
    if !*ok {
        return 0;
    }
    if *cur < ms.len() {
        let k: String = key.to_owned();
        if ms[*cur].key == k {
            match &ms[*cur].value {
                Json::Int(n) => {
                    let v = *n;
                    *cur = *cur + 1;
                    return v;
                },
                _ => {
                    *ok = false;
                    return 0;
                },
            }
        }
    }
    *ok = false;
    0
}

fn take_opt_u32(ms: &Vec<JsonMember>, cur: &mut usize, ok: &mut bool, key: &str) -> (r: Option<
    u32,
>)
    ensures
        ({
            let (v, c2) = spec_take_opt_u32(
                members_view(ms@),
                spec_cursor(*old(ok), *old(cur) as int),
                key@,
            );
            r == v && spec_cursor(*final(ok), *final(cur) as int) == c2
        }),
{
    if !*ok {
        return None;
    }
    if *cur < ms.len() {
        let k: String = key.to_owned();
        if ms[*cur].key == k {
            match &ms[*cur].value {
                Json::Null => {
                    *cur = *cur + 1;
                    return None;
                },
                Json::Int(n) => {
                    let v = *n;
                    *cur = *cur + 1;
                    return Some(v);
                },
                _ => {
                    *ok = false;
                    return None;
                },
            }
        }
    }
    None
}

fn take_opt_num(ms: &Vec<JsonMember>, cur: &mut usize, ok: &mut bool, key: &str) -> (r: Option<
    String,
>)
    ensures
        ({
            let (v, c2) = spec_take_opt_num(
                members_view(ms@),
                spec_cursor(*old(ok), *old(cur) as int),
                key@,
            );
            r.deep_view() == v && spec_cursor(*final(ok), *final(cur) as int) == c2
        }),
{
    if !*ok {
        return None;
    }
    if *cur < ms.len() {
        let k: String = key.to_owned();
        if ms[*cur].key == k {
            match &ms[*cur].value {
                Json::Null => {
                    *cur = *cur + 1;
                    return None;
                },
                Json::Num(s) => {
                    let v = s.clone();
                    *cur = *cur + 1;
                    return Some(v);
                },
                _ => {
                    *ok = false;
                    return None;
                },
            }
        }
    }
    None
}

/// The JSON image of one `Instructor`.
pub open spec fn spec_enc_instructor(v: InstructorV) -> JsonV {
    JsonV::Obj(
        seq![
            MemberV { key: "functionCode"@, value: JsonV::Str(v.function_code) },
            MemberV { key: "instructor"@, value: JsonV::Str(v.instructor) },
        ],
    )
}

/// What decoding an `Instructor` object yields.
pub open spec fn spec_dec_instructor(j: JsonV) -> Option<InstructorV> {
    match j {
        JsonV::Obj(ms) => {
            let (function_code, c1) = spec_take_req_str(ms, Some(0int), "functionCode"@);
            let (instructor, c2) = spec_take_req_str(ms, c1, "instructor"@);
            if c2 == Some(ms.len() as int) {
                Some(InstructorV { function_code, instructor })
            } else {
                None
            }
        },
        _ => None,
    }
}

impl Instructor {
    /// Encode to the wire shape, camelCase keys in canonical order.
    pub fn to_json(&self) -> (r: Json)
        ensures
            r.deep_view() == spec_enc_instructor(self.deep_view()),
    {
        let mut ms: Vec<JsonMember> = Vec::new();
        ms.push(JsonMember { key: "functionCode".to_owned(), value: Json::Str(self.function_code.clone()) });
        ms.push(JsonMember { key: "instructor".to_owned(), value: Json::Str(self.instructor.clone()) });
        let r = Json::Obj(ms);
        proof {
            members_view_elements(ms@);
            assert(members_view(ms@) =~= seq![
                MemberV { key: "functionCode"@, value: JsonV::Str(self.function_code@) },
                MemberV { key: "instructor"@, value: JsonV::Str(self.instructor@) },
            ]);
            assert(r.deep_view() =~= spec_enc_instructor(self.deep_view()));
        }
        r
    }

    /// Decode from the wire shape; `None` on any mismatch.
    pub fn from_json(j: &Json) -> (r: Option<Instructor>)
        ensures
            r.deep_view() == spec_dec_instructor(j.deep_view()),
    {
        match j {
            Json::Obj(ms) => {
                let mut cur: usize = 0;
                let mut ok: bool = true;
                let function_code = take_req_str(ms, &mut cur, &mut ok, "functionCode");
                let instructor = take_req_str(ms, &mut cur, &mut ok, "instructor");
                if ok && cur == ms.len() {
                    let v = Instructor { function_code, instructor };
                    proof {
                        assert(Some(v).deep_view() =~= spec_dec_instructor(j.deep_view()));
                    }
                    Some(v)
                } else {
                    None
                }
            },
            _ => None,
        }
    }
}

/// Decoding inverts encoding: the round trip of an `Instructor`.
pub proof fn lemma_instructor_round_trip(v: InstructorV)
    ensures
        spec_dec_instructor(spec_enc_instructor(v)) == Some(v),
{
    assert(spec_dec_instructor(spec_enc_instructor(v)) =~= Some(v));
}


/// The JSON image of one `GeneralEducation`.
pub open spec fn spec_enc_general_education(v: GeneralEducationV) -> JsonV {
    JsonV::Obj(
        seq![
            MemberV { key: "geCode"@, value: JsonV::Str(v.ge_code) },
            MemberV { key: "geCollege"@, value: JsonV::Str(v.ge_college) },
        ],
    )
}

/// What decoding a `GeneralEducation` object yields.
pub open spec fn spec_dec_general_education(j: JsonV) -> Option<GeneralEducationV> {
    match j {
        JsonV::Obj(ms) => {
            let (ge_code, c1) = spec_take_req_str(ms, Some(0int), "geCode"@);
            let (ge_college, c2) = spec_take_req_str(ms, c1, "geCollege"@);
            if c2 == Some(ms.len() as int) {
                Some(GeneralEducationV { ge_code, ge_college })
            } else {
                None
            }
        },
        _ => None,
    }
}

impl GeneralEducation {
    /// Encode to the wire shape, camelCase keys in canonical order.
    #[verifier::rlimit(50)]
    pub fn to_json(&self) -> (r: Json)
        ensures
            r.deep_view() == spec_enc_general_education(self.deep_view()),
    {
        let mut ms: Vec<JsonMember> = Vec::new();
        ms.push(JsonMember { key: "geCode".to_owned(), value: Json::Str(self.ge_code.clone()) });
        ms.push(JsonMember { key: "geCollege".to_owned(), value: Json::Str(self.ge_college.clone()) });
        let r = Json::Obj(ms);
        proof {
            members_view_elements(ms@);
            assert(members_view(ms@) =~= seq![
                    MemberV { key: "geCode"@, value: JsonV::Str(self.ge_code@) },
                    MemberV { key: "geCollege"@, value: JsonV::Str(self.ge_college@) },
                ]);
            assert(r.deep_view() =~= spec_enc_general_education(self.deep_view()));
        }
        r
    }

    /// Decode from the wire shape; `None` on any mismatch.
    #[verifier::rlimit(50)]
    pub fn from_json(j: &Json) -> (r: Option<GeneralEducation>)
        ensures
            r.deep_view() == spec_dec_general_education(j.deep_view()),
    {
        match j {
            Json::Obj(ms) => {
                let ghost gms = members_view(ms@);
                let mut cur: usize = 0;
                let mut ok: bool = true;
                let ge_code = take_req_str(ms, &mut cur, &mut ok, "geCode");
                let ge_college = take_req_str(ms, &mut cur, &mut ok, "geCollege");
                if ok && cur == ms.len() {
                    let v = GeneralEducation { ge_code, ge_college };
                    proof {
                        assert(Some(v).deep_view() =~= spec_dec_general_education(j.deep_view()));
                    }
                    Some(v)
                } else {
                    None
                }
            },
            _ => None,
        }
    }
}

/// Decoding inverts encoding: the round trip of a `GeneralEducation`.
#[verifier::rlimit(50)]
pub proof fn lemma_general_education_round_trip(v: GeneralEducationV)
    ensures
        spec_dec_general_education(spec_enc_general_education(v)) == Some(v),
{
    
    assert(spec_dec_general_education(spec_enc_general_education(v)) =~= Some(v));
}

/// The JSON image of a list of `GeneralEducation` records, element by element.
pub open spec fn spec_enc_general_education_list(vs: Seq<GeneralEducationV>) -> Seq<JsonV> {
    Seq::new(vs.len(), |i: int| spec_enc_general_education(vs[i]))
}

/// What decoding a list of `GeneralEducation` objects yields: every element must
/// decode.
pub open spec fn spec_dec_general_education_list(items: Seq<JsonV>) -> Option<Seq<GeneralEducationV>>
    decreases items.len(),
{
    if items.len() == 0 {
        Some(Seq::empty())
    } else {
        match spec_dec_general_education(items[0]) {
            Some(v) => match spec_dec_general_education_list(items.drop_first()) {
                Some(rest) => Some(seq![v] + rest),
                None => None,
            },
            None => None,
        }
    }
}

fn general_education_list_to_json(vs: &Vec<GeneralEducation>) -> (r: Vec<Json>)
    ensures
        jsons_view(r@) == spec_enc_general_education_list(vs.deep_view()),
{
    let mut r: Vec<Json> = Vec::new();
    let mut i: usize = 0;
    while i < vs.len()
        invariant
            0 <= i as int <= vs@.len(),
            r@.len() == i as int,
            forall|x: int|
                0 <= x < i as int ==> r@[x].deep_view() == spec_enc_general_education(vs@[x].deep_view()),
        decreases vs@.len() - i as int,
    {
        let e = vs[i].to_json();
        r.push(e);
        i = i + 1;
    }
    proof {
        jsons_view_elements(r@);
        assert forall|x: int| 0 <= x < r@.len() implies jsons_view(r@)[x] == spec_enc_general_education_list(
            vs.deep_view(),
        )[x] by {
            assert(vs.deep_view()[x] == vs@[x].deep_view());
        }
        assert(jsons_view(r@) =~= spec_enc_general_education_list(vs.deep_view()));
    }
    r
}

fn general_education_list_from_json(items: &Vec<Json>) -> (r: Option<Vec<GeneralEducation>>)
    ensures
        r.deep_view() == spec_dec_general_education_list(jsons_view(items@)),
{
    let ghost full = jsons_view(items@);
    let mut acc: Vec<GeneralEducation> = Vec::new();
    let mut i: usize = 0;
    proof {
        assert(full.skip(0) =~= full);
        assert(acc.deep_view() =~= Seq::<GeneralEducationV>::empty());
    }
    while i < items.len()
        invariant
            0 <= i as int <= items@.len(),
            full == jsons_view(items@),
            full.len() == items@.len(),
            ({
                let tail = spec_dec_general_education_list(full.skip(i as int));
                spec_dec_general_education_list(full) == (match tail {
                    Some(rest) => Some(acc.deep_view() + rest),
                    None => None::<Seq<GeneralEducationV>>,
                })
            }),
        decreases items@.len() - i as int,
    {
        let ghost tail0 = full.skip(i as int);
        proof {
            assert(tail0[0] == full[i as int]);
            assert(full[i as int] == items@[i as int].deep_view());
            assert(tail0.drop_first() =~= full.skip(i as int + 1));
        }
        match GeneralEducation::from_json(&items[i]) {
            Some(v) => {
                let ghost old_acc = acc.deep_view();
                acc.push(v);
                proof {
                    assert(acc.deep_view() =~= old_acc + seq![v.deep_view()]);
                    assert forall|rest: Seq<GeneralEducationV>|
                        old_acc + (seq![v.deep_view()] + rest) == acc.deep_view() + rest by {
                        assert(old_acc + (seq![v.deep_view()] + rest) =~= acc.deep_view() + rest);
                    }
                }
                i = i + 1;
            },
            None => {
                return None;
            },
        }
    }
    proof {
        assert(full.skip(i as int) =~= Seq::<JsonV>::empty());
        assert(acc.deep_view() + Seq::<GeneralEducationV>::empty() =~= acc.deep_view());
    }
    Some(acc)
}

/// Decoding inverts encoding for a whole list of `GeneralEducation` records.
pub proof fn lemma_general_education_list_round_trip(vs: Seq<GeneralEducationV>)
    ensures
        spec_dec_general_education_list(spec_enc_general_education_list(vs)) == Some(vs),
    decreases vs.len(),
{
    let js = spec_enc_general_education_list(vs);
    if vs.len() == 0 {
    } else {
        lemma_general_education_round_trip(vs[0]);
        lemma_general_education_list_round_trip(vs.drop_first());
        assert(js.drop_first() =~= spec_enc_general_education_list(vs.drop_first()));
        assert(seq![vs[0]] + vs.drop_first() =~= vs);
    }
}

/// Read a required array of `GeneralEducation` objects at the cursor, decoded.
pub open spec fn spec_take_general_education_list(ms: Seq<MemberV>, cur: Option<int>, key: Seq<char>) -> (
    Seq<GeneralEducationV>,
    Option<int>,
) {
    match cur {
        None => (Seq::empty(), None),
        Some(i) => {
            if 0 <= i < ms.len() && ms[i].key == key {
                match ms[i].value {
                    JsonV::Arr(items) => match spec_dec_general_education_list(items) {
                        Some(vs) => (vs, Some(i + 1)),
                        None => (Seq::empty(), None),
                    },
                    _ => (Seq::empty(), None),
                }
            } else {
                (Seq::empty(), None)
            }
        },
    }
}

/// The JSON image of one `TimeLocation`.
pub open spec fn spec_enc_time_location(v: TimeLocationV) -> JsonV {
    JsonV::Obj(
        seq![
            MemberV { key: "beginTime"@, value: spec_opt_str_json(v.begin_time) },
            MemberV { key: "building"@, value: spec_opt_str_json(v.building) },
            MemberV { key: "days"@, value: spec_opt_str_json(v.days) },
            MemberV { key: "endTime"@, value: spec_opt_str_json(v.end_time) },
            MemberV { key: "room"@, value: spec_opt_str_json(v.room) },
            MemberV { key: "roomCapacity"@, value: spec_opt_u32_json(v.room_capacity) },
        ],
    )
}

/// What decoding a `TimeLocation` object yields.
pub open spec fn spec_dec_time_location(j: JsonV) -> Option<TimeLocationV> {
    match j {
        JsonV::Obj(ms) => {
            let (begin_time, c1) = spec_take_opt_str(ms, Some(0int), "beginTime"@);
            let (building, c2) = spec_take_opt_str(ms, c1, "building"@);
            let (days, c3) = spec_take_opt_str(ms, c2, "days"@);
            let (end_time, c4) = spec_take_opt_str(ms, c3, "endTime"@);
            let (room, c5) = spec_take_opt_str(ms, c4, "room"@);
            let (room_capacity, c6) = spec_take_opt_u32(ms, c5, "roomCapacity"@);
            if c6 == Some(ms.len() as int) {
                Some(TimeLocationV { begin_time, building, days, end_time, room, room_capacity })
            } else {
                None
            }
        },
        _ => None,
    }
}

impl TimeLocation {
    /// Encode to the wire shape, camelCase keys in canonical order.
    #[verifier::rlimit(50)]
    pub fn to_json(&self) -> (r: Json)
        ensures
            r.deep_view() == spec_enc_time_location(self.deep_view()),
    {
        let mut ms: Vec<JsonMember> = Vec::new();
        ms.push(JsonMember { key: "beginTime".to_owned(), value: opt_str_json(&self.begin_time) });
        ms.push(JsonMember { key: "building".to_owned(), value: opt_str_json(&self.building) });
        ms.push(JsonMember { key: "days".to_owned(), value: opt_str_json(&self.days) });
        ms.push(JsonMember { key: "endTime".to_owned(), value: opt_str_json(&self.end_time) });
        ms.push(JsonMember { key: "room".to_owned(), value: opt_str_json(&self.room) });
        ms.push(JsonMember { key: "roomCapacity".to_owned(), value: opt_u32_json(&self.room_capacity) });
        let r = Json::Obj(ms);
        proof {
            members_view_elements(ms@);
            assert(members_view(ms@) =~= seq![
                    MemberV { key: "beginTime"@, value: spec_opt_str_json(self.begin_time.deep_view()) },
                    MemberV { key: "building"@, value: spec_opt_str_json(self.building.deep_view()) },
                    MemberV { key: "days"@, value: spec_opt_str_json(self.days.deep_view()) },
                    MemberV { key: "endTime"@, value: spec_opt_str_json(self.end_time.deep_view()) },
                    MemberV { key: "room"@, value: spec_opt_str_json(self.room.deep_view()) },
                    MemberV { key: "roomCapacity"@, value: spec_opt_u32_json(self.room_capacity) },
                ]);
            assert(r.deep_view() =~= spec_enc_time_location(self.deep_view()));
        }
        r
    }

    /// Decode from the wire shape; `None` on any mismatch.
    #[verifier::rlimit(50)]
    pub fn from_json(j: &Json) -> (r: Option<TimeLocation>)
        ensures
            r.deep_view() == spec_dec_time_location(j.deep_view()),
    {
        match j {
            Json::Obj(ms) => {
                let ghost gms = members_view(ms@);
                let mut cur: usize = 0;
                let mut ok: bool = true;
                let begin_time = take_opt_str(ms, &mut cur, &mut ok, "beginTime");
                let building = take_opt_str(ms, &mut cur, &mut ok, "building");
                let days = take_opt_str(ms, &mut cur, &mut ok, "days");
                let end_time = take_opt_str(ms, &mut cur, &mut ok, "endTime");
                let room = take_opt_str(ms, &mut cur, &mut ok, "room");
                let room_capacity = take_opt_u32(ms, &mut cur, &mut ok, "roomCapacity");
                if ok && cur == ms.len() {
                    let v = TimeLocation { begin_time, building, days, end_time, room, room_capacity };
                    proof {
                        assert(Some(v).deep_view() =~= spec_dec_time_location(j.deep_view()));
                    }
                    Some(v)
                } else {
                    None
                }
            },
            _ => None,
        }
    }
}

/// Decoding inverts encoding: the round trip of a `TimeLocation`.
#[verifier::rlimit(50)]
pub proof fn lemma_time_location_round_trip(v: TimeLocationV)
    ensures
        spec_dec_time_location(spec_enc_time_location(v)) == Some(v),
{
    
    assert(spec_dec_time_location(spec_enc_time_location(v)) =~= Some(v));
}

/// The JSON image of a list of `TimeLocation` records, element by element.
pub open spec fn spec_enc_time_location_list(vs: Seq<TimeLocationV>) -> Seq<JsonV> {
    Seq::new(vs.len(), |i: int| spec_enc_time_location(vs[i]))
}

/// What decoding a list of `TimeLocation` objects yields: every element must
/// decode.
pub open spec fn spec_dec_time_location_list(items: Seq<JsonV>) -> Option<Seq<TimeLocationV>>
    decreases items.len(),
{
    if items.len() == 0 {
        Some(Seq::empty())
    } else {
        match spec_dec_time_location(items[0]) {
            Some(v) => match spec_dec_time_location_list(items.drop_first()) {
                Some(rest) => Some(seq![v] + rest),
                None => None,
            },
            None => None,
        }
    }
}

fn time_location_list_to_json(vs: &Vec<TimeLocation>) -> (r: Vec<Json>)
    ensures
        jsons_view(r@) == spec_enc_time_location_list(vs.deep_view()),
{
    let mut r: Vec<Json> = Vec::new();
    let mut i: usize = 0;
    while i < vs.len()
        invariant
            0 <= i as int <= vs@.len(),
            r@.len() == i as int,
            forall|x: int|
                0 <= x < i as int ==> r@[x].deep_view() == spec_enc_time_location(vs@[x].deep_view()),
        decreases vs@.len() - i as int,
    {
        let e = vs[i].to_json();
        r.push(e);
        i = i + 1;
    }
    proof {
        jsons_view_elements(r@);
        assert forall|x: int| 0 <= x < r@.len() implies jsons_view(r@)[x] == spec_enc_time_location_list(
            vs.deep_view(),
        )[x] by {
            assert(vs.deep_view()[x] == vs@[x].deep_view());
        }
        assert(jsons_view(r@) =~= spec_enc_time_location_list(vs.deep_view()));
    }
    r
}

fn time_location_list_from_json(items: &Vec<Json>) -> (r: Option<Vec<TimeLocation>>)
    ensures
        r.deep_view() == spec_dec_time_location_list(jsons_view(items@)),
{
    let ghost full = jsons_view(items@);
    let mut acc: Vec<TimeLocation> = Vec::new();
    let mut i: usize = 0;
    proof {
        assert(full.skip(0) =~= full);
        assert(acc.deep_view() =~= Seq::<TimeLocationV>::empty());
    }
    while i < items.len()
        invariant
            0 <= i as int <= items@.len(),
            full == jsons_view(items@),
            full.len() == items@.len(),
            ({
                let tail = spec_dec_time_location_list(full.skip(i as int));
                spec_dec_time_location_list(full) == (match tail {
                    Some(rest) => Some(acc.deep_view() + rest),
                    None => None::<Seq<TimeLocationV>>,
                })
            }),
        decreases items@.len() - i as int,
    {
        let ghost tail0 = full.skip(i as int);
        proof {
            assert(tail0[0] == full[i as int]);
            assert(full[i as int] == items@[i as int].deep_view());
            assert(tail0.drop_first() =~= full.skip(i as int + 1));
        }
        match TimeLocation::from_json(&items[i]) {
            Some(v) => {
                let ghost old_acc = acc.deep_view();
                acc.push(v);
                proof {
                    assert(acc.deep_view() =~= old_acc + seq![v.deep_view()]);
                    assert forall|rest: Seq<TimeLocationV>|
                        old_acc + (seq![v.deep_view()] + rest) == acc.deep_view() + rest by {
                        assert(old_acc + (seq![v.deep_view()] + rest) =~= acc.deep_view() + rest);
                    }
                }
                i = i + 1;
            },
            None => {
                return None;
            },
        }
    }
    proof {
        assert(full.skip(i as int) =~= Seq::<JsonV>::empty());
        assert(acc.deep_view() + Seq::<TimeLocationV>::empty() =~= acc.deep_view());
    }
    Some(acc)
}

/// Decoding inverts encoding for a whole list of `TimeLocation` records.
pub proof fn lemma_time_location_list_round_trip(vs: Seq<TimeLocationV>)
    ensures
        spec_dec_time_location_list(spec_enc_time_location_list(vs)) == Some(vs),
    decreases vs.len(),
{
    let js = spec_enc_time_location_list(vs);
    if vs.len() == 0 {
    } else {
        lemma_time_location_round_trip(vs[0]);
        lemma_time_location_list_round_trip(vs.drop_first());
        assert(js.drop_first() =~= spec_enc_time_location_list(vs.drop_first()));
        assert(seq![vs[0]] + vs.drop_first() =~= vs);
    }
}

/// Read a required array of `TimeLocation` objects at the cursor, decoded.
pub open spec fn spec_take_time_location_list(ms: Seq<MemberV>, cur: Option<int>, key: Seq<char>) -> (
    Seq<TimeLocationV>,
    Option<int>,
) {
    match cur {
        None => (Seq::empty(), None),
        Some(i) => {
            if 0 <= i < ms.len() && ms[i].key == key {
                match ms[i].value {
                    JsonV::Arr(items) => match spec_dec_time_location_list(items) {
                        Some(vs) => (vs, Some(i + 1)),
                        None => (Seq::empty(), None),
                    },
                    _ => (Seq::empty(), None),
                }
            } else {
                (Seq::empty(), None)
            }
        },
    }
}

/// The JSON image of a list of `Instructor` records, element by element.
pub open spec fn spec_enc_instructor_list(vs: Seq<InstructorV>) -> Seq<JsonV> {
    Seq::new(vs.len(), |i: int| spec_enc_instructor(vs[i]))
}

/// What decoding a list of `Instructor` objects yields: every element must
/// decode.
pub open spec fn spec_dec_instructor_list(items: Seq<JsonV>) -> Option<Seq<InstructorV>>
    decreases items.len(),
{
    if items.len() == 0 {
        Some(Seq::empty())
    } else {
        match spec_dec_instructor(items[0]) {
            Some(v) => match spec_dec_instructor_list(items.drop_first()) {
                Some(rest) => Some(seq![v] + rest),
                None => None,
            },
            None => None,
        }
    }
}

fn instructor_list_to_json(vs: &Vec<Instructor>) -> (r: Vec<Json>)
    ensures
        jsons_view(r@) == spec_enc_instructor_list(vs.deep_view()),
{
    let mut r: Vec<Json> = Vec::new();
    let mut i: usize = 0;
    while i < vs.len()
        invariant
            0 <= i as int <= vs@.len(),
            r@.len() == i as int,
            forall|x: int|
                0 <= x < i as int ==> r@[x].deep_view() == spec_enc_instructor(vs@[x].deep_view()),
        decreases vs@.len() - i as int,
    {
        let e = vs[i].to_json();
        r.push(e);
        i = i + 1;
    }
    proof {
        jsons_view_elements(r@);
        assert forall|x: int| 0 <= x < r@.len() implies jsons_view(r@)[x] == spec_enc_instructor_list(
            vs.deep_view(),
        )[x] by {
            assert(vs.deep_view()[x] == vs@[x].deep_view());
        }
        assert(jsons_view(r@) =~= spec_enc_instructor_list(vs.deep_view()));
    }
    r
}

fn instructor_list_from_json(items: &Vec<Json>) -> (r: Option<Vec<Instructor>>)
    ensures
        r.deep_view() == spec_dec_instructor_list(jsons_view(items@)),
{
    let ghost full = jsons_view(items@);
    let mut acc: Vec<Instructor> = Vec::new();
    let mut i: usize = 0;
    proof {
        assert(full.skip(0) =~= full);
        assert(acc.deep_view() =~= Seq::<InstructorV>::empty());
    }
    while i < items.len()
        invariant
            0 <= i as int <= items@.len(),
            full == jsons_view(items@),
            full.len() == items@.len(),
            ({
                let tail = spec_dec_instructor_list(full.skip(i as int));
                spec_dec_instructor_list(full) == (match tail {
                    Some(rest) => Some(acc.deep_view() + rest),
                    None => None::<Seq<InstructorV>>,
                })
            }),
        decreases items@.len() - i as int,
    {
        let ghost tail0 = full.skip(i as int);
        proof {
            assert(tail0[0] == full[i as int]);
            assert(full[i as int] == items@[i as int].deep_view());
            assert(tail0.drop_first() =~= full.skip(i as int + 1));
        }
        match Instructor::from_json(&items[i]) {
            Some(v) => {
                let ghost old_acc = acc.deep_view();
                acc.push(v);
                proof {
                    assert(acc.deep_view() =~= old_acc + seq![v.deep_view()]);
                    assert forall|rest: Seq<InstructorV>|
                        old_acc + (seq![v.deep_view()] + rest) == acc.deep_view() + rest by {
                        assert(old_acc + (seq![v.deep_view()] + rest) =~= acc.deep_view() + rest);
                    }
                }
                i = i + 1;
            },
            None => {
                return None;
            },
        }
    }
    proof {
        assert(full.skip(i as int) =~= Seq::<JsonV>::empty());
        assert(acc.deep_view() + Seq::<InstructorV>::empty() =~= acc.deep_view());
    }
    Some(acc)
}

/// Decoding inverts encoding for a whole list of `Instructor` records.
pub proof fn lemma_instructor_list_round_trip(vs: Seq<InstructorV>)
    ensures
        spec_dec_instructor_list(spec_enc_instructor_list(vs)) == Some(vs),
    decreases vs.len(),
{
    let js = spec_enc_instructor_list(vs);
    if vs.len() == 0 {
    } else {
        lemma_instructor_round_trip(vs[0]);
        lemma_instructor_list_round_trip(vs.drop_first());
        assert(js.drop_first() =~= spec_enc_instructor_list(vs.drop_first()));
        assert(seq![vs[0]] + vs.drop_first() =~= vs);
    }
}

/// Read a required array of `Instructor` objects at the cursor, decoded.
pub open spec fn spec_take_instructor_list(ms: Seq<MemberV>, cur: Option<int>, key: Seq<char>) -> (
    Seq<InstructorV>,
    Option<int>,
) {
    match cur {
        None => (Seq::empty(), None),
        Some(i) => {
            if 0 <= i < ms.len() && ms[i].key == key {
                match ms[i].value {
                    JsonV::Arr(items) => match spec_dec_instructor_list(items) {
                        Some(vs) => (vs, Some(i + 1)),
                        None => (Seq::empty(), None),
                    },
                    _ => (Seq::empty(), None),
                }
            } else {
                (Seq::empty(), None)
            }
        },
    }
}

/// The JSON image of one `CourseSection`.
pub open spec fn spec_enc_course_section(v: CourseSectionV) -> JsonV {
    JsonV::Obj(
        seq![
            MemberV { key: "classClosed"@, value: spec_opt_str_json(v.class_closed) },
            MemberV { key: "courseCancelled"@, value: spec_opt_str_json(v.course_cancelled) },
            MemberV { key: "departmentApprovalRequired"@, value: spec_opt_bool_json(v.department_approval_required) },
            MemberV { key: "enrollCode"@, value: spec_opt_str_json(v.enroll_code) },
            MemberV { key: "enrolledTotal"@, value: spec_opt_u32_json(v.enrolled_total) },
            MemberV { key: "gradingOptionCode"@, value: spec_opt_str_json(v.grading_option_code) },
            MemberV { key: "instructorApprovalRequired"@, value: JsonV::Bool(v.instructor_approval_required) },
            MemberV { key: "instructors"@, value: JsonV::Arr(spec_enc_instructor_list(v.instructors)) },
            MemberV { key: "maxEnroll"@, value: spec_opt_u32_json(v.max_enroll) },
            MemberV { key: "restrictionLevel"@, value: spec_opt_str_json(v.restriction_level) },
            MemberV { key: "restrictionMajor"@, value: spec_opt_str_json(v.restriction_major) },
            MemberV { key: "restrictionMajorPass"@, value: spec_opt_str_json(v.restriction_major_pass) },
            MemberV { key: "restrictionMinor"@, value: spec_opt_str_json(v.restriction_minor) },
            MemberV { key: "restrictionMinorPass"@, value: spec_opt_str_json(v.restriction_minor_pass) },
            MemberV { key: "secondaryStatus"@, value: spec_opt_str_json(v.secondary_status) },
            MemberV { key: "section"@, value: spec_opt_str_json(v.section) },
            MemberV { key: "session"@, value: spec_opt_str_json(v.session) },
            MemberV { key: "timeLocations"@, value: JsonV::Arr(spec_enc_time_location_list(v.time_locations)) },
        ],
    )
}

/// What decoding a `CourseSection` object yields.
pub open spec fn spec_dec_course_section(j: JsonV) -> Option<CourseSectionV> {
    match j {
        JsonV::Obj(ms) => {
            let (class_closed, c1) = spec_take_opt_str(ms, Some(0int), "classClosed"@);
            let (course_cancelled, c2) = spec_take_opt_str(ms, c1, "courseCancelled"@);
            let (department_approval_required, c3) = spec_take_opt_bool(ms, c2, "departmentApprovalRequired"@);
            let (enroll_code, c4) = spec_take_opt_str(ms, c3, "enrollCode"@);
            let (enrolled_total, c5) = spec_take_opt_u32(ms, c4, "enrolledTotal"@);
            let (grading_option_code, c6) = spec_take_opt_str(ms, c5, "gradingOptionCode"@);
            let (instructor_approval_required, c7) = spec_take_req_bool(ms, c6, "instructorApprovalRequired"@);
            let (instructors, c8) = spec_take_instructor_list(ms, c7, "instructors"@);
            let (max_enroll, c9) = spec_take_opt_u32(ms, c8, "maxEnroll"@);
            let (restriction_level, c10) = spec_take_opt_str(ms, c9, "restrictionLevel"@);
            let (restriction_major, c11) = spec_take_opt_str(ms, c10, "restrictionMajor"@);
            let (restriction_major_pass, c12) = spec_take_opt_str(ms, c11, "restrictionMajorPass"@);
            let (restriction_minor, c13) = spec_take_opt_str(ms, c12, "restrictionMinor"@);
            let (restriction_minor_pass, c14) = spec_take_opt_str(ms, c13, "restrictionMinorPass"@);
            let (secondary_status, c15) = spec_take_opt_str(ms, c14, "secondaryStatus"@);
            let (section, c16) = spec_take_opt_str(ms, c15, "section"@);
            let (session, c17) = spec_take_opt_str(ms, c16, "session"@);
            let (time_locations, c18) = spec_take_time_location_list(ms, c17, "timeLocations"@);
            if c18 == Some(ms.len() as int) {
                Some(CourseSectionV { class_closed, course_cancelled, department_approval_required, enroll_code, enrolled_total, grading_option_code, instructor_approval_required, instructors, max_enroll, restriction_level, restriction_major, restriction_major_pass, restriction_minor, restriction_minor_pass, secondary_status, section, session, time_locations })
            } else {
                None
            }
        },
        _ => None,
    }
}

impl CourseSection {
    /// Encode to the wire shape, camelCase keys in canonical order.
    #[verifier::rlimit(50)]
    pub fn to_json(&self) -> (r: Json)
        ensures
            r.deep_view() == spec_enc_course_section(self.deep_view()),
    {
        let mut ms: Vec<JsonMember> = Vec::new();
        ms.push(JsonMember { key: "classClosed".to_owned(), value: opt_str_json(&self.class_closed) });
        ms.push(JsonMember { key: "courseCancelled".to_owned(), value: opt_str_json(&self.course_cancelled) });
        ms.push(JsonMember { key: "departmentApprovalRequired".to_owned(), value: opt_bool_json(&self.department_approval_required) });
        ms.push(JsonMember { key: "enrollCode".to_owned(), value: opt_str_json(&self.enroll_code) });
        ms.push(JsonMember { key: "enrolledTotal".to_owned(), value: opt_u32_json(&self.enrolled_total) });
        ms.push(JsonMember { key: "gradingOptionCode".to_owned(), value: opt_str_json(&self.grading_option_code) });
        ms.push(JsonMember { key: "instructorApprovalRequired".to_owned(), value: Json::Bool(self.instructor_approval_required) });
        ms.push(JsonMember { key: "instructors".to_owned(), value: Json::Arr(instructor_list_to_json(&self.instructors)) });
        ms.push(JsonMember { key: "maxEnroll".to_owned(), value: opt_u32_json(&self.max_enroll) });
        ms.push(JsonMember { key: "restrictionLevel".to_owned(), value: opt_str_json(&self.restriction_level) });
        ms.push(JsonMember { key: "restrictionMajor".to_owned(), value: opt_str_json(&self.restriction_major) });
        ms.push(JsonMember { key: "restrictionMajorPass".to_owned(), value: opt_str_json(&self.restriction_major_pass) });
        ms.push(JsonMember { key: "restrictionMinor".to_owned(), value: opt_str_json(&self.restriction_minor) });
        ms.push(JsonMember { key: "restrictionMinorPass".to_owned(), value: opt_str_json(&self.restriction_minor_pass) });
        ms.push(JsonMember { key: "secondaryStatus".to_owned(), value: opt_str_json(&self.secondary_status) });
        ms.push(JsonMember { key: "section".to_owned(), value: opt_str_json(&self.section) });
        ms.push(JsonMember { key: "session".to_owned(), value: opt_str_json(&self.session) });
        ms.push(JsonMember { key: "timeLocations".to_owned(), value: Json::Arr(time_location_list_to_json(&self.time_locations)) });
        let r = Json::Obj(ms);
        proof {
            members_view_elements(ms@);
            assert(members_view(ms@) =~= seq![
                    MemberV { key: "classClosed"@, value: spec_opt_str_json(self.class_closed.deep_view()) },
                    MemberV { key: "courseCancelled"@, value: spec_opt_str_json(self.course_cancelled.deep_view()) },
                    MemberV { key: "departmentApprovalRequired"@, value: spec_opt_bool_json(self.department_approval_required) },
                    MemberV { key: "enrollCode"@, value: spec_opt_str_json(self.enroll_code.deep_view()) },
                    MemberV { key: "enrolledTotal"@, value: spec_opt_u32_json(self.enrolled_total) },
                    MemberV { key: "gradingOptionCode"@, value: spec_opt_str_json(self.grading_option_code.deep_view()) },
                    MemberV { key: "instructorApprovalRequired"@, value: JsonV::Bool(self.instructor_approval_required) },
                    MemberV { key: "instructors"@, value: JsonV::Arr(spec_enc_instructor_list(self.instructors.deep_view())) },
                    MemberV { key: "maxEnroll"@, value: spec_opt_u32_json(self.max_enroll) },
                    MemberV { key: "restrictionLevel"@, value: spec_opt_str_json(self.restriction_level.deep_view()) },
                    MemberV { key: "restrictionMajor"@, value: spec_opt_str_json(self.restriction_major.deep_view()) },
                    MemberV { key: "restrictionMajorPass"@, value: spec_opt_str_json(self.restriction_major_pass.deep_view()) },
                    MemberV { key: "restrictionMinor"@, value: spec_opt_str_json(self.restriction_minor.deep_view()) },
                    MemberV { key: "restrictionMinorPass"@, value: spec_opt_str_json(self.restriction_minor_pass.deep_view()) },
                    MemberV { key: "secondaryStatus"@, value: spec_opt_str_json(self.secondary_status.deep_view()) },
                    MemberV { key: "section"@, value: spec_opt_str_json(self.section.deep_view()) },
                    MemberV { key: "session"@, value: spec_opt_str_json(self.session.deep_view()) },
                    MemberV { key: "timeLocations"@, value: JsonV::Arr(spec_enc_time_location_list(self.time_locations.deep_view())) },
                ]);
            assert(r.deep_view() =~= spec_enc_course_section(self.deep_view()));
        }
        r
    }

    /// Decode from the wire shape; `None` on any mismatch.
    #[verifier::rlimit(50)]
    pub fn from_json(j: &Json) -> (r: Option<CourseSection>)
        ensures
            r.deep_view() == spec_dec_course_section(j.deep_view()),
    {
        match j {
            Json::Obj(ms) => {
                let ghost gms = members_view(ms@);
                let mut cur: usize = 0;
                let mut ok: bool = true;
                let class_closed = take_opt_str(ms, &mut cur, &mut ok, "classClosed");
                let course_cancelled = take_opt_str(ms, &mut cur, &mut ok, "courseCancelled");
                let department_approval_required = take_opt_bool(ms, &mut cur, &mut ok, "departmentApprovalRequired");
                let enroll_code = take_opt_str(ms, &mut cur, &mut ok, "enrollCode");
                let enrolled_total = take_opt_u32(ms, &mut cur, &mut ok, "enrolledTotal");
                let grading_option_code = take_opt_str(ms, &mut cur, &mut ok, "gradingOptionCode");
                let instructor_approval_required = take_req_bool(ms, &mut cur, &mut ok, "instructorApprovalRequired");
                let ghost c_before_instructors = spec_cursor(ok, cur as int);
                let mut instructors: Vec<Instructor> = Vec::new();
                if ok {
                    let mut matched = false;
                    if cur < ms.len() {
                        let k: String = "instructors".to_owned();
                        if ms[cur].key == k {
                            match &ms[cur].value {
                                Json::Arr(items) => {
                                    match instructor_list_from_json(items) {
                                        Some(v) => {
                                            instructors = v;
                                            cur = cur + 1;
                                            matched = true;
                                        },
                                        None => {},
                                    }
                                },
                                _ => {},
                            }
                        }
                    }
                    if !matched {
                        ok = false;
                    }
                }
                proof {
                    let (gv, gc) = spec_take_instructor_list(gms, c_before_instructors, "instructors"@);
                    assert(instructors.deep_view() =~= gv);
                    assert(spec_cursor(ok, cur as int) == gc);
                }
                let max_enroll = take_opt_u32(ms, &mut cur, &mut ok, "maxEnroll");
                let restriction_level = take_opt_str(ms, &mut cur, &mut ok, "restrictionLevel");
                let restriction_major = take_opt_str(ms, &mut cur, &mut ok, "restrictionMajor");
                let restriction_major_pass = take_opt_str(ms, &mut cur, &mut ok, "restrictionMajorPass");
                let restriction_minor = take_opt_str(ms, &mut cur, &mut ok, "restrictionMinor");
                let restriction_minor_pass = take_opt_str(ms, &mut cur, &mut ok, "restrictionMinorPass");
                let secondary_status = take_opt_str(ms, &mut cur, &mut ok, "secondaryStatus");
                let section = take_opt_str(ms, &mut cur, &mut ok, "section");
                let session = take_opt_str(ms, &mut cur, &mut ok, "session");
                let ghost c_before_time_locations = spec_cursor(ok, cur as int);
                let mut time_locations: Vec<TimeLocation> = Vec::new();
                if ok {
                    let mut matched = false;
                    if cur < ms.len() {
                        let k: String = "timeLocations".to_owned();
                        if ms[cur].key == k {
                            match &ms[cur].value {
                                Json::Arr(items) => {
                                    match time_location_list_from_json(items) {
                                        Some(v) => {
                                            time_locations = v;
                                            cur = cur + 1;
                                            matched = true;
                                        },
                                        None => {},
                                    }
                                },
                                _ => {},
                            }
                        }
                    }
                    if !matched {
                        ok = false;
                    }
                }
                proof {
                    let (gv, gc) = spec_take_time_location_list(gms, c_before_time_locations, "timeLocations"@);
                    assert(time_locations.deep_view() =~= gv);
                    assert(spec_cursor(ok, cur as int) == gc);
                }
                if ok && cur == ms.len() {
                    let v = CourseSection { class_closed, course_cancelled, department_approval_required, enroll_code, enrolled_total, grading_option_code, instructor_approval_required, instructors, max_enroll, restriction_level, restriction_major, restriction_major_pass, restriction_minor, restriction_minor_pass, secondary_status, section, session, time_locations };
                    proof {
                        assert(Some(v).deep_view() =~= spec_dec_course_section(j.deep_view()));
                    }
                    Some(v)
                } else {
                    None
                }
            },
            _ => None,
        }
    }
}

/// Decoding inverts encoding: the round trip of a `CourseSection`.
#[verifier::rlimit(100)]
pub proof fn lemma_course_section_round_trip(v: CourseSectionV)
    ensures
        spec_dec_course_section(spec_enc_course_section(v)) == Some(v),
{
    let ms = spec_enc_course_section(v)->Obj_0;
    assert(ms.len() == 18);
    assert(spec_take_opt_str(ms, Some(0int), "classClosed"@) == (v.class_closed, Some(1int)));
    assert(spec_take_opt_str(ms, Some(1int), "courseCancelled"@) == (v.course_cancelled, Some(2int)));
    assert(spec_take_opt_bool(ms, Some(2int), "departmentApprovalRequired"@) == (v.department_approval_required, Some(3int)));
    assert(spec_take_opt_str(ms, Some(3int), "enrollCode"@) == (v.enroll_code, Some(4int)));
    assert(spec_take_opt_u32(ms, Some(4int), "enrolledTotal"@) == (v.enrolled_total, Some(5int)));
    assert(spec_take_opt_str(ms, Some(5int), "gradingOptionCode"@) == (v.grading_option_code, Some(6int)));
    assert(spec_take_req_bool(ms, Some(6int), "instructorApprovalRequired"@) == (v.instructor_approval_required, Some(7int)));
    lemma_instructor_list_round_trip(v.instructors);
    assert(spec_take_instructor_list(ms, Some(7int), "instructors"@) == (v.instructors, Some(8int)));
    assert(spec_take_opt_u32(ms, Some(8int), "maxEnroll"@) == (v.max_enroll, Some(9int)));
    assert(spec_take_opt_str(ms, Some(9int), "restrictionLevel"@) == (v.restriction_level, Some(10int)));
    assert(spec_take_opt_str(ms, Some(10int), "restrictionMajor"@) == (v.restriction_major, Some(11int)));
    assert(spec_take_opt_str(ms, Some(11int), "restrictionMajorPass"@) == (v.restriction_major_pass, Some(12int)));
    assert(spec_take_opt_str(ms, Some(12int), "restrictionMinor"@) == (v.restriction_minor, Some(13int)));
    assert(spec_take_opt_str(ms, Some(13int), "restrictionMinorPass"@) == (v.restriction_minor_pass, Some(14int)));
    assert(spec_take_opt_str(ms, Some(14int), "secondaryStatus"@) == (v.secondary_status, Some(15int)));
    assert(spec_take_opt_str(ms, Some(15int), "section"@) == (v.section, Some(16int)));
    assert(spec_take_opt_str(ms, Some(16int), "session"@) == (v.session, Some(17int)));
    lemma_time_location_list_round_trip(v.time_locations);
    assert(spec_take_time_location_list(ms, Some(17int), "timeLocations"@) == (v.time_locations, Some(18int)));
    assert(spec_dec_course_section(spec_enc_course_section(v)) =~= Some(v));
}

/// The JSON image of a list of `CourseSection` records, element by element.
pub open spec fn spec_enc_course_section_list(vs: Seq<CourseSectionV>) -> Seq<JsonV> {
    Seq::new(vs.len(), |i: int| spec_enc_course_section(vs[i]))
}

/// What decoding a list of `CourseSection` objects yields: every element must
/// decode.
pub open spec fn spec_dec_course_section_list(items: Seq<JsonV>) -> Option<Seq<CourseSectionV>>
    decreases items.len(),
{
    if items.len() == 0 {
        Some(Seq::empty())
    } else {
        match spec_dec_course_section(items[0]) {
            Some(v) => match spec_dec_course_section_list(items.drop_first()) {
                Some(rest) => Some(seq![v] + rest),
                None => None,
            },
            None => None,
        }
    }
}

fn course_section_list_to_json(vs: &Vec<CourseSection>) -> (r: Vec<Json>)
    ensures
        jsons_view(r@) == spec_enc_course_section_list(vs.deep_view()),
{
    let mut r: Vec<Json> = Vec::new();
    let mut i: usize = 0;
    while i < vs.len()
        invariant
            0 <= i as int <= vs@.len(),
            r@.len() == i as int,
            forall|x: int|
                0 <= x < i as int ==> r@[x].deep_view() == spec_enc_course_section(vs@[x].deep_view()),
        decreases vs@.len() - i as int,
    {
        let e = vs[i].to_json();
        r.push(e);
        i = i + 1;
    }
    proof {
        jsons_view_elements(r@);
        assert forall|x: int| 0 <= x < r@.len() implies jsons_view(r@)[x] == spec_enc_course_section_list(
            vs.deep_view(),
        )[x] by {
            assert(vs.deep_view()[x] == vs@[x].deep_view());
        }
        assert(jsons_view(r@) =~= spec_enc_course_section_list(vs.deep_view()));
    }
    r
}

fn course_section_list_from_json(items: &Vec<Json>) -> (r: Option<Vec<CourseSection>>)
    ensures
        r.deep_view() == spec_dec_course_section_list(jsons_view(items@)),
{
    let ghost full = jsons_view(items@);
    let mut acc: Vec<CourseSection> = Vec::new();
    let mut i: usize = 0;
    proof {
        assert(full.skip(0) =~= full);
        assert(acc.deep_view() =~= Seq::<CourseSectionV>::empty());
    }
    while i < items.len()
        invariant
            0 <= i as int <= items@.len(),
            full == jsons_view(items@),
            full.len() == items@.len(),
            ({
                let tail = spec_dec_course_section_list(full.skip(i as int));
                spec_dec_course_section_list(full) == (match tail {
                    Some(rest) => Some(acc.deep_view() + rest),
                    None => None::<Seq<CourseSectionV>>,
                })
            }),
        decreases items@.len() - i as int,
    {
        let ghost tail0 = full.skip(i as int);
        proof {
            assert(tail0[0] == full[i as int]);
            assert(full[i as int] == items@[i as int].deep_view());
            assert(tail0.drop_first() =~= full.skip(i as int + 1));
        }
        match CourseSection::from_json(&items[i]) {
            Some(v) => {
                let ghost old_acc = acc.deep_view();
                acc.push(v);
                proof {
                    assert(acc.deep_view() =~= old_acc + seq![v.deep_view()]);
                    assert forall|rest: Seq<CourseSectionV>|
                        old_acc + (seq![v.deep_view()] + rest) == acc.deep_view() + rest by {
                        assert(old_acc + (seq![v.deep_view()] + rest) =~= acc.deep_view() + rest);
                    }
                }
                i = i + 1;
            },
            None => {
                return None;
            },
        }
    }
    proof {
        assert(full.skip(i as int) =~= Seq::<JsonV>::empty());
        assert(acc.deep_view() + Seq::<CourseSectionV>::empty() =~= acc.deep_view());
    }
    Some(acc)
}

/// Decoding inverts encoding for a whole list of `CourseSection` records.
pub proof fn lemma_course_section_list_round_trip(vs: Seq<CourseSectionV>)
    ensures
        spec_dec_course_section_list(spec_enc_course_section_list(vs)) == Some(vs),
    decreases vs.len(),
{
    let js = spec_enc_course_section_list(vs);
    if vs.len() == 0 {
    } else {
        lemma_course_section_round_trip(vs[0]);
        lemma_course_section_list_round_trip(vs.drop_first());
        assert(js.drop_first() =~= spec_enc_course_section_list(vs.drop_first()));
        assert(seq![vs[0]] + vs.drop_first() =~= vs);
    }
}

/// Read a required array of `CourseSection` objects at the cursor, decoded.
pub open spec fn spec_take_course_section_list(ms: Seq<MemberV>, cur: Option<int>, key: Seq<char>) -> (
    Seq<CourseSectionV>,
    Option<int>,
) {
    match cur {
        None => (Seq::empty(), None),
        Some(i) => {
            if 0 <= i < ms.len() && ms[i].key == key {
                match ms[i].value {
                    JsonV::Arr(items) => match spec_dec_course_section_list(items) {
                        Some(vs) => (vs, Some(i + 1)),
                        None => (Seq::empty(), None),
                    },
                    _ => (Seq::empty(), None),
                }
            } else {
                (Seq::empty(), None)
            }
        },
    }
}

/// The JSON image of one `Course`.
pub open spec fn spec_enc_course(v: CourseV) -> JsonV {
    JsonV::Obj(
        seq![
            MemberV { key: "classSections"@, value: JsonV::Arr(spec_enc_course_section_list(v.class_sections)) },
            MemberV { key: "college"@, value: JsonV::Str(v.college) },
            MemberV { key: "contactHours"@, value: spec_opt_num_json(v.contact_hours) },
            MemberV { key: "courseId"@, value: JsonV::Str(v.course_id) },
            MemberV { key: "delayedSectioning"@, value: spec_opt_str_json(v.delayed_sectioning) },
            MemberV { key: "deptCode"@, value: JsonV::Str(v.dept_code) },
            MemberV { key: "description"@, value: JsonV::Str(v.description) },
            MemberV { key: "generalEducation"@, value: JsonV::Arr(spec_enc_general_education_list(v.general_education)) },
            MemberV { key: "gradingOption"@, value: spec_opt_str_json(v.grading_option) },
            MemberV { key: "inProgressCourse"@, value: spec_opt_str_json(v.in_progress_course) },
            MemberV { key: "instructionType"@, value: JsonV::Str(v.instruction_type) },
            MemberV { key: "objLevelCode"@, value: JsonV::Str(v.obj_level_code) },
            MemberV { key: "onLineCourse"@, value: JsonV::Bool(v.on_line_course) },
            MemberV { key: "quarter"@, value: JsonV::Str(v.quarter) },
            MemberV { key: "subjectArea"@, value: JsonV::Str(v.subject_area) },
            MemberV { key: "title"@, value: JsonV::Str(v.title) },
            MemberV { key: "unitsFixed"@, value: spec_opt_num_json(v.units_fixed) },
            MemberV { key: "unitsVariableHigh"@, value: spec_opt_num_json(v.units_variable_high) },
            MemberV { key: "unitsVariableLow"@, value: spec_opt_num_json(v.units_variable_low) },
        ],
    )
}

/// What decoding a `Course` object yields.
pub open spec fn spec_dec_course(j: JsonV) -> Option<CourseV> {
    match j {
        JsonV::Obj(ms) => {
            let (class_sections, c1) = spec_take_course_section_list(ms, Some(0int), "classSections"@);
            let (college, c2) = spec_take_req_str(ms, c1, "college"@);
            let (contact_hours, c3) = spec_take_opt_num(ms, c2, "contactHours"@);
            let (course_id, c4) = spec_take_req_str(ms, c3, "courseId"@);
            let (delayed_sectioning, c5) = spec_take_opt_str(ms, c4, "delayedSectioning"@);
            let (dept_code, c6) = spec_take_req_str(ms, c5, "deptCode"@);
            let (description, c7) = spec_take_req_str(ms, c6, "description"@);
            let (general_education, c8) = spec_take_general_education_list(ms, c7, "generalEducation"@);
            let (grading_option, c9) = spec_take_opt_str(ms, c8, "gradingOption"@);
            let (in_progress_course, c10) = spec_take_opt_str(ms, c9, "inProgressCourse"@);
            let (instruction_type, c11) = spec_take_req_str(ms, c10, "instructionType"@);
            let (obj_level_code, c12) = spec_take_req_str(ms, c11, "objLevelCode"@);
            let (on_line_course, c13) = spec_take_req_bool(ms, c12, "onLineCourse"@);
            let (quarter, c14) = spec_take_req_str(ms, c13, "quarter"@);
            let (subject_area, c15) = spec_take_req_str(ms, c14, "subjectArea"@);
            let (title, c16) = spec_take_req_str(ms, c15, "title"@);
            let (units_fixed, c17) = spec_take_opt_num(ms, c16, "unitsFixed"@);
            let (units_variable_high, c18) = spec_take_opt_num(ms, c17, "unitsVariableHigh"@);
            let (units_variable_low, c19) = spec_take_opt_num(ms, c18, "unitsVariableLow"@);
            if c19 == Some(ms.len() as int) {
                Some(CourseV { class_sections, college, contact_hours, course_id, delayed_sectioning, dept_code, description, general_education, grading_option, in_progress_course, instruction_type, obj_level_code, on_line_course, quarter, subject_area, title, units_fixed, units_variable_high, units_variable_low })
            } else {
                None
            }
        },
        _ => None,
    }
}

impl Course {
    /// Encode to the wire shape, camelCase keys in canonical order.
    #[verifier::rlimit(50)]
    pub fn to_json(&self) -> (r: Json)
        ensures
            r.deep_view() == spec_enc_course(self.deep_view()),
    {
        let mut ms: Vec<JsonMember> = Vec::new();
        ms.push(JsonMember { key: "classSections".to_owned(), value: Json::Arr(course_section_list_to_json(&self.class_sections)) });
        ms.push(JsonMember { key: "college".to_owned(), value: Json::Str(self.college.clone()) });
        ms.push(JsonMember { key: "contactHours".to_owned(), value: opt_num_json(&self.contact_hours) });
        ms.push(JsonMember { key: "courseId".to_owned(), value: Json::Str(self.course_id.clone()) });
        ms.push(JsonMember { key: "delayedSectioning".to_owned(), value: opt_str_json(&self.delayed_sectioning) });
        ms.push(JsonMember { key: "deptCode".to_owned(), value: Json::Str(self.dept_code.clone()) });
        ms.push(JsonMember { key: "description".to_owned(), value: Json::Str(self.description.clone()) });
        ms.push(JsonMember { key: "generalEducation".to_owned(), value: Json::Arr(general_education_list_to_json(&self.general_education)) });
        ms.push(JsonMember { key: "gradingOption".to_owned(), value: opt_str_json(&self.grading_option) });
        ms.push(JsonMember { key: "inProgressCourse".to_owned(), value: opt_str_json(&self.in_progress_course) });
        ms.push(JsonMember { key: "instructionType".to_owned(), value: Json::Str(self.instruction_type.clone()) });
        ms.push(JsonMember { key: "objLevelCode".to_owned(), value: Json::Str(self.obj_level_code.clone()) });
        ms.push(JsonMember { key: "onLineCourse".to_owned(), value: Json::Bool(self.on_line_course) });
        ms.push(JsonMember { key: "quarter".to_owned(), value: Json::Str(self.quarter.clone()) });
        ms.push(JsonMember { key: "subjectArea".to_owned(), value: Json::Str(self.subject_area.clone()) });
        ms.push(JsonMember { key: "title".to_owned(), value: Json::Str(self.title.clone()) });
        ms.push(JsonMember { key: "unitsFixed".to_owned(), value: opt_num_json(&self.units_fixed) });
        ms.push(JsonMember { key: "unitsVariableHigh".to_owned(), value: opt_num_json(&self.units_variable_high) });
        ms.push(JsonMember { key: "unitsVariableLow".to_owned(), value: opt_num_json(&self.units_variable_low) });
        let r = Json::Obj(ms);
        proof {
            members_view_elements(ms@);
            assert(members_view(ms@) =~= seq![
                    MemberV { key: "classSections"@, value: JsonV::Arr(spec_enc_course_section_list(self.class_sections.deep_view())) },
                    MemberV { key: "college"@, value: JsonV::Str(self.college@) },
                    MemberV { key: "contactHours"@, value: spec_opt_num_json(self.contact_hours.deep_view()) },
                    MemberV { key: "courseId"@, value: JsonV::Str(self.course_id@) },
                    MemberV { key: "delayedSectioning"@, value: spec_opt_str_json(self.delayed_sectioning.deep_view()) },
                    MemberV { key: "deptCode"@, value: JsonV::Str(self.dept_code@) },
                    MemberV { key: "description"@, value: JsonV::Str(self.description@) },
                    MemberV { key: "generalEducation"@, value: JsonV::Arr(spec_enc_general_education_list(self.general_education.deep_view())) },
                    MemberV { key: "gradingOption"@, value: spec_opt_str_json(self.grading_option.deep_view()) },
                    MemberV { key: "inProgressCourse"@, value: spec_opt_str_json(self.in_progress_course.deep_view()) },
                    MemberV { key: "instructionType"@, value: JsonV::Str(self.instruction_type@) },
                    MemberV { key: "objLevelCode"@, value: JsonV::Str(self.obj_level_code@) },
                    MemberV { key: "onLineCourse"@, value: JsonV::Bool(self.on_line_course) },
                    MemberV { key: "quarter"@, value: JsonV::Str(self.quarter@) },
                    MemberV { key: "subjectArea"@, value: JsonV::Str(self.subject_area@) },
                    MemberV { key: "title"@, value: JsonV::Str(self.title@) },
                    MemberV { key: "unitsFixed"@, value: spec_opt_num_json(self.units_fixed.deep_view()) },
                    MemberV { key: "unitsVariableHigh"@, value: spec_opt_num_json(self.units_variable_high.deep_view()) },
                    MemberV { key: "unitsVariableLow"@, value: spec_opt_num_json(self.units_variable_low.deep_view()) },
                ]);
            assert(r.deep_view() =~= spec_enc_course(self.deep_view()));
        }
        r
    }

    /// Decode from the wire shape; `None` on any mismatch.
    #[verifier::rlimit(50)]
    pub fn from_json(j: &Json) -> (r: Option<Course>)
        ensures
            r.deep_view() == spec_dec_course(j.deep_view()),
    {
        match j {
            Json::Obj(ms) => {
                let ghost gms = members_view(ms@);
                let mut cur: usize = 0;
                let mut ok: bool = true;
                let ghost c_before_class_sections = spec_cursor(ok, cur as int);
                let mut class_sections: Vec<CourseSection> = Vec::new();
                if ok {
                    let mut matched = false;
                    if cur < ms.len() {
                        let k: String = "classSections".to_owned();
                        if ms[cur].key == k {
                            match &ms[cur].value {
                                Json::Arr(items) => {
                                    match course_section_list_from_json(items) {
                                        Some(v) => {
                                            class_sections = v;
                                            cur = cur + 1;
                                            matched = true;
                                        },
                                        None => {},
                                    }
                                },
                                _ => {},
                            }
                        }
                    }
                    if !matched {
                        ok = false;
                    }
                }
                proof {
                    let (gv, gc) = spec_take_course_section_list(gms, c_before_class_sections, "classSections"@);
                    assert(class_sections.deep_view() =~= gv);
                    assert(spec_cursor(ok, cur as int) == gc);
                }
                let college = take_req_str(ms, &mut cur, &mut ok, "college");
                let contact_hours = take_opt_num(ms, &mut cur, &mut ok, "contactHours");
                let course_id = take_req_str(ms, &mut cur, &mut ok, "courseId");
                let delayed_sectioning = take_opt_str(ms, &mut cur, &mut ok, "delayedSectioning");
                let dept_code = take_req_str(ms, &mut cur, &mut ok, "deptCode");
                let description = take_req_str(ms, &mut cur, &mut ok, "description");
                let ghost c_before_general_education = spec_cursor(ok, cur as int);
                let mut general_education: Vec<GeneralEducation> = Vec::new();
                if ok {
                    let mut matched = false;
                    if cur < ms.len() {
                        let k: String = "generalEducation".to_owned();
                        if ms[cur].key == k {
                            match &ms[cur].value {
                                Json::Arr(items) => {
                                    match general_education_list_from_json(items) {
                                        Some(v) => {
                                            general_education = v;
                                            cur = cur + 1;
                                            matched = true;
                                        },
                                        None => {},
                                    }
                                },
                                _ => {},
                            }
                        }
                    }
                    if !matched {
                        ok = false;
                    }
                }
                proof {
                    let (gv, gc) = spec_take_general_education_list(gms, c_before_general_education, "generalEducation"@);
                    assert(general_education.deep_view() =~= gv);
                    assert(spec_cursor(ok, cur as int) == gc);
                }
                let grading_option = take_opt_str(ms, &mut cur, &mut ok, "gradingOption");
                let in_progress_course = take_opt_str(ms, &mut cur, &mut ok, "inProgressCourse");
                let instruction_type = take_req_str(ms, &mut cur, &mut ok, "instructionType");
                let obj_level_code = take_req_str(ms, &mut cur, &mut ok, "objLevelCode");
                let on_line_course = take_req_bool(ms, &mut cur, &mut ok, "onLineCourse");
                let quarter = take_req_str(ms, &mut cur, &mut ok, "quarter");
                let subject_area = take_req_str(ms, &mut cur, &mut ok, "subjectArea");
                let title = take_req_str(ms, &mut cur, &mut ok, "title");
                let units_fixed = take_opt_num(ms, &mut cur, &mut ok, "unitsFixed");
                let units_variable_high = take_opt_num(ms, &mut cur, &mut ok, "unitsVariableHigh");
                let units_variable_low = take_opt_num(ms, &mut cur, &mut ok, "unitsVariableLow");
                if ok && cur == ms.len() {
                    let v = Course { class_sections, college, contact_hours, course_id, delayed_sectioning, dept_code, description, general_education, grading_option, in_progress_course, instruction_type, obj_level_code, on_line_course, quarter, subject_area, title, units_fixed, units_variable_high, units_variable_low };
                    proof {
                        assert(Some(v).deep_view() =~= spec_dec_course(j.deep_view()));
                    }
                    Some(v)
                } else {
                    None
                }
            },
            _ => None,
        }
    }
}

/// Decoding inverts encoding: the round trip of a `Course`.
#[verifier::rlimit(100)]
pub proof fn lemma_course_round_trip(v: CourseV)
    ensures
        spec_dec_course(spec_enc_course(v)) == Some(v),
{
    let ms = spec_enc_course(v)->Obj_0;
    assert(ms.len() == 19);
    lemma_course_section_list_round_trip(v.class_sections);
    assert(spec_take_course_section_list(ms, Some(0int), "classSections"@) == (v.class_sections, Some(1int)));
    assert(spec_take_req_str(ms, Some(1int), "college"@) == (v.college, Some(2int)));
    assert(spec_take_opt_num(ms, Some(2int), "contactHours"@) == (v.contact_hours, Some(3int)));
    assert(spec_take_req_str(ms, Some(3int), "courseId"@) == (v.course_id, Some(4int)));
    assert(spec_take_opt_str(ms, Some(4int), "delayedSectioning"@) == (v.delayed_sectioning, Some(5int)));
    assert(spec_take_req_str(ms, Some(5int), "deptCode"@) == (v.dept_code, Some(6int)));
    assert(spec_take_req_str(ms, Some(6int), "description"@) == (v.description, Some(7int)));
    lemma_general_education_list_round_trip(v.general_education);
    assert(spec_take_general_education_list(ms, Some(7int), "generalEducation"@) == (v.general_education, Some(8int)));
    assert(spec_take_opt_str(ms, Some(8int), "gradingOption"@) == (v.grading_option, Some(9int)));
    assert(spec_take_opt_str(ms, Some(9int), "inProgressCourse"@) == (v.in_progress_course, Some(10int)));
    assert(spec_take_req_str(ms, Some(10int), "instructionType"@) == (v.instruction_type, Some(11int)));
    assert(spec_take_req_str(ms, Some(11int), "objLevelCode"@) == (v.obj_level_code, Some(12int)));
    assert(spec_take_req_bool(ms, Some(12int), "onLineCourse"@) == (v.on_line_course, Some(13int)));
    assert(spec_take_req_str(ms, Some(13int), "quarter"@) == (v.quarter, Some(14int)));
    assert(spec_take_req_str(ms, Some(14int), "subjectArea"@) == (v.subject_area, Some(15int)));
    assert(spec_take_req_str(ms, Some(15int), "title"@) == (v.title, Some(16int)));
    assert(spec_take_opt_num(ms, Some(16int), "unitsFixed"@) == (v.units_fixed, Some(17int)));
    assert(spec_take_opt_num(ms, Some(17int), "unitsVariableHigh"@) == (v.units_variable_high, Some(18int)));
    assert(spec_take_opt_num(ms, Some(18int), "unitsVariableLow"@) == (v.units_variable_low, Some(19int)));
    assert(spec_dec_course(spec_enc_course(v)) =~= Some(v));
}

/// The JSON image of a list of `Course` records, element by element.
pub open spec fn spec_enc_course_list(vs: Seq<CourseV>) -> Seq<JsonV> {
    Seq::new(vs.len(), |i: int| spec_enc_course(vs[i]))
}

/// What decoding a list of `Course` objects yields: every element must
/// decode.
pub open spec fn spec_dec_course_list(items: Seq<JsonV>) -> Option<Seq<CourseV>>
    decreases items.len(),
{
    if items.len() == 0 {
        Some(Seq::empty())
    } else {
        match spec_dec_course(items[0]) {
            Some(v) => match spec_dec_course_list(items.drop_first()) {
                Some(rest) => Some(seq![v] + rest),
                None => None,
            },
            None => None,
        }
    }
}

fn course_list_to_json(vs: &Vec<Course>) -> (r: Vec<Json>)
    ensures
        jsons_view(r@) == spec_enc_course_list(vs.deep_view()),
{
    let mut r: Vec<Json> = Vec::new();
    let mut i: usize = 0;
    while i < vs.len()
        invariant
            0 <= i as int <= vs@.len(),
            r@.len() == i as int,
            forall|x: int|
                0 <= x < i as int ==> r@[x].deep_view() == spec_enc_course(vs@[x].deep_view()),
        decreases vs@.len() - i as int,
    {
        let e = vs[i].to_json();
        r.push(e);
        i = i + 1;
    }
    proof {
        jsons_view_elements(r@);
        assert forall|x: int| 0 <= x < r@.len() implies jsons_view(r@)[x] == spec_enc_course_list(
            vs.deep_view(),
        )[x] by {
            assert(vs.deep_view()[x] == vs@[x].deep_view());
        }
        assert(jsons_view(r@) =~= spec_enc_course_list(vs.deep_view()));
    }
    r
}

fn course_list_from_json(items: &Vec<Json>) -> (r: Option<Vec<Course>>)
    ensures
        r.deep_view() == spec_dec_course_list(jsons_view(items@)),
{
    let ghost full = jsons_view(items@);
    let mut acc: Vec<Course> = Vec::new();
    let mut i: usize = 0;
    proof {
        assert(full.skip(0) =~= full);
        assert(acc.deep_view() =~= Seq::<CourseV>::empty());
    }
    while i < items.len()
        invariant
            0 <= i as int <= items@.len(),
            full == jsons_view(items@),
            full.len() == items@.len(),
            ({
                let tail = spec_dec_course_list(full.skip(i as int));
                spec_dec_course_list(full) == (match tail {
                    Some(rest) => Some(acc.deep_view() + rest),
                    None => None::<Seq<CourseV>>,
                })
            }),
        decreases items@.len() - i as int,
    {
        let ghost tail0 = full.skip(i as int);
        proof {
            assert(tail0[0] == full[i as int]);
            assert(full[i as int] == items@[i as int].deep_view());
            assert(tail0.drop_first() =~= full.skip(i as int + 1));
        }
        match Course::from_json(&items[i]) {
            Some(v) => {
                let ghost old_acc = acc.deep_view();
                acc.push(v);
                proof {
                    assert(acc.deep_view() =~= old_acc + seq![v.deep_view()]);
                    assert forall|rest: Seq<CourseV>|
                        old_acc + (seq![v.deep_view()] + rest) == acc.deep_view() + rest by {
                        assert(old_acc + (seq![v.deep_view()] + rest) =~= acc.deep_view() + rest);
                    }
                }
                i = i + 1;
            },
            None => {
                return None;
            },
        }
    }
    proof {
        assert(full.skip(i as int) =~= Seq::<JsonV>::empty());
        assert(acc.deep_view() + Seq::<CourseV>::empty() =~= acc.deep_view());
    }
    Some(acc)
}

/// Decoding inverts encoding for a whole list of `Course` records.
pub proof fn lemma_course_list_round_trip(vs: Seq<CourseV>)
    ensures
        spec_dec_course_list(spec_enc_course_list(vs)) == Some(vs),
    decreases vs.len(),
{
    let js = spec_enc_course_list(vs);
    if vs.len() == 0 {
    } else {
        lemma_course_round_trip(vs[0]);
        lemma_course_list_round_trip(vs.drop_first());
        assert(js.drop_first() =~= spec_enc_course_list(vs.drop_first()));
        assert(seq![vs[0]] + vs.drop_first() =~= vs);
    }
}

/// Read a required array of `Course` objects at the cursor, decoded.
pub open spec fn spec_take_course_list(ms: Seq<MemberV>, cur: Option<int>, key: Seq<char>) -> (
    Seq<CourseV>,
    Option<int>,
) {
    match cur {
        None => (Seq::empty(), None),
        Some(i) => {
            if 0 <= i < ms.len() && ms[i].key == key {
                match ms[i].value {
                    JsonV::Arr(items) => match spec_dec_course_list(items) {
                        Some(vs) => (vs, Some(i + 1)),
                        None => (Seq::empty(), None),
                    },
                    _ => (Seq::empty(), None),
                }
            } else {
                (Seq::empty(), None)
            }
        },
    }
}

/// The JSON image of one `APIResponse`.
pub open spec fn spec_enc_api_response(v: APIResponseV) -> JsonV {
    JsonV::Obj(
        seq![
            MemberV { key: "classes"@, value: JsonV::Arr(spec_enc_course_list(v.classes)) },
            MemberV { key: "pageNumber"@, value: JsonV::Int(v.page_number) },
            MemberV { key: "pageSize"@, value: JsonV::Int(v.page_size) },
            MemberV { key: "total"@, value: JsonV::Int(v.total) },
        ],
    )
}

/// What decoding a `APIResponse` object yields.
pub open spec fn spec_dec_api_response(j: JsonV) -> Option<APIResponseV> {
    match j {
        JsonV::Obj(ms) => {
            let (classes, c1) = spec_take_course_list(ms, Some(0int), "classes"@);
            let (page_number, c2) = spec_take_req_u32(ms, c1, "pageNumber"@);
            let (page_size, c3) = spec_take_req_u32(ms, c2, "pageSize"@);
            let (total, c4) = spec_take_req_u32(ms, c3, "total"@);
            if c4 == Some(ms.len() as int) {
                Some(APIResponseV { classes, page_number, page_size, total })
            } else {
                None
            }
        },
        _ => None,
    }
}

impl APIResponse {
    /// Encode to the wire shape, camelCase keys in canonical order.
    #[verifier::rlimit(50)]
    pub fn to_json(&self) -> (r: Json)
        ensures
            r.deep_view() == spec_enc_api_response(self.deep_view()),
    {
        let mut ms: Vec<JsonMember> = Vec::new();
        ms.push(JsonMember { key: "classes".to_owned(), value: Json::Arr(course_list_to_json(&self.classes)) });
        ms.push(JsonMember { key: "pageNumber".to_owned(), value: Json::Int(self.page_number) });
        ms.push(JsonMember { key: "pageSize".to_owned(), value: Json::Int(self.page_size) });
        ms.push(JsonMember { key: "total".to_owned(), value: Json::Int(self.total) });
        let r = Json::Obj(ms);
        proof {
            members_view_elements(ms@);
            assert(members_view(ms@) =~= seq![
                    MemberV { key: "classes"@, value: JsonV::Arr(spec_enc_course_list(self.classes.deep_view())) },
                    MemberV { key: "pageNumber"@, value: JsonV::Int(self.page_number) },
                    MemberV { key: "pageSize"@, value: JsonV::Int(self.page_size) },
                    MemberV { key: "total"@, value: JsonV::Int(self.total) },
                ]);
            assert(r.deep_view() =~= spec_enc_api_response(self.deep_view()));
        }
        r
    }

    /// Decode from the wire shape; `None` on any mismatch.
    #[verifier::rlimit(50)]
    pub fn from_json(j: &Json) -> (r: Option<APIResponse>)
        ensures
            r.deep_view() == spec_dec_api_response(j.deep_view()),
    {
        match j {
            Json::Obj(ms) => {
                let ghost gms = members_view(ms@);
                let mut cur: usize = 0;
                let mut ok: bool = true;
                let ghost c_before_classes = spec_cursor(ok, cur as int);
                let mut classes: Vec<Course> = Vec::new();
                if ok {
                    let mut matched = false;
                    if cur < ms.len() {
                        let k: String = "classes".to_owned();
                        if ms[cur].key == k {
                            match &ms[cur].value {
                                Json::Arr(items) => {
                                    match course_list_from_json(items) {
                                        Some(v) => {
                                            classes = v;
                                            cur = cur + 1;
                                            matched = true;
                                        },
                                        None => {},
                                    }
                                },
                                _ => {},
                            }
                        }
                    }
                    if !matched {
                        ok = false;
                    }
                }
                proof {
                    let (gv, gc) = spec_take_course_list(gms, c_before_classes, "classes"@);
                    assert(classes.deep_view() =~= gv);
                    assert(spec_cursor(ok, cur as int) == gc);
                }
                let page_number = take_req_u32(ms, &mut cur, &mut ok, "pageNumber");
                let page_size = take_req_u32(ms, &mut cur, &mut ok, "pageSize");
                let total = take_req_u32(ms, &mut cur, &mut ok, "total");
                if ok && cur == ms.len() {
                    let v = APIResponse { classes, page_number, page_size, total };
                    proof {
                        assert(Some(v).deep_view() =~= spec_dec_api_response(j.deep_view()));
                    }
                    Some(v)
                } else {
                    None
                }
            },
            _ => None,
        }
    }
}

/// Decoding inverts encoding: the round trip of a `APIResponse`.
#[verifier::rlimit(50)]
pub proof fn lemma_api_response_round_trip(v: APIResponseV)
    ensures
        spec_dec_api_response(spec_enc_api_response(v)) == Some(v),
{
    lemma_course_list_round_trip(v.classes);
    assert(spec_dec_api_response(spec_enc_api_response(v)) =~= Some(v));
}

} // verus!
