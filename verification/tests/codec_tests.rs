use course_catalog::json::{Json, JsonMember};
use course_catalog::model::{
    APIResponse, Course, CourseSection, GeneralEducation, Instructor, TimeLocation,
};

fn rich_course() -> Course {
    Course {
        class_sections: vec![CourseSection {
            class_closed: None,
            course_cancelled: None,
            department_approval_required: Some(false),
            enroll_code: Some("07401".to_string()),
            enrolled_total: Some(87),
            grading_option_code: Some("L".to_string()),
            instructor_approval_required: false,
            instructors: vec![Instructor {
                function_code: "Teaching".to_string(),
                instructor: "CONRAD P T".to_string(),
            }],
            max_enroll: Some(120),
            restriction_level: None,
            restriction_major: Some("+CMPSC".to_string()),
            restriction_major_pass: None,
            restriction_minor: None,
            restriction_minor_pass: None,
            secondary_status: None,
            section: Some("0100".to_string()),
            session: None,
            time_locations: vec![TimeLocation {
                begin_time: Some("09:30".to_string()),
                building: Some("BUCHN".to_string()),
                days: Some("T R".to_string()),
                end_time: Some("10:45".to_string()),
                room: Some("1920".to_string()),
                room_capacity: Some(150),
            }],
        }],
        college: "ENGR".to_string(),
        contact_hours: Some("30.0".to_string()),
        course_id: "CMPSC 16".to_string(),
        delayed_sectioning: None,
        dept_code: "CMPSC".to_string(),
        description: "Fundamentals of computer programming.".to_string(),
        general_education: vec![GeneralEducation {
            ge_code: "C".to_string(),
            ge_college: "L&S".to_string(),
        }],
        grading_option: Some("Letter".to_string()),
        in_progress_course: None,
        instruction_type: "LEC".to_string(),
        obj_level_code: "U".to_string(),
        on_line_course: false,
        quarter: "20202".to_string(),
        subject_area: "CMPSC".to_string(),
        title: "Problem Solving I".to_string(),
        units_fixed: Some("4.0".to_string()),
        units_variable_high: None,
        units_variable_low: None,
    }
}

fn obj_keys(j: &Json) -> Vec<String> {
    match j {
        Json::Obj(ms) => ms.iter().map(|m| m.key.clone()).collect(),
        _ => panic!("not an object"),
    }
}

fn obj_get<'a>(j: &'a Json, key: &str) -> Option<&'a Json> {
    match j {
        Json::Obj(ms) => ms.iter().find(|m| m.key == key).map(|m| &m.value),
        _ => None,
    }
}

#[test]
fn course_round_trip() {
    let c = rich_course();
    let j = c.to_json();
    let back = Course::from_json(&j);
    assert_eq!(back, Some(c));
}

#[test]
fn api_response_round_trip() {
    let r = APIResponse { page_size: 100, page_number: 1, total: 1, classes: vec![rich_course()] };
    let j = r.to_json();
    let back = APIResponse::from_json(&j);
    assert_eq!(back, Some(r));
}

#[test]
fn course_encodes_camel_case_keys() {
    let j = rich_course().to_json();
    let keys = obj_keys(&j);
    assert!(keys.contains(&"courseId".to_string()));
    assert!(keys.contains(&"deptCode".to_string()));
    assert!(keys.contains(&"classSections".to_string()));
    assert!(!keys.contains(&"course_id".to_string()));
    assert!(!keys.contains(&"dept_code".to_string()));
    match obj_get(&j, "courseId") {
        Some(Json::Str(s)) => assert_eq!(s, "CMPSC 16"),
        _ => panic!("courseId missing or not a string"),
    }
}

#[test]
fn absent_optional_field_encodes_as_null() {
    let j = rich_course().to_json();
    match obj_get(&j, "delayedSectioning") {
        Some(Json::Null) => {}
        _ => panic!("an absent optional field must encode as null"),
    }
    match obj_get(&j, "unitsFixed") {
        Some(Json::Num(s)) => assert_eq!(s, "4.0"),
        _ => panic!("unitsFixed must keep its decimal text"),
    }
}

#[test]
fn decode_tolerates_missing_optional_keys() {
    // A time location with every key absent: every field comes back unset.
    let j = Json::Obj(Vec::new());
    let t = TimeLocation::from_json(&j);
    assert_eq!(
        t,
        Some(TimeLocation {
            begin_time: None,
            building: None,
            days: None,
            end_time: None,
            room: None,
            room_capacity: None,
        })
    );
}

#[test]
fn decode_section_from_required_keys_alone() {
    let j = Json::Obj(vec![
        JsonMember {
            key: "instructorApprovalRequired".to_string(),
            value: Json::Bool(true),
        },
        JsonMember { key: "instructors".to_string(), value: Json::Arr(Vec::new()) },
        JsonMember { key: "timeLocations".to_string(), value: Json::Arr(Vec::new()) },
    ]);
    let s = CourseSection::from_json(&j).expect("must decode");
    assert!(s.instructor_approval_required);
    assert_eq!(s.instructors.len(), 0);
    assert_eq!(s.time_locations.len(), 0);
    assert_eq!(s.enroll_code, None);
}

#[test]
fn decode_rejects_unknown_key() {
    let j = Json::Obj(vec![
        JsonMember { key: "functionCode".to_string(), value: Json::Str("T".to_string()) },
        JsonMember { key: "instructor".to_string(), value: Json::Str("X".to_string()) },
        JsonMember { key: "office".to_string(), value: Json::Str("south hall".to_string()) },
    ]);
    assert_eq!(Instructor::from_json(&j), None);
}

#[test]
fn decode_rejects_missing_required_key() {
    let j = Json::Obj(vec![JsonMember {
        key: "functionCode".to_string(),
        value: Json::Str("T".to_string()),
    }]);
    assert_eq!(Instructor::from_json(&j), None);
}

#[test]
fn decode_rejects_wrong_type() {
    let j = Json::Obj(vec![
        JsonMember { key: "functionCode".to_string(), value: Json::Int(7) },
        JsonMember { key: "instructor".to_string(), value: Json::Str("X".to_string()) },
    ]);
    assert_eq!(Instructor::from_json(&j), None);
    assert_eq!(Instructor::from_json(&Json::Null), None);
    assert_eq!(Course::from_json(&Json::Arr(Vec::new())), None);
}

#[test]
fn envelope_decodes_from_wire_shape() {
    // The envelope of an empty catalog, exactly as the server writes it.
    let j = Json::Obj(vec![
        JsonMember { key: "classes".to_string(), value: Json::Arr(Vec::new()) },
        JsonMember { key: "pageNumber".to_string(), value: Json::Int(1) },
        JsonMember { key: "pageSize".to_string(), value: Json::Int(100) },
        JsonMember { key: "total".to_string(), value: Json::Int(0) },
    ]);
    let r = APIResponse::from_json(&j).expect("must decode");
    assert_eq!(r.page_size, 100);
    assert_eq!(r.page_number, 1);
    assert_eq!(r.total, 0);
    assert_eq!(r.classes.len(), 0);
    assert!(r.is_well_formed(1, 100));
    assert!(r.is_end_of_stream());
}

#[test]
fn instructor_round_trip() {
    let i = Instructor { function_code: "Teaching".to_string(), instructor: "K".to_string() };
    let j = i.to_json();
    assert_eq!(Instructor::from_json(&j), Some(i));
}

#[test]
fn general_education_round_trip() {
    let g = GeneralEducation { ge_code: "C".to_string(), ge_college: "L&S".to_string() };
    let j = g.to_json();
    assert_eq!(GeneralEducation::from_json(&j), Some(g));
}

#[test]
fn time_location_round_trip() {
    let t = TimeLocation {
        begin_time: Some("08:00".to_string()),
        building: None,
        days: Some("M W F".to_string()),
        end_time: Some("08:50".to_string()),
        room: None,
        room_capacity: Some(42),
    };
    let j = t.to_json();
    assert_eq!(TimeLocation::from_json(&j), Some(t));
}
