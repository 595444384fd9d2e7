//! The typed course catalog model: the pagination envelope and the record
//! shapes nested inside it.
//!
//! Records are immutable values once built; every entity has a mathematical
//! image (`...V`) used by contracts, reached through `deep_view`.
//!
//! Fractional wire values (contact hours, unit counts) are kept as their
//! decimal text, so that a value read from the wire is emitted again exactly
//! as it arrived; the library does no arithmetic on them.

use vstd::prelude::*;

verus! {

/// One person attached to a class section.
#[derive(Debug, Clone, PartialEq, Eq)]
pub struct Instructor {
    pub function_code: String,
    pub instructor: String,
}

/// Mathematical image of an `Instructor`.
#[verifier::ext_equal]
pub ghost struct InstructorV {
    pub function_code: Seq<char>,
    pub instructor: Seq<char>,
}

impl DeepView for Instructor {
    type V = InstructorV;

    open spec fn deep_view(&self) -> InstructorV {
        InstructorV {
            function_code: self.function_code@,
            instructor: self.instructor@,
        }
    }
}

/// A general-education area a course satisfies.
#[derive(Debug, Clone, PartialEq, Eq)]
pub struct GeneralEducation {
    pub ge_code: String,
    pub ge_college: String,
}

/// Mathematical image of a `GeneralEducation`.
#[verifier::ext_equal]
pub ghost struct GeneralEducationV {
    pub ge_code: Seq<char>,
    pub ge_college: Seq<char>,
}

impl DeepView for GeneralEducation {
    type V = GeneralEducationV;

    open spec fn deep_view(&self) -> GeneralEducationV {
        GeneralEducationV {
            ge_code: self.ge_code@,
            ge_college: self.ge_college@,
        }
    }
}

/// One scheduled meeting of a section. Every field is optional because some
/// sections have no scheduled meetings; an absent field is distinct from an
/// empty string.
#[derive(Debug, Clone, PartialEq, Eq)]
pub struct TimeLocation {
    pub begin_time: Option<String>,
    pub building: Option<String>,
    pub days: Option<String>,
    pub end_time: Option<String>,
    pub room: Option<String>,
    pub room_capacity: Option<u32>,
}

/// Mathematical image of a `TimeLocation`.
#[verifier::ext_equal]
pub ghost struct TimeLocationV {
    pub begin_time: Option<Seq<char>>,
    pub building: Option<Seq<char>>,
    pub days: Option<Seq<char>>,
    pub end_time: Option<Seq<char>>,
    pub room: Option<Seq<char>>,
    pub room_capacity: Option<u32>,
}

impl DeepView for TimeLocation {
    type V = TimeLocationV;

    open spec fn deep_view(&self) -> TimeLocationV {
        TimeLocationV {
            begin_time: self.begin_time.deep_view(),
            building: self.building.deep_view(),
            days: self.days.deep_view(),
            end_time: self.end_time.deep_view(),
            room: self.room.deep_view(),
            room_capacity: self.room_capacity,
        }
    }
}

/// One offered section of a course.
#[derive(Debug, Clone, PartialEq, Eq)]
pub struct CourseSection {
    pub class_closed: Option<String>,
    pub course_cancelled: Option<String>,
    pub department_approval_required: Option<bool>,
    pub enroll_code: Option<String>,
    pub enrolled_total: Option<u32>,
    pub grading_option_code: Option<String>,
    pub instructor_approval_required: bool,
    pub instructors: Vec<Instructor>,
    pub max_enroll: Option<u32>,
    pub restriction_level: Option<String>,
    pub restriction_major: Option<String>,
    pub restriction_major_pass: Option<String>,
    pub restriction_minor: Option<String>,
    pub restriction_minor_pass: Option<String>,
    pub secondary_status: Option<String>,
    pub section: Option<String>,
    pub session: Option<String>,
    pub time_locations: Vec<TimeLocation>,
}

/// Mathematical image of a `CourseSection`.
#[verifier::ext_equal]
pub ghost struct CourseSectionV {
    pub class_closed: Option<Seq<char>>,
    pub course_cancelled: Option<Seq<char>>,
    pub department_approval_required: Option<bool>,
    pub enroll_code: Option<Seq<char>>,
    pub enrolled_total: Option<u32>,
    pub grading_option_code: Option<Seq<char>>,
    pub instructor_approval_required: bool,
    pub instructors: Seq<InstructorV>,
    pub max_enroll: Option<u32>,
    pub restriction_level: Option<Seq<char>>,
    pub restriction_major: Option<Seq<char>>,
    pub restriction_major_pass: Option<Seq<char>>,
    pub restriction_minor: Option<Seq<char>>,
    pub restriction_minor_pass: Option<Seq<char>>,
    pub secondary_status: Option<Seq<char>>,
    pub section: Option<Seq<char>>,
    pub session: Option<Seq<char>>,
    pub time_locations: Seq<TimeLocationV>,
}

impl DeepView for CourseSection {
    type V = CourseSectionV;

    open spec fn deep_view(&self) -> CourseSectionV {
        CourseSectionV {
            class_closed: self.class_closed.deep_view(),
            course_cancelled: self.course_cancelled.deep_view(),
            department_approval_required: self.department_approval_required,
            enroll_code: self.enroll_code.deep_view(),
            enrolled_total: self.enrolled_total,
            grading_option_code: self.grading_option_code.deep_view(),
            instructor_approval_required: self.instructor_approval_required,
            instructors: self.instructors.deep_view(),
            max_enroll: self.max_enroll,
            restriction_level: self.restriction_level.deep_view(),
            restriction_major: self.restriction_major.deep_view(),
            restriction_major_pass: self.restriction_major_pass.deep_view(),
            restriction_minor: self.restriction_minor.deep_view(),
            restriction_minor_pass: self.restriction_minor_pass.deep_view(),
            secondary_status: self.secondary_status.deep_view(),
            section: self.section.deep_view(),
            session: self.session.deep_view(),
            time_locations: self.time_locations.deep_view(),
        }
    }
}

/// One course offering of the term.
///
/// `contact_hours`, `units_fixed`, `units_variable_low` and
/// `units_variable_high` hold the decimal text of fractional wire values.
#[derive(Debug, Clone, PartialEq, Eq)]
pub struct Course {
    pub class_sections: Vec<CourseSection>,
    pub college: String,
    pub contact_hours: Option<String>,
    pub course_id: String,
    pub delayed_sectioning: Option<String>,
    pub dept_code: String,
    pub description: String,
    pub general_education: Vec<GeneralEducation>,
    pub grading_option: Option<String>,
    pub in_progress_course: Option<String>,
    pub instruction_type: String,
    pub obj_level_code: String,
    pub on_line_course: bool,
    pub quarter: String,
    pub subject_area: String,
    pub title: String,
    pub units_fixed: Option<String>,
    pub units_variable_high: Option<String>,
    pub units_variable_low: Option<String>,
}

/// Mathematical image of a `Course`.
#[verifier::ext_equal]
pub ghost struct CourseV {
    pub class_sections: Seq<CourseSectionV>,
    pub college: Seq<char>,
    pub contact_hours: Option<Seq<char>>,
    pub course_id: Seq<char>,
    pub delayed_sectioning: Option<Seq<char>>,
    pub dept_code: Seq<char>,
    pub description: Seq<char>,
    pub general_education: Seq<GeneralEducationV>,
    pub grading_option: Option<Seq<char>>,
    pub in_progress_course: Option<Seq<char>>,
    pub instruction_type: Seq<char>,
    pub obj_level_code: Seq<char>,
    pub on_line_course: bool,
    pub quarter: Seq<char>,
    pub subject_area: Seq<char>,
    pub title: Seq<char>,
    pub units_fixed: Option<Seq<char>>,
    pub units_variable_high: Option<Seq<char>>,
    pub units_variable_low: Option<Seq<char>>,
}

impl DeepView for Course {
    type V = CourseV;

    open spec fn deep_view(&self) -> CourseV {
        CourseV {
            class_sections: self.class_sections.deep_view(),
            college: self.college@,
            contact_hours: self.contact_hours.deep_view(),
            course_id: self.course_id@,
            delayed_sectioning: self.delayed_sectioning.deep_view(),
            dept_code: self.dept_code@,
            description: self.description@,
            general_education: self.general_education.deep_view(),
            grading_option: self.grading_option.deep_view(),
            in_progress_course: self.in_progress_course.deep_view(),
            instruction_type: self.instruction_type@,
            obj_level_code: self.obj_level_code@,
            on_line_course: self.on_line_course,
            quarter: self.quarter@,
            subject_area: self.subject_area@,
            title: self.title@,
            units_fixed: self.units_fixed.deep_view(),
            units_variable_high: self.units_variable_high.deep_view(),
            units_variable_low: self.units_variable_low.deep_view(),
        }
    }
}

/// The pagination envelope one page request returns.
#[derive(Debug, Clone, PartialEq, Eq)]
pub struct APIResponse {
    pub page_size: u32,
    pub page_number: u32,
    pub total: u32,
    pub classes: Vec<Course>,
}

/// Mathematical image of an `APIResponse`.
#[verifier::ext_equal]
pub ghost struct APIResponseV {
    pub page_size: u32,
    pub page_number: u32,
    pub total: u32,
    pub classes: Seq<CourseV>,
}

impl DeepView for APIResponse {
    type V = APIResponseV;

    open spec fn deep_view(&self) -> APIResponseV {
        APIResponseV {
            page_size: self.page_size,
            page_number: self.page_number,
            total: self.total,
            classes: self.classes.deep_view(),
        }
    }
}

/// A successful page response is well formed when it echoes the requested
/// page coordinates and carries no more records than one page may hold.
pub open spec fn envelope_well_formed(
    r: APIResponseV,
    requested_page: u32,
    requested_size: u32,
) -> bool {
    &&& r.page_number == requested_page
    &&& r.page_size == requested_size
    &&& r.page_number >= 1
    &&& r.page_size >= 1
    &&& r.classes.len() <= r.page_size
}

impl APIResponse {
    /// Decides envelope well-formedness for the page coordinates that were
    /// actually requested.
    pub fn is_well_formed(&self, requested_page: u32, requested_size: u32) -> (r: bool)
        ensures
            r == envelope_well_formed(self.deep_view(), requested_page, requested_size),
    {
        self.page_number == requested_page && self.page_size == requested_size
            && self.page_number >= 1 && self.page_size >= 1
            && self.classes.len() <= self.page_size as usize
    }

    /// True exactly on the envelope that signals end-of-stream.
    pub fn is_end_of_stream(&self) -> (r: bool)
        ensures
            r == (self.deep_view().classes.len() == 0),
    {
        self.classes.len() == 0
    }
}

} // verus!
