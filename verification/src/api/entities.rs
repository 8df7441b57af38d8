//! Entities of the diary API, as plain values.
//!
//! Fields that the API sends as free-form JSON are kept as their JSON text.
use std::collections::HashMap;
use vstd::prelude::*;

verus! {

/// A mark given in a lesson.
#[derive(Debug, Clone)]
pub struct LessonMark {
    pub mark: Option<String>,
    pub kind: Option<String>,
    pub comment: Option<String>,
    pub author: Option<String>,
    pub uuid: Option<String>,
}

/// One lesson of a school day.
#[derive(Debug, Clone)]
pub struct LessonSlot {
    pub lesson_uuid: String,
    pub lesson_template_id: String,
    pub subject_id: String,
    pub subject_title: String,
    pub teacher_id: String,
    pub lesson_type: Option<String>,
    pub number: u32,
    pub topic: Option<String>,
    pub homework: Option<String>,
    pub message: Option<String>,
    pub start_time: String,
    pub has_attachments_or_links: bool,
    /// JSON text of the homework source, if any.
    pub homework_source_id: Option<String>,
    pub lesson_mark: Option<LessonMark>,
    /// JSON text of the substitution, if any.
    pub substitution: Option<String>,
}

/// The lessons of one school day.
#[derive(Debug, Clone)]
pub struct DaySchedule {
    pub day_of_week: u32,
    /// Epoch milliseconds.
    pub date: u64,
    pub slots: Vec<LessonSlot>,
}

/// A school class.
#[derive(Debug, Clone)]
pub struct Class {
    pub uuid: String,
    pub summary: Option<String>,
    pub label: String,
    pub level: u32,
    pub school: Option<String>,
    pub dt_disbanded: Option<String>,
    pub graduating_year: Option<u32>,
    pub class_number: Option<String>,
    pub graduating: Option<bool>,
}

/// The classes of a student over a date range.
#[derive(Debug, Clone)]
pub struct ClassesByDate {
    pub classes_by_date: HashMap<String, Vec<String>>,
    pub classes: Vec<Class>,
}

/// A school period (quarter, half-year, …).
#[derive(Debug, Clone)]
pub struct TimeActivity {
    pub uuid: String,
    pub summary: Option<String>,
    pub school_year: String,
    pub title: String,
    pub description: Option<String>,
    pub activity_type: Option<String>,
    pub start_ts: Option<u64>,
    pub end_ts: Option<u64>,
    pub start_date: Option<u64>,
    pub end_date: Option<u64>,
}

/// A school week.
#[derive(Debug, Clone)]
pub struct WeekActivity {
    pub uuid: String,
    pub summary: String,
    pub time_activity_id: String,
    /// Epoch milliseconds.
    pub start_ts: u64,
    /// Epoch milliseconds.
    pub end_ts: u64,
}

/// A subject of a class.
#[derive(Debug, Clone)]
pub struct EducationalSubject {
    pub uuid: String,
    pub name: String,
}

/// A parent's signature under a diary period.
#[derive(Debug, Clone)]
pub struct DiarySignature {
    pub uuid: String,
    pub school_id: String,
    pub class_id: String,
    pub student: String,
    pub period: String,
    pub parent_name: String,
    pub dt_create: u64,
    pub activity_id: String,
}

/// Final marks, behaviour and signature, as JSON text.
#[derive(Debug, Clone)]
pub struct FinalMarks {
    pub marks: String,
    pub behaviour: String,
    pub diary_signature: String,
}

/// A subject with the teacher who teaches it.
#[derive(Debug, Clone)]
pub struct SubjectWithTeacher {
    pub id: String,
    pub partition_type: String,
    pub subject_type: String,
    pub subject_title: String,
    pub level_of_study: String,
    pub teacher_id: String,
    pub teacher: String,
    pub group_id: String,
    pub group_name: Option<String>,
}

/// The signed-in user.
#[derive(Debug, Clone)]
pub struct UserInfo {
    pub user_id: String,
    pub school_id: String,
    pub school_name: String,
    pub our_school_id: String,
    pub profile_id: String,
    pub person_kind: String,
    pub full_name: String,
    pub roles: Vec<String>,
    pub position: Option<String>,
    pub students_for_parent: Option<String>,
    pub parent_code: Option<String>,
}

/// A school year.
#[derive(Debug, Clone)]
pub struct SchoolYear {
    pub uuid: String,
    pub summary: Option<String>,
    pub start_year: u32,
    pub end_year: u32,
    pub label: String,
    pub start_ts: u64,
    pub end_ts: u64,
    pub status: String,
    pub author: Option<String>,
}

/// The full name of an employee.
#[derive(Debug, Clone)]
pub struct EmployeeFio {
    pub name: String,
}

} // verus!
