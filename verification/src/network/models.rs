//! Models of the diary API as the application reads them.
//!
//! Fields that the API sends as free-form JSON are kept as their JSON text.
use vstd::prelude::*;

pub use crate::api::entities::{
    Class, ClassesByDate, SchoolYear, SubjectWithTeacher, TimeActivity, UserInfo, WeekActivity,
};

verus! {

/// One lesson of a school day, with its mark as plain text.
#[derive(Debug, Clone)]
pub struct LessonSlot {
    pub lesson_uuid: String,
    pub lesson_template_id: String,
    pub subject_id: String,
    pub subject_title: String,
    pub teacher_id: String,
    pub lesson_type: Option<String>,
    pub number: u32,
    pub topic: Option<String>,
    pub homework: Option<String>,
    pub message: Option<String>,
    pub start_time: String,
    pub has_attachments_or_links: bool,
    pub homework_source_id: Option<String>,
    pub lesson_mark: Option<String>,
    /// JSON text of the substitution, if any.
    pub substitution: Option<String>,
}

/// The lessons of one school day.
#[derive(Debug, Clone)]
pub struct DaySchedule {
    pub day_of_week: u32,
    pub date: u64,
    pub slots: Vec<LessonSlot>,
}

/// An educational subject.
#[derive(Debug, Clone)]
pub struct Subject {
    pub uuid: String,
    pub name: String,
}

/// One bell: a lesson number and its start and end times.
#[derive(Debug, Clone)]
pub struct BellTime {
    pub uuid: Option<String>,
    pub summary: Option<String>,
    pub number: u32,
    pub start_time: String,
    pub end_time: String,
}

/// The bells of a set of week days.
#[derive(Debug, Clone)]
pub struct BellDay {
    pub uuid: Option<String>,
    pub days: Vec<u32>,
    pub time_of_bells: Vec<BellTime>,
}

/// A bell schedule of a school.
#[derive(Debug, Clone)]
pub struct BellSchedule {
    pub uuid: String,
    pub title: String,
    pub shift: u32,
    pub levels: Vec<u32>,
    pub period: Option<String>,
    pub days_of_week: Vec<BellDay>,
}

/// One lesson of a timetable.
#[derive(Debug, Clone)]
pub struct TimetableSlot {
    pub uuid: String,
    pub summary: Option<String>,
    pub number: u32,
    pub room_id: Option<String>,
    pub lesson_template_id: String,
}

/// The lessons at one bell.
#[derive(Debug, Clone)]
pub struct TimetableTimeSlot {
    pub time_of_bells: BellTime,
    pub slots: Vec<TimetableSlot>,
}

/// The timetable of one week day (1 = Monday).
#[derive(Debug, Clone)]
pub struct TimetableDay {
    pub day_of_week: u32,
    pub timetable_slots: Vec<TimetableTimeSlot>,
}

/// The timetable of a class.
#[derive(Debug, Clone)]
pub struct Timetable {
    pub uuid: String,
    pub schedule_of_bells_uuid: String,
    pub class_id: String,
    pub class_level: u32,
    pub period: Option<String>,
    pub days_of_week: Vec<TimetableDay>,
}

/// Final grades, behaviour and signature, as JSON text.
#[derive(Debug, Clone)]
pub struct FinalGrades {
    pub marks: String,
    pub behaviour: String,
    pub diary_signature: String,
}

/// A planned course of a study group.
#[derive(Debug, Clone)]
pub struct PlanningTemplate {
    pub uuid: String,
    pub study_hours: u32,
    pub study_group: StudyGroup,
}

/// A study group.
#[derive(Debug, Clone)]
pub struct StudyGroup {
    pub name: String,
    pub uuid: String,
}

/// A school subject.
#[derive(Debug, Clone)]
pub struct SchoolSubject {
    pub uuid: String,
    pub summary: String,
    pub kind: Option<String>,
}

/// A subject in a class's plan.
#[derive(Debug, Clone)]
pub struct PlanningSubject {
    pub uuid: String,
    pub partition_type: String,
    pub school_subject: SchoolSubject,
    pub templates: Vec<PlanningTemplate>,
    pub pass_exam: Option<String>,
}

/// The kind of a premise.
#[derive(Debug, Clone)]
pub struct PremiseType {
    pub uuid: String,
    pub summary: String,
}

/// A room of a school.
#[derive(Debug, Clone)]
pub struct Premise {
    pub uuid: String,
    pub audience_number: String,
    pub audience_name: String,
    pub hull: Option<String>,
    pub premise_type: PremiseType,
}

/// A meal type.
#[derive(Debug, Clone)]
pub struct MealType {
    pub uuid: String,
    pub name: String,
    pub ordinal: u32,
}

/// A query of the eating journal of a class.
#[derive(Debug, Clone)]
pub struct EatingJournalRequest {
    pub school_external_uuid: String,
    pub class_internal_uuid: String,
    pub dt_eating_from: String,
    pub dt_eating_to: String,
}

/// The eating journal of a class; the record lists are JSON text.
#[derive(Debug, Clone)]
pub struct EatingJournalResponse {
    pub school_external_uuid: String,
    pub class_internal_uuid: String,
    pub dt_eating_from: String,
    pub dt_eating_to: String,
    pub student_nutrition_info: Vec<String>,
    pub class_eating_day_info: Vec<String>,
    pub student_eating_marks: Vec<String>,
}

/// One page of a paginated listing.
#[derive(Debug, Clone)]
pub struct PaginatedResponse<T> {
    pub number: u32,
    pub size: u32,
    pub total_pages: u32,
    pub total_elements: u32,
    pub content: Vec<T>,
    pub first: bool,
    pub last: bool,
}

/// Absence counts of supplementary lessons.
#[derive(Debug, Clone)]
pub struct SupplementaryLessonCollector {
    pub excused_absence_count: u32,
    pub unexcused_absence_count: u32,
    pub total_absence_count: u32,
}

/// The supplementary-lesson diary; the lessons are JSON text.
#[derive(Debug, Clone)]
pub struct SupplementaryLessonDiary {
    pub lessons: Vec<String>,
    pub collector: SupplementaryLessonCollector,
}

} // verus!
