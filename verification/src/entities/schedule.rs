//! Bell schedules and timetables.
pub use crate::network::models::{
    BellDay, BellSchedule, BellTime, Timetable, TimetableDay, TimetableSlot, TimetableTimeSlot,
};
