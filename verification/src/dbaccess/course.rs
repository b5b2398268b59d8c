//! The statements on the courses table. All but the insert name the owning
//! tutor beside the course: a course of another tutor is no course at all.

use crate::clock::{fresh_id, now_micros, UUID_V4_BITS, UUID_V4_MASK};
use crate::dbaccess::{duplicate_key, key_taken, no_such_row, row_not_found};
use crate::errors::{ErrorView, EzyTutorError};
use crate::models::course::{
    Course, CourseView, CreateCourseDto, CreateCourseDtoView, UpdateCourseDto,
    UpdateCourseDtoView,
};
use crate::store::{row_views, Row, Table};
use vstd::prelude::*;

verus! {

impl Row for Course {
    /// The courses are read under their owning tutor.
    type Scope = u128;

    open spec fn key(row: CourseView) -> u128 {
        row.id
    }

    /// A read under a tutor sees the courses of that tutor that are not
    /// deleted.
    open spec fn seen_in(row: CourseView, tutor_id: u128) -> bool {
        row.tutor_id == tutor_id && row.deleted_at is None
    }

    fn is_seen_in(&self, tutor_id: &u128) -> bool {
        self.tutor_id == *tutor_id && self.is_visible()
    }

    fn id(&self) -> u128 {
        self.id
    }

    fn copy_row(&self) -> Course {
        self.clone()
    }
}

/// The courses table: its value maps each identifier to the row under it,
/// deleted rows included.
pub type CourseTable = Table<Course>;

/// The mathematical value of what a statement returns.
pub open spec fn outcome_view(outcome: Result<Course, EzyTutorError>) -> Result<
    CourseView,
    ErrorView,
> {
    match outcome {
        Ok(row) => Ok(row@),
        Err(e) => Err(e@),
    }
}

/// Whether `courses` holds under `course_id` a row of the tutor `tutor_id`
/// that is not deleted: the only rows that a scoped statement reads or
/// changes.
pub open spec fn is_visible(courses: Map<u128, CourseView>, tutor_id: u128, course_id: u128) -> bool {
    courses.contains_key(course_id) && Course::seen_in(courses[course_id], tutor_id)
}

/// `rows` holds each visible course of the tutor `tutor_id` exactly once,
/// and no other row.
pub open spec fn lists_visible(
    rows: Seq<CourseView>,
    courses: Map<u128, CourseView>,
    tutor_id: u128,
) -> bool {
    &&& forall|i: int|
        0 <= i < rows.len() ==> is_visible(courses, tutor_id, (#[trigger] rows[i]).id)
            && courses[rows[i].id] == rows[i]
    &&& forall|i: int, j: int|
        0 <= i < j < rows.len() ==> (#[trigger] rows[i]).id != (#[trigger] rows[j]).id
    &&& forall|id: u128| #[trigger]
        is_visible(courses, tutor_id, id) ==> rows.contains(courses[id])
}

/// What reading the course `course_id` of the tutor `tutor_id` returns.
pub open spec fn get_course_outcome(
    courses: Map<u128, CourseView>,
    tutor_id: u128,
    course_id: u128,
) -> Result<CourseView, ErrorView> {
    if is_visible(courses, tutor_id, course_id) {
        Ok(courses[course_id])
    } else {
        Err(row_not_found())
    }
}

/// What creating a course from `dto` returns when the store draws `id` and
/// `now` for it: the new row, unless a row, visible or deleted, has `id`.
pub open spec fn new_course_outcome(
    courses: Map<u128, CourseView>,
    dto: CreateCourseDtoView,
    id: u128,
    now: i64,
) -> Result<CourseView, ErrorView> {
    if courses.contains_key(id) {
        Err(key_taken())
    } else {
        Ok(CourseView::created(dto, id, now))
    }
}

/// The table after creating a course from `dto` under `id` at `now`.
pub open spec fn after_new_course(
    courses: Map<u128, CourseView>,
    dto: CreateCourseDtoView,
    id: u128,
    now: i64,
) -> Map<u128, CourseView> {
    if courses.contains_key(id) {
        courses
    } else {
        courses.insert(id, CourseView::created(dto, id, now))
    }
}

/// What replacing the descriptive fields of a course at `now` returns.
pub open spec fn update_course_outcome(
    courses: Map<u128, CourseView>,
    tutor_id: u128,
    course_id: u128,
    dto: UpdateCourseDtoView,
    now: i64,
) -> Result<CourseView, ErrorView> {
    if is_visible(courses, tutor_id, course_id) {
        Ok(courses[course_id].updated(dto, now))
    } else {
        Err(row_not_found())
    }
}

/// The table after replacing the descriptive fields of a course.
pub open spec fn after_update_course(
    courses: Map<u128, CourseView>,
    tutor_id: u128,
    course_id: u128,
    dto: UpdateCourseDtoView,
    now: i64,
) -> Map<u128, CourseView> {
    if is_visible(courses, tutor_id, course_id) {
        courses.insert(course_id, courses[course_id].updated(dto, now))
    } else {
        courses
    }
}

/// What deleting a course at `now` returns: the row with its stamp.
pub open spec fn soft_delete_course_outcome(
    courses: Map<u128, CourseView>,
    tutor_id: u128,
    course_id: u128,
    now: i64,
) -> Result<CourseView, ErrorView> {
    if is_visible(courses, tutor_id, course_id) {
        Ok(courses[course_id].deleted(now))
    } else {
        Err(row_not_found())
    }
}

/// The table after deleting a course at `now`.
pub open spec fn after_soft_delete_course(
    courses: Map<u128, CourseView>,
    tutor_id: u128,
    course_id: u128,
    now: i64,
) -> Map<u128, CourseView> {
    if is_visible(courses, tutor_id, course_id) {
        courses.insert(course_id, courses[course_id].deleted(now))
    } else {
        courses
    }
}

/// All visible courses of the tutor `tutor_id`. A tutor without courses,
/// known or not, gives an empty list, not an error.
pub fn get_courses_by_tutor(
    table: &CourseTable,
    tutor_id: u128,
) -> (outcome: Result<Vec<Course>, EzyTutorError>)
    ensures
        outcome matches Ok(rows) && lists_visible(row_views(rows@), table@, tutor_id),
{
    let rows = table.select(&tutor_id);
    proof {
        table.lemma_keys();
    }
    Ok(rows)
}

/// The visible course `course_id` of the tutor `tutor_id`.
pub fn get_course(
    table: &CourseTable,
    tutor_id: u128,
    course_id: u128,
) -> (outcome: Result<Course, EzyTutorError>)
    ensures
        outcome_view(outcome) == get_course_outcome(table@, tutor_id, course_id),
{
    match table.get(course_id) {
        Some(row) => {
            if row.is_seen_in(&tutor_id) {
                Ok(row)
            } else {
                Err(no_such_row())
            }
        },
        None => Err(no_such_row()),
    }
}

/// Creates a course from `course` under the identifier `id` at the instant
/// `now`. The row is active, and posted, created and last updated at `now`.
/// An identifier that any row has, visible or deleted, is a storage
/// failure and leaves the table as it was.
pub fn new_course_with(
    table: &mut CourseTable,
    course: CreateCourseDto,
    id: u128,
    now: i64,
) -> (outcome: Result<Course, EzyTutorError>)
    ensures
        outcome_view(outcome) == new_course_outcome(old(table)@, course@, id, now),
        final(table)@ == after_new_course(old(table)@, course@, id, now),
{
    let row = Course::created(course, id, now);
    if table.insert(row.clone()) {
        Ok(row)
    } else {
        Err(duplicate_key())
    }
}

/// Creates a course from `course` under a fresh random identifier at the
/// present instant: [`new_course_with`] for some version 4 UUID and some
/// instant not before the Unix epoch.
pub fn new_course(
    table: &mut CourseTable,
    course: CreateCourseDto,
) -> (outcome: Result<Course, EzyTutorError>)
    ensures
        exists|id: u128, now: i64|
            {
                &&& id & UUID_V4_MASK == UUID_V4_BITS
                &&& 0 <= now
                &&& outcome_view(outcome) == #[trigger] new_course_outcome(
                    old(table)@,
                    course@,
                    id,
                    now,
                )
                &&& final(table)@ == after_new_course(old(table)@, course@, id, now)
            },
{
    let id = fresh_id();
    let now = now_micros();
    new_course_with(table, course, id, now)
}

/// Replaces every descriptive field of the visible course `course_id` of
/// the tutor `tutor_id` by that of `update_data`, absent ones included, and
/// stamps the update with `now`. Without such a course nothing changes.
pub fn update_course_at(
    table: &mut CourseTable,
    tutor_id: u128,
    course_id: u128,
    update_data: UpdateCourseDto,
    now: i64,
) -> (outcome: Result<Course, EzyTutorError>)
    ensures
        outcome_view(outcome) == update_course_outcome(
            old(table)@,
            tutor_id,
            course_id,
            update_data@,
            now,
        ),
        final(table)@ == after_update_course(old(table)@, tutor_id, course_id, update_data@, now),
{
    match table.get(course_id) {
        Some(current) => {
            if current.is_seen_in(&tutor_id) {
                proof {
                    table.lemma_keys();
                }
                let row = Course {
                    id: current.id,
                    tutor_id: current.tutor_id,
                    name: update_data.name,
                    description: update_data.description,
                    format: update_data.format,
                    structure: update_data.structure,
                    duration: update_data.duration,
                    price: update_data.price,
                    language: update_data.language,
                    level: update_data.level,
                    posted_time: current.posted_time,
                    created_at: current.created_at,
                    updated_at: Some(now),
                    deleted_at: current.deleted_at,
                };
                let replaced = table.replace(row.clone());
                assert(replaced);
                Ok(row)
            } else {
                Err(no_such_row())
            }
        },
        None => Err(no_such_row()),
    }
}

/// [`update_course_at`] at the present instant, which is not before the
/// Unix epoch.
pub fn update_course(
    table: &mut CourseTable,
    tutor_id: u128,
    course_id: u128,
    update_data: UpdateCourseDto,
) -> (outcome: Result<Course, EzyTutorError>)
    ensures
        exists|now: i64|
            {
                &&& 0 <= now
                &&& outcome_view(outcome) == #[trigger] update_course_outcome(
                    old(table)@,
                    tutor_id,
                    course_id,
                    update_data@,
                    now,
                )
                &&& final(table)@ == after_update_course(
                    old(table)@,
                    tutor_id,
                    course_id,
                    update_data@,
                    now,
                )
            },
{
    let now = now_micros();
    update_course_at(table, tutor_id, course_id, update_data, now)
}

/// Marks the visible course `course_id` of the tutor `tutor_id` as deleted
/// at `now` and returns the row with that stamp. Without such a course, and
/// so for a course that is deleted already, nothing changes.
pub fn soft_delete_course_at(
    table: &mut CourseTable,
    tutor_id: u128,
    course_id: u128,
    now: i64,
) -> (outcome: Result<Course, EzyTutorError>)
    ensures
        outcome_view(outcome) == soft_delete_course_outcome(old(table)@, tutor_id, course_id, now),
        final(table)@ == after_soft_delete_course(old(table)@, tutor_id, course_id, now),
{
    match table.get(course_id) {
        Some(current) => {
            if current.is_seen_in(&tutor_id) {
                proof {
                    table.lemma_keys();
                }
                let mut row = current;
                row.deleted_at = Some(now);
                let replaced = table.replace(row.clone());
                assert(replaced);
                Ok(row)
            } else {
                Err(no_such_row())
            }
        },
        None => Err(no_such_row()),
    }
}

/// [`soft_delete_course_at`] at the present instant, which is not before
/// the Unix epoch.
pub fn soft_delete_course(
    table: &mut CourseTable,
    tutor_id: u128,
    course_id: u128,
) -> (outcome: Result<Course, EzyTutorError>)
    ensures
        exists|now: i64|
            {
                &&& 0 <= now
                &&& outcome_view(outcome) == #[trigger] soft_delete_course_outcome(
                    old(table)@,
                    tutor_id,
                    course_id,
                    now,
                )
                &&& final(table)@ == after_soft_delete_course(
                    old(table)@,
                    tutor_id,
                    course_id,
                    now,
                )
            },
{
    let now = now_micros();
    soft_delete_course_at(table, tutor_id, course_id, now)
}

} // verus!
