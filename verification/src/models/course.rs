//! Courses: the stored row, and the payloads of create and update.

use crate::clock::{fresh_id, now_micros, UUID_V4_BITS, UUID_V4_MASK};
use vstd::prelude::*;

verus! {

/// A row of the courses table. Identifiers are 128-bit UUID values; instants
/// are microseconds since the Unix epoch.
#[derive(Debug, PartialEq, PartialOrd)]
pub struct Course {
    pub id: u128,
    /// The owning tutor: every read, update and delete names it beside `id`.
    pub tutor_id: u128,
    pub name: String,
    pub description: Option<String>,
    pub format: Option<String>,
    pub structure: Option<String>,
    pub duration: Option<String>,
    pub price: Option<i32>,
    pub language: Option<String>,
    pub level: Option<String>,
    pub posted_time: i64,
    pub created_at: i64,
    pub updated_at: Option<i64>,
    /// Set once the row is logically deleted; never shown to clients.
    pub deleted_at: Option<i64>,
}

/// The mathematical value of a [`Course`].
pub struct CourseView {
    pub id: u128,
    pub tutor_id: u128,
    pub name: Seq<char>,
    pub description: Option<Seq<char>>,
    pub format: Option<Seq<char>>,
    pub structure: Option<Seq<char>>,
    pub duration: Option<Seq<char>>,
    pub price: Option<i32>,
    pub language: Option<Seq<char>>,
    pub level: Option<Seq<char>>,
    pub posted_time: i64,
    pub created_at: i64,
    pub updated_at: Option<i64>,
    pub deleted_at: Option<i64>,
}

/// What a caller supplies to create a course.
#[derive(Debug)]
pub struct CreateCourseDto {
    pub tutor_id: u128,
    pub name: String,
    pub description: Option<String>,
    pub format: Option<String>,
    pub structure: Option<String>,
    pub duration: Option<String>,
    pub price: Option<i32>,
    pub language: Option<String>,
    pub level: Option<String>,
}

/// The mathematical value of a [`CreateCourseDto`].
pub struct CreateCourseDtoView {
    pub tutor_id: u128,
    pub name: Seq<char>,
    pub description: Option<Seq<char>>,
    pub format: Option<Seq<char>>,
    pub structure: Option<Seq<char>>,
    pub duration: Option<Seq<char>>,
    pub price: Option<i32>,
    pub language: Option<Seq<char>>,
    pub level: Option<Seq<char>>,
}

/// What a caller supplies to update a course: the new value of every
/// descriptive field, present or absent.
#[derive(Debug)]
pub struct UpdateCourseDto {
    pub name: String,
    pub description: Option<String>,
    pub format: Option<String>,
    pub structure: Option<String>,
    pub duration: Option<String>,
    pub price: Option<i32>,
    pub language: Option<String>,
    pub level: Option<String>,
}

/// The mathematical value of an [`UpdateCourseDto`].
pub struct UpdateCourseDtoView {
    pub name: Seq<char>,
    pub description: Option<Seq<char>>,
    pub format: Option<Seq<char>>,
    pub structure: Option<Seq<char>>,
    pub duration: Option<Seq<char>>,
    pub price: Option<i32>,
    pub language: Option<Seq<char>>,
    pub level: Option<Seq<char>>,
}

impl View for Course {
    type V = CourseView;

    open spec fn view(&self) -> CourseView {
        CourseView {
            id: self.id,
            tutor_id: self.tutor_id,
            name: self.name@,
            description: self.description.deep_view(),
            format: self.format.deep_view(),
            structure: self.structure.deep_view(),
            duration: self.duration.deep_view(),
            price: self.price,
            language: self.language.deep_view(),
            level: self.level.deep_view(),
            posted_time: self.posted_time,
            created_at: self.created_at,
            updated_at: self.updated_at,
            deleted_at: self.deleted_at,
        }
    }
}

impl View for CreateCourseDto {
    type V = CreateCourseDtoView;

    open spec fn view(&self) -> CreateCourseDtoView {
        CreateCourseDtoView {
            tutor_id: self.tutor_id,
            name: self.name@,
            description: self.description.deep_view(),
            format: self.format.deep_view(),
            structure: self.structure.deep_view(),
            duration: self.duration.deep_view(),
            price: self.price,
            language: self.language.deep_view(),
            level: self.level.deep_view(),
        }
    }
}

impl View for UpdateCourseDto {
    type V = UpdateCourseDtoView;

    open spec fn view(&self) -> UpdateCourseDtoView {
        UpdateCourseDtoView {
            name: self.name@,
            description: self.description.deep_view(),
            format: self.format.deep_view(),
            structure: self.structure.deep_view(),
            duration: self.duration.deep_view(),
            price: self.price,
            language: self.language.deep_view(),
            level: self.level.deep_view(),
        }
    }
}

impl CourseView {
    /// The row that creating a course from `dto` stores, given the
    /// identifier and the instant that the store drew for it.
    pub open spec fn created(dto: CreateCourseDtoView, id: u128, now: i64) -> CourseView {
        CourseView {
            id,
            tutor_id: dto.tutor_id,
            name: dto.name,
            description: dto.description,
            format: dto.format,
            structure: dto.structure,
            duration: dto.duration,
            price: dto.price,
            language: dto.language,
            level: dto.level,
            posted_time: now,
            created_at: now,
            updated_at: Some(now),
            deleted_at: None,
        }
    }

    /// This row after the replacement of all its descriptive fields at `now`.
    pub open spec fn updated(self, dto: UpdateCourseDtoView, now: i64) -> CourseView {
        CourseView {
            name: dto.name,
            description: dto.description,
            format: dto.format,
            structure: dto.structure,
            duration: dto.duration,
            price: dto.price,
            language: dto.language,
            level: dto.level,
            updated_at: Some(now),
            ..self
        }
    }

    /// This row after its logical deletion at `now`.
    pub open spec fn deleted(self, now: i64) -> CourseView {
        CourseView { deleted_at: Some(now), ..self }
    }
}

/// A copy of an optional text.
pub fn clone_text(text: &Option<String>) -> (copy: Option<String>)
    ensures
        copy == *text,
{
    match text {
        Some(t) => Some(t.clone()),
        None => None,
    }
}

impl Clone for Course {
    fn clone(&self) -> (copy: Course)
        ensures
            copy == *self,
    {
        Course {
            id: self.id,
            tutor_id: self.tutor_id,
            name: self.name.clone(),
            description: clone_text(&self.description),
            format: clone_text(&self.format),
            structure: clone_text(&self.structure),
            duration: clone_text(&self.duration),
            price: self.price,
            language: clone_text(&self.language),
            level: clone_text(&self.level),
            posted_time: self.posted_time,
            created_at: self.created_at,
            updated_at: self.updated_at,
            deleted_at: self.deleted_at,
        }
    }
}

impl Clone for CreateCourseDto {
    fn clone(&self) -> (copy: CreateCourseDto)
        ensures
            copy == *self,
    {
        CreateCourseDto {
            tutor_id: self.tutor_id,
            name: self.name.clone(),
            description: clone_text(&self.description),
            format: clone_text(&self.format),
            structure: clone_text(&self.structure),
            duration: clone_text(&self.duration),
            price: self.price,
            language: clone_text(&self.language),
            level: clone_text(&self.level),
        }
    }
}

impl Clone for UpdateCourseDto {
    fn clone(&self) -> (copy: UpdateCourseDto)
        ensures
            copy == *self,
    {
        UpdateCourseDto {
            name: self.name.clone(),
            description: clone_text(&self.description),
            format: clone_text(&self.format),
            structure: clone_text(&self.structure),
            duration: clone_text(&self.duration),
            price: self.price,
            language: clone_text(&self.language),
            level: clone_text(&self.level),
        }
    }
}

impl Course {
    /// Builds the row that creating a course from `dto` stores.
    pub fn created(dto: CreateCourseDto, id: u128, now: i64) -> (row: Course)
        ensures
            row@ == CourseView::created(dto@, id, now),
    {
        Course {
            id,
            tutor_id: dto.tutor_id,
            name: dto.name,
            description: dto.description,
            format: dto.format,
            structure: dto.structure,
            duration: dto.duration,
            price: dto.price,
            language: dto.language,
            level: dto.level,
            posted_time: now,
            created_at: now,
            updated_at: Some(now),
            deleted_at: None,
        }
    }

    /// Builds the row of a new course from `dto` under a fresh random
    /// identifier at the present instant: [`Course::created`] for some
    /// version 4 UUID and some instant not before the Unix epoch.
    pub fn fresh(dto: CreateCourseDto) -> (row: Course)
        ensures
            exists|id: u128, now: i64|
                {
                    &&& id & UUID_V4_MASK == UUID_V4_BITS
                    &&& 0 <= now
                    &&& row@ == #[trigger] CourseView::created(dto@, id, now)
                },
    {
        let id = fresh_id();
        let now = now_micros();
        Course::created(dto, id, now)
    }

    /// Whether the row is visible, that is, not logically deleted.
    pub fn is_visible(&self) -> (visible: bool)
        ensures
            visible == (self@.deleted_at is None),
    {
        self.deleted_at.is_none()
    }
}

} // verus!
