//! Tutors: the stored row, and the payloads of create, update and patch.

use crate::clock::{fresh_id, now_micros, UUID_V4_BITS, UUID_V4_MASK};
use vstd::prelude::*;

verus! {

/// A row of the tutors table. Identifiers are 128-bit UUID values; instants
/// are microseconds since the Unix epoch.
#[derive(Debug, PartialEq, PartialOrd)]
pub struct Tutor {
    pub id: u128,
    pub name: String,
    pub pic_url: String,
    pub profile: String,
    pub created_at: i64,
    pub updated_at: Option<i64>,
    /// Set once the row is logically deleted; never shown to clients.
    pub deleted_at: Option<i64>,
}

/// The mathematical value of a [`Tutor`].
pub struct TutorView {
    pub id: u128,
    pub name: Seq<char>,
    pub pic_url: Seq<char>,
    pub profile: Seq<char>,
    pub created_at: i64,
    pub updated_at: Option<i64>,
    pub deleted_at: Option<i64>,
}

/// What a caller supplies to create a tutor, or to replace all of its
/// descriptive fields.
#[derive(Debug)]
pub struct CreateTutorDto {
    pub name: String,
    pub pic_url: String,
    pub profile: String,
}

/// The mathematical value of a [`CreateTutorDto`].
pub struct CreateTutorDtoView {
    pub name: Seq<char>,
    pub pic_url: Seq<char>,
    pub profile: Seq<char>,
}

/// What a caller supplies to change some of a tutor's descriptive fields:
/// an absent field keeps its current value.
#[derive(Debug)]
pub struct PatchTutorDto {
    pub name: Option<String>,
    pub pic_url: Option<String>,
    pub profile: Option<String>,
}

/// The mathematical value of a [`PatchTutorDto`].
pub struct PatchTutorDtoView {
    pub name: Option<Seq<char>>,
    pub pic_url: Option<Seq<char>>,
    pub profile: Option<Seq<char>>,
}

impl View for Tutor {
    type V = TutorView;

    open spec fn view(&self) -> TutorView {
        TutorView {
            id: self.id,
            name: self.name@,
            pic_url: self.pic_url@,
            profile: self.profile@,
            created_at: self.created_at,
            updated_at: self.updated_at,
            deleted_at: self.deleted_at,
        }
    }
}

impl View for CreateTutorDto {
    type V = CreateTutorDtoView;

    open spec fn view(&self) -> CreateTutorDtoView {
        CreateTutorDtoView { name: self.name@, pic_url: self.pic_url@, profile: self.profile@ }
    }
}

impl View for PatchTutorDto {
    type V = PatchTutorDtoView;

    open spec fn view(&self) -> PatchTutorDtoView {
        PatchTutorDtoView {
            name: self.name.deep_view(),
            pic_url: self.pic_url.deep_view(),
            profile: self.profile.deep_view(),
        }
    }
}

impl TutorView {
    /// The row that creating a tutor from `dto` stores, given the identifier
    /// and the instant that the store drew for it.
    pub open spec fn created(dto: CreateTutorDtoView, id: u128, now: i64) -> TutorView {
        TutorView {
            id,
            name: dto.name,
            pic_url: dto.pic_url,
            profile: dto.profile,
            created_at: now,
            updated_at: Some(now),
            deleted_at: None,
        }
    }

    /// This row after a full replacement of its descriptive fields at `now`.
    pub open spec fn updated(self, dto: CreateTutorDtoView, now: i64) -> TutorView {
        TutorView {
            name: dto.name,
            pic_url: dto.pic_url,
            profile: dto.profile,
            updated_at: Some(now),
            ..self
        }
    }

    /// This row after its logical deletion at `now`.
    pub open spec fn deleted(self, now: i64) -> TutorView {
        TutorView { deleted_at: Some(now), ..self }
    }
}

impl PatchTutorDtoView {
    /// The full replacement that this patch amounts to on `current`: each
    /// field is the patch's where it is present, the current one otherwise.
    pub open spec fn merged(self, current: TutorView) -> CreateTutorDtoView {
        CreateTutorDtoView {
            name: match self.name {
                Some(name) => name,
                None => current.name,
            },
            pic_url: match self.pic_url {
                Some(pic_url) => pic_url,
                None => current.pic_url,
            },
            profile: match self.profile {
                Some(profile) => profile,
                None => current.profile,
            },
        }
    }
}

impl Clone for Tutor {
    fn clone(&self) -> (copy: Tutor)
        ensures
            copy == *self,
    {
        Tutor {
            id: self.id,
            name: self.name.clone(),
            pic_url: self.pic_url.clone(),
            profile: self.profile.clone(),
            created_at: self.created_at,
            updated_at: self.updated_at,
            deleted_at: self.deleted_at,
        }
    }
}

impl Clone for CreateTutorDto {
    fn clone(&self) -> (copy: CreateTutorDto)
        ensures
            copy == *self,
    {
        CreateTutorDto {
            name: self.name.clone(),
            pic_url: self.pic_url.clone(),
            profile: self.profile.clone(),
        }
    }
}

impl Tutor {
    /// Builds the row that creating a tutor from `dto` stores.
    pub fn created(dto: CreateTutorDto, id: u128, now: i64) -> (row: Tutor)
        ensures
            row@ == TutorView::created(dto@, id, now),
    {
        Tutor {
            id,
            name: dto.name,
            pic_url: dto.pic_url,
            profile: dto.profile,
            created_at: now,
            updated_at: Some(now),
            deleted_at: None,
        }
    }

    /// Builds the row of a new tutor from `dto` under a fresh random
    /// identifier at the present instant: [`Tutor::created`] for some
    /// version 4 UUID and some instant not before the Unix epoch.
    pub fn fresh(dto: CreateTutorDto) -> (row: Tutor)
        ensures
            exists|id: u128, now: i64|
                {
                    &&& id & UUID_V4_MASK == UUID_V4_BITS
                    &&& 0 <= now
                    &&& row@ == #[trigger] TutorView::created(dto@, id, now)
                },
    {
        let id = fresh_id();
        let now = now_micros();
        Tutor::created(dto, id, now)
    }

    /// Whether the row is visible, that is, not logically deleted.
    pub fn is_visible(&self) -> (visible: bool)
        ensures
            visible == (self@.deleted_at is None),
    {
        self.deleted_at.is_none()
    }
}

impl PatchTutorDto {
    /// Turns the patch into a full replacement by filling each absent field
    /// from `current`.
    pub fn merged(self, current: &Tutor) -> (dto: CreateTutorDto)
        ensures
            dto@ == self@.merged(current@),
    {
        CreateTutorDto {
            name: match self.name {
                Some(name) => name,
                None => current.name.clone(),
            },
            pic_url: match self.pic_url {
                Some(pic_url) => pic_url,
                None => current.pic_url.clone(),
            },
            profile: match self.profile {
                Some(profile) => profile,
                None => current.profile.clone(),
            },
        }
    }
}

} // verus!
