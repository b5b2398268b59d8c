//! The tutor operations as the request layer sees them.

use crate::clock::{now_micros, UUID_V4_BITS, UUID_V4_MASK};
use crate::dbaccess::row_not_found;
use crate::dbaccess::tutor::{self, TutorTable};
use crate::errors::{ErrorView, EzyTutorError};
use crate::models::tutor::{CreateTutorDto, PatchTutorDto, PatchTutorDtoView, Tutor, TutorView};
use crate::store::row_views;
use vstd::prelude::*;

verus! {

/// What patching the tutor `id` with `patch` at `now` returns: the update
/// by the patch merged with the current row.
pub open spec fn partial_update_outcome(
    tutors: Map<u128, TutorView>,
    patch: PatchTutorDtoView,
    id: u128,
    now: i64,
) -> Result<TutorView, ErrorView> {
    if tutor::is_visible(tutors, id) {
        tutor::update_outcome(tutors, patch.merged(tutors[id]), id, now)
    } else {
        Err(row_not_found())
    }
}

/// The table after patching the tutor `id` with `patch` at `now`.
pub open spec fn after_partial_update(
    tutors: Map<u128, TutorView>,
    patch: PatchTutorDtoView,
    id: u128,
    now: i64,
) -> Map<u128, TutorView> {
    if tutor::is_visible(tutors, id) {
        tutor::after_update(tutors, patch.merged(tutors[id]), id, now)
    } else {
        tutors
    }
}

/// All visible tutors.
pub fn get_tutors(table: &TutorTable) -> (outcome: Result<Vec<Tutor>, EzyTutorError>)
    ensures
        outcome matches Ok(rows) && tutor::lists_visible(row_views(rows@), table@),
{
    tutor::get_tutors(table)
}

/// The visible tutor `tutor_id`.
pub fn get_by_id(table: &TutorTable, tutor_id: u128) -> (outcome: Result<Tutor, EzyTutorError>)
    ensures
        tutor::outcome_view(outcome) == tutor::by_id_outcome(table@, tutor_id),
{
    tutor::by_id(table, tutor_id)
}

/// Creates a tutor from `tutor_dto` under a fresh random identifier at the
/// present instant.
pub fn create_tutor(
    table: &mut TutorTable,
    tutor_dto: CreateTutorDto,
) -> (outcome: Result<Tutor, EzyTutorError>)
    ensures
        exists|id: u128, now: i64|
            {
                &&& id & UUID_V4_MASK == UUID_V4_BITS
                &&& 0 <= now
                &&& tutor::outcome_view(outcome) == #[trigger] tutor::create_outcome(
                    old(table)@,
                    tutor_dto@,
                    id,
                    now,
                )
                &&& final(table)@ == tutor::after_create(old(table)@, tutor_dto@, id, now)
            },
{
    tutor::create(table, tutor_dto)
}

/// Replaces the descriptive fields of the visible tutor `tutor_id` at the
/// present instant.
pub fn update(
    table: &mut TutorTable,
    tutor_dto: CreateTutorDto,
    tutor_id: u128,
) -> (outcome: Result<Tutor, EzyTutorError>)
    ensures
        exists|now: i64|
            {
                &&& 0 <= now
                &&& tutor::outcome_view(outcome) == #[trigger] tutor::update_outcome(
                    old(table)@,
                    tutor_dto@,
                    tutor_id,
                    now,
                )
                &&& final(table)@ == tutor::after_update(old(table)@, tutor_dto@, tutor_id, now)
            },
{
    tutor::update(table, tutor_dto, tutor_id)
}

/// Changes the fields of the visible tutor `tutor_id` that `tutor_dto`
/// holds and keeps the others, stamping the update with `now`: reads the
/// current row, fills the patch from it and runs the full update. Without
/// such a tutor nothing changes.
pub fn partial_update_at(
    table: &mut TutorTable,
    tutor_dto: PatchTutorDto,
    tutor_id: u128,
    now: i64,
) -> (outcome: Result<Tutor, EzyTutorError>)
    ensures
        tutor::outcome_view(outcome) == partial_update_outcome(old(table)@, tutor_dto@, tutor_id, now),
        final(table)@ == after_partial_update(old(table)@, tutor_dto@, tutor_id, now),
{
    match tutor::by_id(table, tutor_id) {
        Ok(due_tutor) => {
            let updated_tutor = tutor_dto.merged(&due_tutor);
            tutor::update_at(table, updated_tutor, tutor_id, now)
        },
        Err(e) => Err(e),
    }
}

/// [`partial_update_at`] at the present instant, which is not before the
/// Unix epoch.
pub fn partial_update(
    table: &mut TutorTable,
    tutor_dto: PatchTutorDto,
    tutor_id: u128,
) -> (outcome: Result<Tutor, EzyTutorError>)
    ensures
        exists|now: i64|
            {
                &&& 0 <= now
                &&& tutor::outcome_view(outcome) == #[trigger] partial_update_outcome(
                    old(table)@,
                    tutor_dto@,
                    tutor_id,
                    now,
                )
                &&& final(table)@ == after_partial_update(old(table)@, tutor_dto@, tutor_id, now)
            },
{
    let now = now_micros();
    partial_update_at(table, tutor_dto, tutor_id, now)
}

/// Marks the visible tutor `tutor_id` as deleted at the present instant.
pub fn soft_delete(
    table: &mut TutorTable,
    tutor_id: u128,
) -> (outcome: Result<Tutor, EzyTutorError>)
    ensures
        exists|now: i64|
            {
                &&& 0 <= now
                &&& tutor::outcome_view(outcome) == #[trigger] tutor::soft_delete_outcome(
                    old(table)@,
                    tutor_id,
                    now,
                )
                &&& final(table)@ == tutor::after_soft_delete(old(table)@, tutor_id, now)
            },
{
    tutor::soft_delete(table, tutor_id)
}

} // verus!
