//! The statements on the tutors table.

use crate::clock::{fresh_id, now_micros, UUID_V4_BITS, UUID_V4_MASK};
use crate::dbaccess::{duplicate_key, key_taken, no_such_row, row_not_found};
use crate::errors::{ErrorView, EzyTutorError};
use crate::models::tutor::{CreateTutorDto, CreateTutorDtoView, Tutor, TutorView};
use crate::store::{row_views, Row, Table};
use vstd::prelude::*;

verus! {

impl Row for Tutor {
    /// The tutors are read as a whole.
    type Scope = ();

    open spec fn key(row: TutorView) -> u128 {
        row.id
    }

    /// A read sees the tutors that are not deleted.
    open spec fn seen_in(row: TutorView, scope: ()) -> bool {
        row.deleted_at is None
    }

    fn is_seen_in(&self, scope: &()) -> bool {
        self.is_visible()
    }

    fn id(&self) -> u128 {
        self.id
    }

    fn copy_row(&self) -> Tutor {
        self.clone()
    }
}

/// The tutors table: its value maps each identifier to the row under it,
/// deleted rows included.
pub type TutorTable = Table<Tutor>;

/// The mathematical value of what a statement returns.
pub open spec fn outcome_view(outcome: Result<Tutor, EzyTutorError>) -> Result<
    TutorView,
    ErrorView,
> {
    match outcome {
        Ok(row) => Ok(row@),
        Err(e) => Err(e@),
    }
}

/// Whether `tutors` holds a row under `id` that is not deleted: the only
/// rows that any statement reads or changes.
pub open spec fn is_visible(tutors: Map<u128, TutorView>, id: u128) -> bool {
    tutors.contains_key(id) && Tutor::seen_in(tutors[id], ())
}

/// `rows` holds each visible row of `tutors` exactly once, and no other.
pub open spec fn lists_visible(rows: Seq<TutorView>, tutors: Map<u128, TutorView>) -> bool {
    &&& forall|i: int|
        0 <= i < rows.len() ==> is_visible(tutors, (#[trigger] rows[i]).id) && tutors[rows[i].id]
            == rows[i]
    &&& forall|i: int, j: int|
        0 <= i < j < rows.len() ==> (#[trigger] rows[i]).id != (#[trigger] rows[j]).id
    &&& forall|id: u128| #[trigger] is_visible(tutors, id) ==> rows.contains(tutors[id])
}

/// What reading the tutor `id` returns.
pub open spec fn by_id_outcome(tutors: Map<u128, TutorView>, id: u128) -> Result<
    TutorView,
    ErrorView,
> {
    if is_visible(tutors, id) {
        Ok(tutors[id])
    } else {
        Err(row_not_found())
    }
}

/// What creating a tutor from `dto` returns when the store draws `id` and
/// `now` for it: the new row, unless a row, visible or deleted, has `id`.
pub open spec fn create_outcome(
    tutors: Map<u128, TutorView>,
    dto: CreateTutorDtoView,
    id: u128,
    now: i64,
) -> Result<TutorView, ErrorView> {
    if tutors.contains_key(id) {
        Err(key_taken())
    } else {
        Ok(TutorView::created(dto, id, now))
    }
}

/// The table after creating a tutor from `dto` under `id` at `now`.
pub open spec fn after_create(
    tutors: Map<u128, TutorView>,
    dto: CreateTutorDtoView,
    id: u128,
    now: i64,
) -> Map<u128, TutorView> {
    if tutors.contains_key(id) {
        tutors
    } else {
        tutors.insert(id, TutorView::created(dto, id, now))
    }
}

/// What replacing the descriptive fields of the tutor `id` at `now` returns.
pub open spec fn update_outcome(
    tutors: Map<u128, TutorView>,
    dto: CreateTutorDtoView,
    id: u128,
    now: i64,
) -> Result<TutorView, ErrorView> {
    if is_visible(tutors, id) {
        Ok(tutors[id].updated(dto, now))
    } else {
        Err(row_not_found())
    }
}

/// The table after replacing the descriptive fields of the tutor `id`.
pub open spec fn after_update(
    tutors: Map<u128, TutorView>,
    dto: CreateTutorDtoView,
    id: u128,
    now: i64,
) -> Map<u128, TutorView> {
    if is_visible(tutors, id) {
        tutors.insert(id, tutors[id].updated(dto, now))
    } else {
        tutors
    }
}

/// What deleting the tutor `id` at `now` returns: the row with its stamp.
pub open spec fn soft_delete_outcome(tutors: Map<u128, TutorView>, id: u128, now: i64) -> Result<
    TutorView,
    ErrorView,
> {
    if is_visible(tutors, id) {
        Ok(tutors[id].deleted(now))
    } else {
        Err(row_not_found())
    }
}

/// The table after deleting the tutor `id` at `now`.
pub open spec fn after_soft_delete(tutors: Map<u128, TutorView>, id: u128, now: i64) -> Map<
    u128,
    TutorView,
> {
    if is_visible(tutors, id) {
        tutors.insert(id, tutors[id].deleted(now))
    } else {
        tutors
    }
}

/// All visible tutors. An empty table gives an empty list, not an error.
pub fn get_tutors(table: &TutorTable) -> (outcome: Result<Vec<Tutor>, EzyTutorError>)
    ensures
        outcome matches Ok(rows) && lists_visible(row_views(rows@), table@),
{
    let rows = table.select(&());
    proof {
        table.lemma_keys();
    }
    Ok(rows)
}

/// The visible tutor `id`.
pub fn by_id(table: &TutorTable, id: u128) -> (outcome: Result<Tutor, EzyTutorError>)
    ensures
        outcome_view(outcome) == by_id_outcome(table@, id),
{
    match table.get(id) {
        Some(row) => {
            if row.is_seen_in(&()) {
                Ok(row)
            } else {
                Err(no_such_row())
            }
        },
        None => Err(no_such_row()),
    }
}

/// Creates a tutor from `dto` under the identifier `id` at the instant
/// `now`. The row is active, and created and last updated at `now`. An
/// identifier that any row has, visible or deleted, is a storage failure
/// and leaves the table as it was.
pub fn create_with(
    table: &mut TutorTable,
    dto: CreateTutorDto,
    id: u128,
    now: i64,
) -> (outcome: Result<Tutor, EzyTutorError>)
    ensures
        outcome_view(outcome) == create_outcome(old(table)@, dto@, id, now),
        final(table)@ == after_create(old(table)@, dto@, id, now),
{
    let row = Tutor::created(dto, id, now);
    if table.insert(row.clone()) {
        Ok(row)
    } else {
        Err(duplicate_key())
    }
}

/// Creates a tutor from `dto` under a fresh random identifier at the
/// present instant: [`create_with`] for some version 4 UUID and some
/// instant not before the Unix epoch.
pub fn create(
    table: &mut TutorTable,
    dto: CreateTutorDto,
) -> (outcome: Result<Tutor, EzyTutorError>)
    ensures
        exists|id: u128, now: i64|
            {
                &&& id & UUID_V4_MASK == UUID_V4_BITS
                &&& 0 <= now
                &&& outcome_view(outcome) == #[trigger] create_outcome(old(table)@, dto@, id, now)
                &&& final(table)@ == after_create(old(table)@, dto@, id, now)
            },
{
    let id = fresh_id();
    let now = now_micros();
    create_with(table, dto, id, now)
}

/// Replaces name, picture and profile of the visible tutor `id` by those of
/// `update_data`, and stamps the update with `now`. Without such a tutor
/// nothing changes.
pub fn update_at(
    table: &mut TutorTable,
    update_data: CreateTutorDto,
    id: u128,
    now: i64,
) -> (outcome: Result<Tutor, EzyTutorError>)
    ensures
        outcome_view(outcome) == update_outcome(old(table)@, update_data@, id, now),
        final(table)@ == after_update(old(table)@, update_data@, id, now),
{
    match table.get(id) {
        Some(current) => {
            if current.is_seen_in(&()) {
                proof {
                    table.lemma_keys();
                }
                let row = Tutor {
                    id: current.id,
                    name: update_data.name,
                    pic_url: update_data.pic_url,
                    profile: update_data.profile,
                    created_at: current.created_at,
                    updated_at: Some(now),
                    deleted_at: current.deleted_at,
                };
                let replaced = table.replace(row.clone());
                assert(replaced);
                Ok(row)
            } else {
                Err(no_such_row())
            }
        },
        None => Err(no_such_row()),
    }
}

/// [`update_at`] at the present instant, which is not before the Unix epoch.
pub fn update(
    table: &mut TutorTable,
    update_data: CreateTutorDto,
    id: u128,
) -> (outcome: Result<Tutor, EzyTutorError>)
    ensures
        exists|now: i64|
            {
                &&& 0 <= now
                &&& outcome_view(outcome) == #[trigger] update_outcome(
                    old(table)@,
                    update_data@,
                    id,
                    now,
                )
                &&& final(table)@ == after_update(old(table)@, update_data@, id, now)
            },
{
    let now = now_micros();
    update_at(table, update_data, id, now)
}

/// Marks the visible tutor `id` as deleted at `now` and returns the row
/// with that stamp. Without such a tutor, and so for a tutor that is
/// deleted already, nothing changes.
pub fn soft_delete_at(
    table: &mut TutorTable,
    id: u128,
    now: i64,
) -> (outcome: Result<Tutor, EzyTutorError>)
    ensures
        outcome_view(outcome) == soft_delete_outcome(old(table)@, id, now),
        final(table)@ == after_soft_delete(old(table)@, id, now),
{
    match table.get(id) {
        Some(current) => {
            if current.is_seen_in(&()) {
                proof {
                    table.lemma_keys();
                }
                let mut row = current;
                row.deleted_at = Some(now);
                let replaced = table.replace(row.clone());
                assert(replaced);
                Ok(row)
            } else {
                Err(no_such_row())
            }
        },
        None => Err(no_such_row()),
    }
}

/// [`soft_delete_at`] at the present instant, which is not before the Unix
/// epoch.
pub fn soft_delete(table: &mut TutorTable, id: u128) -> (outcome: Result<Tutor, EzyTutorError>)
    ensures
        exists|now: i64|
            {
                &&& 0 <= now
                &&& outcome_view(outcome) == #[trigger] soft_delete_outcome(old(table)@, id, now)
                &&& final(table)@ == after_soft_delete(old(table)@, id, now)
            },
{
    let now = now_micros();
    soft_delete_at(table, id, now)
}

} // verus!
