//! What holds across statements: a row is active from its creation until
//! its deletion, and deleted for good after it.
//!
//! Each fact is stated over the tables' mathematical values and the
//! functions that the statements' contracts are written in, so that it
//! holds of every run of those statements.

use crate::dbaccess::course;
use crate::dbaccess::row_not_found;
use crate::dbaccess::tutor;
use crate::models::course::{CourseView, CreateCourseDtoView, UpdateCourseDtoView};
use crate::models::tutor::{CreateTutorDtoView, PatchTutorDtoView, TutorView};
use crate::services::tutor_service::{after_partial_update, partial_update_outcome};
use vstd::prelude::*;

verus! {

/// After the deletion of a tutor, whether it succeeded or not, reading the
/// tutor finds nothing and no list of the visible tutors holds it.
pub proof fn lemma_deleted_tutor_is_gone(
    tutors: Map<u128, TutorView>,
    id: u128,
    now: i64,
    listed: Seq<TutorView>,
)
    requires
        tutor::lists_visible(listed, tutor::after_soft_delete(tutors, id, now)),
    ensures
        tutor::by_id_outcome(tutor::after_soft_delete(tutors, id, now), id) == Err::<
            TutorView,
            _,
        >(row_not_found()),
        forall|i: int| 0 <= i < listed.len() ==> (#[trigger] listed[i]).id != id,
{
}

/// Deleting a tutor that is absent or deleted already reports that no row
/// was found and changes nothing; so does the second of two deletions.
pub proof fn lemma_tutor_is_deleted_once(
    tutors: Map<u128, TutorView>,
    id: u128,
    now: i64,
    later: i64,
)
    ensures
        !tutor::is_visible(tutors, id) ==> tutor::soft_delete_outcome(tutors, id, now) == Err::<
            TutorView,
            _,
        >(row_not_found()) && tutor::after_soft_delete(tutors, id, now) == tutors,
        tutor::soft_delete_outcome(tutor::after_soft_delete(tutors, id, now), id, later) == Err::<
            TutorView,
            _,
        >(row_not_found()),
{
}

/// A tutor that was created has the identifier that the store drew, which
/// no row had before, is active, and was created and last updated at the
/// same instant.
pub proof fn lemma_created_tutor_is_new(
    tutors: Map<u128, TutorView>,
    dto: CreateTutorDtoView,
    id: u128,
    now: i64,
)
    ensures
        tutor::create_outcome(tutors, dto, id, now) matches Ok(row) ==> {
            &&& row.id == id
            &&& !tutors.contains_key(row.id)
            &&& row.created_at == now
            &&& row.updated_at == Some(now)
            &&& row.deleted_at is None
            &&& tutor::is_visible(tutor::after_create(tutors, dto, id, now), row.id)
        },
        tutor::create_outcome(tutors, dto, id, now) is Ok <==> !tutors.contains_key(id),
{
}

/// Updating or patching a tutor that is absent or deleted reports that no
/// row was found and changes nothing.
pub proof fn lemma_tutor_update_needs_visible_row(
    tutors: Map<u128, TutorView>,
    dto: CreateTutorDtoView,
    patch: PatchTutorDtoView,
    id: u128,
    now: i64,
)
    requires
        !tutor::is_visible(tutors, id),
    ensures
        tutor::update_outcome(tutors, dto, id, now) == Err::<TutorView, _>(row_not_found()),
        tutor::after_update(tutors, dto, id, now) == tutors,
        partial_update_outcome(tutors, patch, id, now) == Err::<TutorView, _>(row_not_found()),
        after_partial_update(tutors, patch, id, now) == tutors,
{
}

/// Reading a tutor right after its creation returns the row that the
/// creation returned.
pub proof fn lemma_created_tutor_reads_back(
    tutors: Map<u128, TutorView>,
    dto: CreateTutorDtoView,
    id: u128,
    now: i64,
)
    ensures
        tutor::create_outcome(tutors, dto, id, now) matches Ok(row) ==> tutor::by_id_outcome(
            tutor::after_create(tutors, dto, id, now),
            row.id,
        ) == Ok::<_, crate::errors::ErrorView>(row),
{
}

/// A patch changes the fields that it holds and keeps the others; it never
/// touches the identifier, the creation instant or the deletion stamp.
pub proof fn lemma_patch_keeps_absent_fields(
    tutors: Map<u128, TutorView>,
    patch: PatchTutorDtoView,
    id: u128,
    now: i64,
)
    requires
        tutor::is_visible(tutors, id),
    ensures
        partial_update_outcome(tutors, patch, id, now) matches Ok(row) && {
            &&& row.name == if patch.name is Some { patch.name->0 } else { tutors[id].name }
            &&& row.pic_url == if patch.pic_url is Some {
                patch.pic_url->0
            } else {
                tutors[id].pic_url
            }
            &&& row.profile == if patch.profile is Some {
                patch.profile->0
            } else {
                tutors[id].profile
            }
            &&& row.id == tutors[id].id
            &&& row.created_at == tutors[id].created_at
            &&& row.updated_at == Some(now)
            &&& row.deleted_at is None
            &&& after_partial_update(tutors, patch, id, now) == tutors.insert(id, row)
        },
{
}

/// No statement brings a deleted tutor back: whatever runs next, under
/// whatever arguments, the tutor stays invisible.
pub proof fn lemma_deleted_tutor_stays_deleted(
    tutors: Map<u128, TutorView>,
    id: u128,
    dto: CreateTutorDtoView,
    patch: PatchTutorDtoView,
    other: u128,
    now: i64,
)
    requires
        tutors.contains_key(id),
        !tutor::is_visible(tutors, id),
    ensures
        !tutor::is_visible(tutor::after_create(tutors, dto, other, now), id),
        !tutor::is_visible(tutor::after_update(tutors, dto, other, now), id),
        !tutor::is_visible(after_partial_update(tutors, patch, other, now), id),
        !tutor::is_visible(tutor::after_soft_delete(tutors, other, now), id),
{
}

/// After the deletion of a course, whether it succeeded or not, reading the
/// course under that tutor finds nothing and no list of the tutor's visible
/// courses holds it.
pub proof fn lemma_deleted_course_is_gone(
    courses: Map<u128, CourseView>,
    tutor_id: u128,
    course_id: u128,
    now: i64,
    listed: Seq<CourseView>,
)
    requires
        course::lists_visible(
            listed,
            course::after_soft_delete_course(courses, tutor_id, course_id, now),
            tutor_id,
        ),
    ensures
        course::get_course_outcome(
            course::after_soft_delete_course(courses, tutor_id, course_id, now),
            tutor_id,
            course_id,
        ) == Err::<CourseView, _>(row_not_found()),
        forall|i: int| 0 <= i < listed.len() ==> (#[trigger] listed[i]).id != course_id,
{
}

/// Deleting a course that is absent, deleted already or another tutor's
/// reports that no row was found and changes nothing; so does the second of
/// two deletions.
pub proof fn lemma_course_is_deleted_once(
    courses: Map<u128, CourseView>,
    tutor_id: u128,
    course_id: u128,
    now: i64,
    later: i64,
)
    ensures
        !course::is_visible(courses, tutor_id, course_id) ==> course::soft_delete_course_outcome(
            courses,
            tutor_id,
            course_id,
            now,
        ) == Err::<CourseView, _>(row_not_found()) && course::after_soft_delete_course(
            courses,
            tutor_id,
            course_id,
            now,
        ) == courses,
        course::soft_delete_course_outcome(
            course::after_soft_delete_course(courses, tutor_id, course_id, now),
            tutor_id,
            course_id,
            later,
        ) == Err::<CourseView, _>(row_not_found()),
{
}

/// A course that was created has the identifier that the store drew, which
/// no row had before, belongs to the tutor that the payload names, is
/// active, and was posted, created and last updated at the same instant.
pub proof fn lemma_created_course_is_new(
    courses: Map<u128, CourseView>,
    dto: CreateCourseDtoView,
    id: u128,
    now: i64,
)
    ensures
        course::new_course_outcome(courses, dto, id, now) matches Ok(row) ==> {
            &&& row.id == id
            &&& !courses.contains_key(row.id)
            &&& row.tutor_id == dto.tutor_id
            &&& row.posted_time == now
            &&& row.created_at == row.posted_time
            &&& row.updated_at == Some(row.created_at)
            &&& row.deleted_at is None
            &&& course::is_visible(
                course::after_new_course(courses, dto, id, now),
                row.tutor_id,
                row.id,
            )
        },
        course::new_course_outcome(courses, dto, id, now) is Ok <==> !courses.contains_key(id),
{
}

/// Updating a course that is absent, deleted or another tutor's reports
/// that no row was found and changes nothing.
pub proof fn lemma_course_update_needs_visible_row(
    courses: Map<u128, CourseView>,
    tutor_id: u128,
    course_id: u128,
    dto: UpdateCourseDtoView,
    now: i64,
)
    requires
        !course::is_visible(courses, tutor_id, course_id),
    ensures
        course::update_course_outcome(courses, tutor_id, course_id, dto, now) == Err::<
            CourseView,
            _,
        >(row_not_found()),
        course::after_update_course(courses, tutor_id, course_id, dto, now) == courses,
{
}

/// Reading a course right after its creation, under the tutor and the
/// identifier of the row that the creation returned, returns that row.
pub proof fn lemma_created_course_reads_back(
    courses: Map<u128, CourseView>,
    dto: CreateCourseDtoView,
    id: u128,
    now: i64,
)
    ensures
        course::new_course_outcome(courses, dto, id, now) matches Ok(row)
            ==> course::get_course_outcome(
            course::after_new_course(courses, dto, id, now),
            row.tutor_id,
            row.id,
        ) == Ok::<_, crate::errors::ErrorView>(row),
{
}

/// Under any tutor but its owner a course is as good as absent: reading,
/// updating and deleting it report that no row was found, and the last two
/// change nothing.
pub proof fn lemma_course_of_another_tutor_is_hidden(
    courses: Map<u128, CourseView>,
    tutor_id: u128,
    course_id: u128,
    dto: UpdateCourseDtoView,
    now: i64,
)
    requires
        courses.contains_key(course_id),
        courses[course_id].tutor_id != tutor_id,
    ensures
        course::get_course_outcome(courses, tutor_id, course_id) == Err::<CourseView, _>(
            row_not_found(),
        ),
        course::update_course_outcome(courses, tutor_id, course_id, dto, now) == Err::<
            CourseView,
            _,
        >(row_not_found()),
        course::after_update_course(courses, tutor_id, course_id, dto, now) == courses,
        course::soft_delete_course_outcome(courses, tutor_id, course_id, now) == Err::<
            CourseView,
            _,
        >(row_not_found()),
        course::after_soft_delete_course(courses, tutor_id, course_id, now) == courses,
{
}

/// An update of a course replaces every descriptive field by the payload's,
/// absent ones included, and keeps identifier, owner and the instants of
/// posting and creation.
pub proof fn lemma_course_update_replaces_all(
    courses: Map<u128, CourseView>,
    tutor_id: u128,
    course_id: u128,
    dto: UpdateCourseDtoView,
    now: i64,
)
    requires
        course::is_visible(courses, tutor_id, course_id),
    ensures
        course::update_course_outcome(courses, tutor_id, course_id, dto, now) matches Ok(row) && {
            &&& row.name == dto.name
            &&& row.description == dto.description
            &&& row.format == dto.format
            &&& row.structure == dto.structure
            &&& row.duration == dto.duration
            &&& row.price == dto.price
            &&& row.language == dto.language
            &&& row.level == dto.level
            &&& row.updated_at == Some(now)
            &&& row.id == courses[course_id].id
            &&& row.tutor_id == tutor_id
            &&& row.posted_time == courses[course_id].posted_time
            &&& row.created_at == courses[course_id].created_at
            &&& row.deleted_at is None
        },
{
}

/// No statement brings a deleted course back: whatever runs next, under
/// whatever arguments, the course stays invisible to every tutor.
pub proof fn lemma_deleted_course_stays_deleted(
    courses: Map<u128, CourseView>,
    course_id: u128,
    owner: u128,
    create: CreateCourseDtoView,
    update: UpdateCourseDtoView,
    tutor_id: u128,
    other: u128,
    now: i64,
)
    requires
        courses.contains_key(course_id),
        courses[course_id].deleted_at is Some,
    ensures
        !course::is_visible(course::after_new_course(courses, create, other, now), owner, course_id),
        !course::is_visible(
            course::after_update_course(courses, tutor_id, other, update, now),
            owner,
            course_id,
        ),
        !course::is_visible(
            course::after_soft_delete_course(courses, tutor_id, other, now),
            owner,
            course_id,
        ),
{
}

} // verus!
