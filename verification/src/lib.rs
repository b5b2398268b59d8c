//! A course catalogue: tutors own courses, and both are created, read,
//! updated and soft-deleted through statements whose every failure is
//! reported in one small error taxonomy.
//!
//! * [`models`] holds the rows and the payloads that create and change them.
//! * [`store`] is the relation behind a table: rows under a primary key.
//! * [`dbaccess`] holds the statements on the two tables. They see visible
//!   rows only, and a course only under its owning tutor.
//! * [`services`] is what the request layer calls, with the patch of a
//!   tutor built on top of the full update.
//! * [`errors`] is the taxonomy, the one conversion from storage outcomes
//!   into it, and what of an error a client may see.
//! * [`lifecycle`] states what holds across statements.
//! * [`clock`] draws instants and identifiers.

pub mod clock;
pub mod dbaccess;
pub mod errors;
pub mod lifecycle;
pub mod models;
pub mod services;
pub mod store;
