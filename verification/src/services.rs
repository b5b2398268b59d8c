//! What the request layer calls: the store's statements, and the patch that
//! is built on top of them.

pub mod tutor_service;
