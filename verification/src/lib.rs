//! Rubric Revision Loop: the rules that decide what a teacher or a student
//! may store, see and change, stated and proved with Verus.
//!
//! - `validate`: required and optional fields, link tokens, workspace keys,
//!   rubric codes and the deletion confirmation;
//! - `checklist`: the student's checklist, compared with the link's codes and
//!   stored as JSON;
//! - `requests`: each request's checks in order, up to the store (including
//!   the Studio license for paid features);
//! - `decisions`: the single checks, and what each request is answered from
//!   what the store reported;
//! - `studio`: Studio licenses and paid features;
//! - `token`: random link tokens;
//! - `cache`: the browser cache policy;
//! - `model`: the records the service keeps;
//! - `laws`: properties that hold for every input;
//! - `error` and `text`: the refusal type and character-level helpers.

pub mod cache;
pub mod checklist;
pub mod decisions;
pub mod error;
pub mod laws;
pub mod model;
pub mod requests;
pub mod studio;
pub mod text;
pub mod token;
pub mod validate;

pub use error::ApiError;
pub use model::{AppConfig, FeedbackLoop, RubricCode, StudentView};
pub use studio::StudioVerifier;
pub use validate::{clean_optional, clean_required, validate_token};
