//! The records the service keeps and shows: rubric codes, feedback links
//! and the server's configuration.

use vstd::prelude::*;

verus! {

/// `std::path::PathBuf`, held as an opaque value.
#[verifier::external_type_specification]
#[verifier::external_body]
pub struct ExPathBuf(std::path::PathBuf);

/// Where the server finds the built frontend.
pub struct AppConfig {
    pub dist_dir: std::path::PathBuf,
}

/// A reusable rubric code of a workspace: a short code, the criterion's
/// name, guidance for the student and the revision prompt.
#[derive(Debug, Clone)]
pub struct RubricCode {
    pub id: i64,
    pub code: String,
    pub title: String,
    pub guidance: String,
    pub next_step: String,
    pub created_at: String,
}

/// A feedback link as the teacher's queue shows it.
#[derive(Debug)]
pub struct FeedbackLoop {
    pub id: i64,
    pub token: String,
    pub student_label: String,
    pub assignment_title: String,
    pub teacher_note: String,
    pub status: String,
    pub before_excerpt: Option<String>,
    pub after_excerpt: Option<String>,
    pub explanation: Option<String>,
    pub checklist: Vec<i64>,
    pub retention_days: i64,
    pub created_at: String,
    pub submitted_at: Option<String>,
    pub reviewed_at: Option<String>,
    pub rubrics: Vec<RubricCode>,
}

/// What a student's link shows: the assignment, the teacher's note, the
/// selected criteria and that student's own submission, with the link's
/// expiry. It holds nothing of the workspace, the link's id or token, the
/// student label or the review dates.
#[derive(Debug)]
pub struct StudentView {
    pub assignment_title: String,
    pub teacher_note: String,
    pub status: String,
    pub before_excerpt: Option<String>,
    pub after_excerpt: Option<String>,
    pub explanation: Option<String>,
    pub checklist: Vec<i64>,
    pub rubrics: Vec<RubricCode>,
    pub expires_at: String,
}

impl StudentView {
    /// The student's view of a stored link that expires at `expires_at`: it
    /// keeps the assignment, the note, the status, the submission, the
    /// checklist and the link's own criteria, and nothing else of the link.
    pub fn of_link(link: FeedbackLoop, expires_at: String) -> (v: StudentView)
        ensures
            v.assignment_title == link.assignment_title,
            v.teacher_note == link.teacher_note,
            v.status == link.status,
            v.before_excerpt == link.before_excerpt,
            v.after_excerpt == link.after_excerpt,
            v.explanation == link.explanation,
            v.checklist == link.checklist,
            v.rubrics == link.rubrics,
            v.expires_at == expires_at,
    {
        StudentView {
            assignment_title: link.assignment_title,
            teacher_note: link.teacher_note,
            status: link.status,
            before_excerpt: link.before_excerpt,
            after_excerpt: link.after_excerpt,
            explanation: link.explanation,
            checklist: link.checklist,
            rubrics: link.rubrics,
            expires_at,
        }
    }
}

} // verus!
