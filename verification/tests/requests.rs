use rubric_revision_loop::error::ApiError;
use rubric_revision_loop::requests::{
    import_request, loop_request, pack_request, revision_request, rubric_request,
    workspace_deletion_request, Step,
};

const KEY: &str = "teacher_workspace_key_1234567890";
const TOKEN: &str = "0123456789abcdef0123456789abcdef";

fn refused_step<T>(s: Step<T>) -> (u16, String) {
    match s {
        Step::Refuse(e) => (e.status, e.message),
        _ => panic!("expected a refusal"),
    }
}

fn refused<T>(r: Result<T, ApiError>) -> (u16, String) {
    match r {
        Ok(_) => panic!("expected a refusal"),
        Err(e) => (e.status, e.message),
    }
}

#[test]
fn pack_checks_key_then_license_then_size() {
    // a bad key is refused before anything else
    assert_eq!(refused_step(pack_request(None, None, None, 0)).0, 401);
    // then the license, before the size
    assert_eq!(refused_step(pack_request(Some(KEY), None, None, 0)).0, 403);
    match pack_request(Some(KEY), Some(" lic "), None, 0) {
        Step::VerifyLicense(l) => assert_eq!(l, "lic"),
        _ => panic!("the license is verified before the size is checked"),
    }
    assert_eq!(
        refused_step(pack_request(Some(KEY), Some("lic"), Some(Ok(true)), 0)),
        (422, "Choose between 1 and 100 rubric codes for a team pack.".to_string())
    );
    assert_eq!(refused_step(pack_request(Some(KEY), Some("lic"), Some(Ok(false)), 5)).0, 403);
    assert_eq!(refused_step(pack_request(Some(KEY), Some("lic"), Some(Err(())), 5)).0, 503);
    assert!(matches!(pack_request(Some(KEY), Some("lic"), Some(Ok(true)), 100), Step::Proceed(_)));
}

#[test]
fn import_checks_key_then_license_then_token() {
    assert_eq!(refused_step(import_request(None, Some("lic"), Some(Ok(true)), TOKEN)).0, 401);
    assert_eq!(refused_step(import_request(Some(KEY), None, None, "bad")).0, 403);
    assert!(matches!(import_request(Some(KEY), Some("lic"), None, "bad"), Step::VerifyLicense(_)));
    assert_eq!(
        refused_step(import_request(Some(KEY), Some("lic"), Some(Ok(true)), "bad")),
        (404, "This revision link is not valid.".to_string())
    );
    match import_request(Some(KEY), Some("lic"), Some(Ok(true)), TOKEN) {
        Step::Proceed(k) => assert_eq!(k, KEY),
        _ => panic!("a licensed import with a good token goes on"),
    }
}

#[test]
fn free_links_need_no_license() {
    match loop_request(Some(KEY), "Essay", None, None, vec![1], None, None, None) {
        Step::Proceed((k, plan)) => {
            assert_eq!(k, KEY);
            assert_eq!(plan.retention_days, 30);
        }
        _ => panic!("a free link goes on without a license"),
    }
    assert!(matches!(
        loop_request(Some(KEY), "Essay", None, None, vec![1], Some(30), None, Some(Ok(false))),
        Step::Proceed(_)
    ));
    // field checks come before the license
    assert_eq!(
        refused_step(loop_request(Some(KEY), "Essay", None, None, vec![], Some(365), None, None)),
        (422, "Choose between 1 and 12 rubric codes.".to_string())
    );
    assert_eq!(refused_step(loop_request(None, "E", None, None, vec![], None, None, None)).0, 401);
}

#[test]
fn rubric_revision_and_deletion_requests_check_in_order() {
    assert_eq!(refused(rubric_request(None, "x", "", "", "")).0, 401);
    let (key, draft) = rubric_request(
        Some(KEY),
        "org-2",
        "Organize reasons",
        "Arrange reasons so each one builds on the last.",
        "Move one sentence and explain why the new order is clearer.",
    )
    .unwrap();
    assert_eq!(key, KEY);
    assert_eq!(draft.code, "ORG-2");
    assert_eq!(refused(revision_request("bad", "", "", "")).0, 404);
    assert_eq!(
        refused(revision_request(TOKEN, "", "After.", "I made it clearer.")),
        (422, "Before excerpt must be at least 1 characters.".to_string())
    );
    let revision = revision_request(TOKEN, " Before. ", "After.", "I made the evidence clearer.").unwrap();
    assert_eq!(revision.before_excerpt, "Before.");
    assert_eq!(refused(workspace_deletion_request(None, Some("delete my workspace"))).0, 401);
    assert_eq!(refused(workspace_deletion_request(Some(KEY), None)).0, 422);
    assert_eq!(workspace_deletion_request(Some(KEY), Some("delete my workspace")).unwrap(), KEY);
}
