use rubric_revision_loop::cache::cache_policy;
use rubric_revision_loop::checklist::{checklist_for_storage, sort_ids, stored_checklist};
use rubric_revision_loop::decisions::{
    check_pack_size, check_revision, link_deletion, pack_found, plan_loop, review_applied,
    review_status, revision_accepted, rubric_deletion, rubric_insertion, rubric_not_in_use,
    rubrics_found, sql_placeholders, student_link_current, student_link_found, StoreWrite,
};
use rubric_revision_loop::error::ApiError;
use rubric_revision_loop::model::{FeedbackLoop, RubricCode, StudentView};
use rubric_revision_loop::studio::{
    billing_verdict, studio_access, studio_license, LicenseCheck, StudioVerifier,
};
use rubric_revision_loop::requests::{loop_request, pack_request, Step};
use rubric_revision_loop::token::new_token;
use rubric_revision_loop::validate::{validate_rubric, validate_token, workspace_key};

fn refused<T>(r: Result<T, ApiError>) -> (u16, String) {
    match r {
        Ok(_) => panic!("expected a refusal"),
        Err(e) => (e.status, e.message),
    }
}

#[test]
fn complete_revision_loop() {
    let key = workspace_key(Some("teacher_workspace_key_1234567890")).unwrap();
    assert_eq!(key, "teacher_workspace_key_1234567890");
    let rubric = validate_rubric(
        "EV-1",
        "Use evidence",
        "Connect a quotation to the claim you make.",
        "Add one sentence explaining how the quotation proves the claim.",
    )
    .unwrap();
    assert_eq!(rubric.code, "EV-1");
    let rubric_id = rubric_insertion(StoreWrite::Done { rows_affected: 1, last_insert_id: 1 }).unwrap();
    let plan = plan_loop("Argument paragraph", Some("Student 12"), None, vec![rubric_id], None).unwrap();
    assert_eq!(plan.student_label, "Student 12");
    assert!(!plan.needs_studio);
    rubrics_found(1, plan.rubric_ids.len()).unwrap();
    let token = new_token();
    assert!(validate_token(&token).is_ok());
    assert!(student_link_found(true).is_ok());
    assert!(student_link_current(0).is_ok());
    let revision = check_revision(
        "This proves the point.",
        "The detail shows the policy failed because costs rose.",
        "I explained the connection between evidence and claim.",
    )
    .unwrap();
    assert_eq!(revision.after_excerpt, "The detail shows the policy failed because costs rose.");
    assert!(revision_accepted(Some("awaiting")).is_ok());
    let stored = checklist_for_storage(&vec![rubric_id], &vec![rubric_id]).unwrap();
    assert_eq!(stored, "[1]");
    assert_eq!(stored_checklist(&stored), vec![rubric_id]);
}

#[test]
fn rejects_unknown_rubric_and_bad_workspace() {
    let plan = plan_loop("Essay", None, None, vec![999], None).unwrap();
    assert_eq!(
        refused(rubrics_found(0, plan.rubric_ids.len())),
        (422, "One or more rubric codes no longer exist.".to_string())
    );
    assert_eq!(refused(workspace_key(None)).0, 401);
}

#[test]
fn rejects_unlicensed_studio_retention_and_team_pack_writes() {
    let key = Some("teacher_workspace_key_1234567890");
    let required = (403, "A valid Studio license is required for this feature.".to_string());
    let no_license = loop_request(key, "Paid bypass", None, None, vec![1], Some(365), None, None);
    match no_license {
        Step::Refuse(e) => assert_eq!((e.status, e.message), required),
        _ => panic!("a long retention without a license is refused"),
    }
    match pack_request(key, None, None, 1) {
        Step::Refuse(e) => assert_eq!((e.status, e.message), required),
        _ => panic!("a team pack without a license is refused"),
    }
    let verifier = StudioVerifier::Static { valid_license: "studio-test-license".to_string() };
    let license = Some("studio-test-license");
    let asked = loop_request(key, "Licensed retention", None, None, vec![1], Some(365), license, None);
    let verdict = match asked {
        Step::VerifyLicense(l) => match verifier.check(&l) {
            LicenseCheck::Decided(valid) => Ok(valid),
            LicenseCheck::AskBilling(_) => panic!("a fixed license is decided at once"),
        },
        _ => panic!("the license is verified first"),
    };
    match loop_request(key, "Licensed retention", None, None, vec![1], Some(365), license, Some(verdict)) {
        Step::Proceed((k, plan)) => {
            assert_eq!(k, "teacher_workspace_key_1234567890");
            assert_eq!(plan.retention_days, 365);
        }
        _ => panic!("a licensed long retention goes on"),
    }
    match pack_request(key, license, Some(verdict), 1) {
        Step::Proceed(k) => assert_eq!(k, "teacher_workspace_key_1234567890"),
        _ => panic!("a licensed team pack goes on"),
    }
    assert!(studio_access(verdict).is_ok());
}

#[test]
fn rejects_incomplete_or_duplicate_checklists_without_storing_a_revision() {
    let first = 1;
    let second = 2;
    let assigned = vec![first, second];
    assert_eq!(
        refused(checklist_for_storage(&assigned, &vec![first])),
        (422, "Check each rubric step before submitting.".to_string())
    );
    assert_eq!(refused(checklist_for_storage(&assigned, &vec![first, first])).0, 422);
    // nothing was stored: the checklist of a new link reads as empty
    assert_eq!(stored_checklist("[]"), Vec::<i64>::new());
}

#[test]
fn linked_rubric_returns_recoverable_conflict_then_deletes_after_link_removal() {
    assert_eq!(
        refused(rubric_not_in_use(true)),
        (409, "This code is used in a feedback link. Delete that link first.".to_string())
    );
    assert!(link_deletion(1).is_ok());
    assert!(rubric_not_in_use(false).is_ok());
    assert!(rubric_deletion(StoreWrite::Done { rows_affected: 1, last_insert_id: 0 }).is_ok());
}

#[test]
fn applies_cache_policy_for_private_api_assets_and_service_worker() {
    for (uri, expected) in [
        ("/api/health", "no-store"),
        ("/assets/app-abc123.js", "public, max-age=31536000, immutable"),
        ("/sw.js", "no-cache"),
    ] {
        assert_eq!(cache_policy(uri), expected);
    }
}

#[test]
fn cache_policy_edges() {
    assert_eq!(cache_policy("/api"), "no-cache");
    assert_eq!(cache_policy("/api/"), "no-store");
    assert_eq!(cache_policy("/"), "no-cache");
    assert_eq!(cache_policy("/assets/"), "public, max-age=31536000, immutable");
}

#[test]
fn checklists_in_any_order_store_the_same_text() {
    let assigned = vec![7, 3, 5];
    let a = checklist_for_storage(&assigned, &vec![5, 7, 3]).unwrap();
    let b = checklist_for_storage(&assigned, &vec![3, 5, 7]).unwrap();
    assert_eq!(a, "[3,5,7]");
    assert_eq!(a, b);
    assert_eq!(stored_checklist(&a), vec![3, 5, 7]);
}

#[test]
fn checklist_with_extra_id_is_refused() {
    assert_eq!(refused(checklist_for_storage(&vec![1], &vec![1, 2])).0, 422);
    assert_eq!(refused(checklist_for_storage(&vec![], &vec![1])).0, 422);
}

#[test]
fn stored_checklist_reads_bad_text_as_empty() {
    assert_eq!(stored_checklist("not json"), Vec::<i64>::new());
    assert_eq!(stored_checklist("[4,-2]"), vec![4, -2]);
}

#[test]
fn sort_ids_sorts_with_duplicates() {
    assert_eq!(sort_ids(&vec![3, -1, 3, 0, i64::MIN, i64::MAX]), vec![i64::MIN, -1, 0, 3, 3, i64::MAX]);
    assert_eq!(sort_ids(&vec![]), Vec::<i64>::new());
}

#[test]
fn new_tokens_are_valid_link_tokens() {
    let a = new_token();
    let b = new_token();
    assert_eq!(a.len(), 32);
    assert!(a.chars().all(|c| c.is_ascii_digit() || ('a'..='f').contains(&c)));
    assert!(validate_token(&a).is_ok());
    assert_ne!(a, b);
}

#[test]
fn loop_plan_defaults_and_limits() {
    let plan = plan_loop("  Argument paragraph ", None, Some("  note "), vec![1, 2], None).unwrap();
    assert_eq!(plan.assignment_title, "Argument paragraph");
    assert_eq!(plan.student_label, "");
    assert_eq!(plan.teacher_note, "note");
    assert_eq!(plan.retention_days, 30);
    assert!(!plan.needs_studio);
    assert!(!plan_loop("Essay", None, None, vec![1], Some(30)).unwrap().needs_studio);
    assert!(plan_loop("Essay", None, None, vec![1], Some(31)).unwrap().needs_studio);
    assert_eq!(plan_loop("Essay", None, None, vec![1], Some(7)).unwrap().retention_days, 7);
    let retention = (422, "Retention must be between 7 and 365 days.".to_string());
    assert_eq!(refused(plan_loop("Essay", None, None, vec![1], Some(6))), retention);
    assert_eq!(refused(plan_loop("Essay", None, None, vec![1], Some(366))), retention);
    let count = (422, "Choose between 1 and 12 rubric codes.".to_string());
    assert_eq!(refused(plan_loop("Essay", None, None, vec![], None)), count);
    assert_eq!(refused(plan_loop("Essay", None, None, (0..13).collect(), None)), count);
    assert_eq!(
        refused(plan_loop("E", None, None, vec![], None)),
        (422, "Assignment title must be at least 2 characters.".to_string())
    );
    assert_eq!(
        refused(plan_loop("Essay", Some(&"x".repeat(81)), None, vec![1], None)),
        (422, "This field must be 80 characters or fewer.".to_string())
    );
}

#[test]
fn pack_size_limits() {
    let expected = (422, "Choose between 1 and 100 rubric codes for a team pack.".to_string());
    assert_eq!(refused(check_pack_size(0)), expected);
    assert_eq!(refused(check_pack_size(101)), expected);
    assert!(check_pack_size(100).is_ok());
}

#[test]
fn store_write_outcomes() {
    assert_eq!(rubric_insertion(StoreWrite::Done { rows_affected: 1, last_insert_id: 42 }).unwrap(), 42);
    assert_eq!(
        refused(rubric_insertion(StoreWrite::UniqueViolation)),
        (409, "That rubric code already exists in this workspace.".to_string())
    );
    assert_eq!(
        refused(rubric_insertion(StoreWrite::Failed)),
        (500, "Something went wrong while saving. Try again.".to_string())
    );
    assert_eq!(
        refused(rubric_deletion(StoreWrite::Done { rows_affected: 0, last_insert_id: 0 })),
        (404, "Rubric code not found.".to_string())
    );
    assert_eq!(refused(rubric_deletion(StoreWrite::ForeignKeyViolation)).0, 409);
    assert_eq!(refused(rubric_deletion(StoreWrite::Failed)).0, 500);
    assert_eq!(
        refused(link_deletion(0)),
        (404, "Feedback link not found.".to_string())
    );
    assert_eq!(rubrics_found(3, 3).is_ok(), true);
    assert_eq!(refused(rubrics_found(1, 2)).0, 422);
}

#[test]
fn reviews_and_reopening() {
    assert_eq!(review_status(true), "reviewed");
    assert_eq!(review_status(false), "submitted");
    assert!(review_applied(1).is_ok());
    assert_eq!(
        refused(review_applied(0)),
        (409, "Only a submitted revision can be reviewed.".to_string())
    );
}

#[test]
fn student_link_states() {
    assert_eq!(
        refused(student_link_found(false)),
        (404, "This revision link was not found or has been deleted.".to_string())
    );
    assert_eq!(
        refused(student_link_current(1)),
        (410, "This revision link has expired. Ask your teacher for a new link.".to_string())
    );
    assert_eq!(
        refused(revision_accepted(None)),
        (404, "This revision link was not found, has expired, or was deleted.".to_string())
    );
    assert_eq!(
        refused(revision_accepted(Some("reviewed"))),
        (409, "This revision has already been reviewed. Ask your teacher to reopen it.".to_string())
    );
    assert!(revision_accepted(Some("submitted")).is_ok());
    assert_eq!(
        refused(check_revision("b", "a", "short")),
        (422, "Revision explanation must be at least 8 characters.".to_string())
    );
    assert_eq!(
        refused(pack_found(false)),
        (404, "This team pack was not found or has expired.".to_string())
    );
}

#[test]
fn billing_verifier_and_verdicts() {
    match StudioVerifier::billing("https://api.sociobot.in//".to_string()) {
        StudioVerifier::Billing { base_url } => assert_eq!(base_url, "https://api.sociobot.in"),
        _ => panic!("expected a billing verifier"),
    }
    let verifier = StudioVerifier::billing("https://pilot-api.sociobot.in/".to_string());
    match verifier.check("abc") {
        LicenseCheck::AskBilling(url) => assert_eq!(
            url,
            "https://pilot-api.sociobot.in/api/v1/products/rubric-revision-loop/verify"
        ),
        LicenseCheck::Decided(_) => panic!("billing licenses are asked for"),
    }
    let fixed = StudioVerifier::Static { valid_license: "studio-test-license".to_string() };
    assert!(matches!(fixed.check("other"), LicenseCheck::Decided(false)));
    assert_eq!(billing_verdict(true, Some(true)), Ok(true));
    assert_eq!(billing_verdict(true, Some(false)), Ok(false));
    assert_eq!(billing_verdict(true, None), Err(()));
    assert_eq!(billing_verdict(false, Some(true)), Err(()));
}

#[test]
fn studio_license_and_access() {
    assert_eq!(studio_license(Some("  lic-1 ")).unwrap(), "lic-1");
    assert_eq!(refused(studio_license(Some("   "))).0, 403);
    assert_eq!(
        refused(studio_access(Ok(false))),
        (403, "This Studio license is not active. Restore or purchase a license to continue.".to_string())
    );
    assert_eq!(
        refused(studio_access(Err(()))),
        (503, "Studio verification is temporarily unavailable. Try again shortly.".to_string())
    );
}

#[test]
fn sql_placeholder_lists() {
    assert_eq!(sql_placeholders(0), "");
    assert_eq!(sql_placeholders(1), "?");
    assert_eq!(sql_placeholders(3), "?,?,?");
}

#[test]
fn billing_address_normalises_once() {
    let first = match StudioVerifier::billing("https://api.sociobot.in///".to_string()) {
        StudioVerifier::Billing { base_url } => base_url,
        _ => panic!("expected a billing verifier"),
    };
    let second = match StudioVerifier::billing(first.clone()) {
        StudioVerifier::Billing { base_url } => base_url,
        _ => panic!("expected a billing verifier"),
    };
    assert_eq!(first, "https://api.sociobot.in");
    assert_eq!(first, second);
}

#[test]
fn matching_checklist_is_stored_as_sorted_json() {
    assert_eq!(checklist_for_storage(&vec![1], &vec![1]).unwrap(), "[1]");
    assert_eq!(checklist_for_storage(&vec![], &vec![]).unwrap(), "[]");
    assert_eq!(
        checklist_for_storage(&vec![i64::MIN, 0, -5], &vec![0, -5, i64::MIN]).unwrap(),
        "[-9223372036854775808,-5,0]"
    );
    assert_eq!(stored_checklist("[-9223372036854775808,-5,0]"), vec![i64::MIN, -5, 0]);
}

#[test]
fn new_tokens_carry_the_v4_digits() {
    for _ in 0..20 {
        let t: Vec<char> = new_token().chars().collect();
        assert_eq!(t[12], '4');
        assert!(['8', '9', 'a', 'b'].contains(&t[16]));
    }
}

#[test]
fn student_view_keeps_only_the_students_part_of_a_link() {
    let rubric = RubricCode {
        id: 1,
        code: "EV-1".to_string(),
        title: "Use evidence".to_string(),
        guidance: "Connect a quotation to the claim you make.".to_string(),
        next_step: "Add one sentence explaining how the quotation proves the claim.".to_string(),
        created_at: "2024-01-01 00:00:00".to_string(),
    };
    let link = FeedbackLoop {
        id: 7,
        token: "0123456789abcdef0123456789abcdef".to_string(),
        student_label: "Student 12".to_string(),
        assignment_title: "Argument paragraph".to_string(),
        teacher_note: "Look at paragraph two.".to_string(),
        status: "submitted".to_string(),
        before_excerpt: Some("Before.".to_string()),
        after_excerpt: Some("After.".to_string()),
        explanation: Some("I made the evidence clearer.".to_string()),
        checklist: vec![1],
        retention_days: 30,
        created_at: "2024-01-01 00:00:00".to_string(),
        submitted_at: Some("2024-01-02 00:00:00".to_string()),
        reviewed_at: None,
        rubrics: vec![rubric],
    };
    let view = StudentView::of_link(link, "2024-01-31 00:00:00".to_string());
    assert_eq!(view.assignment_title, "Argument paragraph");
    assert_eq!(view.teacher_note, "Look at paragraph two.");
    assert_eq!(view.status, "submitted");
    assert_eq!(view.before_excerpt.as_deref(), Some("Before."));
    assert_eq!(view.after_excerpt.as_deref(), Some("After."));
    assert_eq!(view.explanation.as_deref(), Some("I made the evidence clearer."));
    assert_eq!(view.checklist, vec![1]);
    assert_eq!(view.rubrics.len(), 1);
    assert_eq!(view.rubrics[0].code, "EV-1");
    assert_eq!(view.expires_at, "2024-01-31 00:00:00");
}
