use backup_monitor::auth::encode_credentials;
use backup_monitor::model::Domain;
use backup_monitor::orchestrate::{
    on_domains_response, on_fetch_complete, plan_domains, start_run, RunPhase,
};

#[test]
fn a_run_starts_by_listing_domains() {
    assert_eq!(start_run(), RunPhase::ListingDomains);
}

#[test]
fn scenario_missing_identifier_is_skipped_not_fatal() {
    let domains = vec![
        Domain { saas_customer_id: Some(7) },
        Domain { saas_customer_id: None },
        Domain { saas_customer_id: Some(9) },
    ];
    let plan = plan_domains(&domains);
    assert_eq!(plan.fetch_ids, vec![7, 9]);
    assert_eq!(plan.skipped, vec![1]);
    let (phase, plan) = on_domains_response(start_run(), true, &domains);
    assert_eq!(phase, RunPhase::Fetching { remaining: 2 });
    assert_eq!(plan.fetch_ids, vec![7, 9]);
    assert_eq!(plan.skipped, vec![1]);
}

#[test]
fn scenario_listing_failure_aborts_with_zero_fetches() {
    let domains = vec![Domain { saas_customer_id: Some(7) }];
    let (phase, plan) = on_domains_response(start_run(), false, &domains);
    assert_eq!(phase, RunPhase::Failed);
    assert!(plan.fetch_ids.is_empty());
    assert!(plan.skipped.is_empty());
}

#[test]
fn an_empty_listing_finishes_at_once() {
    let (phase, plan) = on_domains_response(start_run(), true, &Vec::new());
    assert_eq!(phase, RunPhase::Done);
    assert!(plan.fetch_ids.is_empty());
}

#[test]
fn a_listing_with_only_missing_identifiers_finishes_at_once() {
    let domains = vec![
        Domain { saas_customer_id: None },
        Domain { saas_customer_id: None },
    ];
    let (phase, plan) = on_domains_response(start_run(), true, &domains);
    assert_eq!(phase, RunPhase::Done);
    assert!(plan.fetch_ids.is_empty());
    assert_eq!(plan.skipped, vec![0, 1]);
}

#[test]
fn fetch_completions_count_down_to_done() {
    let phase = RunPhase::Fetching { remaining: 2 };
    let phase = on_fetch_complete(phase);
    assert_eq!(phase, RunPhase::Fetching { remaining: 1 });
    let phase = on_fetch_complete(phase);
    assert_eq!(phase, RunPhase::Done);
}

#[test]
fn credentials_encode_as_basic_auth_expects() {
    let id: Vec<u8> = "user".bytes().collect();
    let secret: Vec<u8> = "pass".bytes().collect();
    assert_eq!(encode_credentials(&id, &secret), "dXNlcjpwYXNz");
}

#[test]
fn empty_credentials_still_encode_the_colon() {
    let id: Vec<u8> = Vec::new();
    let secret: Vec<u8> = Vec::new();
    assert_eq!(encode_credentials(&id, &secret), "Og==");
}
