use authcore::profile::{contains_string, Profile, SessionRecord};
use authcore::token::TokenContext;

fn record(token: &str, ip: &str, context: TokenContext) -> SessionRecord {
    SessionRecord {
        token: token.to_string(),
        ip: ip.to_string(),
        context,
    }
}

fn sample_profile() -> Profile {
    Profile {
        id: "p1".to_string(),
        username: "someone".to_string(),
        group: 0,
        sessions: vec![
            record("t1", "10.0.0.1", TokenContext::ManageAccount),
            record("t2", "10.0.0.2", TokenContext::ReadOnly),
        ],
    }
}

// Profile P has two sessions, tokens [t1, t2] with contexts
// [ManageAccount, ReadOnly].  Revoking t1 leaves exactly one session:
// t2, still paired with its own ReadOnly context and IP, with the index
// realigned across all three sequences.
#[test]
fn revoking_realigns_all_three_sequences() {
    let mut p = sample_profile();
    p.revoke_sessions_not_in(&vec!["t2".to_string()]);
    assert_eq!(p.sessions.len(), 1);
    assert_eq!(p.sessions[0].token, "t2");
    assert_eq!(p.sessions[0].ip, "10.0.0.2");
    assert_eq!(p.sessions[0].context, TokenContext::ReadOnly);
}

#[test]
fn revoking_nothing_is_a_no_op() {
    let mut p = sample_profile();
    p.revoke_sessions_not_in(&vec!["t1".to_string(), "t2".to_string()]);
    assert_eq!(p.sessions.len(), 2);
    assert_eq!(p.sessions[0].token, "t1");
    assert_eq!(p.sessions[1].token, "t2");
}

#[test]
fn revoking_everything_logs_out_everywhere() {
    let mut p = sample_profile();
    p.revoke_sessions_not_in(&vec![]);
    assert_eq!(p.sessions.len(), 0);
    // The profile is unauthenticatable until a new session is created.
    assert_eq!(p.token_context_from_token(&"t1".to_string()), None);
}

#[test]
fn add_session_appends_one_aligned_record() {
    let mut p = sample_profile();
    p.add_session(
        "t3".to_string(),
        "10.0.0.3".to_string(),
        TokenContext::Moderator,
    );
    assert_eq!(p.sessions.len(), 3);
    assert_eq!(p.sessions[2].token, "t3");
    assert_eq!(p.sessions[2].ip, "10.0.0.3");
    assert_eq!(p.sessions[2].context, TokenContext::Moderator);
}

#[test]
fn interleaved_adds_and_revokes_stay_aligned() {
    let mut p = sample_profile();
    p.add_session("t3".to_string(), String::new(), TokenContext::Unrestricted);
    p.revoke_sessions_not_in(&vec!["t2".to_string(), "t3".to_string()]);
    p.add_session("t4".to_string(), "10.0.0.4".to_string(), TokenContext::ReadOnly);
    p.revoke_sessions_not_in(&vec!["t4".to_string()]);
    assert_eq!(p.sessions.len(), 1);
    assert_eq!(p.sessions[0].token, "t4");
    assert_eq!(p.sessions[0].ip, "10.0.0.4");
    assert_eq!(p.sessions[0].context, TokenContext::ReadOnly);
}

#[test]
fn token_resolution_matches_exactly() {
    let p = sample_profile();
    assert_eq!(
        p.token_context_from_token(&"t1".to_string()),
        Some(TokenContext::ManageAccount)
    );
    assert_eq!(
        p.token_context_from_token(&"t2".to_string()),
        Some(TokenContext::ReadOnly)
    );
    assert_eq!(p.token_context_from_token(&"t".to_string()), None);
    assert_eq!(p.token_context_from_token(&"t11".to_string()), None);
}

#[test]
fn tier_order_is_total_and_monotonic() {
    let tiers = [
        TokenContext::ReadOnly,
        TokenContext::ManageProfile,
        TokenContext::ManageAccount,
        TokenContext::Moderator,
        TokenContext::Unrestricted,
    ];
    for (i, a) in tiers.iter().enumerate() {
        for (j, b) in tiers.iter().enumerate() {
            assert_eq!(a.can_do(*b), i >= j);
        }
    }
    assert_eq!(TokenContext::default(), TokenContext::ReadOnly);
}

#[test]
fn contains_string_compares_characters() {
    let v = vec!["alpha".to_string(), "beta".to_string()];
    assert!(contains_string(&v, &"beta".to_string()));
    assert!(!contains_string(&v, &"bet".to_string()));
    assert!(!contains_string(&v, &"gamma".to_string()));
}
