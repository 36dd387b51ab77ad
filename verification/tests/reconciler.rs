use gcpdyndns::error::Error;
use gcpdyndns::external::{AddressFamily, ExternalIp};
use gcpdyndns::persistent::{Persistance, StoredFile};
use gcpdyndns::reconciler::{decide, Decision};

fn store(last_known: Option<&str>) -> Persistance {
    let mut store = Persistance::new("home.example.org", &StoredFile::Absent).unwrap();
    if let Some(address) = last_known {
        store.update(address, true).unwrap();
    }
    store
}

fn v4(address: &str) -> ExternalIp {
    ExternalIp::new(address.to_string(), AddressFamily::V4)
}

#[test]
fn first_run_applies() {
    assert_eq!(decide(&store(None), &v4("203.0.113.5"), false), Decision::Apply);
    assert_eq!(decide(&store(None), &v4("203.0.113.5"), true), Decision::Apply);
    assert_eq!(decide(&store(None), &v4(""), false), Decision::Apply);
}

#[test]
fn force_applies_an_unchanged_address() {
    assert_eq!(
        decide(&store(Some("203.0.113.5")), &v4("203.0.113.5"), true),
        Decision::Apply
    );
}

#[test]
fn unchanged_address_is_skipped() {
    assert_eq!(
        decide(&store(Some("203.0.113.5")), &v4("203.0.113.5"), false),
        Decision::Skip
    );
}

#[test]
fn changed_address_is_applied() {
    assert_eq!(
        decide(&store(Some("203.0.113.5")), &v4("203.0.113.6"), false),
        Decision::Apply
    );
    assert_eq!(
        decide(&store(Some("203.0.113.5")), &v4("203.0.113.6"), true),
        Decision::Apply
    );
}

#[test]
fn the_family_is_of_no_account_to_the_decision() {
    let candidate = ExternalIp::new("203.0.113.5".to_string(), AddressFamily::V6);
    assert_eq!(decide(&store(Some("203.0.113.5")), &candidate, false), Decision::Skip);
}

#[test]
fn second_decision_after_a_commit_skips() {
    for last_known in [None, Some("198.51.100.7"), Some("203.0.113.5")] {
        let mut state = store(last_known);
        let candidate = v4("203.0.113.5");
        if decide(&state, &candidate, false) == Decision::Apply {
            state.update(&candidate.address, true).unwrap();
        }
        assert_eq!(decide(&state, &candidate, false), Decision::Skip);
    }
}

#[test]
fn decision_against_a_stale_state_is_apply_again() {
    for last_known in [None, Some("198.51.100.7")] {
        let mut state = store(last_known);
        let candidate = v4("203.0.113.5");
        assert_eq!(decide(&state, &candidate, false), Decision::Apply);
        assert_eq!(
            state.update(&candidate.address, false),
            Err(Error::StatePersistFailure)
        );
        assert_eq!(decide(&state, &candidate, false), Decision::Apply);
        assert_eq!(state.ip().cloned(), last_known.map(|address| address.to_string()));
    }
}

#[test]
fn failed_commit_of_a_forced_update_leaves_the_decisions() {
    let mut state = store(Some("203.0.113.5"));
    let candidate = v4("203.0.113.5");
    assert_eq!(decide(&state, &candidate, true), Decision::Apply);
    assert_eq!(
        state.update(&candidate.address, false),
        Err(Error::StatePersistFailure)
    );
    assert_eq!(decide(&state, &candidate, true), Decision::Apply);
    assert_eq!(decide(&state, &candidate, false), Decision::Skip);
}

#[test]
fn candidate_keeps_what_it_was_made_of() {
    let candidate = ExternalIp::new("2001:db8::1".to_string(), AddressFamily::V6);
    assert_eq!(candidate.address, "2001:db8::1");
    assert_eq!(candidate.family, AddressFamily::V6);
    assert!(!candidate.is_ipv4());
    assert!(v4("203.0.113.5").is_ipv4());
    assert_eq!(candidate.clone(), candidate);
}
