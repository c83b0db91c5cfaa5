use cups_rs::provider::error::ProviderError;
use cups_rs::provider::job::handle::{allocate_from, HandleIssuer, IssuerId, FIRST_ISSUER};

#[test]
fn issuers_are_never_repeated() {
    let mut counter = FIRST_ISSUER;
    let first = IssuerId::allocate(&mut counter).expect("identity");
    let second = IssuerId::allocate(&mut counter).expect("identity");
    assert_ne!(first, second);
}

#[test]
fn issuer_allocation_stops_instead_of_wrapping() {
    let mut counter = u64::MAX - 1;
    assert_eq!(
        allocate_from(&mut counter).expect("last-but-one"),
        u64::MAX - 1
    );
    // u64::MAX is the ceiling: it is never handed out, and nothing after
    // it wraps back to an issued value.
    assert!(allocate_from(&mut counter).is_err());
    assert!(allocate_from(&mut counter).is_err());
    assert_eq!(counter, u64::MAX);
}

#[test]
fn issuer_allocation_never_hands_out_zero() {
    let mut counter = 0;
    // 0 is not a valid identity, so the call fails rather than issue it.
    assert!(allocate_from(&mut counter).is_err());
}

#[test]
fn local_numbers_stop_instead_of_wrapping() {
    let mut counter = FIRST_ISSUER;
    let mut issuer = HandleIssuer::starting_after(&mut counter, u64::MAX - 1).expect("issuer");
    let last = issuer.next().expect("the final number");
    assert!(issuer.next().is_err());
    assert!(issuer.next().is_err());
    assert_eq!(last.local(), u64::MAX);
}

#[test]
fn same_local_number_from_two_issuers_is_two_handles() {
    let mut counter = FIRST_ISSUER;
    let mut a = HandleIssuer::new(&mut counter).expect("issuer");
    let mut b = HandleIssuer::new(&mut counter).expect("issuer");
    let from_a = a.next().expect("handle");
    let from_b = b.next().expect("handle");
    assert_eq!(
        from_a.local(), from_b.local(),
        "a number alone would collide"
    );
    assert_ne!(from_a, from_b);
    assert_ne!(from_a.issued_by(), from_b.issued_by());
}

#[test]
fn exhausted_counters_say_so() {
    let mut counter = u64::MAX;
    assert_eq!(
        IssuerId::allocate(&mut counter),
        Err(ProviderError::InternalContractViolation {
            detail: "provider identities exhausted".into()
        })
    );
    let mut counter = 7;
    let mut issuer = HandleIssuer::starting_after(&mut counter, u64::MAX).expect("issuer");
    assert_eq!(counter, 8);
    assert_eq!(
        issuer.next(),
        Err(ProviderError::InternalContractViolation {
            detail: "job handles exhausted for this provider".into()
        })
    );
}

#[test]
fn a_handle_shows_its_issuer_and_number() {
    let mut issuer = HandleIssuer::new(&mut 21).expect("issuer");
    issuer.next().expect("first");
    assert_eq!(issuer.next().expect("second").text(), "job-handle-21.2");
}
