use prediction_creator::report::{end_report, EndResponseKind};

#[test]
fn success_is_confirmed() {
    assert_eq!(
        end_report(&EndResponseKind::Success),
        Some("Successfully ended prediction".to_string())
    );
}

#[test]
fn a_rejected_body_is_reported() {
    assert_eq!(
        end_report(&EndResponseKind::MissingQuery),
        Some("ERROR: Bad prediction body".to_string())
    );
}

#[test]
fn failed_authentication_is_reported() {
    assert_eq!(
        end_report(&EndResponseKind::AuthFailed),
        Some("ERROR: Auth failed".to_string())
    );
}

#[test]
fn an_unknown_response_has_no_line() {
    assert_eq!(end_report(&EndResponseKind::Unknown), None);
}
