use wasabi::pairing::{
    countdown_secs, display_pair_code, pairing_status_line, phone_pairing_action, qr_matrix,
    qr_pairing_action, PairingAction, SessionState, QR_QUIET_ZONE,
};

#[test]
fn companion_code_is_grouped_for_readability() {
    assert_eq!(display_pair_code("ABCD1234"), "ABCD  1234");
    assert_eq!(display_pair_code("ABCD 1234"), "ABCD  1234");
}

#[test]
fn short_codes_are_shown_as_they_are() {
    assert_eq!(display_pair_code("ABC"), "ABC");
    assert_eq!(display_pair_code(""), "");
}

#[test]
fn qr_payloads_become_a_square_matrix_with_a_quiet_zone() {
    let matrix = qr_matrix("2@ABCDEF,GHIJKL,MNOPQR,STUVWX").expect("encodable payload");
    let width = matrix.width();
    assert!(width >= 21);
    assert_eq!(matrix.total_modules(), width + 2 * QR_QUIET_ZONE);
    // Finder pattern corners are dark; the separator next to them is light.
    assert!(matrix.is_dark(0, 0));
    assert!(matrix.is_dark(width - 1, 0));
    assert!(matrix.is_dark(0, width - 1));
    assert!(!matrix.is_dark(7, 7));
}

#[test]
fn pairing_status_follows_the_request_and_the_session() {
    assert_eq!(countdown_secs(0), 1);
    assert_eq!(countdown_secs(59_999), 60);
    assert_eq!(pairing_status_line(true, Some(5), SessionState::Pairing), "Starting secure pairing…");
    assert_eq!(pairing_status_line(false, Some(42), SessionState::Pairing), "Code refreshes in 42s");
    assert_eq!(pairing_status_line(false, None, SessionState::Connecting), "Connecting to WhatsApp…");
    assert_eq!(pairing_status_line(false, None, SessionState::Failed), "Connection needs attention. Try again.");
    assert_eq!(pairing_status_line(false, None, SessionState::Pairing), "Waiting for QR…");
}

#[test]
fn pairing_buttons_wait_for_the_session() {
    assert_eq!(qr_pairing_action(true, SessionState::Pairing, false), PairingAction::Busy);
    assert_eq!(qr_pairing_action(false, SessionState::Connecting, false), PairingAction::Connecting);
    assert_eq!(qr_pairing_action(false, SessionState::Pairing, true), PairingAction::Start { retry: true });
    assert_eq!(phone_pairing_action(false, SessionState::Pairing, true, false), PairingAction::CodeReady);
    assert_eq!(phone_pairing_action(false, SessionState::Pairing, false, false), PairingAction::Start { retry: false });
}
