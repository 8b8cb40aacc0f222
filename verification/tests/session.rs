use wasabi::model::ContactSummary;
use wasabi::pairing::SessionState;
use wasabi::root::ErrorKind;
use wasabi::session::{
    lookup_result, plan_phone_lookup, LookupAnswer, LookupPlan, MembershipRefresh, PendingWork,
    PhoneLookup, SessionMirror, Tick, ADD_MEMBERS_CONNECTION_LOST, CREATE_GROUP_CONNECTION_LOST,
    LOOKUP_CONNECTION_LOST, LOOKUP_OFFLINE, PHONE_CODE_EXPIRED,
};

fn mirror(state: SessionState) -> SessionMirror {
    SessionMirror {
        state,
        connected_once: false,
        qr_code: Some("2@code".to_string()),
        qr_deadline_ms: Some(60_000),
        pairing_requesting: true,
        pairing_error: Some("failed".to_string()),
        use_phone_pairing: false,
        phone_pair_code: Some("ABCD1234".to_string()),
        phone_pair_deadline_ms: Some(90_000),
        phone_pair_requesting: true,
        phone_pair_error: None,
    }
}

fn work(adding_members: bool) -> PendingWork {
    PendingWork {
        phone_lookup: PhoneLookup::Checking,
        group_creating: true,
        group_creation_uncertain: false,
        group_creation_error: None,
        adding_members,
    }
}

#[test]
fn connecting_clears_pairing_codes_and_loads_join_requests() {
    let mut session = mirror(SessionState::Pairing);
    let mut pending = work(false);
    let effects = session.apply_state(&mut pending, SessionState::Connected, true);
    assert!(session.connected_once);
    assert_eq!(session.phone_pair_code, None);
    assert!(!session.phone_pair_requesting);
    assert_eq!(session.qr_code, None);
    assert!(!session.pairing_requesting);
    assert!(effects.cancel_phone_pairing && effects.stop_qr_ticker && effects.cancel_pairing_request);
    assert!(!effects.clear_typing);
    assert_eq!(effects.membership, MembershipRefresh::Load);
    assert!(pending.group_creating, "a connected session keeps its group request");
}

#[test]
fn losing_the_connection_fails_lookups_and_marks_group_requests_uncertain() {
    let mut session = mirror(SessionState::Connected);
    session.qr_deadline_ms = None;
    let mut pending = work(true);
    let effects = session.apply_state(&mut pending, SessionState::Disconnected, true);
    assert!(effects.clear_typing);
    assert!(effects.cancel_phone_lookup);
    assert!(matches!(&pending.phone_lookup, PhoneLookup::Failed(m) if m == LOOKUP_CONNECTION_LOST));
    assert!(effects.cancel_group_creation);
    assert!(!pending.group_creating);
    assert!(pending.group_creation_uncertain);
    assert_eq!(pending.group_creation_error.as_deref(), Some(ADD_MEMBERS_CONNECTION_LOST));
    assert_eq!(effects.membership, MembershipRefresh::Reset);
    assert_eq!(session.phone_pair_code.as_deref(), Some("ABCD1234"));
    assert!(!effects.stop_qr_ticker);

    let mut creating = work(false);
    session.apply_state(&mut creating, SessionState::Failed, false);
    assert_eq!(creating.group_creation_error.as_deref(), Some(CREATE_GROUP_CONNECTION_LOST));
}

#[test]
fn staying_in_pairing_keeps_the_qr_code() {
    let mut session = mirror(SessionState::Pairing);
    let mut pending = work(false);
    let effects = session.apply_state(&mut pending, SessionState::Pairing, false);
    assert!(!effects.stop_qr_ticker);
    assert_eq!(session.qr_code.as_deref(), Some("2@code"));
    assert!(session.pairing_requesting);
    assert_eq!(effects.membership, MembershipRefresh::Reset);
}

#[test]
fn a_new_qr_code_ends_the_request_and_a_lapsed_one_is_replaced() {
    let mut session = mirror(SessionState::Pairing);
    let shown = session.apply_qr(Some(("2@fresh".to_string(), 120_000)));
    assert!(shown.start_countdown && !shown.stop_ticker && !shown.restart_pairing);
    assert_eq!(session.qr_code.as_deref(), Some("2@fresh"));
    assert_eq!(session.qr_deadline_ms, Some(120_000));
    assert!(!session.pairing_requesting);
    assert_eq!(session.pairing_error, None);

    let lapsed = session.apply_qr(None);
    assert!(lapsed.stop_ticker && lapsed.restart_pairing);
    assert_eq!(session.qr_code, None);

    let again = session.apply_qr(None);
    assert!(!again.restart_pairing, "nothing was shown any more");
}

#[test]
fn a_lapsed_code_is_not_replaced_while_pairing_by_phone() {
    let mut session = mirror(SessionState::Pairing);
    session.pairing_requesting = false;
    session.use_phone_pairing = true;
    assert!(!session.apply_qr(None).restart_pairing);
}

#[test]
fn only_complete_numbers_are_checked_and_only_online() {
    assert!(matches!(plan_phone_lookup("Avery", true), LookupPlan::Skip));
    assert!(matches!(plan_phone_lookup("+1 555 123 4567", true), LookupPlan::Check(ref d) if d == "15551234567"));
    assert!(matches!(plan_phone_lookup("1234567", false), LookupPlan::Fail(m) if m == LOOKUP_OFFLINE));
}

#[test]
fn lookup_failures_explain_what_to_do() {
    let contact = ContactSummary {
        jid: "15551234567@s.whatsapp.net".to_string(),
        display_name: "Avery".to_string(),
        phone_number: Some("15551234567".to_string()),
    };
    assert!(matches!(lookup_result(Ok(LookupAnswer::Registered(contact))), PhoneLookup::Registered(ref c) if c.display_name == "Avery"));
    assert!(matches!(lookup_result(Ok(LookupAnswer::NotRegistered)), PhoneLookup::NotRegistered));
    assert!(matches!(lookup_result(Err(ErrorKind::Timeout)), PhoneLookup::Failed(ref m) if m == "The check timed out. Try again."));
    assert!(matches!(lookup_result(Err(ErrorKind::Storage)), PhoneLookup::Failed(ref m) if m == "Couldn’t check this number. Try again."));
}

#[test]
fn lapsed_codes_are_withdrawn_and_renewed_only_for_qr_pairing() {
    let mut session = mirror(SessionState::Pairing);
    assert_eq!(session.qr_tick(59_999), Tick::Continue);
    assert_eq!(session.qr_tick(60_000), Tick::Expired { renew: true, cancel: false });
    assert_eq!(session.qr_code, None);
    assert_eq!(session.qr_tick(60_001), Tick::Stop);

    let mut by_phone = mirror(SessionState::Pairing);
    by_phone.use_phone_pairing = true;
    assert_eq!(by_phone.qr_tick(70_000), Tick::Expired { renew: false, cancel: false });

    assert_eq!(session.phone_code_tick(1_000), Tick::Continue);
    assert_eq!(session.phone_code_tick(90_000), Tick::Expired { renew: false, cancel: true });
    assert_eq!(session.phone_pair_code, None);
    assert_eq!(session.phone_pair_error.as_deref(), Some(PHONE_CODE_EXPIRED));
    assert_eq!(session.phone_code_tick(90_001), Tick::Stop);
}

#[test]
fn phone_pairing_requests_wait_for_a_valid_number_and_the_last_answer() {
    let mut session = mirror(SessionState::Pairing);
    assert!(!session.begin_phone_pairing(true, None), "a request is already running");
    session.phone_pair_requesting = false;
    assert!(!session.begin_phone_pairing(true, Some("Enter the full number")));
    assert_eq!(session.phone_pair_error.as_deref(), Some("Enter the full number"));
    assert!(!session.begin_phone_pairing(false, None));
    assert!(session.begin_phone_pairing(true, None));
    assert!(session.phone_pair_requesting);
    assert_eq!(session.phone_pair_code, None);
    assert_eq!(session.phone_pair_error, None);

    assert!(session.phone_pairing_answered(Ok(("WXYZ7890".to_string(), 160_000))));
    assert!(!session.phone_pair_requesting);
    assert_eq!(session.phone_pair_code.as_deref(), Some("WXYZ7890"));
    assert_eq!(session.phone_pair_deadline_ms, Some(160_000));

    assert!(session.begin_phone_pairing(true, None));
    assert!(!session.phone_pairing_answered(Err("Rate limited".to_string())));
    assert_eq!(session.phone_pair_error.as_deref(), Some("Rate limited"));
}

#[test]
fn qr_pairing_requests_once_and_reports_only_unanswered_failures() {
    let idle = |state: SessionState| {
        let mut m = mirror(state);
        m.pairing_requesting = false;
        m.qr_code = None;
        m.qr_deadline_ms = None;
        m
    };
    let mut m = idle(SessionState::Pairing);
    m.pairing_error = Some("old".to_string());
    assert!(!m.begin_qr_pairing(false));
    assert_eq!(m.pairing_error.as_deref(), Some("old"));
    assert!(m.begin_qr_pairing(true));
    assert!(m.pairing_requesting && m.pairing_error.is_none() && m.qr_code.is_none());
    assert!(!m.begin_qr_pairing(true));
    m.qr_pairing_answered(Err("no network".to_string()));
    assert!(!m.pairing_requesting);
    assert_eq!(m.pairing_error.as_deref(), Some("no network"));

    let mut m = idle(SessionState::Connecting);
    assert!(m.begin_qr_pairing(true));
    m.qr_pairing_answered(Err("late".to_string()));
    assert!(m.pairing_error.is_none());
    let mut m = idle(SessionState::Pairing);
    assert!(m.begin_qr_pairing(true));
    m.qr_code = Some("2@abc".to_string());
    m.qr_pairing_answered(Err("late".to_string()));
    assert!(m.pairing_error.is_none());
}

#[test]
fn going_back_to_the_qr_code_drops_the_phone_code() {
    let mut m = mirror(SessionState::Pairing);
    m.use_phone_pairing = true;
    m.phone_pair_code = Some("ABCD1234".to_string());
    m.phone_pair_deadline_ms = Some(9);
    m.phone_pair_requesting = true;
    m.phone_pair_error = Some("x".to_string());
    m.show_qr_pairing();
    assert!(!m.use_phone_pairing && m.phone_pair_code.is_none() && m.phone_pair_deadline_ms.is_none());
    assert!(!m.phone_pair_requesting && m.phone_pair_error.is_none());
}
