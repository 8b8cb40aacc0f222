use wasabi::group_admin::{
    plan_add_members, plan_create_group, GroupSubmit, ADD_NOT_ADMIN, ADD_UNCERTAIN, CREATE_OFFLINE,
    added_members_feedback, change_feedback, drop_request, reviewed_request, settle_group_change,
    GroupChange, PatchOutcome, LEAVE_UNCONFIRMED, PARTICIPANTS_NOT_APPLIED,
};
use wasabi::root::{ErrorKind, PendingMembershipRequest};
use wasabi::group_admin::{invite_link_view, join_requests_notice, InviteLinkView};

fn request(jid: &str) -> PendingMembershipRequest {
    PendingMembershipRequest { jid: jid.to_string(), display_name: jid.to_string() }
}

#[test]
fn added_member_counts_read_naturally() {
    assert_eq!(added_members_feedback(0, 2), "No members were added. The group list was refreshed.");
    assert_eq!(added_members_feedback(1, 0), "Added 1 member.");
    assert_eq!(added_members_feedback(3, 0), "Added 3 members.");
    assert_eq!(
        added_members_feedback(2, 1),
        "Added 2; 1 could not be added. The group list was refreshed."
    );
}

#[test]
fn participant_changes_confirm_and_settings_do_not() {
    assert_eq!(
        change_feedback(&GroupChange::PromoteParticipant("b".to_string())),
        Some("Participant is now a group admin.")
    );
    assert_eq!(
        change_feedback(&GroupChange::RejectMembershipRequest("b".to_string())),
        Some("Join request declined.")
    );
    assert_eq!(change_feedback(&GroupChange::Subject("Hikers".to_string())), None);
    assert_eq!(change_feedback(&GroupChange::Leave), None);
    assert_eq!(
        reviewed_request(&GroupChange::ApproveMembershipRequest("b".to_string())).as_deref(),
        Some("b")
    );
    assert_eq!(reviewed_request(&GroupChange::RemoveParticipant("b".to_string())), None);
}

#[test]
fn dropping_a_request_keeps_the_others_in_order() {
    let mut pending = vec![request("a"), request("b"), request("c"), request("b")];
    drop_request(&mut pending, "b");
    let left: Vec<_> = pending.iter().map(|r| r.jid.as_str()).collect();
    assert_eq!(left, vec!["a", "c"]);
}

#[test]
fn an_applied_review_leaves_the_pending_list() {
    let mut pending = vec![request("a"), request("b")];
    let change = GroupChange::ApproveMembershipRequest("b".to_string());
    let outcome = PatchOutcome { applied_participants: 1, rejected_participants: 0, has_details: true };
    let settled = settle_group_change(&change, Ok(outcome), "", &mut pending);
    assert_eq!(settled.feedback, Some("Join request approved."));
    assert_eq!(settled.error, None);
    assert!(!settled.close_panel);
    assert_eq!(pending.len(), 1);
    assert_eq!(pending[0].jid, "a");
}

#[test]
fn rejected_changes_and_failed_leaves_explain_themselves() {
    let mut pending = vec![request("b")];
    let change = GroupChange::ApproveMembershipRequest("b".to_string());
    let outcome = PatchOutcome { applied_participants: 0, rejected_participants: 1, has_details: true };
    let settled = settle_group_change(&change, Ok(outcome), "", &mut pending);
    assert_eq!(settled.error.as_deref(), Some(PARTICIPANTS_NOT_APPLIED));
    assert_eq!(settled.feedback, None);
    assert_eq!(pending.len(), 1);

    let left = PatchOutcome { applied_participants: 0, rejected_participants: 0, has_details: false };
    assert!(settle_group_change(&GroupChange::Leave, Ok(left), "", &mut pending).close_panel);

    let timeout = settle_group_change(&GroupChange::Leave, Err(ErrorKind::Timeout), "Timed out", &mut pending);
    assert!(timeout.leave_uncertain);
    assert_eq!(timeout.error.as_deref(), Some(LEAVE_UNCONFIRMED));

    let refused = settle_group_change(&GroupChange::Leave, Err(ErrorKind::Protocol), "Refused", &mut pending);
    assert!(!refused.leave_uncertain);
    assert_eq!(refused.error.as_deref(), Some("Refused"));
}

#[test]
fn group_requests_are_guarded_against_blind_retries() {
    assert!(matches!(plan_create_group(true, true, false, None, true), GroupSubmit::Idle));
    assert!(matches!(plan_create_group(false, true, true, None, true), GroupSubmit::Reject(ref m) if m.starts_with("Check Chats")));
    assert!(matches!(plan_create_group(false, true, false, Some("A group needs a name"), true), GroupSubmit::Reject(ref m) if m == "A group needs a name."));
    assert!(matches!(plan_create_group(false, true, false, None, false), GroupSubmit::Reject(ref m) if m == CREATE_OFFLINE));
    assert!(matches!(plan_create_group(false, true, false, None, true), GroupSubmit::Submit));

    assert!(matches!(plan_add_members(false, false, false, Some(true), true, None), GroupSubmit::Idle));
    assert!(matches!(plan_add_members(false, true, true, Some(true), true, None), GroupSubmit::Reject(ref m) if m == ADD_UNCERTAIN));
    assert!(matches!(plan_add_members(false, true, false, Some(false), true, None), GroupSubmit::Reject(ref m) if m == ADD_NOT_ADMIN));
    assert!(matches!(plan_add_members(false, true, false, None, true, None), GroupSubmit::Reject(_)));
    assert!(matches!(plan_add_members(false, true, false, Some(true), true, None), GroupSubmit::Submit));
}

#[test]
fn permission_rows_show_the_setting_and_flip_it_on_click() {
    let p = wasabi::group_admin::GroupPermissions { only_admins_edit: true, only_admins_send: false, membership_approval: true };
    let row = wasabi::group_admin::permission_row(wasabi::group_admin::GroupPermissionAction::EditInfo, p, true, false, false);
    assert_eq!((row.label, row.detail.as_str(), row.clickable), ("Edit group info", "Admins only", true));
    assert!(matches!(row.change, wasabi::group_admin::GroupChange::OnlyAdminsEdit(false)));
    let row = wasabi::group_admin::permission_row(wasabi::group_admin::GroupPermissionAction::SendMessages, p, false, false, false);
    assert_eq!((row.detail.as_str(), row.clickable), ("All participants · Admin required", false));
    assert!(matches!(row.change, wasabi::group_admin::GroupChange::OnlyAdminsSend(true)));
    let row = wasabi::group_admin::permission_row(wasabi::group_admin::GroupPermissionAction::ApproveMembers, p, true, true, false);
    assert_eq!((row.label, row.detail.as_str(), row.clickable), ("Approve new members", "Saving…", false));
    let row = wasabi::group_admin::permission_row(wasabi::group_admin::GroupPermissionAction::ApproveMembers, p, true, false, false);
    assert_eq!(row.detail, "On");
    let row = wasabi::group_admin::permission_row(wasabi::group_admin::GroupPermissionAction::ApproveMembers, p, true, true, true);
    assert_eq!(row.detail, "Refresh required");
}

#[test]
fn participant_rows_badges_and_add_member_row() {
    assert_eq!(wasabi::group_admin::role_badge(wasabi::root::ParticipantRole::Member), None);
    assert_eq!(wasabi::group_admin::role_badge(wasabi::root::ParticipantRole::Admin), Some("admin"));
    assert_eq!(wasabi::group_admin::role_badge(wasabi::root::ParticipantRole::SuperAdmin), Some("creator"));
    assert!(wasabi::group_admin::participant_actionable(true, false, false, wasabi::root::ParticipantRole::Admin));
    assert!(!wasabi::group_admin::participant_actionable(true, false, true, wasabi::root::ParticipantRole::Member));
    assert!(!wasabi::group_admin::participant_actionable(true, false, false, wasabi::root::ParticipantRole::SuperAdmin));
    assert!(!wasabi::group_admin::participant_actionable(false, false, false, wasabi::root::ParticipantRole::Member));
    assert!(!wasabi::group_admin::participant_actionable(true, true, false, wasabi::root::ParticipantRole::Member));
    assert_eq!(wasabi::group_admin::add_members_row(true, true), ("Working…", false));
    assert_eq!(wasabi::group_admin::add_members_row(false, true), ("Refresh group info", false));
    assert_eq!(wasabi::group_admin::add_members_row(false, false), ("Add members", true));
    assert_eq!(wasabi::group_admin::group_text_detail("Trip", true, false), "Trip");
    assert_eq!(wasabi::group_admin::group_text_detail("Trip", false, false), "Trip · Admin required");
    assert_eq!(wasabi::group_admin::group_text_detail("Trip", true, true), "Refresh required");
}

#[test]
fn invite_link_and_join_request_sections_explain_missing_data() {
    assert!(matches!(invite_link_view(false, true, Some("u"), None, false, false, false), InviteLinkView::Notice(t) if t == "Connect to load the invite link"));
    assert!(matches!(invite_link_view(true, true, None, None, false, false, false), InviteLinkView::Notice(t) if t == "Loading invite link…"));
    assert!(matches!(invite_link_view(true, false, Some(""), None, false, false, false), InviteLinkView::Notice(t) if t == "Invite link is unavailable"));
    assert!(matches!(invite_link_view(true, false, None, Some("Not an admin"), false, false, false), InviteLinkView::Notice(t) if t == "Not an admin"));
    match invite_link_view(true, false, Some("https://chat.whatsapp.com/x"), Some("reset failed"), true, false, false) {
        InviteLinkView::Link { url, reset_label, reset_blocked, error } => {
            assert_eq!(url, "https://chat.whatsapp.com/x");
            assert_eq!((reset_label, reset_blocked), ("Resetting…", true));
            assert_eq!(error.as_deref(), Some("reset failed"));
        }
        _ => panic!("a link is shown"),
    }
    match invite_link_view(true, false, Some("l"), None, false, false, false) {
        InviteLinkView::Link { reset_label, reset_blocked, .. } => assert_eq!((reset_label, reset_blocked), ("Reset…", false)),
        _ => panic!("a link is shown"),
    }
    assert_eq!(join_requests_notice(false, false, None, 3).as_deref(), Some("Connect to review join requests"));
    assert_eq!(join_requests_notice(true, true, None, 3).as_deref(), Some("Loading join requests…"));
    assert_eq!(join_requests_notice(true, false, Some("denied"), 3).as_deref(), Some("denied"));
    assert_eq!(join_requests_notice(true, false, None, 0).as_deref(), Some("No pending join requests"));
    assert_eq!(join_requests_notice(true, false, None, 2), None);
}

#[test]
fn confirmed_member_actions_are_checked_again() {
    use_member_change();
}

fn use_member_change() {
    let promote = wasabi::root::GroupMemberActionKind::Promote;
    let remove = wasabi::root::GroupMemberActionKind::Remove;
    let demote = wasabi::root::GroupMemberActionKind::Demote;
    let member = wasabi::root::ParticipantRole::Member;
    let admin = wasabi::root::ParticipantRole::Admin;
    assert!(matches!(wasabi::group_admin::member_action_change(promote, "p@s", member, true), Ok(GroupChange::PromoteParticipant(p)) if p == "p@s"));
    assert!(matches!(wasabi::group_admin::member_action_change(demote, "p@s", admin, true), Ok(GroupChange::DemoteParticipant(p)) if p == "p@s"));
    assert!(matches!(wasabi::group_admin::member_action_change(remove, "p@s", admin, true), Ok(GroupChange::RemoveParticipant(_))));
    assert_eq!(wasabi::group_admin::member_action_change(promote, "p@s", admin, true).err(), Some(wasabi::group_admin::MEMBER_NO_LONGER_MANAGEABLE));
    assert_eq!(wasabi::group_admin::member_action_change(remove, "p@s", member, false).err(), Some("This participant can no longer be managed from the current group state."));
}
