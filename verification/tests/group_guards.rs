use wasabi::root::{
    group_leave_target_is_current, group_member_target_is_actionable,
    join_request_target_is_current, GroupDetails, GroupLeaveTarget, GroupMemberTarget,
    GroupParticipant, JoinRequestTarget, ParticipantRole, PendingMembershipRequest,
};

fn participant(jid: &str, name: &str, role: ParticipantRole, is_self: bool) -> GroupParticipant {
    GroupParticipant {
        jid: jid.to_string(),
        display_name: name.to_string(),
        role,
        is_self,
    }
}

fn details() -> GroupDetails {
    GroupDetails {
        chat: "crew@g.us".to_string(),
        subject: "Weekend hiking crew".to_string(),
        can_manage_members: true,
        current_user_role: Some(ParticipantRole::Admin),
        participants: vec![
            participant("me@s.whatsapp.net", "You", ParticipantRole::Admin, true),
            participant("avery@s.whatsapp.net", "Avery Chen", ParticipantRole::Member, false),
            participant("owner@s.whatsapp.net", "Owner", ParticipantRole::SuperAdmin, false),
        ],
    }
}

fn member_target(participant: &str, name: &str, role: ParticipantRole) -> GroupMemberTarget {
    GroupMemberTarget {
        chat: "crew@g.us".to_string(),
        group_name: "Weekend hiking crew".to_string(),
        participant: participant.to_string(),
        participant_name: name.to_string(),
        participant_role: role,
    }
}

#[test]
fn member_actions_need_the_same_group_and_an_unchanged_participant() {
    let d = details();
    let avery = member_target("avery@s.whatsapp.net", "Avery Chen", ParticipantRole::Member);
    assert!(group_member_target_is_actionable(Some(&d), Some("crew@g.us"), false, &avery));
    assert!(!group_member_target_is_actionable(Some(&d), Some("other@g.us"), false, &avery));
    assert!(!group_member_target_is_actionable(Some(&d), Some("crew@g.us"), true, &avery));
    assert!(!group_member_target_is_actionable(None, Some("crew@g.us"), false, &avery));
    let promoted = member_target("avery@s.whatsapp.net", "Avery Chen", ParticipantRole::Admin);
    assert!(!group_member_target_is_actionable(Some(&d), Some("crew@g.us"), false, &promoted));
    let owner = member_target("owner@s.whatsapp.net", "Owner", ParticipantRole::SuperAdmin);
    assert!(!group_member_target_is_actionable(Some(&d), Some("crew@g.us"), false, &owner));
    let me = member_target("me@s.whatsapp.net", "You", ParticipantRole::Admin);
    assert!(!group_member_target_is_actionable(Some(&d), Some("crew@g.us"), false, &me));
}

#[test]
fn leaving_needs_the_same_group_while_still_a_member() {
    let d = details();
    let target = GroupLeaveTarget {
        chat: "crew@g.us".to_string(),
        group_name: "Weekend hiking crew".to_string(),
    };
    assert!(group_leave_target_is_current(Some(&d), Some("crew@g.us"), &target));
    let renamed = GroupLeaveTarget {
        chat: "crew@g.us".to_string(),
        group_name: "Old name".to_string(),
    };
    assert!(!group_leave_target_is_current(Some(&d), Some("crew@g.us"), &renamed));
    let mut left = details();
    left.current_user_role = None;
    assert!(!group_leave_target_is_current(Some(&left), Some("crew@g.us"), &target));
}

#[test]
fn join_reviews_need_the_request_still_pending() {
    let d = details();
    let requests = vec![PendingMembershipRequest {
        jid: "sam@s.whatsapp.net".to_string(),
        display_name: "Sam".to_string(),
    }];
    let target = JoinRequestTarget {
        chat: "crew@g.us".to_string(),
        group_name: "Weekend hiking crew".to_string(),
        participant: "sam@s.whatsapp.net".to_string(),
        participant_name: "Sam".to_string(),
    };
    assert!(join_request_target_is_current(Some(&d), Some("crew@g.us"), true, false, &requests, &target));
    assert!(!join_request_target_is_current(Some(&d), Some("crew@g.us"), false, false, &requests, &target));
    assert!(!join_request_target_is_current(Some(&d), Some("crew@g.us"), true, false, &[], &target));
}
