//! Group administration results: the feedback a finished change shows, and
//! how the open group's pending join requests follow a reviewed request.

use vstd::prelude::*;
use crate::root::{action_fits_role, group_member_action_matches_role, ErrorKind, GroupMemberActionKind, ParticipantRole, PendingMembershipRequest};
use crate::chat_state::{str_view, string_view};
use crate::text;
use vstd::string::StrSliceExecFns;

verus! {

/// A change to a group's settings or membership.
#[derive(Debug)]
pub enum GroupChange {
    Subject(String),
    Description(Option<String>),
    AddParticipants(Vec<String>),
    PromoteParticipant(String),
    DemoteParticipant(String),
    RemoveParticipant(String),
    ApproveMembershipRequest(String),
    RejectMembershipRequest(String),
    OnlyAdminsEdit(bool),
    OnlyAdminsSend(bool),
    MembershipApproval(bool),
    Leave,
}

/// The confirmation a change shows once applied; settings changes show
/// none.
pub open spec fn success_feedback(change: GroupChange) -> Option<Seq<char>> {
    match change {
        GroupChange::PromoteParticipant(_) => Some("Participant is now a group admin."@),
        GroupChange::DemoteParticipant(_) => Some("Participant is no longer a group admin."@),
        GroupChange::RemoveParticipant(_) => Some("Participant was removed from the group."@),
        GroupChange::ApproveMembershipRequest(_) => Some("Join request approved."@),
        GroupChange::RejectMembershipRequest(_) => Some("Join request declined."@),
        _ => None,
    }
}

/// The confirmation a change shows once applied.
pub fn change_feedback(change: &GroupChange) -> (r: Option<&'static str>)
    ensures
        match r {
            Some(s) => success_feedback(*change) == Some(s@),
            None => success_feedback(*change) is None,
        },
{
    match change {
        GroupChange::PromoteParticipant(_) => Some("Participant is now a group admin."),
        GroupChange::DemoteParticipant(_) => Some("Participant is no longer a group admin."),
        GroupChange::RemoveParticipant(_) => Some("Participant was removed from the group."),
        GroupChange::ApproveMembershipRequest(_) => Some("Join request approved."),
        GroupChange::RejectMembershipRequest(_) => Some("Join request declined."),
        _ => None,
    }
}

/// The message shown after adding members: how many were added, and how
/// many could not be.
pub open spec fn added_members_copy(applied: nat, rejected: nat) -> Seq<char> {
    if applied == 0 {
        "No members were added. The group list was refreshed."@
    } else if rejected == 0 {
        "Added "@ + text::decimal(applied) + (if applied == 1 {
            " member."@
        } else {
            " members."@
        })
    } else {
        "Added "@ + text::decimal(applied) + "; "@ + text::decimal(rejected)
            + " could not be added. The group list was refreshed."@
    }
}

/// The message shown after adding members.
pub fn added_members_feedback(applied: u64, rejected: u64) -> (r: String)
    ensures
        r@ == added_members_copy(applied as nat, rejected as nat),
{
    if applied == 0 {
        return String::from_str("No members were added. The group list was refreshed.");
    }
    let mut s = String::from_str("Added ");
    text::push_decimal(&mut s, applied as u128);
    if rejected == 0 {
        if applied == 1 {
            text::push_str(&mut s, " member.");
        } else {
            text::push_str(&mut s, " members.");
        }
    } else {
        text::push_str(&mut s, "; ");
        text::push_decimal(&mut s, rejected as u128);
        text::push_str(&mut s, " could not be added. The group list was refreshed.");
    }
    s
}

/// The join request a change reviews, if it is a review.
pub fn reviewed_request(change: &GroupChange) -> (r: Option<String>)
    ensures
        match *change {
            GroupChange::ApproveMembershipRequest(j) => r matches Some(s) && s@ == j@,
            GroupChange::RejectMembershipRequest(j) => r matches Some(s) && s@ == j@,
            _ => r is None,
        },
{
    match change {
        GroupChange::ApproveMembershipRequest(j) => Some(j.clone()),
        GroupChange::RejectMembershipRequest(j) => Some(j.clone()),
        _ => None,
    }
}

/// The pending requests other than `jid`'s, in order.
pub open spec fn without_request(
    requests: Seq<PendingMembershipRequest>,
    jid: Seq<char>,
) -> Seq<PendingMembershipRequest>
    decreases requests.len(),
{
    if requests.len() == 0 {
        seq![]
    } else {
        let p = without_request(requests.drop_last(), jid);
        if requests.last().jid@ == jid {
            p
        } else {
            p.push(requests.last())
        }
    }
}

/// Drops `jid`'s join request from the pending list.
pub fn drop_request(requests: &mut Vec<PendingMembershipRequest>, jid: &str)
    ensures
        final(requests)@ == without_request(old(requests)@, jid@),
{
    let mut rest: Vec<PendingMembershipRequest> = Vec::new();
    std::mem::swap(requests, &mut rest);
    let ghost all = rest@;
    let ghost mut k: int = 0;
    while rest.len() > 0
        invariant
            0 <= k <= all.len(),
            rest@ == all.skip(k),
            requests@ == without_request(all.take(k), jid@),
        decreases rest@.len(),
    {
        let r = rest.remove(0);
        proof {
            assert(all.take(k + 1).drop_last() == all.take(k));
            assert(all.take(k + 1).last() == r);
            assert(rest@ == all.skip(k + 1));
            k = k + 1;
        }
        if !text::same_text(r.jid.as_str(), jid) {
            requests.push(r);
        }
    }
    assert(all.take(all.len() as int) == all);
}

/// How the window settles once the session answered a group change.
#[derive(Debug)]
pub struct MutationSettlement {
    /// The error to show, if any.
    pub error: Option<String>,
    /// The confirmation to show, if any.
    pub feedback: Option<&'static str>,
    /// A leave whose outcome is unknown: block further changes.
    pub leave_uncertain: bool,
    /// The group's details are gone (the user left it): close the panel.
    pub close_panel: bool,
}

/// Shown when some participant changes were not applied.
pub const PARTICIPANTS_NOT_APPLIED: &'static str =
    "The linked account did not apply this participant change. The group list was refreshed.";

/// Shown when a leave request ended without a confirmed outcome.
pub const LEAVE_UNCONFIRMED: &'static str =
    "The leave result could not be confirmed. Reconnect and reopen group info before trying again.";

/// Whether a failed leave may still have happened: the request timed out
/// or the connection dropped after it was sent.
pub open spec fn leave_outcome_uncertain(kind: ErrorKind) -> bool {
    kind == ErrorKind::Timeout || kind == ErrorKind::NotConnected
}

/// The outcome of a group change: how many participant changes applied and
/// were rejected, and whether the group's details came back.
#[derive(Clone, Copy, Debug, PartialEq, Eq, Structural)]
pub struct PatchOutcome {
    pub applied_participants: u64,
    pub rejected_participants: u64,
    pub has_details: bool,
}

/// Settles a group change the user still looks at: on success, the
/// confirmation (or the rejection notice), the reviewed request leaves the
/// pending list when applied, and the panel closes when the details are
/// gone; on failure, `error_message` is shown, except for a leave whose
/// outcome is uncertain.
pub fn settle_group_change(
    change: &GroupChange,
    outcome: Result<PatchOutcome, ErrorKind>,
    error_message: &str,
    requests: &mut Vec<PendingMembershipRequest>,
) -> (s: MutationSettlement)
    ensures
        match outcome {
            Ok(o) => {
                &&& (o.rejected_participants > 0 ==> (s.error matches Some(e) && e@
                    == PARTICIPANTS_NOT_APPLIED@))
                &&& (o.rejected_participants > 0 ==> s.feedback is None)
                &&& (o.rejected_participants == 0 ==> s.error is None)
                &&& (o.rejected_participants == 0 ==> match s.feedback {
                    Some(f) => success_feedback(*change) == Some(f@),
                    None => success_feedback(*change) is None,
                })
                &&& !s.leave_uncertain
                &&& s.close_panel == !o.has_details
                &&& final(requests)@ == match *change {
                    GroupChange::ApproveMembershipRequest(j) => if o.applied_participants > 0 {
                        without_request(old(requests)@, j@)
                    } else {
                        old(requests)@
                    },
                    GroupChange::RejectMembershipRequest(j) => if o.applied_participants > 0 {
                        without_request(old(requests)@, j@)
                    } else {
                        old(requests)@
                    },
                    _ => old(requests)@,
                }
            },
            Err(kind) => {
                &&& s.leave_uncertain == (*change is Leave && leave_outcome_uncertain(kind))
                &&& s.leave_uncertain ==> (s.error matches Some(e) && e@ == LEAVE_UNCONFIRMED@)
                &&& !s.leave_uncertain ==> (s.error matches Some(e) && e@ == error_message@)
                &&& s.feedback is None
                &&& !s.close_panel
                &&& final(requests)@ == old(requests)@
            },
        },
{
    match outcome {
        Ok(o) => {
            let (error, feedback) = if o.rejected_participants > 0 {
                (Some(String::from_str(PARTICIPANTS_NOT_APPLIED)), None)
            } else {
                (None, change_feedback(change))
            };
            if o.applied_participants > 0 {
                if let Some(jid) = reviewed_request(change) {
                    drop_request(requests, jid.as_str());
                }
            }
            MutationSettlement { error, feedback, leave_uncertain: false, close_panel: !o.has_details }
        },
        Err(kind) => {
            let uncertain = matches!(change, GroupChange::Leave) && (kind == ErrorKind::Timeout
                || kind == ErrorKind::NotConnected);
            let error = if uncertain {
                String::from_str(LEAVE_UNCONFIRMED)
            } else {
                error_message.to_owned()
            };
            MutationSettlement { error: Some(error), feedback: None, leave_uncertain: uncertain, close_panel: false }
        },
    }
}

/// What submitting a new group or new members does.
#[derive(Debug)]
pub enum GroupSubmit {
    /// A request is already running, or another step is shown.
    Idle,
    /// Refuse with this explanation.
    Reject(String),
    /// Send the request.
    Submit,
}

/// Shown when a group creation of unknown outcome would be repeated.
pub const CREATE_UNCERTAIN: &'static str =
    "Check Chats for the group, or change its name before creating again.";

/// Shown when creating a group offline.
pub const CREATE_OFFLINE: &'static str = "Reconnect before creating this group.";

/// Shown when adding members of unknown outcome would be repeated.
pub const ADD_UNCERTAIN: &'static str =
    "Refresh the group before retrying so the same people are not added twice.";

/// Shown when the group's details went away.
pub const ADD_NO_DETAILS: &'static str = "Group information is no longer available.";

/// Shown when a non-admin adds members.
pub const ADD_NOT_ADMIN: &'static str = "Only group admins can add members.";

/// Shown when adding members offline.
pub const ADD_OFFLINE: &'static str = "Reconnect before adding group members.";

/// A refusal of the request's own validation, as a sentence.
pub open spec fn as_sentence(reason: Seq<char>) -> Seq<char> {
    reason + "."@
}

fn sentence(reason: &str) -> (r: String)
    ensures
        r@ == as_sentence(reason@),
{
    let mut s = reason.to_owned();
    text::push_str(&mut s, ".");
    s
}

/// Submitting the new group's name: refused while an earlier attempt's
/// outcome is unknown, when the request is invalid (`invalid` holds the
/// reason), or offline.
pub fn plan_create_group(
    creating: bool,
    on_subject_step: bool,
    uncertain: bool,
    invalid: Option<&str>,
    connected: bool,
) -> (p: GroupSubmit)
    ensures
        creating || !on_subject_step ==> p is Idle,
        !(creating || !on_subject_step) ==> {
            if uncertain {
                p matches GroupSubmit::Reject(m) && m@ == CREATE_UNCERTAIN@
            } else if invalid is Some {
                p matches GroupSubmit::Reject(m) && m@ == as_sentence(invalid->0@)
            } else if !connected {
                p matches GroupSubmit::Reject(m) && m@ == CREATE_OFFLINE@
            } else {
                p is Submit
            }
        },
{
    if creating || !on_subject_step {
        return GroupSubmit::Idle;
    }
    if uncertain {
        return GroupSubmit::Reject(String::from_str(CREATE_UNCERTAIN));
    }
    if let Some(reason) = invalid {
        return GroupSubmit::Reject(sentence(reason));
    }
    if !connected {
        return GroupSubmit::Reject(String::from_str(CREATE_OFFLINE));
    }
    GroupSubmit::Submit
}

/// Submitting members to add to the open group: refused while an earlier
/// attempt's outcome is unknown, without the group's details
/// (`can_manage` is `None`), for non-admins, offline, or when the request
/// is invalid.
pub fn plan_add_members(
    creating: bool,
    on_add_step: bool,
    uncertain: bool,
    can_manage: Option<bool>,
    connected: bool,
    invalid: Option<&str>,
) -> (p: GroupSubmit)
    ensures
        creating || !on_add_step ==> p is Idle,
        !(creating || !on_add_step) ==> {
            if uncertain {
                p matches GroupSubmit::Reject(m) && m@ == ADD_UNCERTAIN@
            } else if can_manage is None {
                p matches GroupSubmit::Reject(m) && m@ == ADD_NO_DETAILS@
            } else if can_manage == Some(false) {
                p matches GroupSubmit::Reject(m) && m@ == ADD_NOT_ADMIN@
            } else if !connected {
                p matches GroupSubmit::Reject(m) && m@ == ADD_OFFLINE@
            } else if invalid is Some {
                p matches GroupSubmit::Reject(m) && m@ == as_sentence(invalid->0@)
            } else {
                p is Submit
            }
        },
{
    if creating || !on_add_step {
        return GroupSubmit::Idle;
    }
    if uncertain {
        return GroupSubmit::Reject(String::from_str(ADD_UNCERTAIN));
    }
    match can_manage {
        None => {
            return GroupSubmit::Reject(String::from_str(ADD_NO_DETAILS));
        },
        Some(false) => {
            return GroupSubmit::Reject(String::from_str(ADD_NOT_ADMIN));
        },
        Some(true) => {},
    }
    if !connected {
        return GroupSubmit::Reject(String::from_str(ADD_OFFLINE));
    }
    if let Some(reason) = invalid {
        return GroupSubmit::Reject(sentence(reason));
    }
    GroupSubmit::Submit
}

/// A group setting offered in the permissions section.
#[derive(Clone, Copy, PartialEq, Eq, Structural)]
pub enum GroupPermissionAction {
    EditInfo,
    SendMessages,
    ApproveMembers,
}

/// The group's permission settings.
#[derive(Clone, Copy)]
pub struct GroupPermissions {
    pub only_admins_edit: bool,
    pub only_admins_send: bool,
    pub membership_approval: bool,
}

/// A row of the permissions section.
pub struct PermissionRow {
    pub label: &'static str,
    pub detail: String,
    /// Clicking applies `change`.
    pub clickable: bool,
    pub change: GroupChange,
}

/// The value shown for a setting that is `enabled`.
pub open spec fn permission_value(action: GroupPermissionAction, enabled: bool) -> Seq<char> {
    match action {
        GroupPermissionAction::ApproveMembers => if enabled {
            "On"@
        } else {
            "Off"@
        },
        _ => if enabled {
            "Admins only"@
        } else {
            "All participants"@
        },
    }
}

/// Whether setting `action` is on.
pub open spec fn permission_enabled(action: GroupPermissionAction, p: GroupPermissions) -> bool {
    match action {
        GroupPermissionAction::EditInfo => p.only_admins_edit,
        GroupPermissionAction::SendMessages => p.only_admins_send,
        GroupPermissionAction::ApproveMembers => p.membership_approval,
    }
}

/// Each permissions row shows its own setting and no other: edit info reads
/// "Admins only" exactly when only admins may edit, send messages exactly
/// when only admins may send, and approve new members reads "On" exactly
/// when membership approval is on ("Off" otherwise), whatever the other two
/// settings are.
pub proof fn law_each_permission_row_shows_its_own_setting(p: GroupPermissions)
    ensures
        permission_value(
            GroupPermissionAction::EditInfo,
            permission_enabled(GroupPermissionAction::EditInfo, p),
        ) == (if p.only_admins_edit { "Admins only"@ } else { "All participants"@ }),
        permission_value(
            GroupPermissionAction::SendMessages,
            permission_enabled(GroupPermissionAction::SendMessages, p),
        ) == (if p.only_admins_send { "Admins only"@ } else { "All participants"@ }),
        permission_value(
            GroupPermissionAction::ApproveMembers,
            permission_enabled(GroupPermissionAction::ApproveMembers, p),
        ) == (if p.membership_approval { "On"@ } else { "Off"@ }),
{
}

/// A permissions row: its label, the setting's value (or that a refresh is
/// required, or that it is saving, or that an admin is required), whether
/// clicking is offered, and the change a click applies (the setting
/// flipped).
pub fn permission_row(
    action: GroupPermissionAction,
    permissions: GroupPermissions,
    can_manage_members: bool,
    pending: bool,
    leave_uncertain: bool,
) -> (r: PermissionRow)
    ensures
        r.label@ == match action {
            GroupPermissionAction::EditInfo => "Edit group info"@,
            GroupPermissionAction::SendMessages => "Send messages"@,
            GroupPermissionAction::ApproveMembers => "Approve new members"@,
        },
        r.detail@ == (if leave_uncertain {
            "Refresh required"@
        } else if pending {
            "Saving…"@
        } else if can_manage_members {
            permission_value(action, permission_enabled(action, permissions))
        } else {
            permission_value(action, permission_enabled(action, permissions)) + " · Admin required"@
        }),
        r.clickable == (can_manage_members && !pending && !leave_uncertain),
        r.change == match action {
            GroupPermissionAction::EditInfo => GroupChange::OnlyAdminsEdit(!permissions.only_admins_edit),
            GroupPermissionAction::SendMessages => GroupChange::OnlyAdminsSend(
                !permissions.only_admins_send,
            ),
            GroupPermissionAction::ApproveMembers => GroupChange::MembershipApproval(
                !permissions.membership_approval,
            ),
        },
{
    let (label, enabled, change): (&'static str, bool, GroupChange) = match action {
        GroupPermissionAction::EditInfo => (
            "Edit group info",
            permissions.only_admins_edit,
            GroupChange::OnlyAdminsEdit(!permissions.only_admins_edit),
        ),
        GroupPermissionAction::SendMessages => (
            "Send messages",
            permissions.only_admins_send,
            GroupChange::OnlyAdminsSend(!permissions.only_admins_send),
        ),
        GroupPermissionAction::ApproveMembers => (
            "Approve new members",
            permissions.membership_approval,
            GroupChange::MembershipApproval(!permissions.membership_approval),
        ),
    };
    let value: &'static str = match action {
        GroupPermissionAction::ApproveMembers => if enabled {
            "On"
        } else {
            "Off"
        },
        _ => if enabled {
            "Admins only"
        } else {
            "All participants"
        },
    };
    let detail = if leave_uncertain {
        String::from_str("Refresh required")
    } else if pending {
        String::from_str("Saving…")
    } else if can_manage_members {
        String::from_str(value)
    } else {
        let mut d = String::from_str(value);
        text::push_str(&mut d, " · Admin required");
        d
    };
    PermissionRow { label, detail, clickable: can_manage_members && !pending && !leave_uncertain, change }
}

/// The badge after a participant's name.
pub fn role_badge(role: ParticipantRole) -> (r: Option<&'static str>)
    ensures
        match role {
            ParticipantRole::Member => r is None,
            ParticipantRole::Admin => r matches Some(t) && t@ == "admin"@,
            ParticipantRole::SuperAdmin => r matches Some(t) && t@ == "creator"@,
        },
{
    match role {
        ParticipantRole::Member => None,
        ParticipantRole::Admin => Some("admin"),
        ParticipantRole::SuperAdmin => Some("creator"),
    }
}

/// Whether a participant row opens the management actions: only for
/// someone else who is not the group's creator, when the user manages
/// members and nothing blocks group changes.
pub fn participant_actionable(can_manage_members: bool, blocked: bool, is_self: bool, role: ParticipantRole) -> (r: bool)
    ensures
        r == (can_manage_members && !blocked && !is_self && role != ParticipantRole::SuperAdmin),
{
    can_manage_members && !blocked && !is_self && !matches!(role, ParticipantRole::SuperAdmin)
}

/// The "add members" row: its words, and whether it can be clicked.
pub fn add_members_row(pending: bool, leave_uncertain: bool) -> (r: (&'static str, bool))
    ensures
        r.0@ == (if pending {
            "Working…"@
        } else if leave_uncertain {
            "Refresh group info"@
        } else {
            "Add members"@
        }),
        r.1 == !(pending || leave_uncertain),
{
    let label = if pending {
        "Working…"
    } else if leave_uncertain {
        "Refresh group info"
    } else {
        "Add members"
    };
    (label, !(pending || leave_uncertain))
}

/// The value line of the group name or description row.
pub fn group_text_detail(value: &str, can_manage_members: bool, leave_uncertain: bool) -> (r: String)
    ensures
        r@ == (if leave_uncertain {
            "Refresh required"@
        } else if can_manage_members {
            value@
        } else {
            value@ + " · Admin required"@
        }),
{
    if leave_uncertain {
        String::from_str("Refresh required")
    } else if can_manage_members {
        value.to_string()
    } else {
        let mut d = value.to_string();
        text::push_str(&mut d, " · Admin required");
        d
    }
}

/// What the invite-link section shows.
pub enum InviteLinkView {
    /// A single line in place of the link.
    Notice(String),
    /// The link with its buttons; the reset button's words and whether it
    /// is blocked, and an error shown under it.
    Link { url: String, reset_label: &'static str, reset_blocked: bool, error: Option<String> },
}

/// The invite-link section: a notice while offline, while loading, or
/// when there is no link (its error, or that it is unavailable); else the
/// link, with resetting blocked while a reset or another group change is
/// on its way or the group needs a refresh.
pub fn invite_link_view(
    connected: bool,
    loading: bool,
    link: Option<&str>,
    error: Option<&str>,
    resetting: bool,
    pending: bool,
    leave_uncertain: bool,
) -> (r: InviteLinkView)
    ensures
        !connected ==> (r matches InviteLinkView::Notice(t) && t@ == "Connect to load the invite link"@),
        connected && loading ==> (r matches InviteLinkView::Notice(t) && t@ == "Loading invite link…"@),
        connected && !loading && (link is None || link.unwrap()@.len() == 0) ==> (r matches InviteLinkView::Notice(t)
            && Some(t@) == (match error {
            Some(e) => Some(e@),
            None => Some("Invite link is unavailable"@),
        })),
        connected && !loading && link is Some && link.unwrap()@.len() > 0 ==> (r matches InviteLinkView::Link {
            url,
            reset_label,
            reset_blocked,
            error: shown,
        } && url@ == link.unwrap()@ && reset_label@ == (if resetting {
            "Resetting…"@
        } else {
            "Reset…"@
        }) && reset_blocked == (resetting || pending || leave_uncertain) && string_view(shown)
            == str_view(error)),
{
    if !connected {
        return InviteLinkView::Notice(String::from_str("Connect to load the invite link"));
    }
    if loading {
        return InviteLinkView::Notice(String::from_str("Loading invite link…"));
    }
    let url = match link {
        Some(u) => u,
        None => {
            return InviteLinkView::Notice(
                match error {
                    Some(e) => e.to_string(),
                    None => String::from_str("Invite link is unavailable"),
                },
            );
        },
    };
    if url.unicode_len() == 0 {
        return InviteLinkView::Notice(
            match error {
                Some(e) => e.to_string(),
                None => String::from_str("Invite link is unavailable"),
            },
        );
    }
    InviteLinkView::Link {
        url: url.to_string(),
        reset_label: if resetting {
            "Resetting…"
        } else {
            "Reset…"
        },
        reset_blocked: resetting || pending || leave_uncertain,
        error: match error {
            Some(e) => Some(e.to_string()),
            None => None,
        },
    }
}

/// The notice of the join-requests section, or `None` when the requests
/// are listed: offline, loading, an error, or that none are pending.
pub fn join_requests_notice(connected: bool, loading: bool, error: Option<&str>, count: usize) -> (r:
    Option<String>)
    ensures
        string_view(r) == (if !connected {
            Some("Connect to review join requests"@)
        } else if loading {
            Some("Loading join requests…"@)
        } else if error is Some {
            str_view(error)
        } else if count == 0 {
            Some("No pending join requests"@)
        } else {
            None
        }),
{
    if !connected {
        Some(String::from_str("Connect to review join requests"))
    } else if loading {
        Some(String::from_str("Loading join requests…"))
    } else if let Some(e) = error {
        Some(e.to_string())
    } else if count == 0 {
        Some(String::from_str("No pending join requests"))
    } else {
        None
    }
}

/// Said when a confirmed member action no longer fits the group.
pub const MEMBER_NO_LONGER_MANAGEABLE: &'static str = "This participant can no longer be managed from the current group state.";

/// The change a confirmed member action makes, checked again at
/// confirmation: refused (with [`MEMBER_NO_LONGER_MANAGEABLE`]) when the
/// participant is no longer actionable or the action no longer fits their
/// role.
pub fn member_action_change(
    kind: GroupMemberActionKind,
    participant: &str,
    role: ParticipantRole,
    still_actionable: bool,
) -> (r: Result<GroupChange, &'static str>)
    ensures
        match r {
            Ok(c) => still_actionable && action_fits_role(kind, role) && match kind {
                GroupMemberActionKind::Promote => c matches GroupChange::PromoteParticipant(p) && p@
                    == participant@,
                GroupMemberActionKind::Demote => c matches GroupChange::DemoteParticipant(p) && p@
                    == participant@,
                GroupMemberActionKind::Remove => c matches GroupChange::RemoveParticipant(p) && p@
                    == participant@,
            },
            Err(m) => !(still_actionable && action_fits_role(kind, role)) && m@
                == MEMBER_NO_LONGER_MANAGEABLE@,
        },
{
    if !still_actionable || !group_member_action_matches_role(kind, role) {
        return Err(MEMBER_NO_LONGER_MANAGEABLE);
    }
    let p = participant.to_string();
    Ok(
        match kind {
            GroupMemberActionKind::Promote => GroupChange::PromoteParticipant(p),
            GroupMemberActionKind::Demote => GroupChange::DemoteParticipant(p),
            GroupMemberActionKind::Remove => GroupChange::RemoveParticipant(p),
        },
    )
}

} // verus!
