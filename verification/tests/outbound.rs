use wasabi::outbound::{plan_begin_edit, BeginEdit, EDIT_DRAFT_IN_PROGRESS};
use wasabi::composer::AttachmentKind;
use wasabi::model::{MessageKind, MessageRow};
use wasabi::outbound::{
    edit_should_revert, find_row, plan_edit, plan_send, settle_send, ComposerFollowUp, EditPlan,
    SendPlan, SendRequest, StagedAttachment, EDIT_EMPTY, EDIT_EXPIRED, EDIT_NOT_LOADED,
};

fn staged(kind: AttachmentKind) -> StagedAttachment {
    StagedAttachment { kind, transfer: "t-1".to_string() }
}

#[test]
fn send_needs_an_open_chat_and_something_to_send() {
    assert!(matches!(plan_send(None, false, "hi", None, None, false, &mut None), SendPlan::Idle));
    assert!(matches!(plan_send(Some("a"), false, "   ", None, None, false, &mut None), SendPlan::Idle));
    assert!(matches!(plan_send(Some("a"), true, "", None, None, false, &mut None), SendPlan::SubmitEdit));
    let photo = staged(AttachmentKind::Image);
    assert!(matches!(plan_send(Some("a"), false, "", None, Some(&photo), true, &mut None), SendPlan::Idle));
}

#[test]
fn text_sends_trimmed_and_replies_keep_their_quote() {
    match plan_send(Some("a@s.whatsapp.net"), false, "  hello  ", Some("m-1"), None, false, &mut None) {
        SendPlan::Send { request: SendRequest::Reply { chat, text, reply_to }, follow_up, mark_in_flight, clear_composer } => {
            assert_eq!(chat, "a@s.whatsapp.net");
            assert_eq!(text, "hello");
            assert_eq!(reply_to, "m-1");
            assert!(follow_up.is_none());
            assert!(!mark_in_flight);
            assert!(clear_composer);
        }
        other => panic!("unexpected plan {other:?}"),
    }
}

#[test]
fn attachments_carry_the_text_as_caption_except_voice_notes() {
    let photo = staged(AttachmentKind::Image);
    match plan_send(Some("a"), false, "look", None, Some(&photo), false, &mut None) {
        SendPlan::Send { request: SendRequest::Attachment { transfer, caption, .. }, follow_up, mark_in_flight, clear_composer } => {
            assert_eq!(transfer, "t-1");
            assert_eq!(caption.as_deref(), Some("look"));
            assert!(follow_up.is_none());
            assert!(mark_in_flight);
            assert!(!clear_composer);
        }
        other => panic!("unexpected plan {other:?}"),
    }
    let voice = staged(AttachmentKind::Audio);
    match plan_send(Some("a"), false, "listen", Some("m-2"), Some(&voice), false, &mut None) {
        SendPlan::Send { request: SendRequest::AttachmentReply { caption, reply_to, .. }, follow_up, .. } => {
            assert_eq!(caption, None);
            assert_eq!(reply_to, "m-2");
            assert!(matches!(follow_up, Some(SendRequest::Text { text, .. }) if text == "listen"));
        }
        other => panic!("unexpected plan {other:?}"),
    }
}

#[test]
fn settling_a_send_clears_restores_or_keeps_the_composer() {
    let done = settle_send("hello", true, true, None, None, true, true, " hello ");
    assert!(matches!(done.composer, ComposerFollowUp::Clear));
    assert!(done.clear_reply);
    assert!(!done.drop_staged);

    let failed = settle_send("hello", false, false, None, None, true, true, "");
    assert!(matches!(failed.composer, ComposerFollowUp::Restore(ref t) if t == "hello"));
    assert!(!failed.clear_reply);

    let typed_on = settle_send("hello", false, false, None, None, true, true, "new");
    assert!(matches!(typed_on.composer, ComposerFollowUp::Keep));

    let upload = settle_send("", true, true, Some("t-1"), Some("t-1"), false, true, "");
    assert!(upload.drop_staged);
    assert!(!upload.clear_reply, "the user moved to another chat");

    let replaced = settle_send("", true, true, Some("t-1"), Some("t-2"), true, true, "");
    assert!(!replaced.drop_staged);
}

fn text_row(chat: &str, id: &str, body: &str) -> MessageRow {
    MessageRow {
        id: id.to_string(),
        chat: chat.to_string(),
        timestamp_ms: 1,
        edited_at_ms: None,
        kind: MessageKind::Text { body: body.to_string() },
    }
}

#[test]
fn edits_are_checked_before_they_are_submitted() {
    let rows = vec![
        text_row("a", "m-1", "hello"),
        MessageRow { id: "m-2".to_string(), chat: "a".to_string(), timestamp_ms: 2, kind: MessageKind::Unsupported, edited_at_ms: None },
    ];
    assert_eq!(find_row(&rows, "a", "m-2"), Some(1));
    assert_eq!(find_row(&rows, "b", "m-1"), None);
    assert!(matches!(plan_edit(&rows, "a", "m-1", "  ", true, false), EditPlan::Reject(m) if m == EDIT_EMPTY));
    assert!(matches!(plan_edit(&rows, "a", "m-9", "hi", true, false), EditPlan::Reject(m) if m == EDIT_NOT_LOADED));
    assert!(matches!(plan_edit(&rows, "a", "m-1", "hi", false, false), EditPlan::Reject(m) if m == EDIT_EXPIRED));
    assert!(matches!(plan_edit(&rows, "a", "m-1", " hello ", true, false), EditPlan::Cancel));
    assert!(matches!(plan_edit(&rows, "a", "m-1", "hello!", true, true), EditPlan::Idle));
    assert!(matches!(plan_edit(&rows, "a", "m-2", "hello!", true, false), EditPlan::Idle));
    match plan_edit(&rows, "a", "m-1", " hello! ", true, false) {
        EditPlan::Submit { row, body, previous } => {
            assert_eq!(row, 0);
            assert_eq!(body, "hello!");
            assert_eq!(previous, "hello");
        }
        other => panic!("unexpected plan {other:?}"),
    }
}

#[test]
fn a_refused_edit_reverts_only_while_the_row_still_shows_it() {
    let shown = MessageKind::Text { body: "hello!".to_string() };
    assert!(edit_should_revert(Some(7), 7, &shown, "hello!"));
    assert!(!edit_should_revert(Some(8), 7, &shown, "hello!"));
    assert!(!edit_should_revert(Some(7), 7, &shown, "other"));
    assert!(!edit_should_revert(None, 7, &MessageKind::Unsupported, "hello!"));
}

#[test]
fn editing_starts_only_from_a_free_composer() {
    let rows = vec![text_row("a", "m-1", "hello")];
    assert!(matches!(plan_begin_edit(&rows, "m-9", true, "", false, false), BeginEdit::Idle));
    assert!(matches!(plan_begin_edit(&rows, "m-1", false, "", false, false), BeginEdit::Reject(m) if m == EDIT_EXPIRED));
    assert!(matches!(plan_begin_edit(&rows, "m-1", true, "draft", false, false), BeginEdit::Reject(m) if m == EDIT_DRAFT_IN_PROGRESS));
    assert!(matches!(plan_begin_edit(&rows, "m-1", true, "", true, false), BeginEdit::Reject(m) if m == EDIT_DRAFT_IN_PROGRESS));
    assert!(matches!(plan_begin_edit(&rows, "m-1", true, " ", false, false), BeginEdit::Start { ref body } if body == "hello"));
}

#[test]
fn replies_wait_for_edits_and_attachments_stage_once() {
    wasabi_reply_checks();
}

fn wasabi_reply_checks() {
    assert!(wasabi::outbound::plan_reply(false, true) == wasabi::outbound::ReplyStep::Ignore);
    assert!(wasabi::outbound::plan_reply(true, true) == wasabi::outbound::ReplyStep::Refuse);
    assert!(wasabi::outbound::plan_reply(true, false) == wasabi::outbound::ReplyStep::Begin);
    assert_eq!(wasabi::outbound::REPLY_DURING_EDIT, "Finish or cancel the current edit first");
    assert!(wasabi::outbound::can_cancel_edit(true, true, false));
    assert!(!wasabi::outbound::can_cancel_edit(true, true, true));
    assert!(!wasabi::outbound::can_cancel_edit(false, true, false));
    assert!(!wasabi::outbound::can_cancel_edit(true, false, false));
    assert!(wasabi::outbound::can_stage_attachment(true, false, false));
    assert!(!wasabi::outbound::can_stage_attachment(true, true, false));
    assert!(!wasabi::outbound::can_stage_attachment(true, false, true));
    assert!(!wasabi::outbound::can_stage_attachment(false, false, false));
    assert_eq!(wasabi::settings::settings_save_error("disk full"), "Could not save settings: disk full");
}

#[test]
fn a_send_clears_the_error_and_an_idle_press_keeps_it() {
    let mut err = Some("old failure".to_string());
    assert!(matches!(plan_send(Some("a"), false, "  ", None, None, false, &mut err), SendPlan::Idle));
    assert_eq!(err.as_deref(), Some("old failure"));
    assert!(matches!(plan_send(Some("a"), true, "x", None, None, false, &mut err), SendPlan::SubmitEdit));
    assert_eq!(err.as_deref(), Some("old failure"));
    assert!(matches!(plan_send(Some("a"), false, "hi", None, None, false, &mut err), SendPlan::Send { .. }));
    assert!(err.is_none());
}

#[test]
fn a_refused_edit_puts_the_text_back_and_keeps_the_composer() {
    let mut editing = wasabi::message_actions::RetryFlights::new();
    editing.insert("a".to_string(), "m-1".to_string());
    let mut row = text_row("a", "m-1", "new words");
    row.edited_at_ms = Some(500);
    let mut rows = vec![text_row("a", "m-0", "x"), row];
    let mut err: Option<String> = None;
    let o = wasabi::outbound::settle_edit(&mut editing, &mut rows, &mut err, "a", "m-1", "new words", "old words", Some(100), 500, Err("Not allowed".to_string()));
    assert!(!o.save_draft && !o.may_clear_composer);
    assert!(!editing.contains("a", "m-1"));
    assert_eq!(err.as_deref(), Some("Not allowed"));
    assert!(matches!(&rows[1].kind, MessageKind::Text { body } if body == "old words"));
    assert_eq!(rows[1].edited_at_ms, Some(100));
    assert!(matches!(&rows[0].kind, MessageKind::Text { body } if body == "x"));

    // A row that changed meanwhile is left alone.
    editing.insert("a".to_string(), "m-0".to_string());
    rows[0].edited_at_ms = Some(9);
    wasabi::outbound::settle_edit(&mut editing, &mut rows, &mut err, "a", "m-0", "y", "x0", None, 7, Err("e".to_string()));
    assert!(matches!(&rows[0].kind, MessageKind::Text { body } if body == "x"));
    assert_eq!(rows[0].edited_at_ms, Some(9));

    let mut err2 = Some("kept".to_string());
    let o = wasabi::outbound::settle_edit(&mut editing, &mut rows, &mut err2, "a", "m-1", "z", "w", None, 1, Ok(()));
    assert!(o.save_draft && o.may_clear_composer);
    assert_eq!(err2.as_deref(), Some("kept"));
}
