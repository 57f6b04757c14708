use foxholewarbot::commands::{acknowledged, optional};
use foxholewarbot::db::{FullMapRequest, RequestStatus};
use foxholewarbot::application::{Answers, ApplyAction, ApplyEvent, FullMapApplication};
use foxholewarbot::replies::{
    already_pending, new_request, request_submitted, ALREADY_APPROVED, NEEDS_SETUP, NOT_ACKNOWLEDGED,
};
use foxholewarbot::review::{
    decided_reply, decision_notice, is_reviewer, parse_button, press_outcome, request_embed,
    requests_channel, review_buttons, revoke_target, undecided_reply, waiting_line,
    withdrawn_reply, PressOutcome, RequestsChannel, ALREADY_DECIDED, NOT_RECORDED,
};

fn request(status: &str) -> FullMapRequest {
    FullMapRequest {
        id: 12,
        guild: 1,
        guild_id: 555,
        requested_by: 42,
        member_count: Some(40),
        cadence: "every 6 hours".to_string(),
        channel_id: 99,
        use_case: Some("  regiment ops  ".to_string()),
        audience: Some("   ".to_string()),
        contact: None,
        status: status.to_string(),
        reviewed_by: None,
        message_id: None,
        created_at: 1_700_000_000,
    }
}

#[test]
fn pending_requests_get_both_buttons_and_settled_ones_none() {
    let buttons = review_buttons(&request("pending"));
    assert_eq!(buttons.len(), 2);
    assert_eq!(buttons[0].custom_id, "fullmap-request:approve:12");
    assert_eq!(buttons[0].label, "Approve");
    assert!(buttons[0].approve);
    assert_eq!(buttons[1].custom_id, "fullmap-request:deny:12");
    assert!(!buttons[1].approve);
    assert!(review_buttons(&request("approved")).is_empty());
}

#[test]
fn a_button_reads_back_as_its_decision() {
    for button in review_buttons(&request("pending")) {
        let (status, id) = parse_button(&button.custom_id).expect("our own button");
        assert_eq!(id, 12);
        assert_eq!(status == RequestStatus::Approved, button.approve);
    }
}

#[test]
fn presses_are_read_like_the_handler_reads_them() {
    assert_eq!(parse_button("fullmap-request::approve:7"), Some((RequestStatus::Approved, 7)));
    assert_eq!(parse_button("fullmap-request:deny:+8:extra"), Some((RequestStatus::Denied, 8)));
    assert_eq!(parse_button("fullmap-request:deny:-3"), Some((RequestStatus::Denied, -3)));
    assert_eq!(parse_button("fullmap-request:maybe:7"), None);
    assert_eq!(parse_button("fullmap-request:approve"), None);
    assert_eq!(parse_button("fullmap-request:approve:x"), None);
    assert_eq!(parse_button("something-else:approve:7"), None);
}

#[test]
fn the_embed_shows_what_is_needed_to_decide() {
    let embed = request_embed(&request("pending"), Some("The Regiment"));
    assert_eq!(embed.title.as_deref(), Some("Full-map schedule request #12 — The Regiment"));
    assert_eq!(embed.color, (250, 190, 60));
    let fields: Vec<(&str, &str, bool)> = embed
        .fields
        .iter()
        .map(|f| (f.name.as_str(), f.value.as_str(), f.inline))
        .collect();
    assert_eq!(
        fields,
        vec![
            ("Server", "`555`", true),
            ("Requested by", "<@42>", true),
            ("Members (context only)", "40", true),
            ("Requested cadence", "every 6 hours", false),
            ("Posting to", "<#99>", true),
            ("Status", "pending", true),
            ("Filed", "<t:1700000000:R>", true),
            ("Use case", "regiment ops", false),
        ]
    );
}

#[test]
fn a_decided_request_names_who_decided_it() {
    let mut decided = request("approved");
    decided.reviewed_by = Some(77);
    decided.member_count = None;
    let embed = request_embed(&decided, None);
    assert_eq!(embed.title.as_deref(), Some("Full-map schedule request #12"));
    assert_eq!(embed.color, (60, 180, 75));
    assert_eq!(embed.fields[2].value, "unknown");
    let last = embed.fields.last().unwrap();
    assert_eq!((last.name.as_str(), last.value.as_str()), ("Decided by", "<@77>"));
    assert_eq!(request_embed(&request("denied"), None).color, (200, 60, 60));
}

#[test]
fn the_applicant_is_told_in_their_own_channel() {
    assert_eq!(
        decision_notice(&request("approved")),
        "<@42> — your request to schedule full-map reports here was **approved**. Set it up with `/schedule-report`."
    );
    assert!(decision_notice(&request("denied")).contains("wasn't approved this time"));
}

#[test]
fn only_the_owner_or_the_team_may_decide() {
    assert!(is_reviewer(Some(1), None, 1));
    assert!(is_reviewer(None, Some(&[4, 5]), 5));
    assert!(!is_reviewer(Some(1), Some(&[4, 5]), 6));
    assert!(!is_reviewer(None, None, 1));
}

#[test]
fn presses_are_answered_by_outcome() {
    assert!(matches!(press_outcome(true, Some(true)), PressOutcome::Decided));
    assert!(matches!(press_outcome(true, None), PressOutcome::Reply(t) if t == NOT_RECORDED));
    assert!(matches!(press_outcome(true, Some(false)), PressOutcome::Reply(t) if t == ALREADY_DECIDED));
    assert!(matches!(press_outcome(false, Some(true)), PressOutcome::Reply(_)));
}

#[test]
fn the_requests_channel_setting_is_read_leniently() {
    assert!(matches!(requests_channel(None), RequestsChannel::Unset));
    assert!(matches!(requests_channel(Some(" 123 ")), RequestsChannel::Channel(123)));
    assert!(matches!(requests_channel(Some("general")), RequestsChannel::Invalid));
}

#[test]
fn the_fallback_command_replies() {
    assert_eq!(waiting_line(3), "3 request(s) waiting.");
    assert_eq!(decided_reply(4, "approved"), "Request #4 approved.");
    assert_eq!(
        undecided_reply(4, Some("denied")),
        "Request #4 was already **denied**. Nothing changed."
    );
    assert_eq!(undecided_reply(5, None), "No request #5.");
    assert_eq!(revoke_target(" 123456789012345678 "), Some(123456789012345678));
    assert_eq!(revoke_target("my server"), None);
    assert!(withdrawn_reply(77).starts_with("Approval withdrawn for `77`."));
}

#[test]
fn blank_answers_are_absent() {
    assert_eq!(optional("  ".to_string()), None);
    assert_eq!(optional(" x ".to_string()).as_deref(), Some("x"));
    assert!(acknowledged(" Yes "));
    assert!(!acknowledged("yes please"));
}

#[test]
fn an_application_becomes_its_row() {
    let row = new_request(
        1,
        42,
        Some(3_000_000_000),
        "  daily  ",
        99,
        " ops ".to_string(),
        Some("  ".to_string()),
        Some("me#1".to_string()),
    );
    assert_eq!(row.guild, 1);
    assert_eq!(row.requested_by, 42);
    assert_eq!(row.member_count, None, "too many members for the column is unknown");
    assert_eq!(row.cadence, "daily");
    assert_eq!(row.channel_id, 99);
    assert_eq!(row.use_case.as_deref(), Some("ops"));
    assert_eq!(row.audience, None);
    assert_eq!(row.contact.as_deref(), Some("me#1"));
    assert_eq!(new_request(1, 42, Some(40), "x", 99, String::new(), None, None).member_count, Some(40));
}

#[test]
fn the_applicant_hears_where_the_answer_goes() {
    assert_eq!(
        already_pending(3, 100),
        "This server already has request **#3** waiting for review, filed <t:100:R>. Only one can be open at a time."
    );
    let receipt = request_submitted(12, 99);
    assert!(receipt.starts_with("Request **#12** submitted — thanks. You'll get an answer in <#99>."));
    assert!(receipt.contains("no payment is involved"));
}

fn finish_text(action: ApplyAction) -> Option<String> {
    match action {
        ApplyAction::Finish(end) => end.reply,
        _ => panic!("expected the application to end"),
    }
}

#[test]
fn an_application_is_refused_before_the_form_for_the_cheap_reasons() {
    let app = FullMapApplication::new(7, 99, Some(40));
    let (app, action) = app.step(ApplyEvent::Begin);
    assert!(matches!(action, ApplyAction::LoadGuild));
    let (_, action) = app.step(ApplyEvent::GuildLoaded(None));
    assert_eq!(finish_text(action).as_deref(), Some(NEEDS_SETUP));

    let (app, _) = FullMapApplication::new(7, 99, None).step(ApplyEvent::Begin);
    let (_, action) = app.step(ApplyEvent::GuildLoaded(Some((3, true))));
    assert_eq!(finish_text(action).as_deref(), Some(ALREADY_APPROVED));

    let (app, _) = FullMapApplication::new(7, 99, None).step(ApplyEvent::Begin);
    let (app, action) = app.step(ApplyEvent::GuildLoaded(Some((3, false))));
    assert!(matches!(action, ApplyAction::FindPending(3)));
    let (_, action) = app.step(ApplyEvent::PendingFound(Some((12, 1700000000))));
    assert_eq!(finish_text(action), Some(already_pending(12, 1700000000)));
}

fn answers(acknowledgement: &str) -> Answers {
    Answers {
        cadence: " every 6 hours ".to_string(),
        use_case: "ops".to_string(),
        audience: Some("  ".to_string()),
        contact: None,
        acknowledgement: acknowledgement.to_string(),
    }
}

#[test]
fn an_application_is_filed_only_once_the_conditions_are_acknowledged() {
    let start = |ack: &str| {
        let (app, _) = FullMapApplication::new(7, 99, Some(40)).step(ApplyEvent::Begin);
        let (app, _) = app.step(ApplyEvent::GuildLoaded(Some((3, false))));
        let (app, action) = app.step(ApplyEvent::PendingFound(None));
        assert!(matches!(action, ApplyAction::Ask));
        app.step(ApplyEvent::Answered(Some(answers(ack))))
    };

    let (_, action) = start("no");
    assert_eq!(finish_text(action).as_deref(), Some(NOT_ACKNOWLEDGED));

    let (app, action) = start(" Yes ");
    let row = match action {
        ApplyAction::File(row) => row,
        _ => panic!("an acknowledged application is filed"),
    };
    assert_eq!(row.guild, 3);
    assert_eq!(row.requested_by, 7);
    assert_eq!(row.member_count, Some(40));
    assert_eq!(row.cadence, "every 6 hours");
    assert_eq!(row.channel_id, 99);
    assert_eq!(row.audience, None);
    let (app, action) = app.step(ApplyEvent::Filed(21));
    assert!(matches!(action, ApplyAction::Announce));
    let (_, action) = app.step(ApplyEvent::Announced);
    assert_eq!(finish_text(action), Some(request_submitted(21, 99)));
}

#[test]
fn a_dismissed_form_ends_without_a_word() {
    let (app, _) = FullMapApplication::new(7, 99, None).step(ApplyEvent::Begin);
    let (app, _) = app.step(ApplyEvent::GuildLoaded(Some((3, false))));
    let (app, _) = app.step(ApplyEvent::PendingFound(None));
    let (_, action) = app.step(ApplyEvent::Answered(None));
    assert_eq!(finish_text(action), None);
}

#[test]
fn a_button_press_by_someone_else_is_refused() {
    assert!(matches!(
        press_outcome(false, None),
        PressOutcome::Reply("Only the bot's owner or its team can decide these requests.")
    ));
}
