//! `/request-full-map-schedule`, step by step: the checks an application
//! passes before its form opens, and what becomes of the answers.
//!
//! The cheap refusals come first — a server that was never set up, one that
//! is already approved, one with a request still open — so nobody fills in
//! five fields only to be told it was pointless. The answers are stored only
//! once the last box confirms the conditions were read.
use vstd::prelude::*;
use vstd::string::*;

use crate::commands::acknowledged;
use crate::db::NewFullMapRequest;
use crate::replies::{
    already_pending, already_pending_text, new_request, request_row, request_submitted,
    request_submitted_text, ALREADY_APPROVED, NEEDS_SETUP, NOT_ACKNOWLEDGED,
};
use crate::text::{eq_ignore_ascii_case, trim};

verus! {

/// What the applicant typed into the form.
pub struct Answers {
    pub cadence: String,
    pub use_case: String,
    pub audience: Option<String>,
    pub contact: Option<String>,
    /// The box that has to say `yes`.
    pub acknowledgement: String,
}

/// Where an application is.
pub enum ApplyStage {
    Start,
    /// Waiting for the server's settings row.
    LoadingGuild,
    /// Waiting to learn whether the server has a request open.
    CheckingPending { guild_row: i64 },
    /// The form is open.
    Asking { guild_row: i64 },
    /// The request is being stored.
    Filing,
    /// The stored request is being posted where the owner decides it.
    Announcing { id: i64 },
    Finished,
}

/// What the driver reports back.
pub enum ApplyEvent {
    Begin,
    /// The server's row id and whether it is already approved, or `None`
    /// when it was never set up.
    GuildLoaded(Option<(i64, bool)>),
    /// The open request's id and filing time, if there is one.
    PendingFound(Option<(i64, i64)>),
    /// The form's answers, or `None` when it was dismissed.
    Answered(Option<Answers>),
    /// The stored request's id.
    Filed(i64),
    Announced,
    /// A step failed outright.
    Failed(String),
}

/// How an application ends: what to tell the applicant, privately — or the
/// error to raise when there is nothing sensible to say.
pub struct ApplyEnd {
    pub reply: Option<String>,
    pub error: Option<String>,
}

/// What the driver should do next.
pub enum ApplyAction {
    LoadGuild,
    /// Look for an open request of this server's row.
    FindPending(i64),
    /// Open the form.
    Ask,
    File(NewFullMapRequest),
    Announce,
    Finish(ApplyEnd),
}

/// An application in progress, with what the bot knows of it up front.
pub struct FullMapApplication {
    pub requested_by: u64,
    /// The channel the scheduled maps would post to.
    pub channel_id: u64,
    /// The server's member count, when Discord reports one.
    pub member_count: Option<u64>,
    pub stage: ApplyStage,
}

/// The application ends, saying `text`.
pub open spec fn ends_saying(next: ApplyStage, action: ApplyAction, text: Seq<char>) -> bool {
    &&& next is Finished
    &&& action matches ApplyAction::Finish(end)
    &&& end.reply matches Some(r)
    &&& r@ == text
    &&& end.error is None
}

/// The application ends without a word.
pub open spec fn ends_quietly(next: ApplyStage, action: ApplyAction) -> bool {
    &&& next is Finished
    &&& action matches ApplyAction::Finish(end)
    &&& end.reply is None
    &&& end.error is None
}

/// The transition table of an application.
pub open spec fn apply_follows(
    app: FullMapApplication,
    event: ApplyEvent,
    next: ApplyStage,
    action: ApplyAction,
) -> bool {
    match event {
        ApplyEvent::Failed(e) => {
            &&& next is Finished
            &&& action matches ApplyAction::Finish(end)
            &&& end.reply is None
            &&& end.error matches Some(x)
            &&& x@ == e@
        },
        _ => match (app.stage, event) {
            (ApplyStage::Start, ApplyEvent::Begin) => next is LoadingGuild && action is LoadGuild,
            (ApplyStage::LoadingGuild, ApplyEvent::GuildLoaded(found)) => match found {
                None => ends_saying(next, action, NEEDS_SETUP@),
                Some((row, approved)) => if approved {
                    ends_saying(next, action, ALREADY_APPROVED@)
                } else {
                    next == (ApplyStage::CheckingPending { guild_row: row })
                        && action == ApplyAction::FindPending(row)
                },
            },
            (ApplyStage::CheckingPending { guild_row }, ApplyEvent::PendingFound(open)) => match open {
                Some((id, at)) => ends_saying(next, action, already_pending_text(id, at)),
                None => next == (ApplyStage::Asking { guild_row }) && action is Ask,
            },
            (ApplyStage::Asking { guild_row }, ApplyEvent::Answered(answers)) => match answers {
                None => ends_quietly(next, action),
                Some(a) => if !eq_ignore_ascii_case(trim(a.acknowledgement@), seq!['y', 'e', 's']) {
                    ends_saying(next, action, NOT_ACKNOWLEDGED@)
                } else {
                    &&& next is Filing
                    &&& action matches ApplyAction::File(row)
                    &&& request_row(
                        row,
                        guild_row,
                        app.requested_by,
                        app.member_count,
                        a.cadence@,
                        app.channel_id,
                        a.use_case,
                        a.audience,
                        a.contact,
                    )
                },
            },
            (ApplyStage::Filing, ApplyEvent::Filed(id)) => next == (ApplyStage::Announcing { id })
                && action is Announce,
            (ApplyStage::Announcing { id }, ApplyEvent::Announced) => ends_saying(
                next,
                action,
                request_submitted_text(id, app.channel_id),
            ),
            _ => ends_quietly(next, action),
        },
    }
}

fn saying(text: String) -> (action: ApplyAction)
    ensures
        action matches ApplyAction::Finish(end) && end.reply matches Some(r) && r@ == text@
            && end.error is None,
{
    ApplyAction::Finish(ApplyEnd { reply: Some(text), error: None })
}

fn quietly() -> (action: ApplyAction)
    ensures
        action matches ApplyAction::Finish(end) && end.reply is None && end.error is None,
{
    ApplyAction::Finish(ApplyEnd { reply: None, error: None })
}

impl FullMapApplication {
    /// An application from `requested_by`, for maps posted to `channel_id`.
    pub fn new(requested_by: u64, channel_id: u64, member_count: Option<u64>) -> (app:
        FullMapApplication)
        ensures
            app.requested_by == requested_by,
            app.channel_id == channel_id,
            app.member_count == member_count,
            app.stage is Start,
    {
        FullMapApplication { requested_by, channel_id, member_count, stage: ApplyStage::Start }
    }

    /// Takes the outcome of the last action and says what to do next.
    pub fn step(self, event: ApplyEvent) -> (next: (FullMapApplication, ApplyAction))
        ensures
            next.0.requested_by == self.requested_by,
            next.0.channel_id == self.channel_id,
            next.0.member_count == self.member_count,
            apply_follows(self, event, next.0.stage, next.1),
    {
        let FullMapApplication { requested_by, channel_id, member_count, stage } = self;
        let (next, action) = match event {
            ApplyEvent::Failed(e) => (
                ApplyStage::Finished,
                ApplyAction::Finish(ApplyEnd { reply: None, error: Some(e) }),
            ),
            event => match (stage, event) {
                (ApplyStage::Start, ApplyEvent::Begin) => (
                    ApplyStage::LoadingGuild,
                    ApplyAction::LoadGuild,
                ),
                (ApplyStage::LoadingGuild, ApplyEvent::GuildLoaded(found)) => match found {
                    None => (ApplyStage::Finished, saying(String::from_str(NEEDS_SETUP))),
                    Some((row, approved)) => if approved {
                        (ApplyStage::Finished, saying(String::from_str(ALREADY_APPROVED)))
                    } else {
                        (ApplyStage::CheckingPending { guild_row: row }, ApplyAction::FindPending(row))
                    },
                },
                (ApplyStage::CheckingPending { guild_row }, ApplyEvent::PendingFound(open)) => {
                    match open {
                        Some((id, at)) => (ApplyStage::Finished, saying(already_pending(id, at))),
                        None => (ApplyStage::Asking { guild_row }, ApplyAction::Ask),
                    }
                },
                (ApplyStage::Asking { guild_row }, ApplyEvent::Answered(answers)) => {
                    match answers {
                        None => (ApplyStage::Finished, quietly()),
                        Some(a) => {
                            if !acknowledged(a.acknowledgement.as_str()) {
                                (ApplyStage::Finished, saying(String::from_str(NOT_ACKNOWLEDGED)))
                            } else {
                                let row = new_request(
                                    guild_row,
                                    requested_by,
                                    member_count,
                                    a.cadence.as_str(),
                                    channel_id,
                                    a.use_case,
                                    a.audience,
                                    a.contact,
                                );
                                (ApplyStage::Filing, ApplyAction::File(row))
                            }
                        },
                    }
                },
                (ApplyStage::Filing, ApplyEvent::Filed(id)) => (
                    ApplyStage::Announcing { id },
                    ApplyAction::Announce,
                ),
                (ApplyStage::Announcing { id }, ApplyEvent::Announced) => (
                    ApplyStage::Finished,
                    saying(request_submitted(id, channel_id)),
                ),
                _ => (ApplyStage::Finished, quietly()),
            },
        };
        (FullMapApplication { requested_by, channel_id, member_count, stage: next }, action)
    }
}

} // verus!
