//! The decision surface for full-map schedule requests: the embed the owner
//! sees, the Approve/Deny buttons and how a press is read back, who may press
//! them, and what the applicant is told.
//!
//! The channel post and `/full-map-requests` render the same embed and drive
//! the same decision, so the two surfaces cannot disagree.
use vstd::prelude::*;
use vstd::string::*;

use crate::db::{status_text, FullMapRequest, RequestStatus};
use crate::embed::{field_views, push_field, text_view, Embed, EmbedField, EmbedShape};
use crate::text::{
    chars_of, decimal_spells_its_number, is_digit, parse_i64, parse_signed, parse_u64,
    parse_unsigned, push_signed_decimal, push_str, signed_decimal, signed_decimal_reads_back,
    slice_chars, starts_with, starts_with_chars, str_eq, string_from_chars, trim, trim_chars,
};

verus! {

/// Prefix on every button this module owns, so the interaction handler can
/// tell its own components from anything else the bot ever adds.
pub const CUSTOM_ID_PREFIX: &'static str = "fullmap-request";

// ---------------------------------------------------------------------------
// Buttons
// ---------------------------------------------------------------------------

/// The custom id of a review button: the prefix, the action, the request id.
pub open spec fn button_id(action: Seq<char>, id: i64) -> Seq<char> {
    "fullmap-request:"@ + action + ":"@ + signed_decimal(id as int)
}

/// One review button.
pub struct ReviewButton {
    pub custom_id: String,
    pub label: String,
    /// Approve (drawn as a success button) or deny (a danger button).
    pub approve: bool,
}

fn button(action: &str, label: &str, approve: bool, id: i64) -> (b: ReviewButton)
    ensures
        b.custom_id@ == button_id(action@, id),
        b.label@ == label@,
        b.approve == approve,
{
    let mut out: Vec<char> = Vec::new();
    push_str(&mut out, "fullmap-request:");
    push_str(&mut out, action);
    push_str(&mut out, ":");
    push_signed_decimal(&mut out, id);
    ReviewButton {
        custom_id: string_from_chars(&out),
        label: String::from_str(label),
        approve,
    }
}

/// Approve and Deny while the request is pending, and nothing once it is
/// decided — a settled request keeps its post as a record, but the buttons
/// stop being a way to overturn it by accident.
pub fn review_buttons(request: &FullMapRequest) -> (buttons: Vec<ReviewButton>)
    ensures
        request.status@ != status_text(RequestStatus::Pending) ==> buttons@.len() == 0,
        request.status@ == status_text(RequestStatus::Pending) ==> {
            &&& buttons@.len() == 2
            &&& buttons@[0].custom_id@ == button_id("approve"@, request.id)
            &&& buttons@[0].label@ == "Approve"@
            &&& buttons@[0].approve
            &&& buttons@[1].custom_id@ == button_id("deny"@, request.id)
            &&& buttons@[1].label@ == "Deny"@
            &&& !buttons@[1].approve
        },
{
    let mut buttons: Vec<ReviewButton> = Vec::new();
    if !request.is_pending() {
        return buttons;
    }
    buttons.push(button("approve", "Approve", true, request.id));
    buttons.push(button("deny", "Deny", false, request.id));
    buttons
}

/// The first `:` at or after `i`.
pub open spec fn colon_from(s: Seq<char>, i: int) -> Option<int>
    decreases s.len() - i,
{
    if i < 0 || i >= s.len() {
        None
    } else if s[i] == ':' {
        Some(i)
    } else {
        colon_from(s, i + 1)
    }
}

/// Where the run of `:` starting at `i` ends.
pub open spec fn colons_end(s: Seq<char>, i: int) -> int
    decreases s.len() - i,
{
    if 0 <= i < s.len() && s[i] == ':' {
        colons_end(s, i + 1)
    } else {
        i
    }
}

/// Up to the first `:`, as the first item `split(':')` yields.
pub open spec fn first_part(s: Seq<char>) -> Seq<char> {
    match colon_from(s, 0) {
        Some(i) => s.take(i),
        None => s,
    }
}

/// After the first `:`, or `None` when `split(':')` yields one item only.
pub open spec fn after_first(s: Seq<char>) -> Option<Seq<char>> {
    match colon_from(s, 0) {
        Some(i) => Some(s.skip(i + 1)),
        None => None,
    }
}

/// What an action word decides.
pub open spec fn action_status(action: Seq<char>) -> Option<RequestStatus> {
    if action == "approve"@ {
        Some(RequestStatus::Approved)
    } else if action == "deny"@ {
        Some(RequestStatus::Denied)
    } else {
        None
    }
}

/// How a pressed button's custom id reads: ours or not, which decision, on
/// which request. Colons after the prefix are skipped, and the id is the
/// second `:`-separated part, read as `str::parse::<i64>` reads it.
pub open spec fn button_press(custom_id: Seq<char>) -> Option<(RequestStatus, i64)> {
    let prefix = "fullmap-request"@;
    if !starts_with(custom_id, prefix) {
        None
    } else {
        let rest = custom_id.skip(prefix.len() as int);
        let rest = rest.skip(colons_end(rest, 0));
        match (action_status(first_part(rest)), after_first(rest)) {
            (Some(status), Some(tail)) => match parse_signed(
                first_part(tail),
                i64::MIN as int,
                i64::MAX as int,
            ) {
                Some(id) => Some((status, id as i64)),
                None => None,
            },
            _ => None,
        }
    }
}

fn find_colon(s: &Vec<char>) -> (r: Option<usize>)
    ensures
        r matches Some(i) ==> colon_from(s@, 0) == Some(i as int) && i < s@.len(),
        r is None ==> colon_from(s@, 0) is None,
{
    let mut i: usize = 0;
    while i < s.len()
        invariant
            i <= s@.len(),
            colon_from(s@, 0) == colon_from(s@, i as int),
        decreases s.len() - i,
    {
        if s[i] == ':' {
            return Some(i);
        }
        i += 1;
    }
    None
}

fn skip_colons(s: &Vec<char>) -> (t: Vec<char>)
    ensures
        t@ == s@.skip(colons_end(s@, 0)),
{
    let mut i: usize = 0;
    while i < s.len() && s[i] == ':'
        invariant
            i <= s@.len(),
            colons_end(s@, 0) == colons_end(s@, i as int),
        decreases s.len() - i,
    {
        i += 1;
    }
    let t = slice_chars(s, i, s.len());
    assert(t@ =~= s@.skip(i as int));
    t
}

/// Reads a pressed button's custom id. `None` means the component isn't a
/// review button, or names no decision this bot makes.
pub fn parse_button(custom_id: &str) -> (press: Option<(RequestStatus, i64)>)
    ensures
        press == button_press(custom_id@),
{
    proof {
        reveal_strlit("fullmap-request");
        reveal_strlit("approve");
        reveal_strlit("deny");
    }
    let chars = chars_of(custom_id);
    let prefix = chars_of(CUSTOM_ID_PREFIX);
    if !starts_with_chars(&chars, &prefix) {
        return None;
    }
    let after_prefix = slice_chars(&chars, prefix.len(), chars.len());
    assert(after_prefix@ =~= custom_id@.skip(15));
    let rest = skip_colons(&after_prefix);
    assert(prefix@ == "fullmap-request"@);
    assert(starts_with(custom_id@, "fullmap-request"@));
    let (action, tail) = match find_colon(&rest) {
        Some(i) => {
            let action = slice_chars(&rest, 0, i);
            let tail = slice_chars(&rest, i + 1, rest.len());
            assert(action@ =~= rest@.take(i as int));
            assert(tail@ =~= rest@.skip(i + 1));
            (action, Some(tail))
        },
        None => {
            let action = slice_chars(&rest, 0, rest.len());
            assert(action@ =~= rest@);
            (action, None)
        },
    };
    assert(action@ == first_part(rest@));
    assert(tail matches Some(t) ==> after_first(rest@) == Some(t@));
    assert(tail is None ==> after_first(rest@) is None);
    let word = string_from_chars(&action);
    let status = if str_eq(word.as_str(), "approve") {
        RequestStatus::Approved
    } else if str_eq(word.as_str(), "deny") {
        RequestStatus::Denied
    } else {
        return None;
    };
    let tail = match tail {
        Some(t) => t,
        None => {
            return None;
        },
    };
    let id_text = match find_colon(&tail) {
        Some(j) => {
            let part = slice_chars(&tail, 0, j);
            assert(part@ =~= tail@.take(j as int));
            part
        },
        None => {
            let part = slice_chars(&tail, 0, tail.len());
            assert(part@ =~= tail@);
            part
        },
    };
    match parse_i64(&id_text) {
        Some(id) => Some((status, id)),
        None => None,
    }
}

proof fn lemma_no_colon_from(s: Seq<char>, i: int)
    requires
        0 <= i,
        forall|k: int| i <= k < s.len() ==> s[k] != ':',
    ensures
        colon_from(s, i) is None,
    decreases s.len() - i,
{
    if i < s.len() {
        lemma_no_colon_from(s, i + 1);
    }
}

proof fn lemma_digits_have_no_colon(n: int)
    ensures
        forall|k: int| 0 <= k < signed_decimal(n).len() ==> signed_decimal(n)[k] != ':',
{
    if n >= 0 {
        decimal_spells_its_number(n as nat);
        assert forall|k: int| 0 <= k < signed_decimal(n).len() implies signed_decimal(n)[k] != ':' by {
            assert(is_digit(signed_decimal(n)[k]));
        }
    } else {
        decimal_spells_its_number((-n) as nat);
        let d = crate::text::decimal((-n) as nat);
        assert forall|k: int| 0 <= k < signed_decimal(n).len() implies signed_decimal(n)[k] != ':' by {
            if k > 0 {
                assert(signed_decimal(n)[k] == d[k - 1]);
                assert(is_digit(d[k - 1]));
            }
        }
    }
}

proof fn lemma_press_reads_back(action: Seq<char>, id: i64)
    requires
        action == "approve"@ || action == "deny"@,
    ensures
        button_press(button_id(action, id)) == Some((action_status(action)->0, id)),
        action_status(action) is Some,
{
    reveal_strlit("fullmap-request");
    reveal_strlit("fullmap-request:");
    reveal_strlit("approve");
    reveal_strlit("deny");
    reveal_strlit(":");
    let digits = signed_decimal(id as int);
    let whole = button_id(action, id);
    let prefix = "fullmap-request"@;
    assert(whole.take(prefix.len() as int) =~= prefix);
    let rest0 = whole.skip(prefix.len() as int);
    assert(rest0 =~= seq![':'] + action + seq![':'] + digits);
    assert(rest0[0] == ':');
    assert(rest0[1] != ':');
    assert(colons_end(rest0, 1) == 1);
    assert(colons_end(rest0, 0) == 1);
    let rest = rest0.skip(1);
    assert(rest =~= action + seq![':'] + digits);
    let n = action.len() as int;
    assert forall|k: int| 0 <= k < n implies rest[k] != ':' by {
        assert(rest[k] == action[k]);
    }
    assert(rest[n] == ':');
    assert(colon_from(rest, n) == Some(n));
    lemma_colon_run(rest, n, n);
    assert(colon_from(rest, 0) == Some(n));
    assert(first_part(rest) =~= action);
    assert(rest.skip(n + 1) =~= digits);
    lemma_digits_have_no_colon(id as int);
    lemma_no_colon_from(digits, 0);
    assert(first_part(digits) == digits);
    signed_decimal_reads_back(id as int, i64::MIN as int, i64::MAX as int);
}

proof fn lemma_colon_run(s: Seq<char>, n: int, k: int)
    requires
        0 <= k <= n < s.len(),
        s[n] == ':',
        forall|j: int| 0 <= j < n ==> s[j] != ':',
    ensures
        colon_from(s, n - k) == Some(n),
    decreases k,
{
    if k > 0 {
        lemma_colon_run(s, n, k - 1);
    }
}

/// A review button reads back as the decision and request it was made for:
/// the id `review_buttons` writes is the one the press handler acts on.
pub proof fn buttons_read_back(id: i64)
    ensures
        button_press(button_id("approve"@, id)) == Some((RequestStatus::Approved, id)),
        button_press(button_id("deny"@, id)) == Some((RequestStatus::Denied, id)),
{
    reveal_strlit("approve");
    reveal_strlit("deny");
    lemma_press_reads_back("approve"@, id);
    lemma_press_reads_back("deny"@, id);
}

} // verus!

verus! {

// ---------------------------------------------------------------------------
// The request as the deciding owner sees it
// ---------------------------------------------------------------------------

/// The embed colour for a request's status: green once approved, red once
/// denied, amber otherwise.
pub open spec fn status_color(status: Seq<char>) -> (u8, u8, u8) {
    if status == status_text(RequestStatus::Approved) {
        (60u8, 180u8, 75u8)
    } else if status == status_text(RequestStatus::Denied) {
        (200u8, 60u8, 60u8)
    } else {
        (250u8, 190u8, 60u8)
    }
}

pub open spec fn request_title(id: i64, guild_name: Option<Seq<char>>) -> Seq<char> {
    match guild_name {
        Some(name) => "Full-map schedule request #"@ + signed_decimal(id as int) + " — "@ + name,
        None => "Full-map schedule request #"@ + signed_decimal(id as int),
    }
}

/// A free-text answer as a field, when there is anything in it.
pub open spec fn answer_field(name: Seq<char>, answer: Option<Seq<char>>) -> Seq<
    (Seq<char>, Seq<char>, bool),
> {
    match answer {
        Some(a) => if trim(a).len() > 0 {
            seq![(name, trim(a), false)]
        } else {
            Seq::empty()
        },
        None => Seq::empty(),
    }
}

/// The fields read when deciding, in order. The member count is stated as
/// context only, so it isn't mistaken for a threshold the bot applies.
pub open spec fn request_fields(request: FullMapRequest) -> Seq<(Seq<char>, Seq<char>, bool)> {
    seq![
        ("Server"@, "`"@ + signed_decimal(request.guild_id as int) + "`"@, true),
        ("Requested by"@, "<@"@ + signed_decimal(request.requested_by as int) + ">"@, true),
        ("Members (context only)"@, match request.member_count {
            Some(n) => signed_decimal(n as int),
            None => "unknown"@,
        }, true),
        ("Requested cadence"@, request.cadence@, false),
        ("Posting to"@, "<#"@ + signed_decimal(request.channel_id as int) + ">"@, true),
        ("Status"@, request.status@, true),
        ("Filed"@, "<t:"@ + signed_decimal(request.created_at as int) + ":R>"@, true),
    ] + answer_field("Use case"@, text_view(request.use_case)) + answer_field(
        "Expected audience"@,
        text_view(request.audience),
    ) + answer_field("Contact"@, text_view(request.contact)) + match request.reviewed_by {
        Some(r) => seq![("Decided by"@, "<@"@ + signed_decimal(r as int) + ">"@, false)],
        None => Seq::empty(),
    }
}

pub open spec fn request_shape(request: FullMapRequest, guild_name: Option<Seq<char>>) -> EmbedShape {
    EmbedShape {
        title: Some(request_title(request.id, guild_name)),
        color: status_color(request.status@),
        description: None,
        fields: request_fields(request),
        image: None,
        footer: None,
    }
}

fn wrapped(before: &str, n: i64, after: &str) -> (text: String)
    ensures
        text@ == before@ + signed_decimal(n as int) + after@,
{
    let mut out: Vec<char> = Vec::new();
    push_str(&mut out, before);
    push_signed_decimal(&mut out, n);
    push_str(&mut out, after);
    string_from_chars(&out)
}

fn push_answer(fields: &mut Vec<EmbedField>, name: &str, answer: &Option<String>)
    ensures
        field_views(final(fields)@) == field_views(old(fields)@) + answer_field(
            name@,
            text_view(*answer),
        ),
{
    match answer {
        Some(a) => {
            let trimmed = trim_chars(&chars_of(a.as_str()));
            if trimmed.len() > 0 {
                push_field(fields, String::from_str(name), string_from_chars(&trimmed), false);
                assert(field_views(fields@) =~= field_views(old(fields)@) + answer_field(
                    name@,
                    text_view(*answer),
                ));
            } else {
                assert(field_views(fields@) =~= field_views(old(fields)@) + answer_field(
                    name@,
                    text_view(*answer),
                ));
            }
        },
        None => {
            assert(field_views(fields@) =~= field_views(old(fields)@) + answer_field(
                name@,
                text_view(*answer),
            ));
        },
    }
}

/// What is needed to decide, and nothing that isn't.
pub fn request_embed(request: &FullMapRequest, guild_name: Option<&str>) -> (embed: Embed)
    ensures
        embed@ == request_shape(
            *request,
            match guild_name {
                Some(n) => Some(n@),
                None => None,
            },
        ),
{
    let mut title: Vec<char> = Vec::new();
    push_str(&mut title, "Full-map schedule request #");
    push_signed_decimal(&mut title, request.id);
    match guild_name {
        Some(name) => {
            push_str(&mut title, " — ");
            push_str(&mut title, name);
        },
        None => {},
    }
    let color = if str_eq(request.status.as_str(), RequestStatus::Approved.as_str()) {
        (60, 180, 75)
    } else if str_eq(request.status.as_str(), RequestStatus::Denied.as_str()) {
        (200, 60, 60)
    } else {
        (250, 190, 60)
    };
    let mut fields: Vec<EmbedField> = Vec::new();
    push_field(&mut fields, String::from_str("Server"), wrapped("`", request.guild_id, "`"), true);
    push_field(
        &mut fields,
        String::from_str("Requested by"),
        wrapped("<@", request.requested_by, ">"),
        true,
    );
    let members = match request.member_count {
        Some(n) => wrapped("", n as i64, ""),
        None => String::from_str("unknown"),
    };
    proof {
        reveal_strlit("");
        assert(request.member_count matches Some(n) ==> members@ =~= signed_decimal(n as int));
    }
    push_field(&mut fields, String::from_str("Members (context only)"), members, true);
    push_field(&mut fields, String::from_str("Requested cadence"), request.cadence.clone(), false);
    push_field(
        &mut fields,
        String::from_str("Posting to"),
        wrapped("<#", request.channel_id, ">"),
        true,
    );
    push_field(&mut fields, String::from_str("Status"), request.status.clone(), true);
    push_field(
        &mut fields,
        String::from_str("Filed"),
        wrapped("<t:", request.created_at, ":R>"),
        true,
    );
    let ghost fixed = field_views(fields@);
    push_answer(&mut fields, "Use case", &request.use_case);
    push_answer(&mut fields, "Expected audience", &request.audience);
    push_answer(&mut fields, "Contact", &request.contact);
    let ghost answered = field_views(fields@);
    match request.reviewed_by {
        Some(r) => {
            push_field(&mut fields, String::from_str("Decided by"), wrapped("<@", r, ">"), false);
        },
        None => {},
    }
    let embed = Embed {
        title: Some(string_from_chars(&title)),
        color,
        description: None,
        fields,
        image: None,
        footer: None,
    };
    assert(embed@.fields =~= request_fields(*request));
    embed
}

/// What the requesting server is told, in the channel it nominated for the
/// reports — never in a DM.
pub open spec fn decision_notice_text(request: FullMapRequest) -> Seq<char> {
    if request.status@ == status_text(RequestStatus::Approved) {
        "<@"@ + signed_decimal(request.requested_by as int)
            + "> — your request to schedule full-map reports here was **approved**. Set it up with `/schedule-report`."@
    } else {
        "<@"@ + signed_decimal(request.requested_by as int)
            + "> — your request to schedule full-map reports here wasn't approved this time. `/full-map` still renders the world map on demand, for free, as often as you like."@
    }
}

pub fn decision_notice(request: &FullMapRequest) -> (text: String)
    ensures
        text@ == decision_notice_text(*request),
{
    if str_eq(request.status.as_str(), RequestStatus::Approved.as_str()) {
        wrapped(
            "<@",
            request.requested_by,
            "> — your request to schedule full-map reports here was **approved**. Set it up with `/schedule-report`.",
        )
    } else {
        wrapped(
            "<@",
            request.requested_by,
            "> — your request to schedule full-map reports here wasn't approved this time. `/full-map` still renders the world map on demand, for free, as often as you like.",
        )
    }
}

// ---------------------------------------------------------------------------
// Who may decide, and where requests are posted
// ---------------------------------------------------------------------------

/// May this user decide requests? The application's owner, or a member of
/// its team — never "an administrator of the server this ran in", because a
/// decision reads other servers' answers and can grant recurring load.
pub fn is_reviewer(owner: Option<u64>, team: Option<&[u64]>, user: u64) -> (allowed: bool)
    ensures
        allowed == (owner == Some(user) || (team matches Some(members) && members@.contains(user))),
{
    if let Some(o) = owner {
        if o == user {
            return true;
        }
    }
    match team {
        Some(members) => {
            let mut i: usize = 0;
            while i < members.len()
                invariant
                    i <= members@.len(),
                    team == Some(members),
                    forall|k: int| 0 <= k < i ==> members@[k] != user,
                decreases members.len() - i,
            {
                if members[i] == user {
                    assert(members@[i as int] == user);
                    assert(members@.contains(user));
                    return true;
                }
                i += 1;
            }
            false
        },
        None => false,
    }
}

/// Where new requests are posted for review, as configured.
pub enum RequestsChannel {
    /// Not configured: review happens through `/full-map-requests` only.
    Unset,
    /// Configured, but not a number: treated as unset, with a warning.
    Invalid,
    Channel(u64),
}

/// Reads the configured channel id, trimmed, as `str::parse::<u64>` reads it.
pub fn requests_channel(raw: Option<&str>) -> (channel: RequestsChannel)
    ensures
        match raw {
            None => channel is Unset,
            Some(text) => match parse_unsigned(trim(text@), u64::MAX as int) {
                Some(id) => channel == RequestsChannel::Channel(id as u64),
                None => channel is Invalid,
            },
        },
{
    match raw {
        None => RequestsChannel::Unset,
        Some(text) => {
            let trimmed = trim_chars(&chars_of(text));
            match parse_u64(&trimmed) {
                Some(id) => RequestsChannel::Channel(id),
                None => RequestsChannel::Invalid,
            }
        },
    }
}

// ---------------------------------------------------------------------------
// Answering a press
// ---------------------------------------------------------------------------

/// What the press handler says, other than the decided request itself.
pub const NOT_A_REVIEWER: &'static str = "Only the bot's owner or its team can decide these requests.";
pub const NOT_RECORDED: &'static str = "Couldn't record that. Nothing changed.";
pub const ALREADY_DECIDED: &'static str = "That request has already been decided by someone else.";

/// What a press leads to, once it is known to be one of ours.
pub enum PressOutcome {
    /// Reply to the presser only, with this text.
    Reply(&'static str),
    /// Redraw the post with the decided request, and tell the requester.
    Decided,
}

/// The answer to a press: anyone who may not decide is refused, a decision that couldn't
/// be stored changes nothing, and a request someone else decided first is
/// not overturned.
pub fn press_outcome(allowed: bool, recorded: Option<bool>) -> (outcome: PressOutcome)
    ensures
        !allowed ==> outcome == PressOutcome::Reply(NOT_A_REVIEWER),
        allowed && recorded is None ==> outcome == PressOutcome::Reply(NOT_RECORDED),
        allowed && recorded == Some(false) ==> outcome == PressOutcome::Reply(ALREADY_DECIDED),
        allowed && recorded == Some(true) ==> outcome is Decided,
{
    if !allowed {
        return PressOutcome::Reply(NOT_A_REVIEWER);
    }
    match recorded {
        None => PressOutcome::Reply(NOT_RECORDED),
        Some(false) => PressOutcome::Reply(ALREADY_DECIDED),
        Some(true) => PressOutcome::Decided,
    }
}

} // verus!

verus! {

// ---------------------------------------------------------------------------
// `/full-map-requests`, the fallback review surface
// ---------------------------------------------------------------------------

/// At most this many requests are shown at once: Discord caps a message at
/// ten embeds.
pub const LIST_LIMIT: usize = 10;

pub const NOTHING_WAITING: &'static str = "Nothing waiting for review.";

/// The line above the listed requests.
pub fn waiting_line(count: u64) -> (text: String)
    ensures
        text@ == crate::text::decimal(count as nat) + " request(s) waiting."@,
{
    let mut out: Vec<char> = Vec::new();
    crate::text::push_decimal(&mut out, count);
    push_str(&mut out, " request(s) waiting.");
    string_from_chars(&out)
}

/// The reply to a decision that landed: the request and its new status.
pub fn decided_reply(id: i64, status: &str) -> (text: String)
    ensures
        text@ == "Request #"@ + signed_decimal(id as int) + " "@ + status@ + "."@,
{
    let mut out: Vec<char> = Vec::new();
    push_str(&mut out, "Request #");
    push_signed_decimal(&mut out, id);
    push_str(&mut out, " ");
    push_str(&mut out, status);
    push_str(&mut out, ".");
    string_from_chars(&out)
}

/// The reply when nothing was decided: the request was settled already (its
/// status, when it exists), so a second decision doesn't land on the first.
pub fn undecided_reply(id: i64, known_status: Option<&str>) -> (text: String)
    ensures
        text@ == match known_status {
            Some(s) => "Request #"@ + signed_decimal(id as int) + " was already **"@ + s@
                + "**. Nothing changed."@,
            None => "No request #"@ + signed_decimal(id as int) + "."@,
        },
{
    match known_status {
        Some(s) => {
            let mut out: Vec<char> = Vec::new();
            push_str(&mut out, "Request #");
            push_signed_decimal(&mut out, id);
            push_str(&mut out, " was already **");
            push_str(&mut out, s);
            push_str(&mut out, "**. Nothing changed.");
            string_from_chars(&out)
        },
        None => wrapped("No request #", id, "."),
    }
}

pub const NOT_A_SERVER_ID: &'static str = "That isn't a server id — it should be a long number.";
pub const NEVER_SET_UP: &'static str = "No server with that id has ever set this bot up.";
pub const NOTHING_TO_WITHDRAW: &'static str = "That server isn't approved, so there's nothing to withdraw.";

/// The server id typed into `revoke`, trimmed, read as `str::parse::<i64>`.
pub fn revoke_target(raw: &str) -> (id: Option<i64>)
    ensures
        match parse_signed(trim(raw@), i64::MIN as int, i64::MAX as int) {
            Some(v) => id == Some(v as i64),
            None => id is None,
        },
{
    let trimmed = trim_chars(&chars_of(raw));
    parse_i64(&trimmed)
}

/// Said once an approval is withdrawn: what happens to the server's
/// schedules, and that approving again resumes them.
pub fn withdrawn_reply(guild_id: i64) -> (text: String)
    ensures
        text@ == "Approval withdrawn for `"@ + signed_decimal(guild_id as int)
            + "`. Any full-map schedule it has goes dormant at its next tick — paused, not deleted — and the channel is told once. Approving it again resumes the schedule as it was."@,
{
    wrapped(
        "Approval withdrawn for `",
        guild_id,
        "`. Any full-map schedule it has goes dormant at its next tick — paused, not deleted — and the channel is told once. Approving it again resumes the schedule as it was.",
    )
}

} // verus!
