//! Who may put a full-map report on a timer.
//!
//! Today the answer is one boolean on the guild row, and this module exists so
//! that stays true of *one* place. The rule is asked at two points that must
//! never drift apart — when a schedule is created, and at every tick of an
//! existing one — and the second is the one that matters: an approval that
//! can be granted but not revoked isn't a gate.
use vstd::prelude::*;

use crate::db::GuildData;

verus! {

/// The seam an entitlement source plugs into. If something ever replaces the
/// flag, it is written here and the callers don't move.
pub trait FullMapScheduling {
    /// May this guild run a *scheduled* full-map report right now?
    ///
    /// Rendering the full map on demand never asks at all — that path is free
    /// for everyone.
    fn is_allowed(&self, guild: &GuildData) -> bool;
}

/// The shipped rule: the owner approved this guild's request, and hasn't
/// taken it back.
pub struct ApprovalFlag;

impl FullMapScheduling for ApprovalFlag {
    fn is_allowed(&self, guild: &GuildData) -> (allowed: bool)
        ensures
            allowed == guild.full_map_approved,
    {
        guild.full_map_approved
    }
}

/// The rule in force. Every caller goes through this rather than naming an
/// implementation, so swapping the source is a one-line change.
pub fn scheduling() -> (rule: ApprovalFlag) {
    ApprovalFlag
}

} // verus!
