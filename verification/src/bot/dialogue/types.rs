//! What the moderator's open dialogues remember between messages.
use vstd::prelude::*;

verus! {

/// A ban in progress: the user to be banned and, once given, the reason.
#[derive(Clone, Debug)]
pub struct BanUser {
    pub user_id: i64,
    pub reason: Option<String>,
}

impl Default for BanUser {
    fn default() -> (b: BanUser)
        ensures
            b.user_id == 0,
            b.reason is None,
    {
        BanUser { user_id: 0, reason: None }
    }
}

/// A decline in progress: the photo to be declined and, once given, the reason.
#[derive(Clone, Debug)]
pub struct DeclinePhoto {
    /// The photo's id (a UUID, by its 128-bit big-endian value).
    pub photo_id: u128,
    pub reason: Option<String>,
}

impl Default for DeclinePhoto {
    fn default() -> (d: DeclinePhoto)
        ensures
            d.photo_id == 0,
            d.reason is None,
    {
        DeclinePhoto { photo_id: 0, reason: None }
    }
}

} // verus!
