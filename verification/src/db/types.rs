//! The rows made from what Telegram sends.
use vstd::prelude::*;
use crate::types::TelegramUser;

verus! {

/// A user row to insert.
pub struct NewUser {
    pub user_id: i64,
    pub username: Option<String>,
    pub firstname: String,
    pub lastname: Option<String>,
}

impl From<TelegramUser> for NewUser {
    /// The row of a Telegram user: its id, username and names.
    fn from(value: TelegramUser) -> (row: NewUser)
        ensures
            row == (NewUser {
                user_id: value.id as i64,
                username: value.username,
                firstname: value.first_name,
                lastname: value.last_name,
            }),
    {
        NewUser {
            user_id: value.id as i64,
            username: value.username,
            firstname: value.first_name,
            lastname: value.last_name,
        }
    }
}

impl vstd::std_specs::convert::FromSpecImpl<TelegramUser> for NewUser {
    open spec fn obeys_from_spec() -> bool {
        true
    }

    open spec fn from_spec(value: TelegramUser) -> NewUser {
        NewUser {
            user_id: value.id as i64,
            username: value.username,
            firstname: value.first_name,
            lastname: value.last_name,
        }
    }
}

/// What a message that carries a photo tells.
pub struct PhotoMessage {
    /// The user who sent it, where known.
    pub sender: Option<u64>,
    /// The file ids of the photo's sizes, smallest first.
    pub photo_file_ids: Vec<String>,
}

/// A meme row to insert.
pub struct NewMeme {
    pub user_id: i64,
    pub photo_id: String,
}

impl NewMeme {
    /// The row of a photo message: its sender and the file id of the
    /// photo's first size.
    pub fn from_message(value: PhotoMessage) -> (row: NewMeme)
        requires
            value.sender is Some,
            value.photo_file_ids.len() > 0,
        ensures
            row.user_id == value.sender.unwrap() as i64,
            row.photo_id@ == value.photo_file_ids@[0]@,
    {
        NewMeme {
            user_id: value.sender.unwrap() as i64,
            photo_id: value.photo_file_ids[0].clone(),
        }
    }
}

} // verus!
