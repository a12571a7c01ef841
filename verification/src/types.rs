//! How the bot names users in its messages.
use vstd::prelude::*;
use crate::text::{i64_to_decimal, signed_decimal};

verus! {

/// Something the bot can name in a message: by an `@username` mention where
/// the user has a username, else by an HTML link to the user.
pub trait CanMention {
    fn mention_or_url(&self) -> String;
}

/// The text `@username`.
pub open spec fn mention_text(username: Seq<char>) -> Seq<char> {
    seq!['@'] + username
}

/// The HTML link `<a href="href">text</a>`.
pub open spec fn html_link_text(href: Seq<char>, text: Seq<char>) -> Seq<char> {
    "<a href=\""@ + href + "\">"@ + text + "</a>"@
}

/// The Telegram deep link to the user with the given id: `tg://user/?id=<id>`.
pub open spec fn user_link_text(id: int) -> Seq<char> {
    "tg://user/?id="@ + signed_decimal(id)
}

/// Renders `@username`.
pub fn mention(username: &str) -> (s: String)
    ensures
        s@ == mention_text(username@),
{
    proof {
        reveal_strlit("@");
    }
    let mut s = String::from_str("@");
    s.append(username);
    s
}

/// Renders the HTML link `<a href="href">text</a>`.
pub fn html_link(href: &str, text: &str) -> (s: String)
    ensures
        s@ == html_link_text(href@, text@),
{
    let mut s = String::from_str("<a href=\"");
    s.append(href);
    s.append("\">");
    s.append(text);
    s.append("</a>");
    s
}

/// A user as stored in the bot's database.
pub struct StoredUser {
    pub user_id: i64,
    pub username: Option<String>,
    pub firstname: String,
}

impl CanMention for StoredUser {
    /// `@username` where the user has a username, else a link to the user
    /// by id, showing the first name.
    fn mention_or_url(&self) -> (s: String)
        ensures
            s@ == match self.username {
                Some(u) => mention_text(u@),
                None => html_link_text(user_link_text(self.user_id as int), self.firstname@),
            },
    {
        match &self.username {
            Some(u) => mention(u.as_str()),
            None => {
                let mut href = String::from_str("tg://user/?id=");
                let id = i64_to_decimal(self.user_id);
                href.append(id.as_str());
                html_link(href.as_str(), self.firstname.as_str())
            },
        }
    }
}

/// The link to a Telegram user that teloxide's `UserId::url` gives, rendered
/// as text. Its documentation gives the form `tg://user/?id=<id>`, and the
/// contract states that text.
#[verifier::external_body]
fn user_url(id: u64) -> (url: String)
    ensures
        url@ == user_link_text(id as int),
{
    teloxide::types::UserId(id).url().to_string()
}

/// A Telegram user, as the bot receives it with an update.
pub struct TelegramUser {
    pub id: u64,
    pub first_name: String,
    pub last_name: Option<String>,
    pub username: Option<String>,
}

impl CanMention for TelegramUser {
    /// `@username` where the user has a username, else a link to the
    /// user's Telegram URL (`tg://user/?id=<id>`), showing the first name.
    fn mention_or_url(&self) -> (s: String)
        ensures
            s@ == match self.username {
                Some(u) => mention_text(u@),
                None => html_link_text(user_link_text(self.id as int), self.first_name@),
            },
    {
        match &self.username {
            Some(u) => mention(u.as_str()),
            None => {
                let url = user_url(self.id);
                html_link(url.as_str(), self.first_name.as_str())
            },
        }
    }
}

} // verus!
