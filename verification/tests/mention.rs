use memebot::types::{html_link, mention, CanMention, StoredUser, TelegramUser};

#[test]
fn stored_user_with_username_is_mentioned() {
    let user = StoredUser { user_id: 5, username: Some(String::from("bob")), firstname: String::from("Bob") };
    assert_eq!(user.mention_or_url(), "@bob");
}

#[test]
fn stored_user_without_username_is_linked_by_id() {
    let user = StoredUser { user_id: 123456, username: None, firstname: String::from("Боб") };
    assert_eq!(user.mention_or_url(), "<a href=\"tg://user/?id=123456\">Боб</a>");
    let negative = StoredUser { user_id: -7, username: None, firstname: String::from("X") };
    assert_eq!(negative.mention_or_url(), "<a href=\"tg://user/?id=-7\">X</a>");
}

#[test]
fn telegram_user_with_username_is_mentioned() {
    let user = TelegramUser {
        id: 1,
        first_name: String::from("Ann"),
        last_name: None,
        username: Some(String::from("ann")),
    };
    assert_eq!(user.mention_or_url(), "@ann");
}

#[test]
fn telegram_user_without_username_is_linked_by_url() {
    let user = TelegramUser { id: 17, first_name: String::from("Ann"), last_name: None, username: None };
    assert_eq!(user.mention_or_url(), "<a href=\"tg://user/?id=17\">Ann</a>");
}

#[test]
fn mention_and_link_pieces() {
    assert_eq!(mention("x"), "@x");
    assert_eq!(html_link("https://t.me/x", "X"), "<a href=\"https://t.me/x\">X</a>");
}
