use memebot::app::{Application, Config};

#[test]
fn application_keeps_its_version() {
    let app = Application::new(Config { db_url: "postgres://localhost/memes".to_string(), version: "1.4.2".to_string() });
    assert_eq!(app.version(), "1.4.2");
}

#[test]
fn application_with_default_version_text() {
    let app = Application::new(Config { db_url: String::new(), version: "unknown".to_string() });
    assert_eq!(app.version(), "unknown");
}
