use note_relay::secrets::{MissingSecret, Secrets};

fn some(text: &str) -> Option<String> {
    Some(String::from(text))
}

#[test]
fn load_holds_the_four_values() {
    assert_eq!(
        Secrets::load(some("misskey.io"), some("tok"), some("U1"), some("https://hook")),
        Ok(Secrets {
            host: String::from("misskey.io"),
            token: String::from("tok"),
            target_user_id: String::from("U1"),
            webhook_url: String::from("https://hook"),
        })
    );
}

#[test]
fn load_accepts_empty_values() {
    assert!(Secrets::load(some(""), some(""), some(""), some("")).is_ok());
}

#[test]
fn load_names_the_missing_value() {
    assert_eq!(Secrets::load(None, some("t"), some("u"), some("w")), Err(MissingSecret::Host));
    assert_eq!(Secrets::load(some("h"), None, some("u"), some("w")), Err(MissingSecret::Token));
    assert_eq!(
        Secrets::load(some("h"), some("t"), None, some("w")),
        Err(MissingSecret::TargetUserId)
    );
    assert_eq!(
        Secrets::load(some("h"), some("t"), some("u"), None),
        Err(MissingSecret::WebhookUrl)
    );
}

#[test]
fn load_names_the_first_of_several_missing_values() {
    assert_eq!(Secrets::load(None, None, None, None), Err(MissingSecret::Host));
    assert_eq!(Secrets::load(some("h"), None, None, None), Err(MissingSecret::Token));
    assert_eq!(Secrets::load(some("h"), None, some("u"), None), Err(MissingSecret::Token));
    assert_eq!(Secrets::load(some("h"), some("t"), None, None), Err(MissingSecret::TargetUserId));
    assert_eq!(Secrets::load(None, some("t"), some("u"), None), Err(MissingSecret::Host));
}

#[test]
fn missing_secret_names_its_key() {
    assert_eq!(MissingSecret::Host.key(), "MISSKEY_HOST");
    assert_eq!(MissingSecret::Token.key(), "MISSKEY_TOKEN");
    assert_eq!(MissingSecret::TargetUserId.key(), "TARGET_USER_ID");
    assert_eq!(MissingSecret::WebhookUrl.key(), "DISCORD_WEBHOOK_URL");
}

#[test]
fn missing_secret_says_what_must_be_set() {
    assert_eq!(MissingSecret::Host.message(), "MISSKEY_HOST must be set");
    assert_eq!(MissingSecret::Token.message(), "MISSKEY_TOKEN must be set");
    assert_eq!(MissingSecret::TargetUserId.message(), "TARGET_USER_ID must be set");
    assert_eq!(MissingSecret::WebhookUrl.message(), "DISCORD_WEBHOOK_URL must be set");
}
