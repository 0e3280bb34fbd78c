//! The four values that the relay is configured with.

use vstd::prelude::*;

verus! {

/// The configuration of a relay: loaded once, never changed.
#[derive(Clone, Debug, PartialEq, Eq)]
pub struct Secrets {
    /// The host name of the server whose stream is read.
    pub host: String,
    /// The token that authenticates the stream connection.
    pub token: String,
    /// The identifier of the author whose posts are forwarded.
    pub target_user_id: String,
    /// The address that payloads are posted to.
    pub webhook_url: String,
}

/// The configuration as plain text values.
pub struct SecretsView {
    pub host: Seq<char>,
    pub token: Seq<char>,
    pub target_user_id: Seq<char>,
    pub webhook_url: Seq<char>,
}

impl View for Secrets {
    type V = SecretsView;

    open spec fn view(&self) -> SecretsView {
        SecretsView {
            host: self.host@,
            token: self.token@,
            target_user_id: self.target_user_id@,
            webhook_url: self.webhook_url@,
        }
    }
}

/// A configuration value that was not given.
#[derive(Clone, Copy, Debug, PartialEq, Eq)]
pub enum MissingSecret {
    Host,
    Token,
    TargetUserId,
    WebhookUrl,
}

/// The key under which a configuration value is stored.
pub open spec fn key_text(which: MissingSecret) -> Seq<char> {
    match which {
        MissingSecret::Host => "MISSKEY_HOST"@,
        MissingSecret::Token => "MISSKEY_TOKEN"@,
        MissingSecret::TargetUserId => "TARGET_USER_ID"@,
        MissingSecret::WebhookUrl => "DISCORD_WEBHOOK_URL"@,
    }
}

/// The first of host, token, target author and webhook address, in this
/// order, that is absent.
pub open spec fn first_missing(
    host: Option<String>,
    token: Option<String>,
    target_user_id: Option<String>,
    webhook_url: Option<String>,
) -> Option<MissingSecret> {
    if host is None {
        Some(MissingSecret::Host)
    } else if token is None {
        Some(MissingSecret::Token)
    } else if target_user_id is None {
        Some(MissingSecret::TargetUserId)
    } else if webhook_url is None {
        Some(MissingSecret::WebhookUrl)
    } else {
        None
    }
}

impl MissingSecret {
    /// The key under which the missing value is looked up.
    pub fn key(&self) -> (key: &'static str)
        ensures
            key@ == key_text(*self),
    {
        match self {
            MissingSecret::Host => "MISSKEY_HOST",
            MissingSecret::Token => "MISSKEY_TOKEN",
            MissingSecret::TargetUserId => "TARGET_USER_ID",
            MissingSecret::WebhookUrl => "DISCORD_WEBHOOK_URL",
        }
    }

    /// The message that reports the missing value: its key, followed by
    /// `" must be set"`.
    pub fn message(&self) -> (message: String)
        ensures
            message@ == key_text(*self) + " must be set"@,
    {
        let mut message = String::from_str(self.key());
        message.append(" must be set");
        message
    }
}

impl Secrets {
    /// Builds the configuration from the four looked-up values.
    ///
    /// Succeeds exactly when all four are present, and then holds them
    /// unchanged. Otherwise the error names the first absent one, in the
    /// order host, token, target author, webhook address.
    pub fn load(
        host: Option<String>,
        token: Option<String>,
        target_user_id: Option<String>,
        webhook_url: Option<String>,
    ) -> (r: Result<Secrets, MissingSecret>)
        ensures
            match r {
                Ok(secrets) => {
                    &&& host == Some(secrets.host)
                    &&& token == Some(secrets.token)
                    &&& target_user_id == Some(secrets.target_user_id)
                    &&& webhook_url == Some(secrets.webhook_url)
                },
                Err(missing) => first_missing(host, token, target_user_id, webhook_url) == Some(
                    missing,
                ),
            },
    {
        let host = match host {
            Some(host) => host,
            None => {
                return Err(MissingSecret::Host);
            },
        };
        let token = match token {
            Some(token) => token,
            None => {
                return Err(MissingSecret::Token);
            },
        };
        let target_user_id = match target_user_id {
            Some(target_user_id) => target_user_id,
            None => {
                return Err(MissingSecret::TargetUserId);
            },
        };
        let webhook_url = match webhook_url {
            Some(webhook_url) => webhook_url,
            None => {
                return Err(MissingSecret::WebhookUrl);
            },
        };
        Ok(Secrets { host, token, target_user_id, webhook_url })
    }
}

} // verus!
