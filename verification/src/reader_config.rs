//! What the reading side is configured with: where the analysis is asked
//! for, and how the digest is sent.

use vstd::prelude::*;
use vstd::string::StringExecFns;

verus! {

/// How the digest is sent, and to whom.
#[derive(Debug)]
pub struct EmailConfig {
    sender_email: String,
    receiver_email: String,
    app_password: String,
    relay: String,
    name: String,
}

/// What an [`EmailConfig`] is to the contracts.
pub struct EmailConfigView {
    pub sender_email: Seq<char>,
    pub receiver_email: Seq<char>,
    pub app_password: Seq<char>,
    pub relay: Seq<char>,
    pub name: Seq<char>,
}

impl View for EmailConfig {
    type V = EmailConfigView;

    closed spec fn view(&self) -> EmailConfigView {
        EmailConfigView {
            sender_email: self.sender_email@,
            receiver_email: self.receiver_email@,
            app_password: self.app_password@,
            relay: self.relay@,
            name: self.name@,
        }
    }
}

impl EmailConfig {
    pub fn new(
        sender_email: String,
        receiver_email: String,
        app_password: String,
        relay: String,
        name: String,
    ) -> (config: EmailConfig)
        ensures
            config@ == (EmailConfigView {
                sender_email: sender_email@,
                receiver_email: receiver_email@,
                app_password: app_password@,
                relay: relay@,
                name: name@,
            }),
    {
        EmailConfig { sender_email, receiver_email, app_password, relay, name }
    }

    pub fn sender_email(&self) -> (r: &String)
        ensures
            r@ == self@.sender_email,
    {
        &self.sender_email
    }

    pub fn receiver_email(&self) -> (r: &String)
        ensures
            r@ == self@.receiver_email,
    {
        &self.receiver_email
    }

    pub fn app_password(&self) -> (r: &String)
        ensures
            r@ == self@.app_password,
    {
        &self.app_password
    }

    pub fn relay(&self) -> (r: &String)
        ensures
            r@ == self@.relay,
    {
        &self.relay
    }

    pub fn name(&self) -> (r: &String)
        ensures
            r@ == self@.name,
    {
        &self.name
    }
}

/// Something that an analysis can be asked of.
pub trait AIClientDetails {
    /// The address that requests go to.
    spec fn spec_endpoint(&self) -> Seq<char>;

    fn endpoint(&self) -> (r: &str)
        ensures
            r@ == self.spec_endpoint(),
    ;
}

/// The services that an analysis can be asked of.
#[derive(Clone, Copy, Debug, PartialEq, Eq, Structural)]
pub enum AIClient {
    OpenAI,
    Claude,
    Gemini,
}

impl AIClientDetails for AIClient {
    open spec fn spec_endpoint(&self) -> Seq<char> {
        match self {
            AIClient::OpenAI => "https://api.openai.com/v1/chat/completions"@,
            AIClient::Gemini => "https://generativelanguage.googleapis.com/v1/models"@,
            AIClient::Claude => "https://api.anthropic.com/v1/messages"@,
        }
    }

    fn endpoint(&self) -> (r: &str) {
        match self {
            AIClient::OpenAI => "https://api.openai.com/v1/chat/completions",
            AIClient::Gemini => "https://generativelanguage.googleapis.com/v1/models",
            AIClient::Claude => "https://api.anthropic.com/v1/messages",
        }
    }
}

/// Which service analyses, and the token that it wants to see.
#[derive(Debug)]
pub struct AIClientConfig {
    bearer_token: String,
    ai_client: AIClient,
}

/// What an [`AIClientConfig`] is to the contracts.
pub struct AIClientConfigView {
    pub bearer_token: Seq<char>,
    pub ai_client: AIClient,
}

impl View for AIClientConfig {
    type V = AIClientConfigView;

    closed spec fn view(&self) -> AIClientConfigView {
        AIClientConfigView { bearer_token: self.bearer_token@, ai_client: self.ai_client }
    }
}

impl Clone for AIClientConfig {
    fn clone(&self) -> (r: AIClientConfig)
        ensures
            r@ == self@,
    {
        AIClientConfig { bearer_token: self.bearer_token.clone(), ai_client: self.ai_client }
    }
}

impl AIClientConfig {
    pub fn new(bearer_token: String, ai_client: AIClient) -> (config: AIClientConfig)
        ensures
            config@ == (AIClientConfigView { bearer_token: bearer_token@, ai_client }),
    {
        AIClientConfig { bearer_token, ai_client }
    }

    pub fn bearer_token(&self) -> (r: &String)
        ensures
            r@ == self@.bearer_token,
    {
        &self.bearer_token
    }

    pub fn ai_client(&self) -> (r: &AIClient)
        ensures
            *r == self@.ai_client,
    {
        &self.ai_client
    }
}

/// What stands before the token where a service wants it announced.
pub const BEARER: &'static str = "Bearer ";

/// The token as the service wants to see it: one service takes it bare, the
/// others take it announced.
pub open spec fn presented_token(config: AIClientConfigView) -> Seq<char> {
    match config.ai_client {
        AIClient::Claude => config.bearer_token,
        _ => BEARER@ + config.bearer_token,
    }
}

/// The whole configuration of the reading side.
#[derive(Debug)]
pub struct Config {
    ai_client_config: AIClientConfig,
    email_config: EmailConfig,
}

impl Config {
    /// The analysis part, as it was configured.
    pub closed spec fn spec_ai_client_config(&self) -> AIClientConfigView {
        self.ai_client_config@
    }

    /// The digest part.
    pub closed spec fn spec_email_config(&self) -> EmailConfigView {
        self.email_config@
    }

    pub fn new(ai_client_config: AIClientConfig, email_config: EmailConfig) -> (config: Config)
        ensures
            config.spec_ai_client_config() == ai_client_config@,
            config.spec_email_config() == email_config@,
    {
        Config { ai_client_config, email_config }
    }

    /// The analysis part as it was configured, with the token bare.
    pub fn configured_ai_client(&self) -> (r: &AIClientConfig)
        ensures
            r@ == self.spec_ai_client_config(),
    {
        &self.ai_client_config
    }

    /// The analysis part, with the token as the service wants to see it.
    pub fn ai_client_config(&self) -> (r: AIClientConfig)
        ensures
            r@.ai_client == self.spec_ai_client_config().ai_client,
            r@.bearer_token == presented_token(self.spec_ai_client_config()),
    {
        let bearer_token = match self.ai_client_config.ai_client {
            AIClient::Claude => self.ai_client_config.bearer_token.clone(),
            _ => BEARER.to_owned().concat(self.ai_client_config.bearer_token.as_str()),
        };
        AIClientConfig { ai_client: self.ai_client_config.ai_client, bearer_token }
    }

    pub fn email_config(&self) -> (r: &EmailConfig)
        ensures
            r@ == self.spec_email_config(),
    {
        &self.email_config
    }
}

} // verus!
