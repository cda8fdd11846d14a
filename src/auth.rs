use vstd::prelude::*;

use crate::date::get_local_now_formatted;

verus! {

/// Whether the bot has found the channel it signed in for.
#[derive(Debug)]
pub enum ChannelDetails {
    Connected { channel_id: String },
    Disconnected,
}

impl Default for ChannelDetails {
    fn default() -> (r: Self)
        ensures
            r is Disconnected,
    {
        ChannelDetails::Disconnected
    }
}

/// What a successful sign-in with the chat service gives.
#[derive(Debug)]
pub struct AuthenticationDetails {
    pub access_token: String,
    pub client_id: String,
    pub login: String,
    pub expires_in: i64,
    pub channel_details: ChannelDetails,
}

impl AuthenticationDetails {
    pub fn set_channel_details(&mut self, channel_details: ChannelDetails)
        ensures
            final(self).channel_details == channel_details,
            final(self).access_token == old(self).access_token,
            final(self).client_id == old(self).client_id,
            final(self).login == old(self).login,
            final(self).expires_in == old(self).expires_in,
    {
        self.channel_details = channel_details;
    }
}

/// The bot's sign-in state.
#[derive(Debug)]
pub enum Authentication {
    Valid { details: AuthenticationDetails, last_validated: Option<String> },
    /// Probably invalid because the user disconnected the bot from their account.
    Invalid { reason: String },
    NotSignedIn,
}

impl Default for Authentication {
    fn default() -> (r: Self)
        ensures
            r is NotSignedIn,
    {
        Authentication::NotSignedIn
    }
}

/// Why a sign-in could not be checked.
#[derive(Debug)]
pub enum AuthenticationError {
    ParsingError(String),
}

/// The reason given when a builder lacks a part.
pub open spec fn incomplete_reason() -> Seq<char> {
    "Not all data available"@
}

/// Gathers the parts of a sign-in one by one.
#[derive(Debug)]
pub struct AuthenticationBuilder {
    access_token: Option<String>,
    client_id: Option<String>,
    login: Option<String>,
    expires_in: Option<i64>,
}

/// The parts gathered so far: access token, client id, login, lifetime.
pub struct BuilderParts {
    pub access_token: Option<Seq<char>>,
    pub client_id: Option<Seq<char>>,
    pub login: Option<Seq<char>>,
    pub expires_in: Option<i64>,
}

pub open spec fn text_of(s: Option<String>) -> Option<Seq<char>> {
    match s {
        Some(t) => Some(t@),
        None => None,
    }
}

impl View for AuthenticationBuilder {
    type V = BuilderParts;

    closed spec fn view(&self) -> BuilderParts {
        BuilderParts {
            access_token: text_of(self.access_token),
            client_id: text_of(self.client_id),
            login: text_of(self.login),
            expires_in: self.expires_in,
        }
    }
}

fn copy_text(s: &Option<String>) -> (r: Option<String>)
    ensures
        text_of(r) == text_of(*s),
{
    match s {
        Some(t) => Some(t.clone()),
        None => None,
    }
}

impl AuthenticationBuilder {
    /// A builder with no parts.
    pub fn new() -> (r: AuthenticationBuilder)
        ensures
            r@ == (BuilderParts { access_token: None, client_id: None, login: None, expires_in: None }),
    {
        AuthenticationBuilder { access_token: None, client_id: None, login: None, expires_in: None }
    }

    pub fn access_token(&mut self, access_token: String)
        ensures
            final(self)@ == (BuilderParts { access_token: Some(access_token@), ..old(self)@ }),
    {
        self.access_token = Some(access_token);
    }

    pub fn client_id(&mut self, client_id: String)
        ensures
            final(self)@ == (BuilderParts { client_id: Some(client_id@), ..old(self)@ }),
    {
        self.client_id = Some(client_id);
    }

    pub fn login(&mut self, login: String)
        ensures
            final(self)@ == (BuilderParts { login: Some(login@), ..old(self)@ }),
    {
        self.login = Some(login);
    }

    pub fn expires_in(&mut self, expires_in: i64)
        ensures
            final(self)@ == (BuilderParts { expires_in: Some(expires_in), ..old(self)@ }),
    {
        self.expires_in = Some(expires_in);
    }

    /// A valid sign-in, not yet tied to a channel and validated now, when every
    /// part is present; otherwise an invalid one that says parts are missing.
    pub fn build(&self) -> (r: Authentication)
        ensures
            (self@.access_token is Some && self@.client_id is Some && self@.login is Some
                && self@.expires_in is Some) ==> (r matches Authentication::Valid {
                details,
                last_validated,
            } && details.access_token@ == self@.access_token->0 && details.client_id@
                == self@.client_id->0 && details.login@ == self@.login->0 && details.expires_in
                == self@.expires_in->0 && details.channel_details is Disconnected
                && last_validated is Some),
            !(self@.access_token is Some && self@.client_id is Some && self@.login is Some
                && self@.expires_in is Some) ==> (r matches Authentication::Invalid { reason }
                && reason@ == incomplete_reason()),
    {
        match (&self.access_token, &self.client_id, &self.login, self.expires_in) {
            (Some(access_token), Some(client_id), Some(login), Some(expires_in)) => {
                Authentication::Valid {
                    details: AuthenticationDetails {
                        access_token: access_token.clone(),
                        client_id: client_id.clone(),
                        login: login.clone(),
                        expires_in,
                        channel_details: ChannelDetails::Disconnected,
                    },
                    last_validated: Some(get_local_now_formatted()),
                }
            },
            _ => {
                proof {
                    reveal_strlit("Not all data available");
                }
                Authentication::Invalid { reason: String::from_str("Not all data available") }
            },
        }
    }
}

} // verus!
