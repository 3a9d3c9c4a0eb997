//! Credentials, and the first message of an authentication exchange sent
//! ahead of time with the handshake.

use crate::document::{Bson, BsonView, Document, DocumentView};
use crate::error::Error;
use crate::metadata::text_of;
use vstd::prelude::*;

verus! {

/// The ways of authenticating that a credential can name.
#[derive(Debug, Clone, Copy, PartialEq, Eq)]
pub enum AuthMechanism {
    MongoDbCr,
    ScramSha1,
    ScramSha256,
    MongoDbX509,
    Gssapi,
    Plain,
    MongoDbAws,
}

/// What a user presents to authenticate.
#[derive(Debug, PartialEq, Eq)]
pub struct Credential {
    pub username: Option<String>,
    /// The database that holds the user, where it is stated.
    pub source: Option<String>,
    pub password: Option<String>,
    pub mechanism: Option<AuthMechanism>,
    pub mechanism_properties: Option<Document>,
}

/// The mathematical value of a [`Credential`].
pub struct CredentialView {
    pub username: Option<Seq<char>>,
    pub source: Option<Seq<char>>,
    pub password: Option<Seq<char>>,
    pub mechanism: Option<AuthMechanism>,
    pub mechanism_properties: Option<DocumentView>,
}

impl View for Credential {
    type V = CredentialView;

    open spec fn view(&self) -> CredentialView {
        CredentialView {
            username: text_of(self.username),
            source: text_of(self.source),
            password: text_of(self.password),
            mechanism: self.mechanism,
            mechanism_properties: match self.mechanism_properties {
                Some(properties) => Some(properties@),
                None => None,
            },
        }
    }
}

impl Clone for Credential {
    fn clone(&self) -> (copy: Credential)
        ensures
            copy@ == self@,
    {
        Credential {
            username: self.username.clone(),
            source: self.source.clone(),
            password: self.password.clone(),
            mechanism: self.mechanism,
            mechanism_properties: match &self.mechanism_properties {
                Some(properties) => Some(properties.clone()),
                None => None,
            },
        }
    }
}

impl AuthMechanism {
    /// The database that holds the users of this mechanism where a credential
    /// names none: `admin` for the password mechanisms, `$external` for those
    /// that rely on an outside authority.
    pub open spec fn spec_default_source(self) -> Seq<char> {
        match self {
            AuthMechanism::MongoDbCr | AuthMechanism::ScramSha1 | AuthMechanism::ScramSha256 => "admin"@,
            AuthMechanism::MongoDbX509
            | AuthMechanism::Gssapi
            | AuthMechanism::Plain
            | AuthMechanism::MongoDbAws => "$external"@,
        }
    }

    /// The database that holds the users of this mechanism where a credential
    /// names none.
    pub fn default_source(self) -> (source: &'static str)
        ensures
            source@ == self.spec_default_source(),
    {
        match self {
            AuthMechanism::MongoDbCr | AuthMechanism::ScramSha1 | AuthMechanism::ScramSha256 => "admin",
            AuthMechanism::MongoDbX509
            | AuthMechanism::Gssapi
            | AuthMechanism::Plain
            | AuthMechanism::MongoDbAws => "$external",
        }
    }
}

impl CredentialView {
    /// The database to authenticate against: the stated source, else the
    /// mechanism's default, else `admin`.
    pub open spec fn resolved_source(self) -> Seq<char> {
        match self.source {
            Some(source) => source,
            None => match self.mechanism {
                Some(mechanism) => mechanism.spec_default_source(),
                None => "admin"@,
            },
        }
    }

    /// Whether the server is asked which mechanisms the user may use: where
    /// the user is named and no mechanism is chosen yet.
    pub open spec fn needs_mechanism_negotiation(self) -> bool {
        self.username is Some && self.mechanism is None
    }

    /// The user as the negotiation hint names it: `SOURCE.USERNAME`.
    pub open spec fn negotiation_hint(self) -> Seq<char> {
        self.resolved_source() + seq!['.'] + self.username->0
    }

    /// `command` with the negotiation hint that this credential needs.
    pub open spec fn with_mechanism_negotiation(self, command: DocumentView) -> DocumentView {
        if self.needs_mechanism_negotiation() {
            command.insert("saslSupportedMechs"@, BsonView::String(self.negotiation_hint()))
        } else {
            command
        }
    }

    /// The mechanism whose first message may ride on the handshake: the one
    /// that the credential names, else SCRAM-SHA-256.
    pub open spec fn speculative_mechanism(self) -> AuthMechanism {
        match self.mechanism {
            Some(mechanism) => mechanism,
            None => AuthMechanism::ScramSha256,
        }
    }
}

impl Credential {
    /// The database to authenticate against.
    pub fn resolved_source(&self) -> (source: &str)
        ensures
            source@ == self@.resolved_source(),
    {
        match &self.source {
            Some(source) => source.as_str(),
            None => match self.mechanism {
                Some(mechanism) => mechanism.default_source(),
                None => "admin",
            },
        }
    }

    /// Asks the server, in `command`, which mechanisms the user may use,
    /// where the credential leaves the mechanism open.
    pub fn append_needed_mechanism_negotiation(&self, command: &mut Document)
        ensures
            final(command)@ == self@.with_mechanism_negotiation(old(command)@),
    {
        if let Some(username) = &self.username {
            if self.mechanism.is_none() {
                let mut hint = self.resolved_source().to_owned();
                hint.append(".");
                hint.append(username.as_str());
                proof {
                    reveal_strlit(".");
                    assert("."@ =~= seq!['.']);
                }
                command.insert("saslSupportedMechs".to_owned(), Bson::String(hint));
            }
        }
    }

    /// The mechanism whose first message may ride on the handshake.
    pub fn speculative_mechanism(&self) -> (mechanism: AuthMechanism)
        ensures
            mechanism == self@.speculative_mechanism(),
    {
        match self.mechanism {
            Some(mechanism) => mechanism,
            None => AuthMechanism::ScramSha256,
        }
    }
}

/// The first message of an authentication exchange, as the client sends it.
#[derive(Debug, PartialEq, Eq)]
pub struct ClientFirst {
    pub mechanism: AuthMechanism,
    pub message: Document,
}

/// The first message of an authentication exchange and the server's answer
/// to it: what the rest of the exchange goes on from.
#[derive(Debug, PartialEq, Eq)]
pub struct FirstRound {
    pub client_first: ClientFirst,
    pub server_first: Document,
}

/// The mathematical value of a [`ClientFirst`].
pub struct ClientFirstView {
    pub mechanism: AuthMechanism,
    pub message: DocumentView,
}

/// The mathematical value of a [`FirstRound`].
pub struct FirstRoundView {
    pub client_first: ClientFirstView,
    pub server_first: DocumentView,
}

impl View for ClientFirst {
    type V = ClientFirstView;

    open spec fn view(&self) -> ClientFirstView {
        ClientFirstView { mechanism: self.mechanism, message: self.message@ }
    }
}

impl View for FirstRound {
    type V = FirstRoundView;

    open spec fn view(&self) -> FirstRoundView {
        FirstRoundView { client_first: self.client_first@, server_first: self.server_first@ }
    }
}

impl ClientFirst {
    /// The message as a document.
    pub fn to_document(&self) -> (document: Document)
        ensures
            document@ == self@.message,
    {
        self.message.clone()
    }

    /// Pairs the message with the server's answer to it.
    pub fn into_first_round(self, server_first: Document) -> (round: FirstRound)
        ensures
            round.client_first == self,
            round.server_first == server_first,
    {
        FirstRound { client_first: self, server_first }
    }
}

/// What asking a mechanism for a first message comes to: a message, no
/// message where the mechanism cannot send one ahead of time, or an error
/// where the credential is not fit for the mechanism.
pub type SpeculativeAttempt = core::result::Result<Option<ClientFirst>, Error>;

/// The command body after an attempt: with the message filed under
/// `speculativeAuthenticate` where there is one, else as it was.
pub open spec fn with_speculative_auth(command: DocumentView, attempt: SpeculativeAttempt) -> DocumentView {
    match attempt {
        Ok(Some(client_first)) => command.insert(
            "speculativeAuthenticate"@,
            BsonView::Document(client_first@.message),
        ),
        _ => command,
    }
}

/// Files the first message of `attempt`, where it holds one, in `command`,
/// and hands the attempt on as it came.
pub fn attach_speculative_auth(command: &mut Document, attempt: SpeculativeAttempt) -> (outcome:
    SpeculativeAttempt)
    ensures
        outcome == attempt,
        final(command)@ == with_speculative_auth(old(command)@, attempt),
{
    match attempt {
        Ok(Some(client_first)) => {
            command.insert(
                "speculativeAuthenticate".to_owned(),
                Bson::Document(client_first.to_document()),
            );
            Ok(Some(client_first))
        },
        Ok(None) => Ok(None),
        Err(error) => Err(error),
    }
}

/// Updates the handshake command with the first message of the credential's
/// authentication exchange. Without a credential nothing is asked and nothing
/// changes. With one, `build` is asked for the first message of the
/// credential's mechanism (SCRAM-SHA-256 where it names none); what `build`
/// answers is handed back, and a message is filed in `command`.
pub fn set_speculative_auth_info<F>(
    command: &mut Document,
    credential: Option<&Credential>,
    build: F,
) -> (outcome: SpeculativeAttempt) where F: FnOnce(AuthMechanism, &Credential) -> SpeculativeAttempt
    requires
        credential matches Some(credential) ==> call_requires(
            build,
            (credential@.speculative_mechanism(), credential),
        ),
    ensures
        credential is None ==> outcome == SpeculativeAttempt::Ok(None) && *final(command) == *old(
            command,
        ),
        credential matches Some(credential) ==> call_ensures(
            build,
            (credential@.speculative_mechanism(), credential),
            outcome,
        ) && final(command)@ == with_speculative_auth(old(command)@, outcome),
{
    let credential = match credential {
        Some(credential) => credential,
        None => return Ok(None),
    };
    let mechanism = credential.speculative_mechanism();
    let attempt = build(mechanism, credential);
    attach_speculative_auth(command, attempt)
}

} // verus!
