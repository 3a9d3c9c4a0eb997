//! The handshake: the first command on a new connection, and what is made of
//! the server's answer to it.

use crate::auth::{
    set_speculative_auth_info, with_speculative_auth, AuthMechanism, ClientFirst, Credential,
    CredentialView, FirstRound, SpeculativeAttempt,
};
use crate::command::{
    declaration_of, is_master_command, is_master_command_name, lemma_command_key_lengths,
    lemma_is_master_command_keys, Command, CommandView, ServerApi,
};
use crate::document::{Bson, BsonView, Document, DocumentView};
use crate::error::{Error, ErrorKind, ErrorKindView, Result};
use crate::metadata::{
    lemma_identity_document, text_of, ClientMetadata, ClientMetadataView, DriverInfo,
    DriverInfoView,
};
use crate::reply::{Connection, IsMasterCommandResponse, IsMasterReply, StreamDescription};
use vstd::prelude::*;

verus! {

/// What a handshake takes from a configuration.
#[derive(Debug, PartialEq, Eq)]
pub struct HandshakerOptions {
    pub app_name: Option<String>,
    pub credential: Option<Credential>,
    pub driver_info: Option<DriverInfo>,
    pub server_api: Option<ServerApi>,
    pub load_balanced: bool,
}

/// The configuration of a connection pool, as far as a handshake reads it.
#[derive(Debug, PartialEq, Eq)]
pub struct ConnectionPoolOptions {
    pub app_name: Option<String>,
    pub credential: Option<Credential>,
    pub driver_info: Option<DriverInfo>,
    pub server_api: Option<ServerApi>,
    pub load_balanced: Option<bool>,
}

/// The configuration of a client, as far as a handshake reads it.
#[derive(Debug, PartialEq, Eq)]
pub struct ClientOptions {
    pub app_name: Option<String>,
    pub credential: Option<Credential>,
    pub driver_info: Option<DriverInfo>,
    pub server_api: Option<ServerApi>,
    pub load_balanced: Option<bool>,
}

impl From<ConnectionPoolOptions> for HandshakerOptions {
    fn from(options: ConnectionPoolOptions) -> (handshake: HandshakerOptions) {
        HandshakerOptions {
            app_name: options.app_name,
            credential: options.credential,
            driver_info: options.driver_info,
            server_api: options.server_api,
            load_balanced: match options.load_balanced {
                Some(load_balanced) => load_balanced,
                None => false,
            },
        }
    }
}

impl vstd::std_specs::convert::FromSpecImpl<ConnectionPoolOptions> for HandshakerOptions {
    open spec fn obeys_from_spec() -> bool {
        true
    }

    /// The same options, load balancing off where it was left unset.
    open spec fn from_spec(options: ConnectionPoolOptions) -> HandshakerOptions {
        HandshakerOptions {
            app_name: options.app_name,
            credential: options.credential,
            driver_info: options.driver_info,
            server_api: options.server_api,
            load_balanced: options.load_balanced == Some(true),
        }
    }
}

impl From<ClientOptions> for HandshakerOptions {
    fn from(options: ClientOptions) -> (handshake: HandshakerOptions) {
        HandshakerOptions {
            app_name: options.app_name,
            credential: options.credential,
            driver_info: options.driver_info,
            server_api: options.server_api,
            load_balanced: match options.load_balanced {
                Some(load_balanced) => load_balanced,
                None => false,
            },
        }
    }
}

impl vstd::std_specs::convert::FromSpecImpl<ClientOptions> for HandshakerOptions {
    open spec fn obeys_from_spec() -> bool {
        true
    }

    /// The same options, load balancing off where it was left unset.
    open spec fn from_spec(options: ClientOptions) -> HandshakerOptions {
        HandshakerOptions {
            app_name: options.app_name,
            credential: options.credential,
            driver_info: options.driver_info,
            server_api: options.server_api,
            load_balanced: options.load_balanced == Some(true),
        }
    }
}

/// The mathematical value of a [`HandshakerOptions`].
pub struct HandshakerOptionsView {
    pub app_name: Option<Seq<char>>,
    pub credential: Option<CredentialView>,
    pub driver_info: Option<DriverInfoView>,
    pub server_api: Option<ServerApi>,
    pub load_balanced: bool,
}

impl View for HandshakerOptions {
    type V = HandshakerOptionsView;

    open spec fn view(&self) -> HandshakerOptionsView {
        HandshakerOptionsView {
            app_name: text_of(self.app_name),
            credential: match self.credential {
                Some(credential) => Some(credential@),
                None => None,
            },
            driver_info: match self.driver_info {
                Some(info) => Some(info@),
                None => None,
            },
            server_api: self.server_api,
            load_balanced: self.load_balanced,
        }
    }
}

/// The options of a handshake for which nothing was configured.
pub open spec fn no_options() -> HandshakerOptionsView {
    HandshakerOptionsView {
        app_name: None,
        credential: None,
        driver_info: None,
        server_api: None,
        load_balanced: false,
    }
}

/// The view of optional options: nothing configured where there are none.
pub open spec fn options_of(options: Option<HandshakerOptions>) -> HandshakerOptionsView {
    match options {
        Some(options) => options@,
        None => no_options(),
    }
}

impl HandshakerOptionsView {
    /// The database that the handshake command is run against: the
    /// credential's, and `admin` without a credential.
    pub open spec fn target_db(self) -> Seq<char> {
        match self.credential {
            Some(credential) => credential.resolved_source(),
            None => "admin"@,
        }
    }

    /// The entry that asks the server for the user's mechanisms, where the
    /// credential needs it.
    pub open spec fn negotiation(self) -> Seq<(Seq<char>, BsonView)> {
        match self.credential {
            Some(credential) => if credential.needs_mechanism_negotiation() {
                seq![("saslSupportedMechs"@, BsonView::String(credential.negotiation_hint()))]
            } else {
                Seq::empty()
            },
            None => Seq::empty(),
        }
    }

    /// The entry that asks for load-balanced mode, where it is wanted.
    pub open spec fn load_balancing(self) -> Seq<(Seq<char>, BsonView)> {
        if self.load_balanced {
            seq![("loadBalanced"@, BsonView::Boolean(true))]
        } else {
            Seq::empty()
        }
    }

    /// The command that every handshake under these options starts from. Its
    /// body holds, in this order: the command's name, the API declaration,
    /// the mechanism negotiation, the load-balancing flag, and under `client`
    /// the identity `base` customized by these options.
    pub open spec fn template(self, base: ClientMetadataView) -> CommandView {
        CommandView {
            name: is_master_command_name(self.server_api),
            target_db: self.target_db(),
            body: DocumentView {
                entries: seq![(is_master_command_name(self.server_api), BsonView::Int32(1))]
                    + declaration_of(self.server_api) + self.negotiation() + self.load_balancing()
                    + seq![
                    (
                        "client"@,
                        BsonView::Document(
                            base.customize(self.app_name, self.driver_info).to_document(),
                        ),
                    ),
                ],
            },
        }
    }
}

/// Holds what every handshake of one configuration has in common: the
/// command to start from, and the credential.
#[derive(Debug, PartialEq, Eq)]
pub struct Handshaker {
    command: Command,
    credential: Option<Credential>,
}

/// The mathematical value of a [`Handshaker`].
pub struct HandshakerView {
    pub command: CommandView,
    pub credential: Option<CredentialView>,
}

impl View for Handshaker {
    type V = HandshakerView;

    closed spec fn view(&self) -> HandshakerView {
        HandshakerView {
            command: self.command@,
            credential: match self.credential {
                Some(credential) => Some(credential@),
                None => None,
            },
        }
    }
}

impl Clone for Handshaker {
    fn clone(&self) -> (copy: Handshaker)
        ensures
            copy@ == self@,
    {
        Handshaker {
            command: self.command.clone(),
            credential: match &self.credential {
                Some(credential) => Some(credential.clone()),
                None => None,
            },
        }
    }
}

/// A handshake whose command is ready to be sent.
#[derive(Debug, PartialEq, Eq)]
pub struct PendingHandshake {
    /// The command to send.
    pub command: Command,
    /// The first authentication message that the command carries.
    pub client_first: Option<ClientFirst>,
}

/// What a handshake hands to the caller: the server's reply, and the first
/// round of the authentication exchange where the server took part in it.
#[derive(Debug, PartialEq, Eq)]
pub struct HandshakeResult {
    pub is_master_reply: IsMasterReply,
    pub first_round: Option<FirstRound>,
}

/// The command that a handshake sends: the template, with the first message
/// of `attempt` in its body where the attempt holds one.
pub open spec fn outbound_command(template: CommandView, attempt: SpeculativeAttempt) -> CommandView {
    CommandView { body: with_speculative_auth(template.body, attempt), ..template }
}

/// How a handshake goes on from an attempt at a first message: a failed
/// attempt fails the handshake with the attempt's error; otherwise the
/// command is ready, and carries the message if there is one.
pub open spec fn begun(
    template: CommandView,
    attempt: SpeculativeAttempt,
    outcome: Result<PendingHandshake>,
) -> bool {
    match attempt {
        Err(error) => outcome == Result::<PendingHandshake>::Err(error),
        Ok(client_first) => (outcome matches Ok(pending) && pending.client_first == client_first
            && pending.command@ == outbound_command(template, attempt)),
    }
}

/// Whether a reply must be turned down: load-balanced mode was asked for and
/// the reply names no service.
pub open spec fn turned_down(template: CommandView, reply: IsMasterReply) -> bool {
    template.body.contains_key("loadBalanced"@) && reply.command_response.service_id is None
}

/// The first round that a first message and the server's answer make: none
/// unless both are there.
pub open spec fn first_round_of(
    client_first: Option<ClientFirst>,
    server_first: Option<Document>,
) -> Option<FirstRound> {
    match (client_first, server_first) {
        (Some(client_first), Some(server_first)) => Some(FirstRound { client_first, server_first }),
        _ => None,
    }
}

/// The reply as the caller gets it: where a first message was sent, the
/// server's answer to it has moved out of the reply.
pub open spec fn reply_after(client_first: Option<ClientFirst>, reply: IsMasterReply) -> IsMasterReply {
    if client_first is Some {
        IsMasterReply {
            command_response: IsMasterCommandResponse {
                speculative_authenticate: None,
                ..reply.command_response
            },
            ..reply
        }
    } else {
        reply
    }
}

/// The explanation given when a server cannot balance load.
pub open spec fn incompatible_server_message() -> Seq<char> {
    "Driver attempted to initialize in load balancing mode, but the server does not support this mode."@
}

/// How a handshake ends, given what sending its command came to. A failure
/// to send is the handshake's failure, as it is. A reply that must be
/// turned down fails the handshake as an incompatible server. In both cases
/// the connection stays as it was. Any other reply is handed to the caller,
/// with the first round if there is one, and the connection gets its stream
/// description from the reply.
pub open spec fn completed(
    template: CommandView,
    before: Connection,
    client_first: Option<ClientFirst>,
    outcome: Result<IsMasterReply>,
    result: Result<HandshakeResult>,
    after: Connection,
) -> bool {
    match outcome {
        Err(error) => result == Result::<HandshakeResult>::Err(error) && after == before,
        Ok(reply) => if turned_down(template, reply) {
            &&& result matches Err(error)
            &&& error@ == (ErrorKindView::IncompatibleServer {
                message: incompatible_server_message(),
            })
            &&& after == before
        } else {
            &&& result == Result::<HandshakeResult>::Ok(
                HandshakeResult {
                    is_master_reply: reply_after(client_first, reply),
                    first_round: first_round_of(
                        client_first,
                        reply.command_response.speculative_authenticate,
                    ),
                },
            )
            &&& after.address == before.address
            &&& after@.stream_description == Some(reply@.stream_description())
        },
    }
}

impl Handshaker {
    /// Creates a handshaker for `options`, with `base` as the identity that
    /// the options customize. The command to start from is built here, once:
    /// the plain handshake command with the API declaration; for a
    /// credential, the question which mechanisms its user may use, and the
    /// credential's database as the target; the flag for load-balanced mode;
    /// and the customized identity under `client`. The credential is kept for
    /// the first authentication message of each handshake.
    pub fn new(base: &ClientMetadata, options: Option<HandshakerOptions>) -> (handshaker: Handshaker)
        ensures
            handshaker@.command == options_of(options).template(base@),
            handshaker@.credential == options_of(options).credential,
    {
        let ghost configured = options_of(options);
        let mut credential: Option<Credential> = None;
        let mut command = is_master_command(
            match &options {
                Some(options) => options.server_api.as_ref(),
                None => None,
            },
        );
        let ghost plain = command@.body;
        proof {
            lemma_command_key_lengths();
            if plain.contains_key("saslSupportedMechs"@) {
                lemma_is_master_command_keys(configured.server_api, "saslSupportedMechs"@);
            }
            if plain.contains_key("loadBalanced"@) {
                lemma_is_master_command_keys(configured.server_api, "loadBalanced"@);
            }
            if plain.contains_key("client"@) {
                lemma_is_master_command_keys(configured.server_api, "client"@);
            }
        }
        let metadata = match options {
            Some(options) => {
                let metadata = base.customize(options.app_name.as_ref(), options.driver_info.as_ref());
                if let Some(chosen) = options.credential {
                    chosen.append_needed_mechanism_negotiation(&mut command.body);
                    command.target_db = chosen.resolved_source().to_owned();
                    credential = Some(chosen);
                }
                let ghost negotiated = command@.body;
                proof {
                    plain.lemma_insert_contains_key(
                        "saslSupportedMechs"@,
                        BsonView::Boolean(true),
                        "loadBalanced"@,
                    );
                    plain.lemma_insert_contains_key(
                        "saslSupportedMechs"@,
                        BsonView::Boolean(true),
                        "client"@,
                    );
                    assert(negotiated.entries =~= plain.entries + configured.negotiation());
                }
                if options.load_balanced {
                    command.body.insert("loadBalanced".to_owned(), Bson::Boolean(true));
                }
                proof {
                    negotiated.lemma_insert_contains_key(
                        "loadBalanced"@,
                        BsonView::Boolean(true),
                        "client"@,
                    );
                    assert(command@.body.entries =~= negotiated.entries
                        + configured.load_balancing());
                }
                metadata
            },
            None => base.clone(),
        };
        command.body.insert("client".to_owned(), Bson::from(metadata));
        proof {
            assert(command@.body.entries =~= options_of(options).template(base@).body.entries);
        }
        Handshaker { command, credential }
    }

    /// The command that every handshake starts from.
    pub fn command(&self) -> (command: &Command)
        ensures
            command@ == self@.command,
    {
        &self.command
    }

    /// The credential that handshakes send a first message for.
    pub closed spec fn spec_credential(&self) -> Option<Credential> {
        self.credential
    }

    /// The credential that handshakes send a first message for.
    pub fn credential(&self) -> (credential: Option<&Credential>)
        ensures
            match credential {
                Some(credential) => self.spec_credential() == Some(*credential),
                None => self.spec_credential() is None,
            },
    {
        self.credential.as_ref()
    }

    /// The handshaker's view states the credential that it holds.
    pub proof fn lemma_credential_view(&self)
        ensures
            self@.credential == match self.spec_credential() {
                Some(credential) => Some(credential@),
                None => None,
            },
    {
    }

    /// Starts one handshake: copies the template, asks `build` for the first
    /// message of the credential's mechanism, and files the message in the
    /// copy. Without a credential `build` is not asked, and the copy is sent
    /// as it is. The handshaker itself is not changed.
    pub fn begin<F>(&self, build: F) -> (outcome: Result<PendingHandshake>) where
        F: FnOnce(AuthMechanism, &Credential) -> SpeculativeAttempt,
        requires
            self.spec_credential() matches Some(credential) ==> call_requires(
                build,
                (credential@.speculative_mechanism(), &credential),
            ),
        ensures
            self.spec_credential() is None ==> (outcome matches Ok(pending) && pending.command@
                == self@.command && pending.client_first is None),
            self.spec_credential() matches Some(credential) ==> exists|attempt: SpeculativeAttempt|
                call_ensures(build, (credential@.speculative_mechanism(), &credential), attempt)
                    && begun(self@.command, attempt, outcome),
    {
        let mut command = self.command.clone();
        let attempt = set_speculative_auth_info(&mut command.body, self.credential.as_ref(), build);
        match attempt {
            Ok(client_first) => {
                proof {
                    if self.credential is Some {
                        assert(begun(
                            self@.command,
                            SpeculativeAttempt::Ok(client_first),
                            Result::<PendingHandshake>::Ok(PendingHandshake { command, client_first }),
                        ));
                    }
                }
                Ok(PendingHandshake { command, client_first })
            },
            Err(error) => {
                proof {
                    if self.credential is Some {
                        assert(begun(
                            self@.command,
                            SpeculativeAttempt::Err(error),
                            Result::<PendingHandshake>::Err(error),
                        ));
                    }
                }
                Err(error)
            },
        }
    }

    /// Finishes one handshake with `outcome`, what sending the command came
    /// to. A failure to send is handed on as it is. A reply without a service
    /// identifier is turned down where load-balanced mode was asked for.
    /// Otherwise the connection gets its stream description from the reply,
    /// and the server's answer to `client_first` is paired with it. Where the
    /// handshake fails the connection is left as it was.
    pub fn complete(
        &self,
        conn: &mut Connection,
        client_first: Option<ClientFirst>,
        outcome: Result<IsMasterReply>,
    ) -> (result: Result<HandshakeResult>)
        ensures
            completed(self@.command, *old(conn), client_first, outcome, result, *final(conn)),
    {
        let mut reply = match outcome {
            Ok(reply) => reply,
            Err(error) => return Err(error),
        };
        if self.command.body.contains_key("loadBalanced") && reply.command_response.service_id.is_none() {
            return Err(
                Error::new(
                    ErrorKind::IncompatibleServer {
                        message: "Driver attempted to initialize in load balancing mode, but the server does not support this mode.".to_owned(),
                    },
                ),
            );
        }
        conn.stream_description = Some(StreamDescription::from_is_master(reply.clone()));
        let first_round = match client_first {
            Some(client_first) => {
                match reply.command_response.speculative_authenticate.take() {
                    Some(server_first) => Some(client_first.into_first_round(server_first)),
                    None => None,
                }
            },
            None => None,
        };
        Ok(HandshakeResult { is_master_reply: reply, first_round })
    }
}

/// Which keys the template's body holds: the command's name and `client`
/// always; each other key where the options ask for it; and no key besides.
pub proof fn lemma_template_keys(
    base: ClientMetadataView,
    options: HandshakerOptionsView,
    key: Seq<char>,
)
    ensures
        options.template(base).body.contains_key(key) <==> (key == is_master_command_name(
            options.server_api,
        ) || (key == "apiVersion"@ && options.server_api is Some) || (key == "apiStrict"@
            && options.server_api is Some && options.server_api->0.strict is Some) || (key
            == "apiDeprecationErrors"@ && options.server_api is Some
            && options.server_api->0.deprecation_errors is Some) || (key == "saslSupportedMechs"@
            && options.credential is Some && options.credential->0.needs_mechanism_negotiation())
            || (key == "loadBalanced"@ && options.load_balanced) || key == "client"@),
{
    let body = options.template(base).body;
    let declared = declaration_of(options.server_api).len() as int;
    let negotiated = options.negotiation().len() as int;
    let balanced = options.load_balancing().len() as int;
    assert(body.key_at(0, is_master_command_name(options.server_api)));
    assert(body.key_at(1 + declared + negotiated + balanced, "client"@));
    if options.server_api is Some {
        assert(body.key_at(1, "apiVersion"@));
        if options.server_api->0.strict is Some {
            assert(body.key_at(2, "apiStrict"@));
        }
        if options.server_api->0.deprecation_errors is Some {
            assert(body.key_at(declared, "apiDeprecationErrors"@));
        }
    }
    if negotiated == 1 {
        assert(body.key_at(1 + declared, "saslSupportedMechs"@));
    }
    if options.load_balanced {
        assert(body.key_at(1 + declared + negotiated, "loadBalanced"@));
    }
    if body.contains_key(key) {
        assert(body.key_at(body.index_of(key), key));
    }
}

/// The template's body holds each of its keys once.
pub proof fn lemma_template_keys_distinct(base: ClientMetadataView, options: HandshakerOptionsView)
    ensures
        options.template(base).body.distinct_keys(),
{
    lemma_command_key_lengths();
}

/// Options that name neither an application nor a wrapping library leave
/// the identity as the base has it: the template carries the base's own
/// identity document, with the driver's name and version unchanged, and
/// without an `application` entry where the base names no application.
pub proof fn lemma_plain_options_keep_identity(
    base: ClientMetadataView,
    options: HandshakerOptionsView,
)
    requires
        options.app_name is None,
        options.driver_info is None,
    ensures
        base.customize(options.app_name, options.driver_info) == base,
        options.template(base).body.get("client"@) == Some(BsonView::Document(base.to_document())),
        base.application is None ==> !base.to_document().contains_key("application"@),
        base.to_document().get("driver"@) == Some(BsonView::Document(base.driver.to_document())),
        base.driver.to_document().get("name"@) == Some(BsonView::String(base.driver.name)),
        base.driver.to_document().get("version"@) == Some(BsonView::String(base.driver.version)),
{
    lemma_identity_document(base);
    lemma_template_client(base, options);
}

/// The template files the customized identity under `client`.
pub proof fn lemma_template_client(base: ClientMetadataView, options: HandshakerOptionsView)
    ensures
        options.template(base).body.get("client"@) == Some(
            BsonView::Document(base.customize(options.app_name, options.driver_info).to_document()),
        ),
{
    let body = options.template(base).body;
    let last = body.entries.len() - 1;
    assert(body.key_at(last, "client"@));
    lemma_template_keys_distinct(base, options);
    body.lemma_found_at(last, "client"@);
}

/// The template asks for load-balanced mode exactly where the options do.
/// So a handshake under options that ask for it turns down every reply
/// without a service identifier, and a handshake under other options turns
/// down none.
pub proof fn lemma_load_balancing_is_as_configured(
    base: ClientMetadataView,
    options: HandshakerOptionsView,
    reply: IsMasterReply,
)
    ensures
        options.template(base).body.contains_key("loadBalanced"@) <==> options.load_balanced,
        turned_down(options.template(base), reply) <==> options.load_balanced
            && reply.command_response.service_id is None,
{
    lemma_command_key_lengths();
    lemma_template_keys(base, options, "loadBalanced"@);
}

/// No template holds a first authentication message.
pub proof fn lemma_template_has_no_speculative_auth(
    base: ClientMetadataView,
    options: HandshakerOptionsView,
)
    ensures
        !options.template(base).body.contains_key("speculativeAuthenticate"@),
{
    lemma_command_key_lengths();
    lemma_template_keys(base, options, "speculativeAuthenticate"@);
}

/// What a handshake sends is its template and, behind it, the handshake's
/// own first message where it has one: the entries of the template stand
/// unchanged in every command sent, whatever other handshakes send.
pub proof fn lemma_outbound_body(
    base: ClientMetadataView,
    options: HandshakerOptionsView,
    attempt: SpeculativeAttempt,
)
    ensures
        outbound_command(options.template(base), attempt).body.entries == options.template(
            base,
        ).body.entries + match attempt {
            Ok(Some(client_first)) => seq![
                ("speculativeAuthenticate"@, BsonView::Document(client_first@.message)),
            ],
            _ => Seq::empty(),
        },
        outbound_command(options.template(base), attempt).body.distinct_keys(),
        outbound_command(options.template(base), attempt).name == options.template(base).name,
        outbound_command(options.template(base), attempt).target_db == options.template(
            base,
        ).target_db,
{
    let template = options.template(base);
    lemma_template_has_no_speculative_auth(base, options);
    lemma_template_keys_distinct(base, options);
    match attempt {
        Ok(Some(client_first)) => {
            template.body.lemma_insert_keeps_keys_distinct(
                "speculativeAuthenticate"@,
                BsonView::Document(client_first@.message),
            );
            assert(outbound_command(template, attempt).body.entries =~= template.body.entries
                + seq![("speculativeAuthenticate"@, BsonView::Document(client_first@.message))]);
        },
        _ => {
            assert(outbound_command(template, attempt).body.entries =~= template.body.entries
                + Seq::empty());
        },
    }
}

/// A credential that names no mechanism has SCRAM-SHA-256 asked for a first
/// message; and whenever a first message is built, the command that is sent
/// holds it under `speculativeAuthenticate`, with the rest of the template
/// as it was.
pub proof fn lemma_speculative_auth_is_sent(
    base: ClientMetadataView,
    options: HandshakerOptionsView,
    client_first: ClientFirst,
    key: Seq<char>,
)
    ensures
        options.credential matches Some(credential) && credential.mechanism is None
            ==> options.credential->0.speculative_mechanism() == AuthMechanism::ScramSha256,
        outbound_command(options.template(base), Ok(Some(client_first))).body.get(
            "speculativeAuthenticate"@,
        ) == Some(BsonView::Document(client_first@.message)),
        key != "speculativeAuthenticate"@ ==> outbound_command(
            options.template(base),
            Ok(Some(client_first)),
        ).body.get(key) == options.template(base).body.get(key),
{
    lemma_template_keys_distinct(base, options);
    options.template(base).body.lemma_insert_get(
        "speculativeAuthenticate"@,
        BsonView::Document(client_first@.message),
        key,
    );
}

/// Under options that ask for load-balanced mode, a reply without a service
/// identifier fails the handshake as an incompatible server and leaves the
/// connection as it was, its stream description unset if it was unset; a
/// reply with one succeeds and sets the stream description.
pub proof fn lemma_load_balanced_handshake(
    base: ClientMetadataView,
    options: HandshakerOptionsView,
    before: Connection,
    client_first: Option<ClientFirst>,
    reply: IsMasterReply,
    result: Result<HandshakeResult>,
    after: Connection,
)
    requires
        options.load_balanced,
        completed(options.template(base), before, client_first, Ok(reply), result, after),
    ensures
        reply.command_response.service_id is None ==> (result is Err && result->Err_0@
            == (ErrorKindView::IncompatibleServer { message: incompatible_server_message() })
            && after == before),
        reply.command_response.service_id is Some ==> (result is Ok && after@.stream_description
            == Some(reply@.stream_description())),
{
    lemma_load_balancing_is_as_configured(base, options, reply);
}

/// Without a credential, the command that is sent holds no first
/// authentication message, and the handshake has no first round, whatever
/// the reply holds.
pub proof fn lemma_handshake_without_credential(
    base: ClientMetadataView,
    options: HandshakerOptionsView,
    before: Connection,
    pending: PendingHandshake,
    reply: IsMasterReply,
    result: Result<HandshakeResult>,
    after: Connection,
)
    requires
        options.credential is None,
        pending.command@ == options.template(base),
        pending.client_first is None,
        completed(options.template(base), before, pending.client_first, Ok(reply), result, after),
    ensures
        !pending.command@.body.contains_key("speculativeAuthenticate"@),
        result matches Ok(handshake) ==> handshake.first_round is None && handshake.is_master_reply
            == reply,
{
    lemma_template_has_no_speculative_auth(base, options);
}

/// With a first message sent and a reply that is not turned down, the
/// handshake succeeds. Where the reply answers the message, the first round
/// is that message and that answer; where it does not, there is no first
/// round.
pub proof fn lemma_first_message_is_paired(
    template: CommandView,
    before: Connection,
    client_first: ClientFirst,
    reply: IsMasterReply,
    result: Result<HandshakeResult>,
    after: Connection,
)
    requires
        !turned_down(template, reply),
        completed(template, before, Some(client_first), Ok(reply), result, after),
    ensures
        result is Ok,
        reply.command_response.speculative_authenticate matches Some(server_first)
            ==> result->Ok_0.first_round == Some((FirstRound { client_first, server_first })),
        reply.command_response.speculative_authenticate is None ==> result->Ok_0.first_round
            is None,
{
}

} // verus!
