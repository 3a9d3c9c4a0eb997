use wire_handshake::auth::{AuthMechanism, ClientFirst, Credential, FirstRound};
use wire_handshake::command::{is_master_command, Command, ServerApi, ServerApiVersion};
use wire_handshake::document::{Bson, Document};
use wire_handshake::error::{Error, ErrorKind};
use wire_handshake::handshake::{
    ClientOptions, ConnectionPoolOptions, HandshakeResult, Handshaker, HandshakerOptions,
};
use wire_handshake::metadata::{ClientMetadata, DriverInfo, DriverMetadata, OsMetadata};
use wire_handshake::reply::{
    Connection, IsMasterCommandResponse, IsMasterReply, ObjectId, StreamDescription, TopologyHints,
};

const TURNED_DOWN: &str = "Driver attempted to initialize in load balancing mode, but the server does not support this mode.";

fn base() -> ClientMetadata {
    ClientMetadata {
        application: None,
        driver: DriverMetadata { name: "base-driver".to_string(), version: "2.0.0".to_string() },
        os: OsMetadata {
            os_type: "linux".to_string(),
            name: None,
            architecture: "x86_64".to_string(),
            version: None,
        },
        platform: None,
    }
}

fn options() -> HandshakerOptions {
    HandshakerOptions {
        app_name: None,
        credential: None,
        driver_info: None,
        server_api: None,
        load_balanced: false,
    }
}

fn credential(mechanism: Option<AuthMechanism>) -> Credential {
    Credential {
        username: Some("alice".to_string()),
        source: None,
        password: Some("secret".to_string()),
        mechanism,
        mechanism_properties: None,
    }
}

fn message(nonce: &str) -> Document {
    let mut document = Document::new();
    document.insert("saslStart".to_string(), Bson::Int32(1));
    document.insert("payload".to_string(), Bson::String(nonce.to_string()));
    document
}

fn server_answer(nonce: &str) -> Document {
    let mut document = Document::new();
    document.insert("conversationId".to_string(), Bson::Int32(1));
    document.insert("payload".to_string(), Bson::String(nonce.to_string()));
    document
}

fn reply(service_id: Option<ObjectId>, speculative_authenticate: Option<Document>) -> IsMasterReply {
    IsMasterReply {
        server_address: "db.example:27017".to_string(),
        command_response: IsMasterCommandResponse {
            topology: TopologyHints {
                is_writable_primary: Some(true),
                secondary: None,
                set_name: Some("rs0".to_string()),
                msg: None,
            },
            min_wire_version: Some(0),
            max_wire_version: Some(13),
            sasl_supported_mechs: Some(vec!["SCRAM-SHA-256".to_string(), "SCRAM-SHA-1".to_string()]),
            service_id,
            speculative_authenticate,
        },
    }
}

fn description(service_id: Option<ObjectId>) -> StreamDescription {
    StreamDescription {
        server_address: "db.example:27017".to_string(),
        topology: TopologyHints {
            is_writable_primary: Some(true),
            secondary: None,
            set_name: Some("rs0".to_string()),
            msg: None,
        },
        min_wire_version: Some(0),
        max_wire_version: Some(13),
        sasl_supported_mechs: Some(vec!["SCRAM-SHA-256".to_string(), "SCRAM-SHA-1".to_string()]),
        service_id,
    }
}

fn service() -> ObjectId {
    ObjectId { bytes: [1, 2, 3, 4, 5, 6, 7, 8, 9, 10, 11, 12] }
}

fn never(_: AuthMechanism, _: &Credential) -> Result<Option<ClientFirst>, Error> {
    panic!("no mechanism may be asked")
}

#[test]
fn template_without_options() {
    let handshaker = Handshaker::new(&base(), None);
    let command = handshaker.command();
    assert_eq!(command.name, "isMaster");
    assert_eq!(command.target_db, "admin");
    assert_eq!(command.body.keys(), vec!["isMaster", "client"]);
    assert_eq!(command.body.get("isMaster"), Some(&Bson::Int32(1)));
    assert_eq!(command.body.get("client"), Some(&Bson::Document(base().to_document())));
    assert_eq!(handshaker.credential(), None);
    assert_eq!(Handshaker::new(&base(), Some(options())), handshaker);
}

#[test]
fn template_of_plain_options_has_the_base_identity() {
    let handshaker = Handshaker::new(&base(), Some(options()));
    let client = match handshaker.command().body.get("client") {
        Some(Bson::Document(client)) => client.clone(),
        other => panic!("no identity document: {:?}", other),
    };
    assert!(!client.contains_key("application"));
    let driver = match client.get("driver") {
        Some(Bson::Document(driver)) => driver.clone(),
        other => panic!("no driver document: {:?}", other),
    };
    assert_eq!(driver.get("name"), Some(&Bson::String("base-driver".to_string())));
    assert_eq!(driver.get("version"), Some(&Bson::String("2.0.0".to_string())));
}

#[test]
fn template_carries_the_customized_identity() {
    let mut chosen = options();
    chosen.app_name = Some("billing".to_string());
    chosen.driver_info = Some(DriverInfo {
        name: "wrapperA".to_string(),
        version: Some("9".to_string()),
        platform: None,
    });
    let handshaker = Handshaker::new(&base(), Some(chosen));
    let name = "billing".to_string();
    let info = DriverInfo { name: "wrapperA".to_string(), version: Some("9".to_string()), platform: None };
    let expected = base().customize(Some(&name), Some(&info));
    assert_eq!(expected.driver.name, "base-driver|wrapperA");
    assert_eq!(expected.driver.version, "2.0.0|9");
    assert_eq!(
        handshaker.command().body.get("client"),
        Some(&Bson::Document(expected.to_document()))
    );
}

#[test]
fn template_declares_the_server_api() {
    let mut chosen = options();
    chosen.server_api = Some(ServerApi {
        version: ServerApiVersion::V1,
        strict: Some(true),
        deprecation_errors: Some(false),
    });
    let handshaker = Handshaker::new(&base(), Some(chosen));
    let command = handshaker.command();
    assert_eq!(command.name, "hello");
    assert_eq!(
        command.body.keys(),
        vec!["hello", "apiVersion", "apiStrict", "apiDeprecationErrors", "client"]
    );
    assert_eq!(command.body.get("hello"), Some(&Bson::Int32(1)));
    assert_eq!(command.body.get("apiVersion"), Some(&Bson::String("1".to_string())));
    assert_eq!(command.body.get("apiStrict"), Some(&Bson::Boolean(true)));
    assert_eq!(command.body.get("apiDeprecationErrors"), Some(&Bson::Boolean(false)));

    let mut chosen = options();
    chosen.server_api = Some(ServerApi { version: ServerApiVersion::V1, strict: None, deprecation_errors: None });
    let handshaker = Handshaker::new(&base(), Some(chosen));
    assert_eq!(handshaker.command().body.keys(), vec!["hello", "apiVersion", "client"]);
}

#[test]
fn handshake_command_before_configuration() {
    let plain = is_master_command(None);
    assert_eq!(plain.name, "isMaster");
    assert_eq!(plain.target_db, "admin");
    assert_eq!(plain.body.keys(), vec!["isMaster"]);
    let api = ServerApi { version: ServerApiVersion::V1, strict: None, deprecation_errors: Some(true) };
    let versioned = is_master_command(Some(&api));
    assert_eq!(versioned.name, "hello");
    assert_eq!(versioned.body.keys(), vec!["hello", "apiVersion", "apiDeprecationErrors"]);
    assert_eq!(ServerApiVersion::V1.text(), "1");
}

#[test]
fn declaring_an_api_twice_keeps_one_declaration() {
    let api = ServerApi { version: ServerApiVersion::V1, strict: Some(false), deprecation_errors: None };
    let mut command = Command::new("ping".to_string(), "admin".to_string(), Document::new());
    command.set_server_api(&api);
    command.set_server_api(&ServerApi { strict: Some(true), ..api });
    assert_eq!(command.body.keys(), vec!["apiVersion", "apiStrict"]);
    assert_eq!(command.body.get("apiStrict"), Some(&Bson::Boolean(true)));
    assert_eq!(command.name, "ping");
    assert_eq!(command.target_db, "admin");
}

#[test]
fn template_with_credential() {
    let mut chosen = options();
    chosen.credential = Some(credential(None));
    let handshaker = Handshaker::new(&base(), Some(chosen));
    let command = handshaker.command();
    assert_eq!(command.target_db, "admin");
    assert_eq!(command.body.keys(), vec!["isMaster", "saslSupportedMechs", "client"]);
    assert_eq!(
        command.body.get("saslSupportedMechs"),
        Some(&Bson::String("admin.alice".to_string()))
    );
    assert_eq!(handshaker.credential(), Some(&credential(None)));

    let mut chosen = options();
    chosen.credential = Some(credential(Some(AuthMechanism::MongoDbX509)));
    let handshaker = Handshaker::new(&base(), Some(chosen));
    assert_eq!(handshaker.command().target_db, "$external");
    assert_eq!(handshaker.command().body.keys(), vec!["isMaster", "client"]);
}

#[test]
fn template_asks_for_load_balancing_where_configured() {
    let mut chosen = options();
    chosen.load_balanced = true;
    chosen.credential = Some(credential(None));
    let handshaker = Handshaker::new(&base(), Some(chosen));
    let command = handshaker.command();
    assert_eq!(
        command.body.keys(),
        vec!["isMaster", "saslSupportedMechs", "loadBalanced", "client"]
    );
    assert_eq!(command.body.get("loadBalanced"), Some(&Bson::Boolean(true)));
    assert!(!Handshaker::new(&base(), None).command().body.contains_key("loadBalanced"));
}

#[test]
fn equal_inputs_give_equal_templates() {
    let build = || {
        let mut chosen = options();
        chosen.credential = Some(credential(None));
        chosen.load_balanced = true;
        chosen.app_name = Some("billing".to_string());
        Handshaker::new(&base(), Some(chosen))
    };
    assert_eq!(build(), build());
    assert_eq!(build().clone(), build());
}

#[test]
fn load_balanced_handshake_needs_a_service_id() {
    let mut chosen = options();
    chosen.load_balanced = true;
    let handshaker = Handshaker::new(&base(), Some(chosen));
    let pending = handshaker.begin(never).unwrap();
    assert!(pending.command.body.contains_key("loadBalanced"));

    let mut conn = Connection::new("db.example:27017".to_string());
    let error = handshaker.complete(&mut conn, pending.client_first, Ok(reply(None, None))).unwrap_err();
    assert_eq!(error.kind, ErrorKind::IncompatibleServer { message: TURNED_DOWN.to_string() });
    assert_eq!(error.message(), TURNED_DOWN);
    assert_eq!(conn, Connection::new("db.example:27017".to_string()));
    assert_eq!(conn.stream_description, None);

    let result = handshaker.complete(&mut conn, None, Ok(reply(Some(service()), None))).unwrap();
    assert_eq!(result.is_master_reply, reply(Some(service()), None));
    assert_eq!(result.first_round, None);
    assert_eq!(conn.address, "db.example:27017");
    assert_eq!(conn.stream_description, Some(description(Some(service()))));
}

#[test]
fn handshake_without_load_balancing_takes_any_reply() {
    let handshaker = Handshaker::new(&base(), None);
    let mut conn = Connection::new("db.example:27017".to_string());
    let result = handshaker.complete(&mut conn, None, Ok(reply(None, None))).unwrap();
    assert_eq!(result, HandshakeResult { is_master_reply: reply(None, None), first_round: None });
    assert_eq!(conn.stream_description, Some(description(None)));
    assert_eq!(StreamDescription::from_is_master(reply(None, None)), description(None));
}

#[test]
fn credential_without_mechanism_sends_a_first_message() {
    let mut chosen = options();
    chosen.credential = Some(credential(None));
    let handshaker = Handshaker::new(&base(), Some(chosen));
    let build = |mechanism: AuthMechanism, asked: &Credential| {
        assert_eq!(mechanism, AuthMechanism::ScramSha256);
        assert_eq!(asked, &credential(None));
        Ok(Some(ClientFirst { mechanism, message: message("n1") }))
    };
    let first = handshaker.begin(build).unwrap();
    let second = handshaker.begin(build).unwrap();
    assert_eq!(first, second);
    assert_eq!(
        first.command.body.keys(),
        vec!["isMaster", "saslSupportedMechs", "client", "speculativeAuthenticate"]
    );
    assert_eq!(
        first.command.body.get("speculativeAuthenticate"),
        Some(&Bson::Document(message("n1")))
    );
    assert_eq!(first.command.name, "isMaster");
    assert_eq!(first.command.target_db, "admin");
    assert_eq!(
        first.client_first,
        Some(ClientFirst { mechanism: AuthMechanism::ScramSha256, message: message("n1") })
    );
}

#[test]
fn handshake_without_credential_never_speculates() {
    let handshaker = Handshaker::new(&base(), Some(options()));
    let pending = handshaker.begin(never).unwrap();
    assert_eq!(&pending.command, handshaker.command());
    assert!(!pending.command.body.contains_key("speculativeAuthenticate"));
    assert_eq!(pending.client_first, None);

    let mut conn = Connection::new("db.example:27017".to_string());
    let answered = reply(None, Some(server_answer("s1")));
    let result = handshaker.complete(&mut conn, pending.client_first, Ok(answered)).unwrap();
    assert_eq!(result.first_round, None);
    assert_eq!(result.is_master_reply, reply(None, Some(server_answer("s1"))));
}

#[test]
fn answered_first_message_makes_the_first_round() {
    let mut chosen = options();
    chosen.credential = Some(credential(None));
    let handshaker = Handshaker::new(&base(), Some(chosen));
    let pending = handshaker
        .begin(|mechanism, _| Ok(Some(ClientFirst { mechanism, message: message("n1") })))
        .unwrap();
    let mut conn = Connection::new("db.example:27017".to_string());
    let answered = reply(None, Some(server_answer("s1")));
    let result = handshaker.complete(&mut conn, pending.client_first, Ok(answered)).unwrap();
    assert_eq!(
        result.first_round,
        Some(FirstRound {
            client_first: ClientFirst { mechanism: AuthMechanism::ScramSha256, message: message("n1") },
            server_first: server_answer("s1"),
        })
    );
    assert_eq!(result.is_master_reply, reply(None, None));
    assert_eq!(conn.stream_description, Some(description(None)));
}

#[test]
fn unanswered_first_message_makes_no_first_round() {
    let mut chosen = options();
    chosen.credential = Some(credential(None));
    let handshaker = Handshaker::new(&base(), Some(chosen));
    let pending = handshaker
        .begin(|mechanism, _| Ok(Some(ClientFirst { mechanism, message: message("n1") })))
        .unwrap();
    let mut conn = Connection::new("db.example:27017".to_string());
    let result = handshaker.complete(&mut conn, pending.client_first, Ok(reply(None, None))).unwrap();
    assert_eq!(result.first_round, None);
    assert_eq!(result.is_master_reply, reply(None, None));
    assert_eq!(conn.stream_description, Some(description(None)));
}

#[test]
fn mechanism_that_cannot_speculate_sends_the_template() {
    let mut chosen = options();
    chosen.credential = Some(credential(Some(AuthMechanism::Plain)));
    let handshaker = Handshaker::new(&base(), Some(chosen));
    let pending = handshaker
        .begin(|mechanism, _| {
            assert_eq!(mechanism, AuthMechanism::Plain);
            Ok(None)
        })
        .unwrap();
    assert_eq!(&pending.command, handshaker.command());
    assert_eq!(pending.client_first, None);
}

#[test]
fn unfit_credential_fails_the_handshake() {
    let mut chosen = options();
    chosen.credential = Some(credential(None));
    let handshaker = Handshaker::new(&base(), Some(chosen));
    let before = handshaker.clone();
    let error = handshaker
        .begin(|_, _| Err(Error::new(ErrorKind::Authentication { message: "bad username".to_string() })))
        .unwrap_err();
    assert_eq!(error.kind, ErrorKind::Authentication { message: "bad username".to_string() });
    assert_eq!(handshaker, before);
}

#[test]
fn failure_to_send_is_handed_on_unchanged() {
    let mut chosen = options();
    chosen.load_balanced = true;
    let handshaker = Handshaker::new(&base(), Some(chosen));
    let mut conn = Connection::new("db.example:27017".to_string());
    let failures = vec![
        Error::new(ErrorKind::Io { message: "connection reset".to_string() }),
        Error::new(ErrorKind::Command { code: 59, message: "no such command".to_string() }),
    ];
    for failure in failures {
        let first = ClientFirst { mechanism: AuthMechanism::ScramSha256, message: message("n1") };
        let result = handshaker.complete(&mut conn, Some(first), Err(failure.clone()));
        assert_eq!(result, Err(failure));
        assert_eq!(conn.stream_description, None);
    }
}

#[test]
fn handshakes_of_one_handshaker_do_not_mix() {
    let mut chosen = options();
    chosen.credential = Some(credential(None));
    let handshaker = Handshaker::new(&base(), Some(chosen));
    let template = handshaker.command().clone();
    let nonces = ["n0", "n1", "n2", "n3", "n4", "n5", "n6", "n7"];
    let pending: Vec<_> = nonces
        .iter()
        .map(|nonce| {
            handshaker
                .begin(|mechanism, _| Ok(Some(ClientFirst { mechanism, message: message(nonce) })))
                .unwrap()
        })
        .collect();
    for (sent, nonce) in pending.iter().zip(nonces.iter()).rev() {
        assert_eq!(sent.command.name, template.name);
        assert_eq!(sent.command.target_db, template.target_db);
        let keys = sent.command.body.keys();
        assert_eq!(keys[..keys.len() - 1], template.body.keys()[..]);
        assert_eq!(keys[keys.len() - 1], "speculativeAuthenticate");
        for key in template.body.keys() {
            assert_eq!(sent.command.body.get(&key), template.body.get(&key));
        }
        assert_eq!(
            sent.command.body.get("speculativeAuthenticate"),
            Some(&Bson::Document(message(nonce)))
        );
    }
    assert_eq!(handshaker.command(), &template);
}

#[test]
fn pool_options_become_handshaker_options() {
    let pool = ConnectionPoolOptions {
        app_name: Some("billing".to_string()),
        credential: Some(credential(None)),
        driver_info: None,
        server_api: None,
        load_balanced: Some(true),
    };
    let converted = HandshakerOptions::from(pool);
    assert_eq!(
        converted,
        HandshakerOptions {
            app_name: Some("billing".to_string()),
            credential: Some(credential(None)),
            driver_info: None,
            server_api: None,
            load_balanced: true,
        }
    );
    let unset = ConnectionPoolOptions {
        app_name: None,
        credential: None,
        driver_info: None,
        server_api: None,
        load_balanced: None,
    };
    assert_eq!(HandshakerOptions::from(unset), options());
}

#[test]
fn client_options_become_handshaker_options() {
    let api = ServerApi { version: ServerApiVersion::V1, strict: None, deprecation_errors: None };
    let info = DriverInfo { name: "w".to_string(), version: None, platform: None };
    let client = ClientOptions {
        app_name: None,
        credential: None,
        driver_info: Some(info.clone()),
        server_api: Some(api),
        load_balanced: Some(false),
    };
    let converted = HandshakerOptions::from(client);
    assert_eq!(
        converted,
        HandshakerOptions {
            app_name: None,
            credential: None,
            driver_info: Some(info),
            server_api: Some(api),
            load_balanced: false,
        }
    );
    let unset = ClientOptions {
        app_name: None,
        credential: None,
        driver_info: None,
        server_api: None,
        load_balanced: None,
    };
    assert!(!HandshakerOptions::from(unset).load_balanced);
}

#[test]
fn replies_clone_to_equal_replies() {
    let answered = reply(Some(service()), Some(server_answer("s1")));
    assert_eq!(answered.clone(), answered);
    assert_eq!(description(Some(service())).clone(), description(Some(service())));
}

fn shareable<T: Send + Sync>(_: &T) {}

#[test]
fn handshaker_may_be_shared_between_threads() {
    let handshaker = Handshaker::new(&base(), None);
    shareable(&handshaker);
    shareable(handshaker.command());
}
