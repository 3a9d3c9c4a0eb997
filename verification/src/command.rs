//! Commands as they are handed to the layer that sends them.

use crate::document::{Bson, BsonView, Document, DocumentView};
use vstd::prelude::*;

verus! {

/// A command: its name, the database it is run against, and its body.
#[derive(Debug, PartialEq, Eq)]
pub struct Command {
    pub name: String,
    pub target_db: String,
    pub body: Document,
}

/// The mathematical value of a [`Command`].
pub struct CommandView {
    pub name: Seq<char>,
    pub target_db: Seq<char>,
    pub body: DocumentView,
}

impl View for Command {
    type V = CommandView;

    open spec fn view(&self) -> CommandView {
        CommandView { name: self.name@, target_db: self.target_db@, body: self.body@ }
    }
}

impl Clone for Command {
    fn clone(&self) -> (copy: Command)
        ensures
            copy@ == self@,
    {
        Command {
            name: self.name.clone(),
            target_db: self.target_db.clone(),
            body: self.body.clone(),
        }
    }
}

/// The versions of the server API that a client can declare.
#[derive(Debug, Clone, Copy, PartialEq, Eq)]
pub enum ServerApiVersion {
    V1,
}

/// The declaration of a versioned server API.
#[derive(Debug, Clone, Copy, PartialEq, Eq)]
pub struct ServerApi {
    pub version: ServerApiVersion,
    pub strict: Option<bool>,
    pub deprecation_errors: Option<bool>,
}

impl ServerApiVersion {
    /// The version as the declaration states it.
    pub open spec fn spec_text(self) -> Seq<char> {
        match self {
            ServerApiVersion::V1 => "1"@,
        }
    }

    /// The version as the declaration states it.
    pub fn text(self) -> (text: &'static str)
        ensures
            text@ == self.spec_text(),
    {
        match self {
            ServerApiVersion::V1 => "1",
        }
    }
}

impl ServerApi {
    /// `body` after this API is declared in it: `apiVersion` is set, then
    /// `apiStrict` and `apiDeprecationErrors` where the declaration has them.
    pub open spec fn declared_in(self, body: DocumentView) -> DocumentView {
        let versioned = body.insert("apiVersion"@, BsonView::String(self.version.spec_text()));
        let strict = match self.strict {
            Some(strict) => versioned.insert("apiStrict"@, BsonView::Boolean(strict)),
            None => versioned,
        };
        match self.deprecation_errors {
            Some(report) => strict.insert("apiDeprecationErrors"@, BsonView::Boolean(report)),
            None => strict,
        }
    }

    /// The entries that declare this API in a command: `apiVersion`, then
    /// `apiStrict` and `apiDeprecationErrors` where they are set.
    pub open spec fn declaration(self) -> Seq<(Seq<char>, BsonView)> {
        seq![("apiVersion"@, BsonView::String(self.version.spec_text()))] + match self.strict {
            Some(strict) => seq![("apiStrict"@, BsonView::Boolean(strict))],
            None => Seq::empty(),
        } + match self.deprecation_errors {
            Some(report) => seq![("apiDeprecationErrors"@, BsonView::Boolean(report))],
            None => Seq::empty(),
        }
    }
}

/// The entries that declare `api`, and none where no API is declared.
pub open spec fn declaration_of(api: Option<ServerApi>) -> Seq<(Seq<char>, BsonView)> {
    match api {
        Some(api) => api.declaration(),
        None => Seq::empty(),
    }
}

/// The name of the handshake command: `hello` under a versioned API, else
/// `isMaster`.
pub open spec fn is_master_command_name(api: Option<ServerApi>) -> Seq<char> {
    if api is Some {
        "hello"@
    } else {
        "isMaster"@
    }
}

/// The handshake command before a configuration is applied to it: run
/// against `admin`, its body the command's name with the value 1 and the
/// API declaration.
pub open spec fn is_master_command_view(api: Option<ServerApi>) -> CommandView {
    CommandView {
        name: is_master_command_name(api),
        target_db: "admin"@,
        body: DocumentView {
            entries: seq![(is_master_command_name(api), BsonView::Int32(1))] + declaration_of(api),
        },
    }
}

/// The lengths of the keys that a handshake files in a command body. They
/// differ, and so do the keys.
pub(crate) proof fn lemma_command_key_lengths()
    ensures
        "isMaster"@.len() == 8,
        "hello"@.len() == 5,
        "apiVersion"@.len() == 10,
        "apiStrict"@.len() == 9,
        "apiDeprecationErrors"@.len() == 20,
        "saslSupportedMechs"@.len() == 18,
        "loadBalanced"@.len() == 12,
        "client"@.len() == 6,
        "speculativeAuthenticate"@.len() == 23,
{
    reveal_strlit("isMaster");
    reveal_strlit("hello");
    reveal_strlit("apiVersion");
    reveal_strlit("apiStrict");
    reveal_strlit("apiDeprecationErrors");
    reveal_strlit("saslSupportedMechs");
    reveal_strlit("loadBalanced");
    reveal_strlit("client");
    reveal_strlit("speculativeAuthenticate");
}

/// In a body that holds none of the declaration's keys, declaring an API
/// puts the declaration behind what the body holds.
pub proof fn lemma_declaration_goes_last(api: ServerApi, body: DocumentView)
    requires
        !body.contains_key("apiVersion"@),
        !body.contains_key("apiStrict"@),
        !body.contains_key("apiDeprecationErrors"@),
    ensures
        api.declared_in(body).entries == body.entries + api.declaration(),
{
    lemma_command_key_lengths();
    let version = BsonView::String(api.version.spec_text());
    let versioned = body.insert("apiVersion"@, version);
    body.lemma_insert_contains_key("apiVersion"@, version, "apiStrict"@);
    body.lemma_insert_contains_key("apiVersion"@, version, "apiDeprecationErrors"@);
    if api.strict is Some {
        versioned.lemma_insert_contains_key(
            "apiStrict"@,
            BsonView::Boolean(api.strict->0),
            "apiDeprecationErrors"@,
        );
    }
    assert(api.declared_in(body).entries =~= body.entries + api.declaration());
}

/// The handshake command before a configuration holds no key but its own
/// name and those of the API declaration.
pub proof fn lemma_is_master_command_keys(api: Option<ServerApi>, key: Seq<char>)
    requires
        is_master_command_view(api).body.contains_key(key),
    ensures
        key == is_master_command_name(api) || (api is Some && (key == "apiVersion"@ || key
            == "apiStrict"@ || key == "apiDeprecationErrors"@)),
{
    let body = is_master_command_view(api).body;
    let i = body.index_of(key);
    assert(body.key_at(i, key));
}

impl Command {
    /// The command of the given name, target and body.
    pub fn new(name: String, target_db: String, body: Document) -> (command: Command)
        ensures
            command.name == name,
            command.target_db == target_db,
            command.body == body,
    {
        Command { name, target_db, body }
    }

    /// Declares `api` in the body of this command.
    pub fn set_server_api(&mut self, api: &ServerApi)
        ensures
            final(self).name == old(self).name,
            final(self).target_db == old(self).target_db,
            final(self).body@ == api.declared_in(old(self).body@),
    {
        self.body.insert("apiVersion".to_owned(), Bson::String(api.version.text().to_owned()));
        if let Some(strict) = api.strict {
            self.body.insert("apiStrict".to_owned(), Bson::Boolean(strict));
        }
        if let Some(report) = api.deprecation_errors {
            self.body.insert("apiDeprecationErrors".to_owned(), Bson::Boolean(report));
        }
    }
}

/// The handshake command before a configuration is applied to it.
pub fn is_master_command(api: Option<&ServerApi>) -> (command: Command)
    ensures
        command@ == is_master_command_view(
            match api {
                Some(api) => Some(*api),
                None => None,
            },
        ),
{
    proof {
        lemma_command_key_lengths();
    }
    let name = if api.is_some() {
        "hello"
    } else {
        "isMaster"
    };
    let mut body = Document::new();
    body.insert(name.to_owned(), Bson::Int32(1));
    let mut command = Command::new(name.to_owned(), "admin".to_owned(), body);
    if let Some(api) = api {
        command.set_server_api(api);
    }
    assert(command@.body.entries =~= is_master_command_view(
        match api {
            Some(api) => Some(*api),
            None => None,
        },
    ).body.entries);
    command
}

} // verus!
