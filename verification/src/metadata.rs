//! The identity document that a client presents when it opens a connection.

use crate::document::{Bson, BsonView, Document, DocumentView};
use vstd::prelude::*;

verus! {

/// The text of an optional string.
pub open spec fn text_of(s: Option<String>) -> Option<Seq<char>> {
    match s {
        Some(s) => Some(s@),
        None => None,
    }
}

/// `left`, the separator `|`, then `right`: how layered identities are chained.
pub open spec fn chained(left: Seq<char>, right: Seq<char>) -> Seq<char> {
    left + seq!['|'] + right
}

/// The name under which an application announces itself.
#[derive(Debug, PartialEq, Eq)]
pub struct AppMetadata {
    pub name: String,
}

/// Name and version of the driver, innermost library first.
#[derive(Debug, PartialEq, Eq)]
pub struct DriverMetadata {
    pub name: String,
    pub version: String,
}

/// What is known of the operating system.
#[derive(Debug, PartialEq, Eq)]
pub struct OsMetadata {
    pub os_type: String,
    pub name: Option<String>,
    pub architecture: String,
    pub version: Option<String>,
}

/// The identity of a client: application, driver, operating system, platform.
#[derive(Debug, PartialEq, Eq)]
pub struct ClientMetadata {
    pub application: Option<AppMetadata>,
    pub driver: DriverMetadata,
    pub os: OsMetadata,
    pub platform: Option<String>,
}

/// The identity of a library that wraps the driver.
#[derive(Debug, PartialEq, Eq)]
pub struct DriverInfo {
    pub name: String,
    pub version: Option<String>,
    pub platform: Option<String>,
}

impl Clone for AppMetadata {
    fn clone(&self) -> (copy: AppMetadata)
        ensures
            copy == *self,
    {
        AppMetadata { name: self.name.clone() }
    }
}

impl Clone for DriverMetadata {
    fn clone(&self) -> (copy: DriverMetadata)
        ensures
            copy == *self,
    {
        DriverMetadata { name: self.name.clone(), version: self.version.clone() }
    }
}

impl Clone for OsMetadata {
    fn clone(&self) -> (copy: OsMetadata)
        ensures
            copy == *self,
    {
        OsMetadata {
            os_type: self.os_type.clone(),
            name: self.name.clone(),
            architecture: self.architecture.clone(),
            version: self.version.clone(),
        }
    }
}

impl Clone for ClientMetadata {
    fn clone(&self) -> (copy: ClientMetadata)
        ensures
            copy == *self,
    {
        ClientMetadata {
            application: self.application.clone(),
            driver: self.driver.clone(),
            os: self.os.clone(),
            platform: self.platform.clone(),
        }
    }
}

impl Clone for DriverInfo {
    fn clone(&self) -> (copy: DriverInfo)
        ensures
            copy == *self,
    {
        DriverInfo {
            name: self.name.clone(),
            version: self.version.clone(),
            platform: self.platform.clone(),
        }
    }
}

/// The mathematical value of a [`DriverMetadata`].
pub struct DriverMetadataView {
    pub name: Seq<char>,
    pub version: Seq<char>,
}

/// The mathematical value of a [`OsMetadata`].
pub struct OsMetadataView {
    pub os_type: Seq<char>,
    pub name: Option<Seq<char>>,
    pub architecture: Seq<char>,
    pub version: Option<Seq<char>>,
}

/// The mathematical value of a [`ClientMetadata`].
pub struct ClientMetadataView {
    pub application: Option<Seq<char>>,
    pub driver: DriverMetadataView,
    pub os: OsMetadataView,
    pub platform: Option<Seq<char>>,
}

/// The mathematical value of a [`DriverInfo`].
pub struct DriverInfoView {
    pub name: Seq<char>,
    pub version: Option<Seq<char>>,
    pub platform: Option<Seq<char>>,
}

impl View for DriverMetadata {
    type V = DriverMetadataView;

    open spec fn view(&self) -> DriverMetadataView {
        DriverMetadataView { name: self.name@, version: self.version@ }
    }
}

impl View for OsMetadata {
    type V = OsMetadataView;

    open spec fn view(&self) -> OsMetadataView {
        OsMetadataView {
            os_type: self.os_type@,
            name: text_of(self.name),
            architecture: self.architecture@,
            version: text_of(self.version),
        }
    }
}

impl View for ClientMetadata {
    type V = ClientMetadataView;

    open spec fn view(&self) -> ClientMetadataView {
        ClientMetadataView {
            application: match self.application {
                Some(application) => Some(application.name@),
                None => None,
            },
            driver: self.driver@,
            os: self.os@,
            platform: text_of(self.platform),
        }
    }
}

impl View for DriverInfo {
    type V = DriverInfoView;

    open spec fn view(&self) -> DriverInfoView {
        DriverInfoView {
            name: self.name@,
            version: text_of(self.version),
            platform: text_of(self.platform),
        }
    }
}

impl ClientMetadataView {
    /// This identity with `name` as its application name.
    pub open spec fn with_application(self, name: Seq<char>) -> ClientMetadataView {
        ClientMetadataView { application: Some(name), ..self }
    }

    /// This identity with one wrapping library chained behind it. The name is
    /// always chained; the version where the library states one; the platform
    /// where both sides state one.
    pub open spec fn with_driver_info(self, info: DriverInfoView) -> ClientMetadataView {
        ClientMetadataView {
            driver: DriverMetadataView {
                name: chained(self.driver.name, info.name),
                version: match info.version {
                    Some(version) => chained(self.driver.version, version),
                    None => self.driver.version,
                },
            },
            platform: match (self.platform, info.platform) {
                (Some(platform), Some(layer)) => Some(chained(platform, layer)),
                _ => self.platform,
            },
            ..self
        }
    }

    /// This identity after the customization that a configuration asks for.
    pub open spec fn customize(
        self,
        app_name: Option<Seq<char>>,
        driver_info: Option<DriverInfoView>,
    ) -> ClientMetadataView {
        let named = match app_name {
            Some(name) => self.with_application(name),
            None => self,
        };
        match driver_info {
            Some(info) => named.with_driver_info(info),
            None => named,
        }
    }
}

impl OsMetadataView {
    /// The operating-system part of the identity document: `type`, `name`
    /// where known, `architecture`, `version` where known.
    pub open spec fn to_document(self) -> DocumentView {
        DocumentView {
            entries: seq![("type"@, BsonView::String(self.os_type))] + match self.name {
                Some(name) => seq![("name"@, BsonView::String(name))],
                None => Seq::empty(),
            } + seq![("architecture"@, BsonView::String(self.architecture))] + match self.version {
                Some(version) => seq![("version"@, BsonView::String(version))],
                None => Seq::empty(),
            },
        }
    }
}

impl DriverMetadataView {
    /// The driver part of the identity document: `name`, then `version`.
    pub open spec fn to_document(self) -> DocumentView {
        DocumentView {
            entries: seq![
                ("name"@, BsonView::String(self.name)),
                ("version"@, BsonView::String(self.version)),
            ],
        }
    }
}

/// The application part of the identity document: `name`.
pub open spec fn application_document(name: Seq<char>) -> DocumentView {
    DocumentView { entries: seq![("name"@, BsonView::String(name))] }
}

impl ClientMetadataView {
    /// The identity document: `application` where a name was given, `driver`,
    /// `os`, `platform` where known. What is absent has no entry.
    pub open spec fn to_document(self) -> DocumentView {
        DocumentView {
            entries: match self.application {
                Some(name) => seq![
                    ("application"@, BsonView::Document(application_document(name))),
                ],
                None => Seq::empty(),
            } + seq![
                ("driver"@, BsonView::Document(self.driver.to_document())),
                ("os"@, BsonView::Document(self.os.to_document())),
            ] + match self.platform {
                Some(platform) => seq![("platform"@, BsonView::String(platform))],
                None => Seq::empty(),
            },
        }
    }
}

/// The keys of the identity document and of its parts differ from one another.
proof fn lemma_identity_keys_differ()
    ensures
        "application"@ != "driver"@,
        "application"@ != "os"@,
        "application"@ != "platform"@,
        "driver"@ != "os"@,
        "driver"@ != "platform"@,
        "os"@ != "platform"@,
        "type"@ != "name"@,
        "type"@ != "architecture"@,
        "type"@ != "version"@,
        "name"@ != "architecture"@,
        "name"@ != "version"@,
        "architecture"@ != "version"@,
{
    reveal_strlit("application");
    reveal_strlit("driver");
    reveal_strlit("os");
    reveal_strlit("platform");
    reveal_strlit("type");
    reveal_strlit("name");
    reveal_strlit("architecture");
    reveal_strlit("version");
    assert("application"@.len() == 11 && "driver"@.len() == 6 && "os"@.len() == 2);
    assert("platform"@.len() == 8 && "architecture"@.len() == 12 && "version"@.len() == 7);
    assert("type"@.len() == 4 && "name"@.len() == 4);
    assert("type"@[0] != "name"@[0]);
}

/// What the identity document holds: each key once; `driver` and `os`
/// always, and in them the names and versions as the identity has them;
/// `application` and `platform` where the identity has them, and no entry
/// for what it lacks.
pub proof fn lemma_identity_document(identity: ClientMetadataView)
    ensures
        identity.to_document().distinct_keys(),
        identity.to_document().contains_key("application"@) <==> identity.application is Some,
        identity.to_document().contains_key("platform"@) <==> identity.platform is Some,
        identity.application matches Some(name) ==> identity.to_document().get("application"@)
            == Some(BsonView::Document(application_document(name))),
        identity.platform matches Some(platform) ==> identity.to_document().get("platform"@)
            == Some(BsonView::String(platform)),
        identity.to_document().get("driver"@) == Some(
            BsonView::Document(identity.driver.to_document()),
        ),
        identity.to_document().get("os"@) == Some(BsonView::Document(identity.os.to_document())),
        identity.driver.to_document().get("name"@) == Some(BsonView::String(identity.driver.name)),
        identity.driver.to_document().get("version"@) == Some(
            BsonView::String(identity.driver.version),
        ),
        identity.os.to_document().contains_key("name"@) <==> identity.os.name is Some,
        identity.os.to_document().contains_key("version"@) <==> identity.os.version is Some,
{
    lemma_identity_keys_differ();
    let os = identity.os.to_document();
    if identity.os.name is Some {
        assert(os.key_at(1, "name"@));
    } else if os.contains_key("name"@) {
        assert(os.key_at(os.index_of("name"@), "name"@));
    }
    if identity.os.version is Some {
        assert(os.key_at(os.entries.len() - 1, "version"@));
    } else if os.contains_key("version"@) {
        assert(os.key_at(os.index_of("version"@), "version"@));
    }
    let document = identity.to_document();
    let first: int = if identity.application is Some {
        1
    } else {
        0
    };
    assert(document.key_at(first, "driver"@));
    assert(document.key_at(first + 1, "os"@));
    assert(document.distinct_keys());
    document.lemma_found_at(first, "driver"@);
    document.lemma_found_at(first + 1, "os"@);
    if identity.application is Some {
        assert(document.key_at(0, "application"@));
        document.lemma_found_at(0, "application"@);
    } else if document.contains_key("application"@) {
        assert(document.key_at(document.index_of("application"@), "application"@));
    }
    if identity.platform is Some {
        assert(document.key_at(first + 2, "platform"@));
        document.lemma_found_at(first + 2, "platform"@);
    } else if document.contains_key("platform"@) {
        assert(document.key_at(document.index_of("platform"@), "platform"@));
    }
    let driver = identity.driver.to_document();
    assert(driver.key_at(0, "name"@));
    assert(driver.key_at(1, "version"@));
    driver.lemma_found_at(0, "name"@);
    driver.lemma_found_at(1, "version"@);
}

/// A wrapping library's name goes behind the driver's, with `|` between
/// them; so does its version where it states one, and so does its platform
/// where both sides state one. What the library does not state is left as
/// the base has it.
pub proof fn lemma_wrapping_library_is_chained(
    base: ClientMetadataView,
    app_name: Option<Seq<char>>,
    info: DriverInfoView,
)
    ensures
        base.customize(app_name, Some(info)).driver.name == base.driver.name + seq!['|']
            + info.name,
        info.version matches Some(version) ==> base.customize(app_name, Some(info)).driver.version
            == base.driver.version + seq!['|'] + version,
        info.version is None ==> base.customize(app_name, Some(info)).driver.version
            == base.driver.version,
        base.platform is Some && info.platform is Some ==> base.customize(
            app_name,
            Some(info),
        ).platform == Some(base.platform->0 + seq!['|'] + info.platform->0),
        base.platform is None || info.platform is None ==> base.customize(
            app_name,
            Some(info),
        ).platform == base.platform,
{
}

/// Customizing keeps the base identity in front: the driver's name and
/// version, and the platform where there is one, begin with the base's own.
/// The operating system is left as it was.
pub proof fn lemma_base_identity_stays_first(
    base: ClientMetadataView,
    app_name: Option<Seq<char>>,
    driver_info: Option<DriverInfoView>,
)
    ensures
        base.driver.name.is_prefix_of(base.customize(app_name, driver_info).driver.name),
        base.driver.version.is_prefix_of(base.customize(app_name, driver_info).driver.version),
        base.platform matches Some(platform) ==> base.customize(app_name, driver_info).platform
            is Some && platform.is_prefix_of(base.customize(app_name, driver_info).platform->0),
        base.platform is None ==> base.customize(app_name, driver_info).platform is None,
        base.customize(app_name, driver_info).os == base.os,
{
    let custom = base.customize(app_name, driver_info);
    assert(custom.driver.name.subrange(0, base.driver.name.len() as int) =~= base.driver.name);
    assert(custom.driver.version.subrange(0, base.driver.version.len() as int)
        =~= base.driver.version);
    if base.platform is Some {
        let platform = base.platform->0;
        assert(custom.platform->0.subrange(0, platform.len() as int) =~= platform);
    }
}

/// `base` with `|` and `layer` behind it.
fn chain(base: &String, layer: &String) -> (joined: String)
    ensures
        joined@ == chained(base@, layer@),
{
    let mut joined = base.clone();
    joined.append("|");
    joined.append(layer.as_str());
    proof {
        reveal_strlit("|");
        assert("|"@ =~= seq!['|']);
    }
    joined
}

impl OsMetadata {
    /// The operating-system part of the identity document.
    pub fn to_document(&self) -> (document: Document)
        ensures
            document@ == self@.to_document(),
    {
        proof {
            lemma_identity_keys_differ();
        }
        let mut document = Document::new();
        document.insert("type".to_owned(), Bson::String(self.os_type.clone()));
        if let Some(name) = &self.name {
            document.insert("name".to_owned(), Bson::String(name.clone()));
        }
        document.insert("architecture".to_owned(), Bson::String(self.architecture.clone()));
        if let Some(version) = &self.version {
            document.insert("version".to_owned(), Bson::String(version.clone()));
        }
        assert(document@.entries =~= self@.to_document().entries);
        document
    }
}

impl DriverMetadata {
    /// The driver part of the identity document.
    pub fn to_document(&self) -> (document: Document)
        ensures
            document@ == self@.to_document(),
    {
        proof {
            lemma_identity_keys_differ();
        }
        let mut document = Document::new();
        document.insert("name".to_owned(), Bson::String(self.name.clone()));
        document.insert("version".to_owned(), Bson::String(self.version.clone()));
        assert(document@.entries =~= self@.to_document().entries);
        document
    }
}

impl AppMetadata {
    /// The application part of the identity document.
    pub fn to_document(&self) -> (document: Document)
        ensures
            document@ == application_document(self.name@),
    {
        let mut document = Document::new();
        document.insert("name".to_owned(), Bson::String(self.name.clone()));
        assert(document@.entries =~= application_document(self.name@).entries);
        document
    }
}

impl ClientMetadata {
    /// The identity document.
    pub fn to_document(&self) -> (document: Document)
        ensures
            document@ == self@.to_document(),
    {
        proof {
            lemma_identity_keys_differ();
        }
        let mut document = Document::new();
        if let Some(application) = &self.application {
            document.insert("application".to_owned(), Bson::Document(application.to_document()));
        }
        document.insert("driver".to_owned(), Bson::Document(self.driver.to_document()));
        document.insert("os".to_owned(), Bson::Document(self.os.to_document()));
        if let Some(platform) = &self.platform {
            document.insert("platform".to_owned(), Bson::String(platform.clone()));
        }
        assert(document@.entries =~= self@.to_document().entries);
        document
    }

    /// A copy of this identity that states `name` as its application.
    pub fn with_application(&self, name: &String) -> (named: ClientMetadata)
        ensures
            named@ == self@.with_application(name@),
    {
        ClientMetadata {
            application: Some(AppMetadata { name: name.clone() }),
            driver: self.driver.clone(),
            os: self.os.clone(),
            platform: self.platform.clone(),
        }
    }

    /// A copy of this identity, customized as a configuration asks: the
    /// application name where one is given, then the wrapping library where
    /// one is given. The identity itself is left as it was.
    pub fn customize(&self, app_name: Option<&String>, driver_info: Option<&DriverInfo>) -> (custom:
        ClientMetadata)
        ensures
            custom@ == self@.customize(
                match app_name {
                    Some(name) => Some(name@),
                    None => None,
                },
                match driver_info {
                    Some(info) => Some(info@),
                    None => None,
                },
            ),
    {
        let named = match app_name {
            Some(name) => self.with_application(name),
            None => self.clone(),
        };
        match driver_info {
            Some(info) => named.with_driver_info(info),
            None => named,
        }
    }

    /// A copy of this identity with one wrapping library chained behind it.
    pub fn with_driver_info(&self, info: &DriverInfo) -> (layered: ClientMetadata)
        ensures
            layered@ == self@.with_driver_info(info@),
    {
        let name = chain(&self.driver.name, &info.name);
        let version = match &info.version {
            Some(version) => chain(&self.driver.version, version),
            None => self.driver.version.clone(),
        };
        let platform = match (&self.platform, &info.platform) {
            (Some(platform), Some(layer)) => Some(chain(platform, layer)),
            (Some(platform), None) => Some(platform.clone()),
            (None, _) => None,
        };
        ClientMetadata {
            application: self.application.clone(),
            driver: DriverMetadata { name, version },
            os: self.os.clone(),
            platform,
        }
    }
}

impl From<OsMetadata> for Bson {
    /// The operating-system part of the identity document, as a value.
    fn from(metadata: OsMetadata) -> (bson: Bson)
        ensures
            bson@ == BsonView::Document(metadata@.to_document()),
    {
        Bson::Document(metadata.to_document())
    }
}

/// What `from` returns is stated over views, in its `ensures`: a document's
/// storage has no spec-level constructor to state it with.
impl vstd::std_specs::convert::FromSpecImpl<OsMetadata> for Bson {
    open spec fn obeys_from_spec() -> bool {
        false
    }

    open spec fn from_spec(metadata: OsMetadata) -> Bson {
        arbitrary()
    }
}

impl From<ClientMetadata> for Bson {
    /// The identity document, as a value.
    fn from(metadata: ClientMetadata) -> (bson: Bson)
        ensures
            bson@ == BsonView::Document(metadata@.to_document()),
    {
        Bson::Document(metadata.to_document())
    }
}

/// What `from` returns is stated over views, in its `ensures`: a document's
/// storage has no spec-level constructor to state it with.
impl vstd::std_specs::convert::FromSpecImpl<ClientMetadata> for Bson {
    open spec fn obeys_from_spec() -> bool {
        false
    }

    open spec fn from_spec(metadata: ClientMetadata) -> Bson {
        arbitrary()
    }
}

} // verus!
