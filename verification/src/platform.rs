//! The part of the client identity that is read off the running machine:
//! operating-system version and compiler, probed once by the embedding
//! program and then shared.

use crate::metadata::{
    text_of, ClientMetadata, ClientMetadataView, DriverMetadata, DriverMetadataView, OsMetadata,
    OsMetadataView,
};
use vstd::prelude::*;

verus! {

/// What the operating-system probe found.
#[derive(Debug, PartialEq, Eq)]
pub struct OsReport {
    /// Whether the probe could tell which operating system this is.
    pub os_type_known: bool,
    /// The system's version as text, where the probe found one.
    pub version: Option<String>,
}

/// Version, release channel and commit date of the compiler, each as text.
#[derive(Debug, PartialEq, Eq)]
pub struct CompilerTriple {
    pub version: String,
    pub channel: String,
    pub date: String,
}

/// The asynchronous runtime that the client was built for.
#[derive(Debug, Clone, Copy, PartialEq, Eq)]
pub enum Runtime {
    Tokio,
    AsyncStd,
    Sync,
}

/// The mathematical value of a [`OsReport`].
pub struct OsReportView {
    pub os_type_known: bool,
    pub version: Option<Seq<char>>,
}

/// The mathematical value of a [`CompilerTriple`].
pub struct CompilerTripleView {
    pub version: Seq<char>,
    pub channel: Seq<char>,
    pub date: Seq<char>,
}

impl View for OsReport {
    type V = OsReportView;

    open spec fn view(&self) -> OsReportView {
        OsReportView { os_type_known: self.os_type_known, version: text_of(self.version) }
    }
}

impl View for CompilerTriple {
    type V = CompilerTripleView;

    open spec fn view(&self) -> CompilerTripleView {
        CompilerTripleView { version: self.version@, channel: self.channel@, date: self.date@ }
    }
}

/// The view of an optional compiler triple.
pub open spec fn triple_of(compiler: Option<CompilerTriple>) -> Option<CompilerTripleView> {
    match compiler {
        Some(triple) => Some(triple@),
        None => None,
    }
}

impl Runtime {
    /// The name under which the runtime appears in the platform line.
    pub open spec fn spec_name(self) -> Seq<char> {
        match self {
            Runtime::Tokio => "tokio"@,
            Runtime::AsyncStd => "async-std"@,
            Runtime::Sync => "sync (with async-std)"@,
        }
    }

    /// The name under which the runtime appears in the platform line.
    pub fn name(self) -> (name: &'static str)
        ensures
            name@ == self.spec_name(),
    {
        match self {
            Runtime::Tokio => "tokio",
            Runtime::AsyncStd => "async-std",
            Runtime::Sync => "sync (with async-std)",
        }
    }
}

impl OsReportView {
    /// The version that the identity states: the probed one, and none where
    /// the probe could not tell the operating system.
    pub open spec fn stated_version(self) -> Option<Seq<char>> {
        if self.os_type_known {
            self.version
        } else {
            None
        }
    }
}

impl CompilerTripleView {
    /// The platform line: `rustc VERSION CHANNEL (DATE) with RUNTIME`.
    pub open spec fn platform_line(self, runtime: Runtime) -> Seq<char> {
        "rustc "@ + self.version + " "@ + self.channel + " ("@ + self.date + ") with "@
            + runtime.spec_name()
    }
}

/// The base identity: the given driver and system names, no application and
/// no system name, the version that `os` states, and the platform line where
/// the compiler is known.
pub open spec fn base_metadata(
    driver: DriverMetadataView,
    os_type: Seq<char>,
    architecture: Seq<char>,
    os: OsReportView,
    compiler: Option<CompilerTripleView>,
    runtime: Runtime,
) -> ClientMetadataView {
    ClientMetadataView {
        application: None,
        driver,
        os: OsMetadataView { os_type, name: None, architecture, version: os.stated_version() },
        platform: match compiler {
            Some(triple) => Some(triple.platform_line(runtime)),
            None => None,
        },
    }
}

/// Asks `os_info::get` for the operating system and reports what the identity
/// needs of the answer: whether the type is other than `Unknown`, and the
/// version's display text unless the version is `Unknown`. The answer depends
/// on the machine, so nothing is promised of it.
#[verifier::external_body]
fn probe_os() -> (report: OsReport) {
    let info = os_info::get();
    let os_type_known = match info.os_type() {
        os_info::Type::Unknown => false,
        _ => true,
    };
    let version = match info.version() {
        os_info::Version::Unknown => None,
        known => Some(known.to_string()),
    };
    OsReport { os_type_known, version }
}

/// Asks `version_check::triple` for the compiler and hands on the display
/// text of each part. The answer depends on the compiler that is installed
/// where the program runs, so nothing is promised of it.
#[verifier::external_body]
fn probe_compiler() -> (compiler: Option<CompilerTriple>) {
    match version_check::triple() {
        Some((version, channel, date)) => Some(
            CompilerTriple {
                version: version.to_string(),
                channel: channel.to_string(),
                date: date.to_string(),
            },
        ),
        None => None,
    }
}

impl CompilerTriple {
    /// The platform line for this compiler and `runtime`.
    pub fn platform_line(&self, runtime: Runtime) -> (line: String)
        ensures
            line@ == self@.platform_line(runtime),
    {
        let mut line = "rustc ".to_owned();
        line.append(self.version.as_str());
        line.append(" ");
        line.append(self.channel.as_str());
        line.append(" (");
        line.append(self.date.as_str());
        line.append(") with ");
        line.append(runtime.name());
        line
    }
}

impl OsReport {
    /// The version that the identity states.
    pub fn stated_version(&self) -> (version: Option<String>)
        ensures
            text_of(version) == self@.stated_version(),
    {
        if self.os_type_known {
            self.version.clone()
        } else {
            None
        }
    }
}

/// Puts the base identity together from what the probes found.
pub fn assemble_base(
    driver: DriverMetadata,
    os_type: String,
    architecture: String,
    os: &OsReport,
    compiler: Option<&CompilerTriple>,
    runtime: Runtime,
) -> (base: ClientMetadata)
    ensures
        base@ == base_metadata(
            driver@,
            os_type@,
            architecture@,
            os@,
            match compiler {
                Some(triple) => Some(triple@),
                None => None,
            },
            runtime,
        ),
{
    let platform = match compiler {
        Some(triple) => Some(triple.platform_line(runtime)),
        None => None,
    };
    ClientMetadata {
        application: None,
        driver,
        os: OsMetadata { os_type, name: None, architecture, version: os.stated_version() },
        platform,
    }
}

/// Probes the machine and builds the base identity. A probe that finds
/// nothing leaves its field out; the call itself cannot fail. The probing is
/// costly: the embedding program calls this once and shares the result.
pub fn build_base(driver: DriverMetadata, os_type: String, architecture: String, runtime: Runtime) -> (base:
    ClientMetadata)
    ensures
        exists|os: OsReportView, compiler: Option<CompilerTripleView>|
            base@ == base_metadata(driver@, os_type@, architecture@, os, compiler, runtime),
        base@.application is None,
        base@.driver == driver@,
        base@.os.os_type == os_type@,
        base@.os.name is None,
        base@.os.architecture == architecture@,
{
    let os = probe_os();
    let compiler = probe_compiler();
    let base = assemble_base(driver, os_type, architecture, &os, compiler.as_ref(), runtime);
    assert(base@ == base_metadata(
        driver@,
        os_type@,
        architecture@,
        os@,
        triple_of(compiler),
        runtime,
    ));
    base
}

} // verus!
