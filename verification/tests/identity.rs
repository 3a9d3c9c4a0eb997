use wire_handshake::document::{Bson, Document};
use wire_handshake::metadata::{AppMetadata, ClientMetadata, DriverInfo, DriverMetadata, OsMetadata};
use wire_handshake::platform::{assemble_base, build_base, CompilerTriple, OsReport, Runtime};

fn base() -> ClientMetadata {
    ClientMetadata {
        application: None,
        driver: DriverMetadata { name: "base-driver".to_string(), version: "2.0.0".to_string() },
        os: OsMetadata {
            os_type: "linux".to_string(),
            name: None,
            architecture: "x86_64".to_string(),
            version: Some("5.15".to_string()),
        },
        platform: Some("rustc 1.50.0 stable (2021-02-11) with tokio".to_string()),
    }
}

fn text(value: Option<&Bson>) -> String {
    match value {
        Some(Bson::String(text)) => text.clone(),
        other => panic!("not a string: {:?}", other),
    }
}

fn document(value: Option<&Bson>) -> Document {
    match value {
        Some(Bson::Document(document)) => document.clone(),
        other => panic!("not a document: {:?}", other),
    }
}

#[test]
fn plain_configuration_keeps_the_base_identity() {
    let custom = base().customize(None, None);
    assert_eq!(custom, base());
    let identity = custom.to_document();
    assert!(!identity.contains_key("application"));
    let driver = document(identity.get("driver"));
    assert_eq!(text(driver.get("name")), "base-driver");
    assert_eq!(text(driver.get("version")), "2.0.0");
}

#[test]
fn wrapping_library_is_chained_behind_the_base() {
    let info = DriverInfo { name: "wrapperA".to_string(), version: Some("9".to_string()), platform: None };
    let custom = base().customize(None, Some(&info));
    assert_eq!(custom.driver.name, "base-driver|wrapperA");
    assert_eq!(custom.driver.version, "2.0.0|9");
    assert_eq!(custom.platform, base().platform);
    let driver = document(custom.to_document().get("driver"));
    assert_eq!(text(driver.get("name")), "base-driver|wrapperA");
    assert_eq!(text(driver.get("version")), "2.0.0|9");
}

#[test]
fn wrapping_library_without_version_leaves_the_version() {
    let info = DriverInfo { name: "wrapperA".to_string(), version: None, platform: None };
    let custom = base().with_driver_info(&info);
    assert_eq!(custom.driver.name, "base-driver|wrapperA");
    assert_eq!(custom.driver.version, "2.0.0");
}

#[test]
fn wrapping_libraries_are_chained_in_call_order() {
    let first = DriverInfo { name: "inner".to_string(), version: Some("1".to_string()), platform: None };
    let second = DriverInfo { name: "outer".to_string(), version: Some("2".to_string()), platform: None };
    let custom = base().with_driver_info(&first).with_driver_info(&second);
    assert_eq!(custom.driver.name, "base-driver|inner|outer");
    assert_eq!(custom.driver.version, "2.0.0|1|2");
}

#[test]
fn platform_is_chained_where_both_sides_state_one() {
    let info = DriverInfo {
        name: "wrapperA".to_string(),
        version: None,
        platform: Some("framework 3".to_string()),
    };
    let custom = base().customize(None, Some(&info));
    assert_eq!(
        custom.platform,
        Some("rustc 1.50.0 stable (2021-02-11) with tokio|framework 3".to_string())
    );
    let mut bare = base();
    bare.platform = None;
    assert_eq!(bare.customize(None, Some(&info)).platform, None);
}

#[test]
fn application_name_is_set_where_given() {
    let name = "billing".to_string();
    let custom = base().customize(Some(&name), None);
    assert_eq!(custom.application, Some(AppMetadata { name: "billing".to_string() }));
    let identity = custom.to_document();
    let application = document(identity.get("application"));
    assert_eq!(text(application.get("name")), "billing");
    assert_eq!(application.len(), 1);
}

#[test]
fn customize_leaves_the_base_as_it_was() {
    let before = base();
    let name = "billing".to_string();
    let info = DriverInfo { name: "w".to_string(), version: Some("1".to_string()), platform: Some("p".to_string()) };
    let _ = before.customize(Some(&name), Some(&info));
    assert_eq!(before, base());
}

#[test]
fn identity_document_lists_its_parts_in_order() {
    let name = "billing".to_string();
    let identity = base().customize(Some(&name), None).to_document();
    assert_eq!(identity.keys(), vec!["application", "driver", "os", "platform"]);
    let os = document(identity.get("os"));
    assert_eq!(os.keys(), vec!["type", "architecture", "version"]);
    assert_eq!(text(os.get("type")), "linux");
    assert_eq!(text(os.get("architecture")), "x86_64");
    assert_eq!(text(os.get("version")), "5.15");
    assert_eq!(
        text(identity.get("platform")),
        "rustc 1.50.0 stable (2021-02-11) with tokio"
    );
}

#[test]
fn identity_document_omits_what_is_absent() {
    let mut bare = base();
    bare.platform = None;
    bare.os.version = None;
    let identity = bare.to_document();
    assert_eq!(identity.keys(), vec!["driver", "os"]);
    assert_eq!(document(identity.get("os")).keys(), vec!["type", "architecture"]);
    let mut named = base();
    named.os.name = Some("Ubuntu".to_string());
    assert_eq!(
        document(named.to_document().get("os")).keys(),
        vec!["type", "name", "architecture", "version"]
    );
}

#[test]
fn identity_converts_into_a_document_value() {
    let value = Bson::from(base());
    assert_eq!(value, Bson::Document(base().to_document()));
    let os = Bson::from(base().os);
    assert_eq!(os, Bson::Document(base().os.to_document()));
}

#[test]
fn platform_line_has_the_stated_form() {
    let triple = CompilerTriple {
        version: "1.50.0".to_string(),
        channel: "stable".to_string(),
        date: "2021-02-11".to_string(),
    };
    assert_eq!(triple.platform_line(Runtime::Tokio), "rustc 1.50.0 stable (2021-02-11) with tokio");
    assert_eq!(
        triple.platform_line(Runtime::AsyncStd),
        "rustc 1.50.0 stable (2021-02-11) with async-std"
    );
    assert_eq!(
        triple.platform_line(Runtime::Sync),
        "rustc 1.50.0 stable (2021-02-11) with sync (with async-std)"
    );
}

#[test]
fn base_is_assembled_from_what_the_probes_found() {
    let driver = DriverMetadata { name: "base-driver".to_string(), version: "2.0.0".to_string() };
    let os = OsReport { os_type_known: true, version: Some("11.2".to_string()) };
    let triple = CompilerTriple {
        version: "1.50.0".to_string(),
        channel: "stable".to_string(),
        date: "2021-02-11".to_string(),
    };
    let assembled = assemble_base(
        driver,
        "macos".to_string(),
        "aarch64".to_string(),
        &os,
        Some(&triple),
        Runtime::Tokio,
    );
    assert_eq!(assembled.application, None);
    assert_eq!(assembled.driver.name, "base-driver");
    assert_eq!(assembled.driver.version, "2.0.0");
    assert_eq!(assembled.os.os_type, "macos");
    assert_eq!(assembled.os.name, None);
    assert_eq!(assembled.os.architecture, "aarch64");
    assert_eq!(assembled.os.version, Some("11.2".to_string()));
    assert_eq!(
        assembled.platform,
        Some("rustc 1.50.0 stable (2021-02-11) with tokio".to_string())
    );
}

#[test]
fn failed_probes_leave_their_fields_out() {
    let driver = DriverMetadata { name: "base-driver".to_string(), version: "2.0.0".to_string() };
    let unknown_type = OsReport { os_type_known: false, version: Some("11.2".to_string()) };
    let assembled = assemble_base(
        driver.clone(),
        "macos".to_string(),
        "aarch64".to_string(),
        &unknown_type,
        None,
        Runtime::Tokio,
    );
    assert_eq!(assembled.os.version, None);
    assert_eq!(assembled.platform, None);
    let unknown_version = OsReport { os_type_known: true, version: None };
    let assembled = assemble_base(
        driver,
        "macos".to_string(),
        "aarch64".to_string(),
        &unknown_version,
        None,
        Runtime::Sync,
    );
    assert_eq!(assembled.os.version, None);
    assert_eq!(unknown_version.stated_version(), None);
    assert_eq!(unknown_type.stated_version(), None);
}

#[test]
fn probed_base_keeps_what_it_was_given() {
    let driver = DriverMetadata { name: "base-driver".to_string(), version: "2.0.0".to_string() };
    let probed = build_base(driver, "linux".to_string(), "x86_64".to_string(), Runtime::AsyncStd);
    assert_eq!(probed.application, None);
    assert_eq!(probed.driver.name, "base-driver");
    assert_eq!(probed.driver.version, "2.0.0");
    assert_eq!(probed.os.os_type, "linux");
    assert_eq!(probed.os.name, None);
    assert_eq!(probed.os.architecture, "x86_64");
    if let Some(version) = &probed.os.version {
        assert_ne!(version, "Unknown");
    }
    if let Some(platform) = &probed.platform {
        assert!(platform.starts_with("rustc "));
        assert!(platform.ends_with(" with async-std"));
    }
}

#[test]
fn probing_twice_gives_the_same_identity() {
    let driver = DriverMetadata { name: "base-driver".to_string(), version: "2.0.0".to_string() };
    let first = build_base(driver.clone(), "linux".to_string(), "x86_64".to_string(), Runtime::Tokio);
    let second = build_base(driver, "linux".to_string(), "x86_64".to_string(), Runtime::Tokio);
    assert_eq!(first.driver, second.driver);
    assert_eq!(first.os.os_type, second.os.os_type);
    assert_eq!(first.os.architecture, second.os.architecture);
}

#[test]
fn runtime_names() {
    assert_eq!(Runtime::Tokio.name(), "tokio");
    assert_eq!(Runtime::AsyncStd.name(), "async-std");
    assert_eq!(Runtime::Sync.name(), "sync (with async-std)");
}
