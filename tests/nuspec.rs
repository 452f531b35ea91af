use aer_data::chocolatey::ChocolateyMetadata;
use aer_data::metadata::PackageMetadata;
use aer_data::nuspec::ManifestElement;
use aer_data::url::Url;
use aer_data::version::Version;

fn names(elements: &[ManifestElement]) -> Vec<&str> {
    elements.iter().map(|e| e.name).collect()
}

#[test]
fn manifest_of_empty_metadata_holds_the_required_elements() {
    let mut data = ChocolateyMetadata::with_authors(&["AdmiringWorm"]);
    data.update_from(&PackageMetadata::new("test-package"));

    let manifest = data.manifest("tools/**");

    assert_eq!(
        names(&manifest.metadata),
        ["id", "version", "owners", "authors", "projectUrl", "tags"]
    );
    assert_eq!(manifest.metadata[0].value, "test-package");
    assert_eq!(manifest.metadata[1].value, "0.0.0");
    assert_eq!(manifest.metadata[3].value, "AdmiringWorm");
    assert_eq!(
        manifest.metadata[4].value,
        "https://example.com/MUST_BE_CHANGED"
    );
    assert_eq!(manifest.metadata[5].value, "test-package");
    assert!(manifest.dependencies.is_empty());
    assert_eq!(
        manifest.files,
        [("tools/**".to_string(), "tools".to_string())]
    );
}

#[test]
fn manifest_of_full_metadata_holds_every_element_in_order() {
    let mut data = ChocolateyMetadata::with_authors(&["AdmiringWorm", "Chocolatey"]);
    data.set_maintainers(&["AdmiringWorm", "gep13"]);
    data.version = Version::new(1, 2, 3);
    data.set_title("Test Package");
    data.set_copyright("Copyright 2021");
    data.license_url = Some(Url::parse("https://opensource.org/licenses/MIT").unwrap());
    data.require_license_acceptance = false;
    data.set_tags(&["test-package", "admin"]);
    data.summary = Some("A summary".to_string());
    data.set_description_str("A description");
    data.set_release_notes("Some notes");
    data.add_dependencies("dotnet", Version::new(4, 8, 0));
    data.set_files(&[("tools/**", "tools"), ("tools\\**", "tools"), ("legal/*", "legal")]);
    data.update_from(&PackageMetadata::new("test-package"));

    let manifest = data.manifest("tools/**");

    assert_eq!(
        names(&manifest.metadata),
        [
            "id",
            "version",
            "owners",
            "title",
            "authors",
            "projectUrl",
            "copyright",
            "licenseUrl",
            "requireLicenseAcceptance",
            "tags",
            "summary",
            "description",
            "releaseNotes"
        ]
    );
    assert_eq!(manifest.metadata[1].value, "1.2.3");
    assert_eq!(manifest.metadata[2].value, "AdmiringWorm,gep13");
    assert_eq!(manifest.metadata[4].value, "AdmiringWorm,Chocolatey");
    assert_eq!(manifest.metadata[8].value, "false");
    assert_eq!(manifest.metadata[9].value, "test-package admin");
    assert!(manifest.metadata[11].cdata);
    assert!(!manifest.metadata[10].cdata);
    assert_eq!(
        manifest.dependencies,
        [("dotnet".to_string(), "4.8.0".to_string())]
    );
    assert_eq!(
        manifest.files,
        [
            ("tools/**".to_string(), "tools".to_string()),
            ("legal/*".to_string(), "legal".to_string())
        ]
    );
}
