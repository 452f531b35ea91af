use aer_data::download::{download_file_name, file_name_from_disposition, file_name_from_segments};

fn segments_of(url: &str) -> Vec<String> {
    url::Url::parse(url)
        .unwrap()
        .path_segments()
        .unwrap()
        .map(|s| s.to_string())
        .collect()
}

fn get_from_url(url: &str) -> Option<String> {
    let segments = segments_of(url);
    let refs: Vec<&str> = segments.iter().map(|s| s.as_str()).collect();
    file_name_from_segments(&refs)
}

#[test]
fn get_from_disposition_should_get_file_name_from_disposition() {
    for (test, expected) in [
        (
            "attachment; filename=Cake.Recipe.2.0.0.nupkg",
            "Cake.Recipe.2.0.0.nupkg",
        ),
        ("attachment; filename=\"Cake.nupkg\"", "Cake.nupkg"),
        ("attachment; filename=Test.exe; name=test", "Test.exe"),
        ("attachment; filename=  \"  Test.exe  \"  ; name=test", "Test.exe"),
    ] {
        let file_name = file_name_from_disposition(test);

        assert_eq!(file_name, Some(expected.into()));
    }
}

#[test]
fn get_from_disposition_should_be_none_when_no_disposition_in_header() {
    let file_name = download_file_name(None, None);

    assert_eq!(file_name, None)
}

#[test]
fn get_from_disposition_should_be_none_when_no_filename_in_disposition() {
    for test in ["attachment", "inline; name=field-name"] {
        let file_name = file_name_from_disposition(test);

        assert_eq!(file_name, None);
    }
}

#[test]
fn get_from_url_should_return_correct_file_name() {
    for (url, expected) in [
        ("https://eternallybored.org/misc/wget/1.21.1/32/wget.exe", "wget.exe"),
        ("https://github.com/clementine-player/Clementine/releases/download/1.3.1/ClementineSetup-1.3.1.exe", "ClementineSetup-1.3.1.exe"),
        ("https://sourceforge.net/projects/codeblocks/files/Binaries/20.03/Windows/codeblocks-20.03-setup.exe/download", "codeblocks-20.03-setup.exe"),
    ] {
        let file_name = get_from_url(url);

        assert_eq!(file_name, Some(expected.into()))
    }
}

#[test]
fn get_from_url_should_return_none_on_no_file_name() {
    let file_name = get_from_url("https://www.codeblocks.org/downloads/binaries/");

    assert_eq!(file_name, None);
}

#[test]
fn download_file_name_prefers_the_disposition() {
    let segments = ["files", "setup.exe"];

    assert_eq!(
        download_file_name(Some("attachment; filename=other.zip"), Some(&segments)),
        Some("other.zip".to_string())
    );
    assert_eq!(
        download_file_name(Some("inline"), Some(&segments)),
        Some("setup.exe".to_string())
    );
    assert_eq!(download_file_name(Some("attachment; filename=\"\""), None), None);
}
