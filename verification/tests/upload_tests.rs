use package_binary::error::PackError;
use package_binary::upload::{plan_uploads, route_upload, upload_due, upload_result, UploadRoute};

fn local(source: &str, directory: &str, destination: &str) -> UploadRoute {
    UploadRoute::LocalCopy {
        source: source.to_string(),
        directory: directory.to_string(),
        destination: destination.to_string(),
    }
}

fn remote(source: &str, endpoint: &str) -> UploadRoute {
    UploadRoute::RemoteTransfer { source: source.to_string(), endpoint: endpoint.to_string() }
}

#[test]
fn destination_with_a_leading_slash_is_a_local_copy() {
    assert_eq!(
        route_upload("binaries/foo-1-ab-bin.tar.gz", "/mnt/mirror"),
        local("binaries/foo-1-ab-bin.tar.gz", "/mnt/mirror", "/mnt/mirror/foo-1-ab-bin.tar.gz")
    );
    assert_eq!(route_upload("a.tar.gz", "/"), local("a.tar.gz", "/", "/a.tar.gz"));
    assert_eq!(route_upload("x/a", "/m/"), local("x/a", "/m/", "/m/a"));
}

#[test]
fn any_other_destination_is_a_remote_transfer() {
    for destination in ["user@host:/srv/mirror", "host:", "relative/dir", "", "./x", "scp://h/p", " /x"] {
        assert_eq!(route_upload("binaries/a.tar.gz", destination), remote("binaries/a.tar.gz", destination));
    }
}

#[test]
fn uploads_are_the_archive_and_then_its_sidecar() {
    assert_eq!(
        plan_uploads(true, Some("/mirror"), "out/a.tar.gz", true),
        vec![
            local("out/a.tar.gz", "/mirror", "/mirror/a.tar.gz"),
            local("out/a.tar.gz.sha256", "/mirror", "/mirror/a.tar.gz.sha256"),
        ]
    );
    assert_eq!(
        plan_uploads(true, Some("host:dir"), "out/a.tar.gz", true),
        vec![remote("out/a.tar.gz", "host:dir"), remote("out/a.tar.gz.sha256", "host:dir")]
    );
}

#[test]
fn missing_sidecar_is_not_uploaded() {
    assert_eq!(
        plan_uploads(true, Some("host:dir"), "out/a.tar.gz", false),
        vec![remote("out/a.tar.gz", "host:dir")]
    );
}

#[test]
fn nothing_is_uploaded_without_the_flag_or_without_a_destination() {
    assert_eq!(plan_uploads(false, Some("/mirror"), "out/a.tar.gz", true), Vec::new());
    assert_eq!(plan_uploads(true, None, "out/a.tar.gz", true), Vec::new());
    assert_eq!(plan_uploads(false, None, "out/a.tar.gz", false), Vec::new());
}

#[test]
fn failed_upload_is_named_after_its_route() {
    let copy = local("a", "/m", "/m/a");
    let transfer = remote("a", "host:");
    assert_eq!(upload_result(&copy, true), Ok(()));
    assert_eq!(upload_result(&transfer, true), Ok(()));
    assert_eq!(upload_result(&copy, false), Err(PackError::IoError));
    assert_eq!(upload_result(&transfer, false), Err(PackError::UploadFailed));
}

#[test]
fn upload_is_due_with_the_flag_and_a_destination() {
    assert!(upload_due(true, Some("/mirror")));
    assert!(upload_due(true, Some("")));
    assert!(!upload_due(true, None));
    assert!(!upload_due(false, Some("/mirror")));
    assert!(!upload_due(false, None));
}
