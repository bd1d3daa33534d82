use dirserve::route::{
    classify_path, content_type_for, content_type_from_guess, plan_reply, PathKind, Reply,
};

#[test]
fn pdf_is_served_as_pdf() {
    assert_eq!(content_type_for("./report.pdf"), "application/pdf");
    match plan_reply("./report.pdf", PathKind::RegularFile) {
        Reply::FileStream { fs_path, content_type } => {
            assert_eq!(fs_path, "./report.pdf");
            assert_eq!(content_type, "application/pdf");
        }
        other => panic!("unexpected reply {:?}", other),
    }
}

#[test]
fn unknown_or_missing_extension_is_octet_stream() {
    assert_eq!(content_type_for("./README"), "application/octet-stream");
    assert_eq!(content_type_for("./data.nosuchextension"), "application/octet-stream");
}

#[test]
fn content_type_from_guess_falls_back() {
    assert_eq!(content_type_from_guess(Some("text/plain".to_string())), "text/plain");
    assert_eq!(content_type_from_guess(None), "application/octet-stream");
}

#[test]
fn missing_path_is_not_found_and_named() {
    match plan_reply("./nothing/here", PathKind::Unclassified { exists: false }) {
        Reply::Failure { status, message } => {
            assert_eq!(status, 404);
            assert_eq!(message, "not found. path=./nothing/here");
            assert!(message.ends_with("nothing/here"));
        }
        other => panic!("unexpected reply {:?}", other),
    }
}

#[test]
fn unclassified_existing_path_is_server_error() {
    match plan_reply("./dev/null", PathKind::Unclassified { exists: true }) {
        Reply::Failure { status, message } => {
            assert_eq!(status, 500);
            assert_eq!(message, "unhandled type. path=./dev/null");
        }
        other => panic!("unexpected reply {:?}", other),
    }
}

#[test]
fn directory_is_listed() {
    match plan_reply("./sub", PathKind::Directory) {
        Reply::DirectoryListing { fs_path } => assert_eq!(fs_path, "./sub"),
        other => panic!("unexpected reply {:?}", other),
    }
}

#[test]
fn classification_is_exactly_one_kind() {
    assert_eq!(classify_path(true, false, true), PathKind::Directory);
    assert_eq!(classify_path(true, true, true), PathKind::Directory);
    assert_eq!(classify_path(false, true, true), PathKind::RegularFile);
    assert_eq!(classify_path(false, false, true), PathKind::Unclassified { exists: true });
    assert_eq!(classify_path(false, false, false), PathKind::Unclassified { exists: false });
}
