use conductor::assets::{
    assets, found, index, not_found, stdout, HTML, INDEX_PAGE, NOT_FOUND_BODY, STATUS_NOT_FOUND,
    STATUS_OK, STDOUT_PAGE,
};

#[test]
fn known_extension_is_served_under_its_media_type() {
    let reply = assets("logo.png", Some(vec![1, 2, 3]));
    assert_eq!(reply.status, 200);
    assert_eq!(reply.content_type.as_deref(), Some("image/png"));
    assert_eq!(reply.body, vec![1, 2, 3]);
}

#[test]
fn media_type_follows_the_extension() {
    let cases = [
        ("index.html", "text/html"),
        ("style.css", "text/css"),
        ("anim.GIF", "image/gif"),
        ("dir/photo.jpg", "image/jpeg"),
        ("data.json", "application/json"),
        ("notes.txt", "text/plain"),
    ];
    for (path, media_type) in cases {
        let reply = assets(path, Some(Vec::new()));
        assert_eq!(reply.content_type.as_deref(), Some(media_type), "{}", path);
    }
}

#[test]
fn unknown_or_missing_extension_is_an_octet_stream() {
    for path in ["blob", "archive.blahblah", "", "trailing."] {
        let reply = assets(path, Some(vec![0]));
        assert_eq!(reply.status, STATUS_OK);
        assert_eq!(reply.content_type.as_deref(), Some("application/octet-stream"), "{}", path);
    }
}

#[test]
fn missing_asset_is_not_found() {
    let reply = assets("nothing.html", None);
    assert_eq!(reply.status, 404);
    assert_eq!(reply.status, STATUS_NOT_FOUND);
    assert_eq!(reply.content_type, None);
    assert_eq!(reply.body, b"404 Not Found".to_vec());
    assert_eq!(NOT_FOUND_BODY, "404 Not Found");
}

#[test]
fn not_found_reply_is_what_a_missing_asset_gets() {
    let reply = not_found();
    let missing = assets("x", None);
    assert_eq!(reply.status, missing.status);
    assert_eq!(reply.content_type, missing.content_type);
    assert_eq!(reply.body, missing.body);
}

#[test]
fn found_reply_carries_type_and_body() {
    let reply = found("text/css".to_string(), vec![9, 8]);
    assert_eq!(reply.status, 200);
    assert_eq!(reply.content_type.as_deref(), Some("text/css"));
    assert_eq!(reply.body, vec![9, 8]);
}

#[test]
fn pages_are_served_as_html() {
    let page = b"<html></html>".to_vec();
    for reply in [index(page.clone()), stdout(page.clone())] {
        assert_eq!(reply.status, 200);
        assert_eq!(reply.content_type.as_deref(), Some("text/html"));
        assert_eq!(reply.body, page);
    }
    assert_eq!(HTML, "text/html");
    assert_eq!(INDEX_PAGE, "index.html");
    assert_eq!(STDOUT_PAGE, "stdout.html");
}

#[test]
fn page_assets_are_guessed_as_html() {
    for page in [INDEX_PAGE, STDOUT_PAGE] {
        assert_eq!(assets(page, Some(Vec::new())).content_type.as_deref(), Some(HTML));
    }
}
