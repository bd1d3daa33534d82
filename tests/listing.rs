use dirserve::html::{
    display_name, encode_href, entry_kind, entry_suffix, escape_html, render_entry,
    render_listing, DirEntryInfo, EntryKind,
};

fn entry(name: &str, kind: EntryKind) -> DirEntryInfo {
    DirEntryInfo { name: Some(name.to_string()), kind }
}

#[test]
fn listing_of_dir_file_and_symlink() {
    let entries = vec![
        entry("sub", EntryKind::Directory),
        entry("a.txt", EntryKind::Plain),
        entry("link", EntryKind::Symlink),
    ];
    let html = render_listing(".", &entries);
    assert_eq!(
        html,
        "<html><head><title>Directory Listing</title></head><body><ul>\
         <li><a href=\"/sub\">sub/</a></li>\
         <li><a href=\"/a.txt\">a.txt</a></li>\
         <li><a href=\"/link\">link@</a></li>\
         </ul></body></html>"
    );
}

#[test]
fn listing_of_subdirectory_links_below_it() {
    let entries = vec![entry("b", EntryKind::Plain)];
    let html = render_listing("./sub", &entries);
    assert!(html.contains("<li><a href=\"/sub/b\">b</a></li>"));
}

#[test]
fn empty_listing_has_only_the_skeleton() {
    let html = render_listing("./", &Vec::new());
    assert_eq!(html, "<html><head><title>Directory Listing</title></head><body><ul></ul></body></html>");
}

#[test]
fn listing_keeps_enumeration_order() {
    let entries = vec![entry("z", EntryKind::Plain), entry("a", EntryKind::Plain)];
    let html = render_listing(".", &entries);
    let z = html.find("href=\"/z\"").unwrap();
    let a = html.find("href=\"/a\"").unwrap();
    assert!(z < a);
}

#[test]
fn invalid_name_is_replaced_by_placeholder() {
    let e = DirEntryInfo { name: None, kind: EntryKind::Plain };
    assert_eq!(display_name(&None), "[Invalid UTF-8]");
    assert_eq!(render_entry(".", &e), "<li><a href=\"/%5BInvalid%20UTF-8%5D\">[Invalid UTF-8]</a></li>");
    let html = render_listing(".", &vec![e, entry("ok", EntryKind::Plain)]);
    assert!(html.contains(">[Invalid UTF-8]</a>"));
    assert!(html.contains("<li><a href=\"/ok\">ok</a></li>"));
}

#[test]
fn directory_test_comes_before_symlink_test() {
    assert_eq!(entry_kind(true, true), EntryKind::Directory);
    assert_eq!(entry_kind(true, false), EntryKind::Directory);
    assert_eq!(entry_kind(false, true), EntryKind::Symlink);
    assert_eq!(entry_kind(false, false), EntryKind::Plain);
    assert_eq!(entry_suffix(EntryKind::Directory), "/");
    assert_eq!(entry_suffix(EntryKind::Symlink), "@");
    assert_eq!(entry_suffix(EntryKind::Plain), "");
}

#[test]
fn names_are_escaped_for_html() {
    assert_eq!(escape_html("<a&b>\"'"), "&lt;a&amp;b&gt;&quot;&#39;");
    assert_eq!(escape_html("plain"), "plain");
    assert_eq!(escape_html(""), "");
}

#[test]
fn hrefs_are_percent_encoded() {
    assert_eq!(encode_href("/a b#?"), "/a%20b%23%3F");
    assert_eq!(encode_href("/x\"><script>"), "/x%22%3E%3Cscript%3E");
    assert_eq!(encode_href("/A-z_0.9~"), "/A-z_0.9~");
    assert_eq!(encode_href("/caf\u{e9}"), "/caf\u{e9}");
    assert_eq!(encode_href("%"), "%25");
}

#[test]
fn hostile_name_is_escaped_in_listing() {
    let html = render_listing(".", &vec![entry("<b>&", EntryKind::Plain)]);
    assert!(html.contains("<li><a href=\"/%3Cb%3E%26\">&lt;b&gt;&amp;</a></li>"));
}
