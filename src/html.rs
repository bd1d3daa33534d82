//! Rendering a directory's entries as an HTML list, with entry names escaped
//! for HTML text and URL paths percent-encoded for `href` attributes.

use vstd::prelude::*;
use crate::url::{joined, url_path_of, join_path, fs_path_to_url_path};

verus! {

/// What a listing shows of an entry's kind.
#[derive(Clone, Copy, Debug, PartialEq, Eq, Structural)]
pub enum EntryKind {
    Directory,
    Symlink,
    Plain,
}

/// One entry of a directory, as enumerated.
#[derive(Debug)]
pub struct DirEntryInfo {
    /// The entry's name; `None` where the name is not valid UTF-8.
    pub name: Option<String>,
    pub kind: EntryKind,
}

/// Shown in place of a name that is not valid UTF-8.
pub open spec fn invalid_name_placeholder() -> Seq<char> {
    "[Invalid UTF-8]"@
}

/// The text under which an entry is listed and linked.
pub open spec fn display_name_of(name: Option<String>) -> Seq<char> {
    match name {
        Some(n) => n@,
        None => invalid_name_placeholder(),
    }
}

/// The directory test comes first: an entry that reports itself both as a
/// directory and as a symbolic link is listed as a directory.
pub open spec fn kind_of(is_dir: bool, is_symlink: bool) -> EntryKind {
    if is_dir {
        EntryKind::Directory
    } else if is_symlink {
        EntryKind::Symlink
    } else {
        EntryKind::Plain
    }
}

/// The marker written after an entry's name.
pub open spec fn suffix_of(kind: EntryKind) -> Seq<char> {
    match kind {
        EntryKind::Directory => "/"@,
        EntryKind::Symlink => "@"@,
        EntryKind::Plain => ""@,
    }
}

/// How one character is written in HTML text or a quoted attribute.
pub open spec fn escaped_char(c: char) -> Seq<char> {
    if c == '&' {
        "&amp;"@
    } else if c == '<' {
        "&lt;"@
    } else if c == '>' {
        "&gt;"@
    } else if c == '"' {
        "&quot;"@
    } else if c == '\'' {
        "&#39;"@
    } else {
        seq![c]
    }
}

/// `s` escaped for HTML, character by character.
pub open spec fn html_escaped(s: Seq<char>) -> Seq<char>
    decreases s.len(),
{
    if s.len() == 0 {
        Seq::empty()
    } else {
        html_escaped(s.drop_last()) + escaped_char(s.last())
    }
}

/// Characters that stand in an `href` unencoded: ASCII letters and digits,
/// `-`, `.`, `_`, `~`, the segment separator `/`, and every non-ASCII
/// character.
pub open spec fn href_keeps(c: char) -> bool {
    let u = c as u32;
    (97 <= u <= 122) || (65 <= u <= 90) || (48 <= u <= 57) || c == '-' || c == '.' || c == '_'
        || c == '~' || c == '/' || u >= 128
}

/// An upper-case hexadecimal digit.
pub open spec fn hex_digit(d: u32) -> char {
    "0123456789ABCDEF"@[d as int]
}

/// How one character is written in an `href`: kept, or as `%` and two
/// hexadecimal digits of its code.
pub open spec fn href_char(c: char) -> Seq<char> {
    if href_keeps(c) {
        seq![c]
    } else {
        seq!['%', hex_digit((c as u32) / 16), hex_digit((c as u32) % 16)]
    }
}

/// `s` percent-encoded for an `href`, character by character.
pub open spec fn href_encoded(s: Seq<char>) -> Seq<char>
    decreases s.len(),
{
    if s.len() == 0 {
        Seq::empty()
    } else {
        href_encoded(s.drop_last()) + href_char(s.last())
    }
}

/// A text that holds none of `&`, `<`, `>`, `"` and `'` is left as it is by
/// escaping.
pub proof fn lemma_escape_keeps_plain_text(s: Seq<char>)
    requires
        forall|i: int|
            0 <= i < s.len() ==> #[trigger] s[i] != '&' && s[i] != '<' && s[i] != '>' && s[i]
                != '"' && s[i] != '\'',
    ensures
        html_escaped(s) == s,
    decreases s.len(),
{
    if s.len() > 0 {
        let init = s.drop_last();
        assert forall|i: int| 0 <= i < init.len() implies #[trigger] init[i] != '&' && init[i] != '<'
            && init[i] != '>' && init[i] != '"' && init[i] != '\'' by {
            assert(init[i] == s[i]);
        }
        lemma_escape_keeps_plain_text(init);
        assert(s.last() == s[s.len() - 1]);
        assert(init + seq![s.last()] =~= s);
    }
}

/// An entry whose name is not valid UTF-8 is still listed, under the
/// placeholder `[Invalid UTF-8]`, linked at the placeholder's URL path.
pub proof fn lemma_invalid_name_listed_as_placeholder(dir: Seq<char>, entry: DirEntryInfo)
    requires
        entry.name is None,
    ensures
        entry_item(dir, entry) == "<li><a href=\""@ + href_encoded(
            url_path_of(joined(dir, "[Invalid UTF-8]"@)),
        ) + "\">"@ + "[Invalid UTF-8]"@ + suffix_of(entry.kind) + "</a></li>"@,
{
    reveal_strlit("[Invalid UTF-8]");
    lemma_escape_keeps_plain_text(invalid_name_placeholder());
}

/// The opening of every listing, up to the list's first item.
pub open spec fn listing_head() -> Seq<char> {
    "<html><head><title>Directory Listing</title></head><body><ul>"@
}

/// The close of every listing, after the list's last item.
pub open spec fn listing_tail() -> Seq<char> {
    "</ul></body></html>"@
}

/// The list item of `entry` in the listing of the directory at `dir`: a link to
/// the entry's URL path, showing its name and the marker of its kind.
pub open spec fn entry_item(dir: Seq<char>, entry: DirEntryInfo) -> Seq<char> {
    let name = display_name_of(entry.name);
    "<li><a href=\""@ + href_encoded(url_path_of(joined(dir, name))) + "\">"@
        + html_escaped(name) + suffix_of(entry.kind) + "</a></li>"@
}

/// The list items of `entries`, in the order given.
pub open spec fn entry_items(dir: Seq<char>, entries: Seq<DirEntryInfo>) -> Seq<char>
    decreases entries.len(),
{
    if entries.len() == 0 {
        Seq::empty()
    } else {
        entry_items(dir, entries.drop_last()) + entry_item(dir, entries.last())
    }
}

/// The HTML listing of the directory at `dir` holding `entries`.
pub open spec fn listing_html(dir: Seq<char>, entries: Seq<DirEntryInfo>) -> Seq<char> {
    listing_head() + entry_items(dir, entries) + listing_tail()
}

/// The kind under which an entry is listed, from what its metadata reports.
pub fn entry_kind(is_dir: bool, is_symlink: bool) -> (r: EntryKind)
    ensures
        r == kind_of(is_dir, is_symlink),
{
    if is_dir {
        EntryKind::Directory
    } else if is_symlink {
        EntryKind::Symlink
    } else {
        EntryKind::Plain
    }
}

/// The marker written after the name of an entry of kind `kind`.
pub fn entry_suffix(kind: EntryKind) -> (r: &'static str)
    ensures
        r@ == suffix_of(kind),
{
    match kind {
        EntryKind::Directory => "/",
        EntryKind::Symlink => "@",
        EntryKind::Plain => "",
    }
}

/// The text under which an entry named `name` is listed.
pub fn display_name(name: &Option<String>) -> (r: String)
    ensures
        r@ == display_name_of(*name),
{
    match name {
        Some(n) => n.clone(),
        None => String::from_str("[Invalid UTF-8]"),
    }
}

/// `s` escaped for HTML text and quoted attributes.
pub fn escape_html(s: &str) -> (r: String)
    ensures
        r@ == html_escaped(s@),
{
    let n = s.unicode_len();
    let mut r = String::new();
    let mut i: usize = 0;
    while i < n
        invariant
            n == s@.len(),
            i <= n,
            r@ == html_escaped(s@.subrange(0, i as int)),
        decreases n - i,
    {
        let c = s.get_char(i);
        assert(s@.subrange(0, i as int + 1).drop_last() =~= s@.subrange(0, i as int));
        if c == '&' {
            r.append("&amp;");
        } else if c == '<' {
            r.append("&lt;");
        } else if c == '>' {
            r.append("&gt;");
        } else if c == '"' {
            r.append("&quot;");
        } else if c == '\'' {
            r.append("&#39;");
        } else {
            let one = s.substring_char(i, i + 1);
            assert(one@ =~= seq![c]);
            r.append(one);
        }
        i = i + 1;
    }
    assert(s@.subrange(0, n as int) =~= s@);
    r
}

/// `s` percent-encoded for an `href` attribute.
pub fn encode_href(s: &str) -> (r: String)
    ensures
        r@ == href_encoded(s@),
{
    let digits = "0123456789ABCDEF";
    proof {
        reveal_strlit("0123456789ABCDEF");
    }
    let n = s.unicode_len();
    let mut r = String::new();
    let mut i: usize = 0;
    while i < n
        invariant
            n == s@.len(),
            i <= n,
            digits@ == "0123456789ABCDEF"@,
            digits@.len() == 16,
            r@ == href_encoded(s@.subrange(0, i as int)),
        decreases n - i,
    {
        let c = s.get_char(i);
        assert(s@.subrange(0, i as int + 1).drop_last() =~= s@.subrange(0, i as int));
        let u = c as u32;
        let one = s.substring_char(i, i + 1);
        assert(one@ =~= seq![c]);
        if (97 <= u && u <= 122) || (65 <= u && u <= 90) || (48 <= u && u <= 57) || c == '-'
            || c == '.' || c == '_' || c == '~' || c == '/' || u >= 128 {
            r.append(one);
        } else {
            let hi = (u / 16) as usize;
            let lo = (u % 16) as usize;
            r.append("%");
            r.append(digits.substring_char(hi, hi + 1));
            r.append(digits.substring_char(lo, lo + 1));
            proof {
                reveal_strlit("%");
            }
            assert(href_char(c) =~= "%"@ + digits@.subrange(hi as int, hi + 1) + digits@.subrange(
                lo as int,
                lo + 1,
            ));
        }
        i = i + 1;
    }
    assert(s@.subrange(0, n as int) =~= s@);
    r
}

/// The list item of `entry` in the listing of the directory at `dir`.
pub fn render_entry(dir: &str, entry: &DirEntryInfo) -> (r: String)
    ensures
        r@ == entry_item(dir@, *entry),
{
    let name = display_name(&entry.name);
    let child = join_path(dir, name.as_str());
    let href = fs_path_to_url_path(child.as_str());
    let mut r = String::from_str("<li><a href=\"");
    let encoded = encode_href(href.as_str());
    r.append(encoded.as_str());
    r.append("\">");
    let escaped = escape_html(name.as_str());
    r.append(escaped.as_str());
    r.append(entry_suffix(entry.kind));
    r.append("</a></li>");
    r
}

/// The HTML listing of the directory at `dir` holding `entries`, one list item
/// per entry in the order given.
pub fn render_listing(dir: &str, entries: &Vec<DirEntryInfo>) -> (r: String)
    ensures
        r@ == listing_html(dir@, entries@),
{
    let mut r = String::from_str("<html><head><title>Directory Listing</title></head><body><ul>");
    let mut i: usize = 0;
    while i < entries.len()
        invariant
            i <= entries@.len(),
            r@ == listing_head() + entry_items(dir@, entries@.subrange(0, i as int)),
        decreases entries@.len() - i,
    {
        let item = render_entry(dir, &entries[i]);
        let ghost prefix = entries@.subrange(0, i as int + 1);
        assert(prefix.drop_last() =~= entries@.subrange(0, i as int));
        r.append(item.as_str());
        i = i + 1;
    }
    assert(entries@.subrange(0, i as int) =~= entries@);
    r.append("</ul></body></html>");
    r
}

} // verus!
