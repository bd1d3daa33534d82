//! Filesystem paths under the served root and the URL paths they are reached by.

use vstd::prelude::*;

verus! {

/// The path that `PathBuf::push` yields: an absolute `name` replaces `dir`;
/// otherwise `name` is appended, after a `/` unless `dir` is empty or already
/// ends in one.
pub open spec fn joined(dir: Seq<char>, name: Seq<char>) -> Seq<char> {
    if name.len() > 0 && name[0] == '/' {
        name
    } else if dir.len() == 0 || dir.last() == '/' {
        dir + name
    } else {
        dir + seq!['/'] + name
    }
}

/// The URL path of a filesystem path: the path with a leading `.` (the root
/// marker) taken off.
pub open spec fn url_path_of(p: Seq<char>) -> Seq<char> {
    if p.len() > 0 && p[0] == '.' {
        p.drop_first()
    } else {
        p
    }
}

/// Appends `name` to the path `dir`, as a path segment.
pub fn join_path(dir: &str, name: &str) -> (r: String)
    ensures
        r@ == joined(dir@, name@),
{
    let name_len = name.unicode_len();
    if name_len > 0 && name.get_char(0) == '/' {
        return String::from_str(name);
    }
    let dir_len = dir.unicode_len();
    let mut r = String::from_str(dir);
    if dir_len > 0 && dir.get_char(dir_len - 1) != '/' {
        proof {
            reveal_strlit("/");
        }
        r.append("/");
    }
    r.append(name);
    r
}

/// The URL path under which the filesystem path `p` is served.
pub fn fs_path_to_url_path(p: &str) -> (r: String)
    ensures
        r@ == url_path_of(p@),
{
    let len = p.unicode_len();
    if len > 0 && p.get_char(0) == '.' {
        let rest = p.substring_char(1, len);
        assert(rest@ =~= p@.drop_first());
        String::from_str(rest)
    } else {
        String::from_str(p)
    }
}

/// The filesystem path that a request for `url_path` (the part after the
/// leading `/`) addresses under the directory `root`.
pub fn request_fs_path(root: &str, url_path: &str) -> (r: String)
    ensures
        r@ == joined(root@, url_path@),
{
    join_path(root, url_path)
}

/// The root marker with a trailing slash is served at `/`, and the bare root
/// marker at the empty URL path.
pub proof fn lemma_root_url_paths()
    ensures
        url_path_of(seq!['.', '/']) == seq!['/'],
        url_path_of(seq!['.']) == Seq::<char>::empty(),
{
    assert(seq!['.', '/'].drop_first() =~= seq!['/']);
    assert(seq!['.'].drop_first() =~= Seq::<char>::empty());
}

/// The URL path of an entry `name` of the directory `dir` is the directory's
/// URL path, then a `/` unless that URL path already ends in one, then the
/// name.
pub proof fn lemma_child_url_path(dir: Seq<char>, name: Seq<char>)
    requires
        dir.len() > 0,
        name.len() == 0 || name[0] != '/',
    ensures
        url_path_of(joined(dir, name)) == (if url_path_of(dir).len() > 0
            && url_path_of(dir).last() == '/' {
            url_path_of(dir) + name
        } else {
            url_path_of(dir) + seq!['/'] + name
        }),
{
    let u = url_path_of(dir);
    if dir[0] == '.' {
        if dir.last() == '/' {
            assert((dir + name).drop_first() =~= u + name);
        } else {
            assert((dir + seq!['/'] + name).drop_first() =~= u + seq!['/'] + name);
        }
    } else {
        if dir.last() == '/' {
            assert((dir + name)[0] == dir[0]);
        } else {
            assert((dir + seq!['/'] + name)[0] == dir[0]);
        }
    }
}

/// A child of the served root's URL path: the entry `name` of the root, listed
/// as `./`, is served at `/name`, with no doubled slash.
pub proof fn lemma_root_child_url_path(name: Seq<char>)
    requires
        name.len() == 0 || name[0] != '/',
    ensures
        url_path_of(joined(seq!['.', '/'], name)) == seq!['/'] + name,
        url_path_of(joined(seq!['.'], name)) == seq!['/'] + name,
{
    lemma_root_url_paths();
    lemma_child_url_path(seq!['.', '/'], name);
    lemma_child_url_path(seq!['.'], name);
    assert(Seq::<char>::empty() + seq!['/'] + name =~= seq!['/'] + name);
}

/// A joined path ends with the segment that was appended to it.
pub proof fn lemma_joined_ends_with(dir: Seq<char>, name: Seq<char>)
    ensures
        joined(dir, name).len() >= name.len(),
        joined(dir, name).subrange(
            joined(dir, name).len() - name.len(),
            joined(dir, name).len() as int,
        ) == name,
{
    let j = joined(dir, name);
    assert(j.subrange(j.len() - name.len(), j.len() as int) =~= name);
}

} // verus!
