use vstd::prelude::*;

verus! {

/// A character that separates path components on some host.
pub open spec fn separator(c: char) -> bool {
    c == '/' || c == '\\'
}

/// A single relative path component: not empty, not `.` or `..`, and free of
/// the characters that separate components or name a drive on any host.
pub open spec fn plain_name(name: Seq<char>) -> bool {
    &&& name.len() > 0
    &&& !(name.len() == 1 && name[0] == '.')
    &&& !(name.len() == 2 && name[0] == '.' && name[1] == '.')
    &&& forall|i: int| 0 <= i < name.len() ==> !separator(name[i]) && name[i] != ':'
}

/// A path that starts like a Windows verbatim prefix (`\\?\`), below which
/// adjoining a component rewrites the whole path.
pub open spec fn verbatim_like(dir: Seq<char>) -> bool {
    dir.len() >= 3 && separator(dir[0]) && separator(dir[1]) && dir[2] == '?'
}

/// `path` is `name` directly below `dir`: `dir`, then at most one separator,
/// then `name`.
pub open spec fn lies_in(path: Seq<char>, dir: Seq<char>, name: Seq<char>) -> bool {
    &&& dir.len() + name.len() <= path.len() <= dir.len() + name.len() + 1
    &&& path.subrange(0, dir.len() as int) == dir
    &&& path.subrange(path.len() - name.len(), path.len() as int) == name
    &&& path.len() == dir.len() + name.len() + 1 ==> separator(path[dir.len() as int])
}

/// A lower-case hexadecimal digit.
pub open spec fn hex_digit(c: char) -> bool {
    ('0' <= c && c <= '9') || ('a' <= c && c <= 'f')
}

/// The hyphenated lower-case text of a version-7 UUID: groups of 8, 4, 4, 4 and
/// 12 hexadecimal digits, the version digit `7` opening the third group and the
/// variant (`8`, `9`, `a` or `b`) opening the fourth.
pub open spec fn uuid_v7_text(s: Seq<char>) -> bool {
    &&& s.len() == 36
    &&& forall|i: int| 0 <= i < 36 ==> if i == 8 || i == 13 || i == 18 || i == 23 {
        s[i] == '-'
    } else {
        hex_digit(s[i])
    }
    &&& s[14] == '7'
    &&& (s[19] == '8' || s[19] == '9' || s[19] == 'a' || s[19] == 'b')
}

/// Relies on `std::path::Path::join` (`PathBuf::push`): below a path without a
/// verbatim prefix, a relative component is appended, with the host's separator
/// between them where the path does not already end in one.
#[verifier::external_body]
pub(crate) fn join_path(dir: &str, name: &str) -> (r: String)
    ensures
        plain_name(name@) && !verbatim_like(dir@) ==> lies_in(r@, dir@, name@),
{
    std::path::Path::new(dir).join(name).to_string_lossy().into_owned()
}

/// Relies on `uuid::Uuid::now_v7` and its `Display`, which writes the hyphenated
/// lower-case form. The value depends on the clock and on random bits; the call
/// panics only on a host whose clock reads earlier than the Unix epoch or that
/// cannot supply random bytes.
#[verifier::external_body]
fn fresh_uuid_text() -> (r: String)
    ensures
        uuid_v7_text(r@),
{
    uuid::Uuid::now_v7().to_string()
}

proof fn uuid_text_is_plain(s: Seq<char>)
    requires
        uuid_v7_text(s),
    ensures
        plain_name(s),
{
    assert forall|i: int| 0 <= i < s.len() implies !separator(s[i]) && s[i] != ':' by {
        assert(i == 8 || i == 13 || i == 18 || i == 23 || hex_digit(s[i]));
    }
}

/// A fresh candidate for a run's workspace: a directory named by a new
/// version-7 UUID directly below `temp_root` (a root without a verbatim prefix).
pub fn workspace_candidate(temp_root: &str) -> (r: String)
    ensures
        exists|id: Seq<char>| uuid_v7_text(id) && (!verbatim_like(temp_root@) ==> lies_in(r@, temp_root@, id)),
{
    let id = fresh_uuid_text();
    proof {
        uuid_text_is_plain(id@);
    }
    let r = join_path(temp_root, id.as_str());
    assert(uuid_v7_text(id@) && (!verbatim_like(temp_root@) ==> lies_in(r@, temp_root@, id@)));
    r
}

} // verus!
