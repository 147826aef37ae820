//! Unix paths, as text and as bytes, and where this program keeps its files.

use crate::encoding::{lossy_text, utf8_lossy};
use crate::text::{chars_of, concat, concat3};
use vstd::prelude::*;
use vstd::utf8::{decode_utf8, encode_scalar, encode_utf8, valid_utf8};

verus! {

/// `rel` taken relative to `base`: an absolute `rel` stands alone, otherwise
/// one separator stands between the two.
pub open spec fn joined(base: Seq<char>, rel: Seq<char>) -> Seq<char> {
    if base.len() == 0 || (rel.len() > 0 && rel[0] == '/') {
        rel
    } else if base.last() == '/' {
        base + rel
    } else {
        base + "/"@ + rel
    }
}

/// `rel` taken relative to `base`.
pub fn join_path(base: &str, rel: &str) -> (r: String)
    ensures
        r@ == joined(base@, rel@),
{
    let b = chars_of(base);
    let t = chars_of(rel);
    if b.len() == 0 || (t.len() > 0 && t[0] == '/') {
        rel.to_owned()
    } else if b[b.len() - 1] == '/' {
        concat(base, rel)
    } else {
        concat3(base, "/", rel)
    }
}

/// `path` with its last component replaced by `name`, as
/// `std::path::Path::with_file_name` does it.
pub uninterp spec fn with_file_name(path: Seq<char>, name: Seq<char>) -> Seq<char>;

/// An absolute directory in plain form: no component of it is empty or a single
/// dot.
pub open spec fn plain_dir(dir: Seq<char>) -> bool {
    &&& dir.len() > 1
    &&& dir[0] == '/'
    &&& dir.last() != '/'
    &&& forall|i: int|
        0 <= i < dir.len() - 1 && #[trigger] dir[i] == '/' ==> dir[i + 1] != '/' && (dir[i + 1]
            == '.' ==> i + 2 < dir.len() && dir[i + 2] != '/')
}

/// The name of one file.
pub open spec fn plain_leaf(leaf: Seq<char>) -> bool {
    leaf.len() > 0 && leaf != seq!['.'] && leaf != seq!['.', '.'] && !leaf.contains('/')
}

/// `std::path::Path::with_file_name`: the path depends on the two texts alone,
/// and the new name takes the place of the file's name in its directory. That
/// is said of plain directories and names only; what becomes of paths with
/// empty or single-dot components is left to the name `with_file_name`.
#[verifier::external_body]
pub(crate) fn sibling_path(path: &str, name: &str) -> (r: String)
    ensures
        r@ == with_file_name(path@, name@),
        forall|dir: Seq<char>, leaf: Seq<char>|
            plain_dir(dir) && plain_leaf(leaf) && plain_leaf(name@) && path@ == #[trigger] joined(
                dir,
                leaf,
            ) ==> r@ == joined(dir, name@),
{
    std::path::Path::new(path).with_file_name(name).to_string_lossy().into_owned()
}

/// `rel` taken relative to `base`, in bytes.
pub open spec fn joined_bytes(base: Seq<u8>, rel: Seq<u8>) -> Seq<u8> {
    if base.len() == 0 || (rel.len() > 0 && rel[0] == 47) {
        rel
    } else if base.last() == 47 {
        base + rel
    } else {
        base.push(47) + rel
    }
}

/// A path on this machine. Its bytes need not be text.
#[derive(Debug, Clone, PartialEq, Eq)]
pub struct HostPath {
    bytes: Vec<u8>,
}

impl View for HostPath {
    type V = Seq<u8>;

    closed spec fn view(&self) -> Seq<u8> {
        self.bytes@
    }
}

impl HostPath {
    /// The path of these bytes.
    pub fn from_bytes(bytes: Vec<u8>) -> (r: HostPath)
        ensures
            r@ == bytes@,
    {
        HostPath { bytes }
    }

    /// The path of this text.
    pub fn from_text(text: &str) -> (r: HostPath)
        ensures
            r@ == encode_utf8(text@),
    {
        HostPath { bytes: text.as_bytes_vec() }
    }

    /// The bytes of the path.
    pub fn as_bytes(&self) -> (r: &[u8])
        ensures
            r@ == self@,
    {
        self.bytes.as_slice()
    }

    /// `rel` taken relative to this path.
    pub fn join(&self, rel: &str) -> (r: HostPath)
        ensures
            r@ == joined_bytes(self@, encode_utf8(rel@)),
    {
        let mut tail = rel.as_bytes_vec();
        let n: usize = self.bytes.len();
        if n == 0 || (tail.len() > 0 && tail[0] == 47) {
            return HostPath { bytes: tail };
        }
        let mut bytes = self.bytes.clone();
        assert(bytes@ == self.bytes@);
        if bytes[n - 1] != 47 {
            bytes.push(47);
        }
        bytes.append(&mut tail);
        HostPath { bytes }
    }

    /// The path as text, with a replacement character for each piece of it that
    /// is not UTF-8.
    pub fn to_string_lossy(&self) -> (r: String)
        ensures
            r@ == utf8_lossy(self@),
            valid_utf8(self@) ==> r@ == decode_utf8(self@),
    {
        lossy_text(self.bytes.as_slice())
    }
}

/// `dirs::home_dir`, with the path's bytes as the platform has them. The answer
/// depends on the environment and the user database, so nothing is claimed of
/// it.
#[verifier::external_body]
pub fn home_dir() -> (r: Option<Vec<u8>>) {
    dirs::home_dir().map(|p| p.into_os_string().into_encoded_bytes())
}

/// The home directory of these bytes, if there are any.
pub fn home_of(found: Option<Vec<u8>>) -> (r: Option<HostPath>)
    ensures
        opt_path(r) == (match found {
            Some(bytes) => Some(bytes@),
            None => None,
        }),
{
    match found {
        Some(bytes) => Some(HostPath::from_bytes(bytes)),
        None => None,
    }
}

/// The user's home directory, if there is one: what `home_dir` finds, which
/// rests on the environment and the user database.
pub fn host_home() -> (r: Option<HostPath>)
    ensures
        exists|found: Option<Vec<u8>>| #[trigger]
            call_ensures(home_dir, (), found) && opt_path(r) == (match found {
                Some(bytes) => Some(bytes@),
                None => None,
            }),
{
    home_of(home_dir())
}

/// The contents of an optional path.
pub open spec fn opt_path(o: Option<HostPath>) -> Option<Seq<u8>> {
    match o {
        Some(p) => Some(p@),
        None => None,
    }
}

/// The home directory, or `/tmp` where there is none, in bytes.
pub open spec fn home_or_tmp_path(home: Option<Seq<u8>>) -> Seq<u8> {
    match home {
        Some(h) => h,
        None => encode_utf8("/tmp"@),
    }
}

/// The directory of all managed workers, in bytes.
pub open spec fn managed_path(home: Option<Seq<u8>>) -> Seq<u8> {
    joined_bytes(
        joined_bytes(home_or_tmp_path(home), encode_utf8(".iii"@)),
        encode_utf8("managed"@),
    )
}

/// The directory of the managed worker `name`, in bytes.
pub open spec fn worker_path(home: Option<Seq<u8>>, name: Seq<char>) -> Seq<u8> {
    joined_bytes(managed_path(home), encode_utf8(name))
}

/// Where the files of the image with this cache key lie, in bytes.
pub open spec fn image_path(home: Option<Seq<u8>>, cache_key: Seq<char>) -> Seq<u8> {
    joined_bytes(
        joined_bytes(home_or_tmp_path(home), encode_utf8(".iii/cache"@)),
        encode_utf8(cache_key),
    )
}

fn base_in(home: &Option<HostPath>) -> (r: HostPath)
    ensures
        r@ == home_or_tmp_path(opt_path(*home)),
{
    match home {
        Some(h) => {
            let bytes = h.bytes.clone();
            assert(bytes@ == h.bytes@);
            HostPath { bytes }
        },
        None => HostPath::from_text("/tmp"),
    }
}

/// The directory of all managed workers.
pub fn managed_path_in(home: &Option<HostPath>) -> (r: HostPath)
    ensures
        r@ == managed_path(opt_path(*home)),
{
    base_in(home).join(".iii").join("managed")
}

/// The directory of the managed worker `name`.
pub fn worker_path_in(home: &Option<HostPath>, name: &str) -> (r: HostPath)
    ensures
        r@ == worker_path(opt_path(*home), name@),
{
    managed_path_in(home).join(name)
}

/// Where the files of the image with this cache key lie.
pub fn image_path_in(home: &Option<HostPath>, cache_key: &str) -> (r: HostPath)
    ensures
        r@ == image_path(opt_path(*home), cache_key@),
{
    base_in(home).join(".iii/cache").join(cache_key)
}

/// The home directory, or `/tmp` where there is none.
pub open spec fn home_or_tmp(home: Option<Seq<char>>) -> Seq<char> {
    match home {
        Some(h) => h,
        None => "/tmp"@,
    }
}

/// The directory of all managed workers.
pub open spec fn managed_root(home: Option<Seq<char>>) -> Seq<char> {
    joined(joined(home_or_tmp(home), ".iii"@), "managed"@)
}

/// The directory of the managed worker `name`.
pub open spec fn worker_dir_under(home: Option<Seq<char>>, name: Seq<char>) -> Seq<char> {
    joined(managed_root(home), name)
}

/// The log directory of the development worker `name`.
pub open spec fn dev_logs_under(home: Option<Seq<char>>, name: Seq<char>) -> Seq<char> {
    joined(joined(home_or_tmp(home), ".iii/logs"@), name)
}

/// The directory of all managed workers.
pub fn managed_dir_in(home: &Option<String>) -> (r: String)
    ensures
        r@ == managed_root(crate::text::opt_text(*home)),
{
    let base = match home {
        Some(h) => h.clone(),
        None => "/tmp".to_owned(),
    };
    join_path(join_path(base.as_str(), ".iii").as_str(), "managed")
}

/// The directory of the managed worker `name`.
pub fn worker_dir_in(home: &Option<String>, name: &str) -> (r: String)
    ensures
        r@ == worker_dir_under(crate::text::opt_text(*home), name@),
{
    join_path(managed_dir_in(home).as_str(), name)
}

/// The log directory of the development worker `name`.
pub fn dev_logs_in(home: &Option<String>, name: &str) -> (r: String)
    ensures
        r@ == dev_logs_under(crate::text::opt_text(*home), name@),
{
    let base = match home {
        Some(h) => h.clone(),
        None => "/tmp".to_owned(),
    };
    join_path(join_path(base.as_str(), ".iii/logs").as_str(), name)
}

/// What is joined to a directory by a relative name lies under that directory,
/// and ends in that name.
pub proof fn joined_lies_under(base: Seq<char>, rel: Seq<char>)
    requires
        base.len() > 0,
        rel.len() > 0 ==> rel[0] != '/',
    ensures
        joined(base, rel).take(base.len() as int) == base,
        joined(base, rel).skip(joined(base, rel).len() - rel.len()) == rel,
{
}

proof fn lemma_encode_concat(a: Seq<char>, b: Seq<char>)
    ensures
        encode_utf8(a + b) == encode_utf8(a) + encode_utf8(b),
    decreases a.len(),
{
    if a.len() == 0 {
        assert(a + b == b);
    } else {
        assert((a + b).drop_first() == a.drop_first() + b);
        lemma_encode_concat(a.drop_first(), b);
    }
}

proof fn lemma_encode_char(c: char)
    ensures
        ({
            let e = encode_scalar(c as u32);
            &&& e.len() > 0
            &&& e[0] == 47 <==> c == '/'
            &&& e.last() == 47 <==> c == '/'
            &&& c == '/' ==> e == seq![47u8]
        }),
{
    let u = c as u32;
    assert(u <= 0x7f ==> (u & 0x7f) as u8 == u) by (bit_vector);
    assert((0xC0u8 | ((u >> 6) & 0x1F) as u8) >= 0x80) by (bit_vector);
    assert((0xE0u8 | ((u >> 12) & 0xF) as u8) >= 0x80) by (bit_vector);
    assert((0xF0u8 | ((u >> 18) & 0x7) as u8) >= 0x80) by (bit_vector);
    assert((0x80u8 | (u & 0x3F) as u8) >= 0x80) by (bit_vector);
}

proof fn lemma_encode_ends(s: Seq<char>)
    requires
        s.len() > 0,
    ensures
        encode_utf8(s).len() > 0,
        encode_utf8(s)[0] == 47 <==> s[0] == '/',
        encode_utf8(s).last() == 47 <==> s.last() == '/',
    decreases s.len(),
{
    lemma_encode_char(s[0]);
    let rest = s.drop_first();
    if rest.len() > 0 {
        lemma_encode_ends(rest);
        assert(encode_utf8(s).last() == encode_utf8(rest).last());
    } else {
        assert(encode_utf8(rest) == Seq::<u8>::empty());
        assert(encode_utf8(s) == encode_scalar(s[0] as u32));
    }
}

/// Joining is the same on text as on the bytes of the text.
pub proof fn joined_text_is_joined_bytes(base: Seq<char>, rel: Seq<char>)
    ensures
        encode_utf8(joined(base, rel)) == joined_bytes(encode_utf8(base), encode_utf8(rel)),
{
    if base.len() > 0 {
        lemma_encode_ends(base);
    }
    if rel.len() > 0 {
        lemma_encode_ends(rel);
    }
    lemma_encode_concat(base, rel);
    lemma_encode_concat(base, "/"@);
    lemma_encode_concat(base + "/"@, rel);
    reveal_strlit("/");
    lemma_encode_char('/');
    assert("/"@ == seq!['/']);
    assert("/"@.drop_first() == Seq::<char>::empty());
    assert(encode_utf8("/"@.drop_first()) == Seq::<u8>::empty());
    assert(encode_utf8("/"@) == seq![47u8]);
    assert(encode_utf8(base) + seq![47u8] == encode_utf8(base).push(47));
}

/// Where the home directory is text, a worker's directory is the same whether
/// it is worked out on text or on bytes.
pub proof fn worker_dir_is_worker_path(home: Seq<char>, name: Seq<char>)
    ensures
        encode_utf8(worker_dir_under(Some(home), name)) == worker_path(
            Some(encode_utf8(home)),
            name,
        ),
{
    let iii = joined(home, ".iii"@);
    joined_text_is_joined_bytes(home, ".iii"@);
    joined_text_is_joined_bytes(iii, "managed"@);
    joined_text_is_joined_bytes(joined(iii, "managed"@), name);
}

} // verus!
