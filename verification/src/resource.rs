//! Read-only handles to bytes: a captured body in memory, a file under the
//! data directory, or an inline string. Resolving a resource to text is pure
//! logic except for the actual file read, which the host performs; the
//! resolver here reports the exact path the host must read.

use vstd::prelude::*;

verus! {

use vstd::string::StrSliceExecFns;
use vstd::string::StringExecFns;
use vstd::utf8::decode_utf8;
use vstd::utf8::valid_utf8;

/// A body or blob held in memory as raw bytes.
#[derive(Debug, Clone, PartialEq)]
pub struct MemoryResource {
    pub buffer: Vec<u8>,
}

impl MemoryResource {
    pub fn new(buffer: Vec<u8>) -> (r: Self)
        ensures
            r.buffer@ == buffer@,
    {
        Self { buffer }
    }
}

/// A blob on disk, named by a path relative to the data directory.
#[derive(Debug, Clone, PartialEq)]
pub struct FileResource {
    pub path: String,
}

impl FileResource {
    pub fn new(path: &str) -> (r: Self)
        ensures
            r.path@ == path@,
    {
        Self { path: path.to_owned() }
    }
}

/// A textual literal carried directly in the configuration.
#[derive(Debug, Clone, PartialEq)]
pub struct StringResource {
    pub string: String,
}

impl StringResource {
    pub fn new(string: &str) -> (r: Self)
        ensures
            r.string@ == string@,
    {
        Self { string: string.to_owned() }
    }

    pub fn new_from_string(string: String) -> (r: Self)
        ensures
            r.string@ == string@,
    {
        Self { string }
    }
}

/// A uniform read-only handle to bytes.
#[derive(Debug, Clone, PartialEq)]
pub enum Resource {
    Memory(MemoryResource),
    File(FileResource),
    InlineString(StringResource),
}

/// The outcome of materializing a resource as text. A `File` resource cannot
/// be read here; the caller receives the exact path to read instead.
#[derive(Debug, Clone, PartialEq)]
pub enum ResolvedString {
    /// The text is available.
    Ready(String),
    /// The resource holds bytes that are not valid UTF-8.
    NotUtf8,
    /// The caller must read this path to obtain the text.
    ReadFrom(String),
}

/// Relies on `String::from_utf8`: it succeeds exactly on valid UTF-8 input
/// and returns its decoding.
#[verifier::external_body]
fn string_from_utf8(bytes: &Vec<u8>) -> (r: Option<String>)
    ensures
        r is Some <==> valid_utf8(bytes@),
        r matches Some(s) ==> s@ == decode_utf8(bytes@),
{
    match std::string::String::from_utf8(bytes.clone()) {
        Ok(s) => Some(s),
        Err(_) => None,
    }
}

impl Resource {
    /// Materialize the resource as text, without consulting a configuration:
    /// a `File` path is handed back exactly as stored.
    pub fn as_string(&self) -> (r: ResolvedString)
        ensures
            self is Memory && valid_utf8(self->Memory_0.buffer@) ==> (r matches ResolvedString::Ready(s)
                && s@ == decode_utf8(self->Memory_0.buffer@)),
            self is Memory && !valid_utf8(self->Memory_0.buffer@) ==> r is NotUtf8,
            self is InlineString ==> (r matches ResolvedString::Ready(s) && s@ == self->InlineString_0.string@),
            self is File ==> (r matches ResolvedString::ReadFrom(p) && p@ == self->File_0.path@),
    {
        match self {
            Resource::Memory(m) => match string_from_utf8(&m.buffer) {
                Some(s) => ResolvedString::Ready(s),
                None => ResolvedString::NotUtf8,
            },
            Resource::File(f) => ResolvedString::ReadFrom(f.path.clone()),
            Resource::InlineString(s) => ResolvedString::Ready(s.string.clone()),
        }
    }

    /// A fresh, zero-length in-memory resource.
    pub fn empty() -> (r: Self)
        ensures
            r matches Resource::Memory(m) && m.buffer@ == Seq::<u8>::empty(),
    {
        Resource::Memory(MemoryResource::new(Vec::new()))
    }
}

/// How a relative path is anchored to a directory: an absolute path stands on
/// its own; otherwise the two are joined with a single separator.
pub open spec fn spec_join_path(dir: Seq<char>, path: Seq<char>) -> Seq<char> {
    if path.len() > 0 && path[0] == '/' {
        path
    } else if dir.len() == 0 {
        path
    } else if dir[dir.len() - 1] == '/' {
        dir + path
    } else {
        dir + seq!['/'] + path
    }
}

/// Join `path` onto `dir` as `spec_join_path` describes.
pub fn join_path(dir: &str, path: &str) -> (r: String)
    ensures
        r@ == spec_join_path(dir@, path@),
{
    let path_len: usize = path.unicode_len();
    if path_len > 0 && path.get_char(0) == '/' {
        return path.to_owned();
    }
    let dir_len: usize = dir.unicode_len();
    if dir_len == 0 {
        return path.to_owned();
    }
    let mut r = dir.to_owned();
    if dir.get_char(dir_len - 1) != '/' {
        r.append("/");
        proof {
            reveal_strlit("/");
            assert(r@ == dir@ + seq!['/']);
        }
    }
    r.append(path);
    r
}

/// Resolve a resource to text against external state (the data directory):
/// the sole operation that mixes the variants with a configuration.
pub trait ResolveString {
    fn resolve_string(&self, resource: &Resource) -> ResolvedString;
}

} // verus!
