//! The file backend of the downloader.
//!
//! The downloader fetches the resources listed in a manifest, and the
//! manifest itself, from a backend. The file backend serves them from a base
//! directory of the local file system: the path of a resource's URI, with
//! its leading separators trimmed, is joined onto the base path, and the
//! file there is read in chunks of at most [`DEFAULT_CHUNK_SIZE`] bytes.
//!
//! Paths are handled as the bytes that the operating system stores for them
//! (Unix paths, with `/` as the separator).
use vstd::prelude::*;
use vstd::string::StringSliceAdditionalSpecFns;

verus! {

/// The number of bytes that a chunk read by the file backend holds at most.
pub const DEFAULT_CHUNK_SIZE: usize = 1024;

/// The byte of the path separator `/`.
pub const SEPARATOR: u8 = 0x2F;

/// The stem of the name of the manifest file in the base directory.
pub const MANIFEST_STEM: &'static str = "manifest";

/// The extension of the name of the manifest file: the manifest is JSON.
pub const MANIFEST_EXTENSION: &'static str = "json";

/// The name of the manifest file: its stem, a dot, and its extension.
pub open spec fn manifest_file_name() -> Seq<u8> {
    MANIFEST_STEM.spec_bytes() + seq![0x2Eu8] + MANIFEST_EXTENSION.spec_bytes()
}

/// `path` without its leading separators.
pub open spec fn strip_separators(path: Seq<u8>) -> Seq<u8>
    decreases path.len(),
{
    if path.len() > 0 && path[0] == SEPARATOR {
        strip_separators(path.drop_first())
    } else {
        path
    }
}

/// The path `base` extended with `rel`: an absolute `rel` replaces `base`;
/// otherwise a separator is put between them where `base` is not empty and
/// does not already end with one.
pub open spec fn push_path(base: Seq<u8>, rel: Seq<u8>) -> Seq<u8> {
    if rel.len() > 0 && rel[0] == SEPARATOR {
        rel
    } else if base.len() > 0 && base.last() != SEPARATOR {
        base + seq![SEPARATOR] + rel
    } else {
        base + rel
    }
}

/// The file that the resource with URI path `uri_path` stands for under the
/// base path `base`.
pub open spec fn spec_resource_path(base: Seq<u8>, uri_path: Seq<u8>) -> Seq<u8> {
    push_path(base, strip_separators(uri_path))
}

/// A path without its leading separators does not begin with a separator.
pub proof fn lemma_stripped_is_relative(path: Seq<u8>)
    ensures
        strip_separators(path).len() > 0 ==> strip_separators(path)[0] != SEPARATOR,
        strip_separators(path).len() <= path.len(),
    decreases path.len(),
{
    if path.len() > 0 && path[0] == SEPARATOR {
        lemma_stripped_is_relative(path.drop_first());
    }
}

/// Stripping removes only separators, and all the leading ones: the result is
/// the suffix of `path` after its first `k` bytes, where those `k` bytes are
/// separators and the byte after them, if any, is not.
pub proof fn lemma_strip_only_separators(path: Seq<u8>) -> (k: int)
    ensures
        0 <= k <= path.len(),
        strip_separators(path) == path.subrange(k, path.len() as int),
        forall|j: int| 0 <= j < k ==> path[j] == SEPARATOR,
        k < path.len() ==> path[k] != SEPARATOR,
    decreases path.len(),
{
    if path.len() > 0 && path[0] == SEPARATOR {
        let k0 = lemma_strip_only_separators(path.drop_first());
        assert(path.drop_first().subrange(k0, path.drop_first().len() as int) =~= path.subrange(
            k0 + 1,
            path.len() as int,
        ));
        assert forall|j: int| 0 <= j < k0 + 1 implies path[j] == SEPARATOR by {
            if j > 0 {
                assert(path[j] == path.drop_first()[j - 1]);
            }
        }
        k0 + 1
    } else {
        assert(path.subrange(0, path.len() as int) =~= path);
        0
    }
}

/// The resource of a URI path is the base path, a separator where the base
/// path needs one, and the URI path with exactly its leading separators
/// removed: every other byte of the URI path is kept, in order.
pub proof fn lemma_resource_keeps_uri_path(base: Seq<u8>, uri_path: Seq<u8>) -> (k: int)
    ensures
        0 <= k <= uri_path.len(),
        forall|j: int| 0 <= j < k ==> uri_path[j] == SEPARATOR,
        k < uri_path.len() ==> uri_path[k] != SEPARATOR,
        spec_resource_path(base, uri_path) == if base.len() > 0 && base.last() != SEPARATOR {
            base + seq![SEPARATOR] + uri_path.subrange(k, uri_path.len() as int)
        } else {
            base + uri_path.subrange(k, uri_path.len() as int)
        },
{
    let k = lemma_strip_only_separators(uri_path);
    lemma_resource_under_base(base, uri_path);
    k
}

/// Whatever the URI path, the resource lies under the base path: its path
/// begins with the base path, and the rest is the URI path without its
/// leading separators, after one separator where the base path is not empty
/// and does not end with one.
pub proof fn lemma_resource_under_base(base: Seq<u8>, uri_path: Seq<u8>)
    ensures
        spec_resource_path(base, uri_path) == if base.len() > 0 && base.last() != SEPARATOR {
            base + seq![SEPARATOR] + strip_separators(uri_path)
        } else {
            base + strip_separators(uri_path)
        },
        spec_resource_path(base, uri_path).len() >= base.len(),
        spec_resource_path(base, uri_path).subrange(0, base.len() as int) == base,
{
    lemma_stripped_is_relative(uri_path);
    let r = spec_resource_path(base, uri_path);
    if base.len() > 0 && base.last() != SEPARATOR {
        assert(r.subrange(0, base.len() as int) =~= base);
    } else {
        assert(r.subrange(0, base.len() as int) =~= base);
    }
}

/// A backend implementation that fetches resources from the local file system.
///
/// This backend uses a base path as the root for all resource fetches.
pub struct FileBackend {
    base_path: Vec<u8>,
    chunk_size: usize,
}

impl FileBackend {
    /// The base path, as bytes.
    pub closed spec fn base_bytes(&self) -> Seq<u8> {
        self.base_path@
    }

    /// The largest number of bytes that a chunk holds.
    pub closed spec fn chunk_len(&self) -> usize {
        self.chunk_size
    }

    /// Creates a new `FileBackend` with the given base path.
    ///
    /// The `base_path` is used as the root for all resource fetches.
    pub fn new(base_path: &[u8]) -> (r: Self)
        ensures
            r.base_bytes() == base_path@,
            r.chunk_len() == DEFAULT_CHUNK_SIZE,
    {
        let base_path = vstd::slice::slice_to_vec(base_path);
        Self { base_path, chunk_size: DEFAULT_CHUNK_SIZE }
    }

    /// The base path, as bytes.
    pub fn base_path(&self) -> (r: &[u8])
        ensures
            r@ == self.base_bytes(),
    {
        self.base_path.as_slice()
    }

    /// The largest number of bytes that a chunk holds.
    pub fn chunk_size(&self) -> (r: usize)
        ensures
            r == self.chunk_len(),
    {
        self.chunk_size
    }

    /// The file that holds the resource with the URI path `uri_path`: the
    /// URI path, with its leading separators trimmed, joined onto the base
    /// path.
    pub fn resource_path(&self, uri_path: &str) -> (r: Vec<u8>)
        ensures
            r@ == spec_resource_path(self.base_bytes(), uri_path.spec_bytes()),
    {
        let rel = strip_leading_separators(uri_path.as_bytes());
        join_path(self.base_path.as_slice(), rel)
    }

    /// The manifest file: the JSON file named `manifest` in the base path.
    pub fn manifest_path(&self) -> (r: Vec<u8>)
        ensures
            r@ == push_path(self.base_bytes(), manifest_file_name()),
    {
        let mut name: Vec<u8> = Vec::new();
        name.extend_from_slice(MANIFEST_STEM.as_bytes());
        name.push(0x2Eu8);
        name.extend_from_slice(MANIFEST_EXTENSION.as_bytes());
        assert(name@ =~= manifest_file_name());
        join_path(self.base_path.as_slice(), name.as_slice())
    }

    /// A buffer to read the next chunk into: as many zero bytes as a chunk
    /// holds at most.
    pub fn chunk_buffer(&self) -> (r: Vec<u8>)
        ensures
            r@ == Seq::new(self.chunk_len() as nat, |i: int| 0u8),
    {
        let r = vec![0u8; self.chunk_size];
        assert(r@ =~= Seq::new(self.chunk_len() as nat, |i: int| 0u8));
        r
    }
}

/// `path` without its leading separators.
pub fn strip_leading_separators(path: &[u8]) -> (r: &[u8])
    ensures
        r@ == strip_separators(path@),
        r@.len() <= path@.len(),
        r@ == path@.subrange(path@.len() - r@.len(), path@.len() as int),
        forall|j: int| 0 <= j < path@.len() - r@.len() ==> path@[j] == SEPARATOR,
        r@.len() > 0 ==> r@[0] != SEPARATOR,
{
    proof {
        lemma_strip_only_separators(path@);
    }
    let n: usize = path.len();
    let mut i: usize = 0;
    assert(path@.subrange(0, n as int) =~= path@);
    while i < n && path[i] == SEPARATOR
        invariant
            i <= n,
            n == path@.len(),
            strip_separators(path@) == strip_separators(path@.subrange(i as int, n as int)),
        decreases n - i,
    {
        assert(path@.subrange(i as int, n as int).drop_first() =~= path@.subrange(
            i + 1,
            n as int,
        ));
        i = i + 1;
    }
    vstd::slice::slice_subrange(path, i, n)
}

/// Extends the path `base` with `rel`, as `PathBuf::push` does on Unix.
pub fn join_path(base: &[u8], rel: &[u8]) -> (r: Vec<u8>)
    ensures
        r@ == push_path(base@, rel@),
{
    let mut out: Vec<u8> = Vec::new();
    if rel.len() > 0 && rel[0] == SEPARATOR {
        out.extend_from_slice(rel);
        assert(out@ =~= rel@);
        return out;
    }
    out.extend_from_slice(base);
    if base.len() > 0 && base[base.len() - 1] != SEPARATOR {
        out.push(SEPARATOR);
    }
    out.extend_from_slice(rel);
    proof {
        if base@.len() > 0 && base@.last() != SEPARATOR {
            assert(out@ =~= base@ + seq![SEPARATOR] + rel@);
        } else {
            assert(out@ =~= base@ + rel@);
        }
    }
    out
}

/// The chunk read into `buffer`, where the read filled its first `n` bytes:
/// `None` where the read found the end of the file (`n` is zero), else the
/// first `n` bytes of the buffer.
pub fn take_chunk(buffer: Vec<u8>, n: usize) -> (r: Option<Vec<u8>>)
    requires
        n <= buffer@.len(),
    ensures
        n == 0 ==> r is None,
        n > 0 ==> (r matches Some(chunk) && chunk@ == buffer@.take(n as int)),
{
    if n == 0 {
        return None;
    }
    let mut chunk = buffer;
    chunk.truncate(n);
    Some(chunk)
}

} // verus!
