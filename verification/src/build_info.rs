//! Build information for the LEAP server.
//!
//! This module assembles the metadata recorded about a build of the server
//! binary, such as the version, git hash, and build profile. The raw values
//! are recorded at build time and handed in as a [`BuildEnv`]; [`get`] turns
//! them into the [`BuildInfo`] that the server reports.
use vstd::prelude::*;

verus! {

/// The raw metadata recorded at build time.
#[derive(Debug, Clone, Copy, PartialEq, Eq)]
pub struct BuildEnv {
    /// The package name.
    pub pkg_name: &'static str,
    /// The package version.
    pub pkg_version: &'static str,
    /// The package authors, separated by `:`.
    pub pkg_authors: &'static str,
    /// The package homepage.
    pub pkg_homepage: &'static str,
    /// The package license.
    pub pkg_license: &'static str,
    /// The package repository.
    pub pkg_repository: &'static str,
    /// The build profile.
    pub profile: &'static str,
    /// The version of the Rust compiler.
    pub rustc_version: &'static str,
    /// The enabled Cargo features, as one string.
    pub features: &'static str,
    /// The git commit hash of the build, if known.
    pub git_commit_hash: Option<&'static str>,
    /// Whether the git working tree was dirty, if known.
    pub git_dirty: Option<bool>,
}

/// Information about the current build of the LEAP server.
#[derive(Debug, PartialEq, Clone)]
pub struct BuildInfo {
    /// The name of the project.
    pub name: &'static str,
    /// The version of the project.
    pub version: &'static str,
    /// The git commit hash of the build, if available.
    /// If the repository was dirty, it will be suffixed with `-dirty`.
    pub git_hash: Option<String>,
    /// A list of authors of the project.
    pub authors: Vec<String>,
    /// The homepage URL of the project.
    pub homepage: &'static str,
    /// The license of the project.
    pub license: &'static str,
    /// The repository URL of the project.
    pub repository: &'static str,
    /// The build profile used (e.g., "debug", "release").
    pub profile: &'static str,
    /// The version of the Rust compiler used for the build.
    pub rustc_version: &'static str,
    /// A string representation of the enabled Cargo features.
    pub features: &'static str,
}

/// Whether `c` is whitespace: the characters of the Unicode Derived Core
/// Property `White_Space`.
pub open spec fn is_white_space(c: char) -> bool {
    let v: u32 = c as u32;
    ||| 0x9 <= v <= 0xD
    ||| v == 0x20
    ||| v == 0x85
    ||| v == 0xA0
    ||| v == 0x1680
    ||| 0x2000 <= v <= 0x200A
    ||| v == 0x2028
    ||| v == 0x2029
    ||| v == 0x202F
    ||| v == 0x205F
    ||| v == 0x3000
}

/// `s` without its leading whitespace.
pub open spec fn trim_start(s: Seq<char>) -> Seq<char>
    decreases s.len(),
{
    if s.len() > 0 && is_white_space(s[0]) {
        trim_start(s.drop_first())
    } else {
        s
    }
}

/// `s` without its trailing whitespace.
pub open spec fn trim_end(s: Seq<char>) -> Seq<char>
    decreases s.len(),
{
    if s.len() > 0 && is_white_space(s.last()) {
        trim_end(s.drop_last())
    } else {
        s
    }
}

/// `s` without its leading and trailing whitespace.
pub open spec fn trim(s: Seq<char>) -> Seq<char> {
    trim_end(trim_start(s))
}

/// The pieces of `s` between the occurrences of `sep`: one more piece than
/// `s` has occurrences of `sep`, empty pieces included.
pub open spec fn split_on(s: Seq<char>, sep: char) -> Seq<Seq<char>>
    decreases s.len(),
{
    if s.len() == 0 {
        seq![Seq::empty()]
    } else {
        let init = split_on(s.drop_last(), sep);
        if s.last() == sep {
            init.push(Seq::empty())
        } else {
            init.update(init.len() - 1, init.last().push(s.last()))
        }
    }
}

/// The number of occurrences of `c` in `s`.
pub open spec fn count_char(s: Seq<char>, c: char) -> nat
    decreases s.len(),
{
    if s.len() == 0 {
        0
    } else {
        count_char(s.drop_last(), c) + if s.last() == c {
            1nat
        } else {
            0nat
        }
    }
}

/// The authors listed in `authors`: the pieces between the `:` separators,
/// each without its leading and trailing whitespace.
pub open spec fn spec_authors(authors: Seq<char>) -> Seq<Seq<char>> {
    split_on(authors, ':').map_values(|p: Seq<char>| trim(p))
}

/// The git hash reported for the commit `commit`, with `-dirty` appended
/// where the working tree is known to have been dirty.
pub open spec fn spec_git_hash(commit: Option<Seq<char>>, dirty: Option<bool>) -> Option<
    Seq<char>,
> {
    match commit {
        None => None,
        Some(h) => Some(
            if dirty == Some(true) {
                h + "-dirty"@
            } else {
                h
            },
        ),
    }
}

/// The text of an optional string slice.
pub open spec fn str_opt_view(o: Option<&str>) -> Option<Seq<char>> {
    match o {
        Some(s) => Some(s@),
        None => None,
    }
}

/// The text of an optional string.
pub open spec fn string_opt_view(o: Option<String>) -> Option<Seq<char>> {
    match o {
        Some(s) => Some(s@),
        None => None,
    }
}

/// The dirty suffix depends on the flag alone: for every commit text, a
/// known dirty tree appends `-dirty`, and any other flag keeps the commit
/// text as it is; without a commit there is no hash.
pub proof fn lemma_git_hash_suffix(h: Seq<char>, dirty: Option<bool>)
    ensures
        spec_git_hash(Some(h), Some(true)) == Some(h + "-dirty"@),
        dirty != Some(true) ==> spec_git_hash(Some(h), dirty) == Some(h),
        spec_git_hash(None, dirty) == None::<Seq<char>>,
{
}

/// There is one more piece of `s` split on `sep` than there are occurrences
/// of `sep` in `s`.
pub proof fn lemma_split_len(s: Seq<char>, sep: char)
    ensures
        split_on(s, sep).len() == count_char(s, sep) + 1,
    decreases s.len(),
{
    if s.len() > 0 {
        lemma_split_len(s.drop_last(), sep);
    }
}

/// `trim_end(s)` is a prefix of `s`, and it is empty or ends with a
/// character that is not whitespace.
pub proof fn lemma_trim_end(s: Seq<char>)
    ensures
        trim_end(s).len() <= s.len(),
        trim_end(s) == s.subrange(0, trim_end(s).len() as int),
        trim_end(s).len() > 0 ==> !is_white_space(trim_end(s).last()),
    decreases s.len(),
{
    if s.len() > 0 && is_white_space(s.last()) {
        lemma_trim_end(s.drop_last());
        assert(s.drop_last().subrange(0, trim_end(s).len() as int) =~= s.subrange(
            0,
            trim_end(s).len() as int,
        ));
    } else {
        assert(s.subrange(0, s.len() as int) =~= s);
    }
}

/// `trim_start(s)` is empty or begins with a character that is not
/// whitespace.
pub proof fn lemma_trim_start(s: Seq<char>)
    ensures
        trim_start(s).len() > 0 ==> !is_white_space(trim_start(s)[0]),
    decreases s.len(),
{
    if s.len() > 0 && is_white_space(s[0]) {
        lemma_trim_start(s.drop_first());
    }
}

/// A trimmed text neither begins nor ends with whitespace.
pub proof fn lemma_trim_clean(s: Seq<char>)
    ensures
        trim(s).len() > 0 ==> !is_white_space(trim(s)[0]) && !is_white_space(trim(s).last()),
{
    lemma_trim_start(s);
    lemma_trim_end(trim_start(s));
    if trim(s).len() > 0 {
        assert(trim(s)[0] == trim_start(s)[0]);
    }
}

/// The list of authors has one entry more than the text has `:` separators,
/// and no entry begins or ends with whitespace.
pub proof fn lemma_authors_shape(authors: Seq<char>)
    ensures
        spec_authors(authors).len() == count_char(authors, ':') + 1,
        forall|i: int|
            0 <= i < spec_authors(authors).len() && spec_authors(authors)[i].len() > 0 ==> {
                &&& !is_white_space(#[trigger] spec_authors(authors)[i][0])
                &&& !is_white_space(spec_authors(authors)[i].last())
            },
{
    lemma_split_len(authors, ':');
    assert forall|i: int|
        0 <= i < spec_authors(authors).len() && spec_authors(authors)[i].len() > 0 implies {
        &&& !is_white_space(#[trigger] spec_authors(authors)[i][0])
        &&& !is_white_space(spec_authors(authors)[i].last())
    } by {
        lemma_trim_clean(split_on(authors, ':')[i]);
    }
}

/// Removes the leading and trailing whitespace of `s` with `str::trim`.
///
/// Trusted: `str::trim` is documented to remove leading and trailing
/// whitespace, whitespace being the Unicode `White_Space` property, which
/// is what [`trim`] states.
#[verifier::external_body]
fn trim_str<'a>(s: &'a str) -> (r: &'a str)
    ensures
        r@ == trim(s@),
{
    s.trim()
}

/// Splits the `:`-separated list of authors and trims each of them.
fn split_authors(s: &str) -> (r: Vec<String>)
    ensures
        r@.map_values(|a: String| a@) == spec_authors(s@),
{
    let n: usize = s.unicode_len();
    let mut out: Vec<String> = Vec::new();
    let mut start: usize = 0;
    let mut i: usize = 0;
    proof {
        lemma_split_len(s@.subrange(0, 0), ':');
    }
    while i < n
        invariant
            n == s@.len(),
            start <= i <= n,
            split_on(s@.subrange(0, i as int), ':').len() == out@.len() + 1,
            forall|k: int|
                0 <= k < out@.len() ==> #[trigger] out@[k]@ == trim(
                    split_on(s@.subrange(0, i as int), ':')[k],
                ),
            split_on(s@.subrange(0, i as int), ':').last() == s@.subrange(start as int, i as int),
        decreases n - i,
    {
        let ghost before = split_on(s@.subrange(0, i as int), ':');
        let c = s.get_char(i);
        assert(s@.subrange(0, i + 1).drop_last() =~= s@.subrange(0, i as int));
        assert(s@.subrange(0, i + 1).last() == c);
        if c == ':' {
            let piece = s.substring_char(start, i);
            let author = trim_str(piece).to_owned();
            out.push(author);
            start = i + 1;
        } else {
            assert(s@.subrange(start as int, i + 1) =~= s@.subrange(start as int, i as int).push(
                c,
            ));
        }
        i = i + 1;
        proof {
            let after = split_on(s@.subrange(0, i as int), ':');
            assert forall|k: int| 0 <= k < out@.len() implies #[trigger] out@[k]@ == trim(
                after[k],
            ) by {
                assert(after[k] == before[k]);
            }
        }
    }
    let piece = s.substring_char(start, n);
    let author = trim_str(piece).to_owned();
    out.push(author);
    proof {
        assert(s@.subrange(0, n as int) =~= s@);
        assert(out@.map_values(|a: String| a@) =~= spec_authors(s@));
    }
    out
}

/// The git hash of the build: the commit hash, suffixed with `-dirty` where
/// the working tree is known to have been dirty.
pub fn git_hash(commit: Option<&str>, dirty: Option<bool>) -> (r: Option<String>)
    ensures
        string_opt_view(r) == spec_git_hash(str_opt_view(commit), dirty),
        commit is None ==> r is None,
        commit matches Some(h) ==> (dirty == Some(true) ==> (r matches Some(g) && g@ == h@
            + "-dirty"@)),
        commit matches Some(h) ==> (dirty != Some(true) ==> (r matches Some(g) && g@ == h@)),
{
    match commit {
        None => None,
        Some(h) => {
            let hash = h.to_owned();
            match dirty {
                Some(true) => Some(hash.concat("-dirty")),
                _ => Some(hash),
            }
        },
    }
}

/// Retrieves the build information recorded in `env`.
///
/// The authors are the `:`-separated entries of `env.pkg_authors`, each
/// without its leading and trailing whitespace.
pub fn get(env: &BuildEnv) -> (r: BuildInfo)
    ensures
        r.name == env.pkg_name,
        r.version == env.pkg_version,
        r.homepage == env.pkg_homepage,
        r.license == env.pkg_license,
        r.repository == env.pkg_repository,
        r.profile == env.profile,
        r.rustc_version == env.rustc_version,
        r.features == env.features,
        r.authors@.map_values(|a: String| a@) == spec_authors(env.pkg_authors@),
        string_opt_view(r.git_hash) == spec_git_hash(
            str_opt_view(env.git_commit_hash),
            env.git_dirty,
        ),
{
    let authors = split_authors(env.pkg_authors);
    BuildInfo {
        name: env.pkg_name,
        version: env.pkg_version,
        git_hash: git_hash(env.git_commit_hash, env.git_dirty),
        authors,
        homepage: env.pkg_homepage,
        license: env.pkg_license,
        repository: env.pkg_repository,
        profile: env.profile,
        rustc_version: env.rustc_version,
        features: env.features,
    }
}

} // verus!
