//! Static-file routing with a single-page-application fallback. A request
//! path is joined with the static root; if a regular file stands there its
//! bytes are the response, otherwise the fallback document is served, and
//! if that is missing too the response is not-found. A path that resolves
//! to a directory is treated as a miss and falls back (no directory
//! listing is ever produced). A read failure other than absence — a
//! permission error, an I/O error — is a server error, never a not-found.

use vstd::prelude::*;

verus! {

use crate::text::str_eq;
use vstd::string::StrSliceExecFns;
use vstd::string::StringExecFns;

/// What the filesystem reported for one candidate path.
pub enum FileLookup {
    /// A regular file stands at the path; its full byte content.
    Found(Vec<u8>),
    /// Nothing stands at the path.
    Missing,
    /// A directory stands at the path.
    Directory,
    /// Something stands at the path but reading it failed (for example
    /// a permission error).
    ReadFailure,
}

/// The mathematical value of a `FileLookup`.
pub enum LookupModel {
    Found(Seq<u8>),
    Missing,
    Directory,
    ReadFailure,
}

impl View for FileLookup {
    type V = LookupModel;

    open spec fn view(&self) -> LookupModel {
        match self {
            FileLookup::Found(bytes) => LookupModel::Found(bytes@),
            FileLookup::Missing => LookupModel::Missing,
            FileLookup::Directory => LookupModel::Directory,
            FileLookup::ReadFailure => LookupModel::ReadFailure,
        }
    }
}

/// The response for one request.
pub enum Response {
    /// The requested file itself; its full byte content.
    File(Vec<u8>),
    /// The fallback document, served because the requested path did not
    /// resolve to a regular file; its full byte content.
    Fallback(Vec<u8>),
    /// Neither the requested file nor the fallback document exists.
    NotFound,
    /// A filesystem read failed for another reason than absence.
    ServerError,
}

/// The mathematical value of a `Response`.
pub enum ResponseModel {
    File(Seq<u8>),
    Fallback(Seq<u8>),
    NotFound,
    ServerError,
}

impl View for Response {
    type V = ResponseModel;

    open spec fn view(&self) -> ResponseModel {
        match self {
            Response::File(bytes) => ResponseModel::File(bytes@),
            Response::Fallback(bytes) => ResponseModel::Fallback(bytes@),
            Response::NotFound => ResponseModel::NotFound,
            Response::ServerError => ResponseModel::ServerError,
        }
    }
}

/// The decision taken on the requested path alone, before the fallback
/// document is consulted.
pub enum PrimaryDecision {
    /// A regular file stands at the requested path: serve its bytes.
    Serve(Vec<u8>),
    /// The path is a miss (absent, or a directory): consult the fallback
    /// document.
    TryFallback,
    /// Reading the path failed: answer with a server error.
    Fail,
}

/// The mathematical value of a `PrimaryDecision`.
pub enum PrimaryDecisionModel {
    Serve(Seq<u8>),
    TryFallback,
    Fail,
}

impl View for PrimaryDecision {
    type V = PrimaryDecisionModel;

    open spec fn view(&self) -> PrimaryDecisionModel {
        match self {
            PrimaryDecision::Serve(bytes) => PrimaryDecisionModel::Serve(bytes@),
            PrimaryDecision::TryFallback => PrimaryDecisionModel::TryFallback,
            PrimaryDecision::Fail => PrimaryDecisionModel::Fail,
        }
    }
}

/// The decision on the requested path: a regular file is served, an absent
/// path or a directory falls back, a read failure fails.
pub open spec fn route_primary_model(primary: LookupModel) -> PrimaryDecisionModel {
    match primary {
        LookupModel::Found(bytes) => PrimaryDecisionModel::Serve(bytes),
        LookupModel::Missing => PrimaryDecisionModel::TryFallback,
        LookupModel::Directory => PrimaryDecisionModel::TryFallback,
        LookupModel::ReadFailure => PrimaryDecisionModel::Fail,
    }
}

/// The response once the fallback document is consulted: a regular file is
/// served as the fallback body, an absent fallback (or one that is itself
/// a directory) is not-found, a read failure is a server error.
pub open spec fn route_fallback_model(fallback: LookupModel) -> ResponseModel {
    match fallback {
        LookupModel::Found(bytes) => ResponseModel::Fallback(bytes),
        LookupModel::Missing => ResponseModel::NotFound,
        LookupModel::Directory => ResponseModel::NotFound,
        LookupModel::ReadFailure => ResponseModel::ServerError,
    }
}

/// The whole resolution: what the response is, given what the filesystem
/// reported for the requested path and for the fallback document.
pub open spec fn resolve_model(primary: LookupModel, fallback: LookupModel) -> ResponseModel {
    match route_primary_model(primary) {
        PrimaryDecisionModel::Serve(bytes) => ResponseModel::File(bytes),
        PrimaryDecisionModel::TryFallback => route_fallback_model(fallback),
        PrimaryDecisionModel::Fail => ResponseModel::ServerError,
    }
}

/// Decides on the requested path alone. The caller reads the fallback
/// document only when the decision asks for it.
pub fn route_primary(primary: FileLookup) -> (d: PrimaryDecision)
    ensures
        d@ == route_primary_model(primary@),
{
    match primary {
        FileLookup::Found(bytes) => PrimaryDecision::Serve(bytes),
        FileLookup::Missing => PrimaryDecision::TryFallback,
        FileLookup::Directory => PrimaryDecision::TryFallback,
        FileLookup::ReadFailure => PrimaryDecision::Fail,
    }
}

/// Answers from the fallback document's lookup, after the requested path
/// was a miss.
pub fn route_fallback(fallback: FileLookup) -> (r: Response)
    ensures
        r@ == route_fallback_model(fallback@),
{
    match fallback {
        FileLookup::Found(bytes) => Response::Fallback(bytes),
        FileLookup::Missing => Response::NotFound,
        FileLookup::Directory => Response::NotFound,
        FileLookup::ReadFailure => Response::ServerError,
    }
}

/// Resolves a request from both lookups at once.
pub fn resolve(primary: FileLookup, fallback: FileLookup) -> (r: Response)
    ensures
        r@ == resolve_model(primary@, fallback@),
{
    match route_primary(primary) {
        PrimaryDecision::Serve(bytes) => Response::File(bytes),
        PrimaryDecision::TryFallback => route_fallback(fallback),
        PrimaryDecision::Fail => Response::ServerError,
    }
}

/// One node of the filesystem model: what stands at a path.
pub enum FsNode {
    /// A readable regular file with this byte content.
    Regular(Seq<u8>),
    /// A directory.
    Dir,
    /// A node that exists but cannot be read.
    Unreadable,
}

/// Whether a lookup result truthfully reports what the filesystem `fs`
/// (a map from paths to nodes; absent paths have no entry) holds at
/// `path`.
pub open spec fn lookup_reflects(fs: Map<Seq<char>, FsNode>, path: Seq<char>, l: LookupModel) -> bool {
    match l {
        LookupModel::Found(bytes) => fs.dom().contains(path) && fs[path] == FsNode::Regular(bytes),
        LookupModel::Missing => !fs.dom().contains(path),
        LookupModel::Directory => fs.dom().contains(path) && fs[path] is Dir,
        LookupModel::ReadFailure => fs.dom().contains(path) && fs[path] is Unreadable,
    }
}

/// Law: a request path at which a readable regular file stands is answered
/// with exactly that file's bytes, whatever the fallback lookup reported.
pub proof fn lemma_existing_file_served(
    fs: Map<Seq<char>, FsNode>,
    path: Seq<char>,
    body: Seq<u8>,
    primary: LookupModel,
    fallback: LookupModel,
)
    requires
        fs.dom().contains(path),
        fs[path] == FsNode::Regular(body),
        lookup_reflects(fs, path, primary),
    ensures
        resolve_model(primary, fallback) == ResponseModel::File(body),
{
}

/// Law: a request path at which no regular file stands (absent, or a
/// directory) is answered with the fallback document's bytes, provided a
/// readable regular file stands at the fallback path.
pub proof fn lemma_miss_serves_fallback(
    fs: Map<Seq<char>, FsNode>,
    path: Seq<char>,
    fallback_path: Seq<char>,
    fallback_body: Seq<u8>,
    primary: LookupModel,
    fallback: LookupModel,
)
    requires
        !fs.dom().contains(path) || fs[path] is Dir,
        lookup_reflects(fs, path, primary),
        fs.dom().contains(fallback_path),
        fs[fallback_path] == FsNode::Regular(fallback_body),
        lookup_reflects(fs, fallback_path, fallback),
    ensures
        resolve_model(primary, fallback) == ResponseModel::Fallback(fallback_body),
{
}

/// Law: when the fallback document does not exist either (absent, or a
/// directory), every request path at which no regular file stands is
/// answered not-found.
pub proof fn lemma_no_fallback_not_found(
    fs: Map<Seq<char>, FsNode>,
    path: Seq<char>,
    fallback_path: Seq<char>,
    primary: LookupModel,
    fallback: LookupModel,
)
    requires
        !fs.dom().contains(path) || fs[path] is Dir,
        lookup_reflects(fs, path, primary),
        !fs.dom().contains(fallback_path) || fs[fallback_path] is Dir,
        lookup_reflects(fs, fallback_path, fallback),
    ensures
        resolve_model(primary, fallback) == ResponseModel::NotFound,
{
}

/// The candidate filesystem path for a request: the static root followed
/// by the request path (which begins with `/`).
pub fn candidate_path(root: &str, request_path: &str) -> (r: String)
    ensures
        r@ == root@ + request_path@,
{
    let mut out = root.to_owned();
    out.append(request_path);
    out
}

/// Where the extension of a path's last segment starts: the position
/// directly after the last `.`, unless a `/` stands behind that dot (then
/// the last segment holds no dot and the path has no extension).
pub open spec fn extension_start(p: Seq<char>) -> Option<int>
    decreases p.len(),
{
    if p.len() == 0 {
        Option::None
    } else if p.last() == '.' {
        Option::Some(p.len() as int)
    } else if p.last() == '/' {
        Option::None
    } else {
        extension_start(p.drop_last())
    }
}

/// The extension of a path's last segment: the characters after its last
/// `.`, or nothing when that segment holds no dot.
pub open spec fn extension_of(p: Seq<char>) -> Option<Seq<char>> {
    match extension_start(p) {
        Option::Some(i) => Option::Some(p.subrange(i, p.len() as int)),
        Option::None => Option::None,
    }
}

/// Extracts the extension of a path's last segment.
pub fn extension(path: &str) -> (r: Option<String>)
    ensures
        match r {
            Option::Some(e) => extension_of(path@) == Option::Some(e@),
            Option::None => extension_of(path@) is None,
        },
{
    let n = path.unicode_len();
    let mut found: Option<usize> = None;
    let mut i: usize = 0;
    while i < n
        invariant
            n == path@.len(),
            i <= n,
            match found {
                Option::Some(k) => extension_start(path@.subrange(0, i as int))
                    == Option::Some(k as int) && 1 <= k <= i,
                Option::None => extension_start(path@.subrange(0, i as int)) is None,
            },
        decreases n - i,
    {
        let c = path.get_char(i);
        proof {
            let longer = path@.subrange(0, i as int + 1);
            assert(longer.drop_last() =~= path@.subrange(0, i as int));
            assert(longer.last() == path@[i as int]);
        }
        if c == '.' {
            found = Some(i + 1);
        } else if c == '/' {
            found = None;
        }
        i += 1;
    }
    proof {
        assert(path@.subrange(0, n as int) =~= path@);
    }
    match found {
        Some(k) => {
            let ext = path.substring_char(k, n);
            Some(ext.to_owned())
        },
        None => None,
    }
}

/// The content type served for a given extension. A handful of common
/// web-asset types are recognised; anything else is an opaque byte
/// stream.
pub open spec fn content_type_model(ext: Option<Seq<char>>) -> Seq<char> {
    match ext {
        Option::Some(e) => {
            if e == "html"@ {
                "text/html"@
            } else if e == "css"@ {
                "text/css"@
            } else if e == "js"@ {
                "text/javascript"@
            } else if e == "json"@ {
                "application/json"@
            } else if e == "png"@ {
                "image/png"@
            } else if e == "svg"@ {
                "image/svg+xml"@
            } else if e == "ico"@ {
                "image/x-icon"@
            } else {
                "application/octet-stream"@
            }
        },
        Option::None => "application/octet-stream"@,
    }
}

/// Infers the content type of a response from the request path's
/// extension.
pub fn content_type_for(path: &str) -> (r: &'static str)
    ensures
        r@ == content_type_model(extension_of(path@)),
{
    match extension(path) {
        Some(e) => {
            let ext = e.as_str();
            if str_eq(ext, "html") {
                "text/html"
            } else if str_eq(ext, "css") {
                "text/css"
            } else if str_eq(ext, "js") {
                "text/javascript"
            } else if str_eq(ext, "json") {
                "application/json"
            } else if str_eq(ext, "png") {
                "image/png"
            } else if str_eq(ext, "svg") {
                "image/svg+xml"
            } else if str_eq(ext, "ico") {
                "image/x-icon"
            } else {
                "application/octet-stream"
            }
        },
        None => "application/octet-stream",
    }
}

} // verus!
