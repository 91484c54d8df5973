//! The request and response shapes of the auxiliary endpoints, and the
//! decisions they are built from: naming the loaded model, admitting a path
//! into the sandbox, and shaping file-listing and archive-extraction
//! answers.  Reading directories and extracting archives is I/O and stays
//! outside; the rules applied to their results live here.

pub mod load;

use vstd::prelude::*;

use vstd::string::StrSliceExecFns;

use crate::RuntimeInfo;

verus! {

/// One entry of the model listing.
#[derive(Debug, PartialEq)]
pub struct ModelChoice {
    /// The kind of entry; always the listing's collection name.
    pub object: String,
    /// The file name of the loaded model, empty when none is loaded.
    pub id: String,
}

/// The model listing: always exactly one entry, since one worker owns at
/// most one model.
#[derive(Debug, PartialEq)]
pub struct ModelResponse {
    pub data: Vec<ModelChoice>,
}

/// The answer to a bounded-wait info query.
#[derive(Debug, PartialEq)]
pub enum InfoResponse {
    /// A snapshot was available in time.
    Loaded(RuntimeInfo),
    /// No model is loaded, the worker is gone, or the deadline passed first.
    Absent,
}

/// A file-listing request: the directory the caller wants to read.
#[derive(Clone, Debug, PartialEq)]
pub struct FileInfoRequest {
    pub path: String,
}

/// One file of a listed directory.
#[derive(Clone, Debug, PartialEq)]
pub struct FileInfo {
    pub name: String,
    pub size: u64,
}

/// The answer to a file-listing request.
#[derive(Clone, Debug, PartialEq)]
pub enum FileInfoResponse {
    /// The path lies inside the sandbox and is a directory: its files.
    Accepted(Vec<FileInfo>),
    /// The path lies outside the sandbox or is no directory.
    Denied,
}

/// An archive-extraction request: where to extract, and which archive.
#[derive(Clone, Debug, PartialEq)]
pub struct UnzipRequest {
    pub target_dir: String,
    pub zip_path: String,
}

/// The answer to an archive-extraction request.
#[derive(Debug, PartialEq)]
pub struct UnzipResponse {
    pub state: String,
}

/// A path with its trailing separators removed; they never carry name
/// information.
pub open spec fn strip_trailing_separators(s: Seq<char>) -> Seq<char>
    decreases s.len(),
{
    if s.len() > 0 && s.last() == '/' {
        strip_trailing_separators(s.drop_last())
    } else {
        s
    }
}

/// The last separator-free run of a sequence: everything after its last
/// separator, or all of it when it has none.
pub open spec fn last_component(s: Seq<char>) -> Seq<char>
    decreases s.len(),
{
    if s.len() == 0 {
        s
    } else if s.last() == '/' {
        Seq::empty()
    } else {
        last_component(s.drop_last()).push(s.last())
    }
}

/// The file name a path denotes: its last component, with trailing
/// separators ignored, and empty when nothing is left or when that component
/// is the parent marker `..` — so `dir/` names `dir`, `a/..` and `/` name
/// nothing.  A lone `.` component is treated as an ordinary name.
pub open spec fn spec_file_name(s: Seq<char>) -> Seq<char> {
    let tail = last_component(strip_trailing_separators(s));
    if tail == seq!['.', '.'] {
        Seq::empty()
    } else {
        tail
    }
}

proof fn lemma_strip_trailing(s: Seq<char>, end: int)
    requires
        0 <= end <= s.len(),
        forall|j: int| end <= j < s.len() ==> s[j] == '/',
        end > 0 ==> s[end - 1] != '/',
    ensures
        strip_trailing_separators(s) =~= s.subrange(0, end),
    decreases s.len(),
{
    if s.len() == 0 {
    } else if s.last() == '/' {
        assert(end < s.len());
        let head = s.drop_last();
        lemma_strip_trailing(head, end);
        assert(head.subrange(0, end) =~= s.subrange(0, end));
    } else {
        assert(end == s.len());
        assert(s.subrange(0, end) =~= s);
    }
}

proof fn lemma_last_component_suffix(s: Seq<char>, cut: int)
    requires
        0 <= cut <= s.len(),
        cut > 0 ==> s[cut - 1] == '/',
        forall|j: int| cut <= j < s.len() ==> s[j] != '/',
    ensures
        last_component(s) =~= s.subrange(cut, s.len() as int),
    decreases s.len(),
{
    if s.len() == 0 {
    } else if cut == s.len() {
        assert(s.last() == '/');
    } else {
        assert(s.last() != '/');
        let head = s.drop_last();
        assert(head =~= s.subrange(0, s.len() - 1));
        lemma_last_component_suffix(head, cut);
        assert(last_component(s) =~= last_component(head).push(s.last()));
        assert(head.subrange(cut, head.len() as int) =~= s.subrange(cut, s.len() - 1));
        assert(s.subrange(cut, s.len() - 1).push(s.last()) =~= s.subrange(cut, s.len() as int));
    }
}

/// Extracts the file name of a path, as `spec_file_name` defines it.
pub fn file_name_of(path: &str) -> (name: String)
    ensures
        name@ == spec_file_name(path@),
{
    let n = path.unicode_len();
    let mut end: usize = n;
    while end > 0 && path.get_char(end - 1) == '/'
        invariant
            n == path@.len(),
            end <= n,
            forall|j: int| end <= j < n ==> path@[j] == '/',
        decreases end,
    {
        end = end - 1;
    }
    let ghost trimmed = path@.subrange(0, end as int);
    proof {
        lemma_strip_trailing(path@, end as int);
    }
    let mut cut: usize = 0;
    let mut i: usize = 0;
    while i < end
        invariant
            n == path@.len(),
            end <= n,
            i <= end,
            cut <= i,
            cut > 0 ==> path@[cut - 1] == '/',
            forall|j: int| cut <= j < i ==> path@[j] != '/',
        decreases end - i,
    {
        if path.get_char(i) == '/' {
            cut = i + 1;
        }
        i = i + 1;
    }
    proof {
        assert(forall|j: int| cut <= j < end ==> trimmed[j] == path@[j]);
        lemma_last_component_suffix(trimmed, cut as int);
        assert(trimmed.subrange(cut as int, end as int) =~= path@.subrange(cut as int, end as int));
    }
    let is_parent = end - cut == 2 && path.get_char(cut) == '.' && path.get_char(cut + 1) == '.';
    if is_parent {
        proof {
            assert(path@.subrange(cut as int, end as int) =~= seq!['.', '.']);
        }
        String::new()
    } else {
        proof {
            let tail = path@.subrange(cut as int, end as int);
            if end - cut == 2 {
                assert(tail[0] == path@[cut as int] && tail[1] == path@[cut as int + 1]);
                assert(tail != seq!['.', '.']);
            } else {
                assert(tail.len() != 2);
                assert(tail != seq!['.', '.']);
            }
        }
        let tail = path.substring_char(cut, end);
        tail.to_owned()
    }
}

/// A path lies inside the sandbox when its first component is the fixed
/// sandbox root `assets`: the path is `assets` itself or continues with a
/// separator.  Everything else — absolute paths, other roots, mere prefixes
/// such as `assetsx` — is outside.
pub open spec fn spec_in_sandbox(s: Seq<char>) -> bool {
    &&& s.len() >= 6
    &&& s.subrange(0, 6) == "assets"@
    &&& (s.len() == 6 || s[6] == '/')
}

/// Decides whether a path lies inside the sandbox root, as
/// `spec_in_sandbox` defines it.
pub fn path_in_sandbox(path: &str) -> (b: bool)
    ensures
        b == spec_in_sandbox(path@),
{
    proof {
        reveal_strlit("assets");
    }
    let n = path.unicode_len();
    if n < 6 {
        return false;
    }
    let root_matches = path.get_char(0) == 'a' && path.get_char(1) == 's' && path.get_char(2)
        == 's' && path.get_char(3) == 'e' && path.get_char(4) == 't' && path.get_char(5) == 's';
    proof {
        let sub = path@.subrange(0, 6);
        assert(sub[0] == path@[0] && sub[1] == path@[1] && sub[2] == path@[2] && sub[3] == path@[3]
            && sub[4] == path@[4] && sub[5] == path@[5]);
        if root_matches {
            assert(sub =~= "assets"@);
        } else {
            assert(sub != "assets"@);
        }
    }
    if !root_matches {
        return false;
    }
    n == 6 || path.get_char(6) == '/'
}

/// Shapes the answer to a file-listing request from the sandbox rule and
/// what the filesystem reported: the entries are handed out exactly when the
/// path is a directory inside the sandbox, and the request is denied
/// otherwise.
pub fn files_response(path: &str, is_dir: bool, entries: Vec<FileInfo>) -> (r: FileInfoResponse)
    ensures
        r == (if is_dir && spec_in_sandbox(path@) {
            FileInfoResponse::Accepted(entries)
        } else {
            FileInfoResponse::Denied
        }),
{
    if is_dir && path_in_sandbox(path) {
        FileInfoResponse::Accepted(entries)
    } else {
        FileInfoResponse::Denied
    }
}

/// Builds the model listing from the snapshot an info query yielded: exactly
/// one entry, whose id is the loaded model's file name or empty when no
/// snapshot was available.
pub fn models_response(info: &Option<RuntimeInfo>) -> (r: ModelResponse)
    ensures
        r.data@.len() == 1,
        r.data@[0].object@ == "models"@,
        r.data@[0].id@ == (match info {
            Some(i) => spec_file_name(i.reload.path@),
            None => Seq::<char>::empty(),
        }),
{
    let id = match info {
        Some(i) => file_name_of(i.reload.path.as_str()),
        None => String::new(),
    };
    let choice = ModelChoice { object: "models".to_owned(), id };
    let mut data: Vec<ModelChoice> = Vec::new();
    data.push(choice);
    ModelResponse { data }
}

/// Wraps the snapshot an info query yielded, or its absence, for the
/// info endpoint.
pub fn info_response_of(info: Option<RuntimeInfo>) -> (r: InfoResponse)
    ensures
        r == (match info {
            Some(i) => InfoResponse::Loaded(i),
            None => InfoResponse::Absent,
        }),
{
    match info {
        Some(i) => InfoResponse::Loaded(i),
        None => InfoResponse::Absent,
    }
}

/// Shapes the answer to an archive-extraction request from whether the
/// extraction succeeded.
pub fn unzip_response(ok: bool) -> (r: UnzipResponse)
    ensures
        r.state@ == (if ok {
            "OK"@
        } else {
            "ERR"@
        }),
{
    if ok {
        UnzipResponse { state: "OK".to_owned() }
    } else {
        UnzipResponse { state: "ERR".to_owned() }
    }
}

} // verus!
