//! Which file under a root directory a GET or HEAD request asks for.
use vstd::prelude::*;
use vstd::string::StrSliceExecFns;
use vstd::string::StringExecFns;
use crate::request::{Method, Request, path_of};

verus! {

/// The file, relative to the root, that a request path names: `index.html`
/// for `/`, else the path without its leading character.
pub open spec fn relative_file(path: Seq<char>) -> Seq<char> {
    if path == seq!['/'] {
        "index.html"@
    } else if path.len() == 0 {
        path
    } else {
        path.drop_first()
    }
}

/// Serves files from within a root directory.
pub struct StaticFilesHandler {
    root_path: String,
}

impl StaticFilesHandler {
    pub closed spec fn spec_root(&self) -> Seq<char> {
        self.root_path@
    }

    /// A handler serving files from within `root_path`.
    pub fn new(root_path: &str) -> (r: StaticFilesHandler)
        ensures
            r.spec_root() == root_path@,
    {
        StaticFilesHandler { root_path: String::from_str(root_path) }
    }

    /// The root directory.
    pub fn root_path(&self) -> (r: &str)
        ensures
            r@ == self.spec_root(),
    {
        self.root_path.as_str()
    }

    /// The file, relative to the root, that the request's path names.
    pub fn extract_path(&self, req: &Request) -> (r: String)
        ensures
            r@ == relative_file(path_of(req.uri@)),
    {
        let path = req.path_without_query();
        let len = path.unicode_len();
        if len == 1 && path.get_char(0) == '/' {
            proof {
                assert(path@ =~= seq!['/']);
            }
            String::from_str("index.html")
        } else if len == 0 {
            String::from_str(path)
        } else {
            proof {
                assert(path@ != seq!['/']);
            }
            let rest = path.substring_char(1, len);
            proof {
                assert(rest@ =~= path@.drop_first());
            }
            String::from_str(rest)
        }
    }

    /// The file to serve for a GET or HEAD request; none for other methods,
    /// which pass on.
    pub fn file_for(&self, req: &Request) -> (r: Option<String>)
        ensures
            match r {
                Some(f) => (req.method == Method::Get || req.method == Method::Head) && f@
                    == relative_file(path_of(req.uri@)),
                None => !(req.method == Method::Get || req.method == Method::Head),
            },
    {
        match req.method {
            Method::Get | Method::Head => Some(self.extract_path(req)),
            _ => None,
        }
    }
}

} // verus!
