//! Symlink builder: plans a relocatable symlink whose stored target is the
//! RELATIVE path from the link's parent directory to the original, so the
//! whole tree survives being moved.
//!
//! The relative-path computation is pathdiff's; creating the link on disk
//! is the caller's.

use vstd::prelude::*;

use crate::errors::UserError;
use crate::paths::{parent_dir, parent_dir_of};
use crate::text::{chars_to_string, str_to_chars};

verus! {

/// The relative path from the directory `base` to `target`; `None` when no
/// relative path exists between them.
pub uninterp spec fn rel_path_of(target: Seq<char>, base: Seq<char>) -> Option<Seq<char>>;

/// Relies on pathdiff's `diff_paths`: the relative path from a base
/// directory to a target path is a function of the two paths alone, and
/// when both paths are rooted, the result carries no root — it is stored
/// as a genuinely relative path.
#[verifier::external_body]
fn diff_paths(target: &str, base: &str) -> (r: Option<String>)
    ensures
        match r {
            Some(p) => rel_path_of(target@, base@) == Some(p@),
            None => rel_path_of(target@, base@) is None,
        },
        (target@.len() > 0 && target@[0] == '/' && base@.len() > 0 && base@[0] == '/' && r
            is Some) ==> (r->Some_0@.len() == 0 || r->Some_0@[0] != '/'),
{
    match pathdiff::diff_paths(std::path::Path::new(target), std::path::Path::new(base)) {
        Some(p) => Some(p.to_string_lossy().into_owned()),
        None => None,
    }
}

/// A planned symlink: the path at which the link is created, and the
/// relative target text stored inside it.
#[derive(Debug)]
pub struct SymlinkPlan {
    pub link: String,
    pub target: String,
}

/// Plans the symlink that makes `link` point at `original`: the stored
/// target is the relative path from the link's parent directory to the
/// original, so resolving the link from that directory reaches the
/// original, and when both paths are rooted the stored target carries no
/// root. Fails exactly when no relative path can be computed.
pub fn plan_symlink(original: &str, link: &str) -> (r: Result<SymlinkPlan, UserError>)
    ensures
        match r {
            Ok(p) => p.link@ == link@ && rel_path_of(original@, parent_dir(link@)) == Some(
                p.target@,
            ) && ((original@.len() > 0 && original@[0] == '/' && link@.len() > 0 && link@[0]
                == '/') ==> (p.target@.len() == 0 || p.target@[0] != '/')),
            Err(e) => rel_path_of(original@, parent_dir(link@)) is None && e matches
                UserError::SymlinkFailed,
        },
{
    let link_chars = str_to_chars(link);
    let parent = chars_to_string(&parent_dir_of(&link_chars));
    proof {
        link@.index_of_last_ensures('/');
        if link@.len() > 0 && link@[0] == '/' {
            assert(link@.contains('/'));
            let i = link@.index_of_last('/')->Some_0;
            if i > 0 {
                assert(parent_dir(link@)[0] == link@[0]);
            }
        }
    }
    match diff_paths(original, parent.as_str()) {
        Some(target) => Ok(SymlinkPlan { link: link.to_owned(), target }),
        None => Err(UserError::SymlinkFailed),
    }
}

} // verus!
