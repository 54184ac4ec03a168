//! Project records, made when a directory is imported.

use vstd::prelude::*;
use vstd::string::*;
use crate::classify::{classification, detect_project_type, entry_file_of, find_entry_file, ProjectLayout};
use crate::error::BundleError;
use crate::text::chars_of;

verus! {

/// An imported project.
#[derive(Clone, Debug)]
pub struct PhpProject {
    pub id: String,
    pub name: String,
    pub path: String,
    pub project_type: String,
    pub entry_file: String,
    pub created_at: String,
    pub last_modified: String,
}

/// `s` without its trailing `/` characters.
pub open spec fn trim_trailing_slashes(s: Seq<char>) -> Seq<char>
    decreases s.len(),
{
    if s.len() > 0 && s.last() == '/' {
        trim_trailing_slashes(s.drop_last())
    } else {
        s
    }
}

/// What follows the last `/` of `s` (all of `s` when it has none).
pub open spec fn after_last_slash(s: Seq<char>) -> Seq<char>
    decreases s.len(),
{
    if s.len() == 0 {
        s
    } else if s.last() == '/' {
        Seq::<char>::empty()
    } else {
        after_last_slash(s.drop_last()).push(s.last())
    }
}

/// The final segment of a path, ignoring trailing separators.
pub open spec fn last_segment(path: Seq<char>) -> Seq<char> {
    after_last_slash(trim_trailing_slashes(path))
}

/// The display name of a project: the final segment of its path.
pub fn project_name(path: &str) -> (r: String)
    ensures
        r@ == last_segment(path@),
{
    let cs = chars_of(path);
    let mut end: usize = cs.len();
    assert(cs@.subrange(0, end as int) =~= cs@);
    while end > 0 && cs[end - 1] == '/'
        invariant
            end <= cs@.len(),
            trim_trailing_slashes(cs@) == trim_trailing_slashes(cs@.subrange(0, end as int)),
        decreases end,
    {
        assert(cs@.subrange(0, end as int).drop_last() =~= cs@.subrange(0, end - 1));
        end = end - 1;
    }
    let ghost t = cs@.subrange(0, end as int);
    assert(trim_trailing_slashes(t) == t);
    let mut start: usize = end;
    while start > 0 && cs[start - 1] != '/'
        invariant
            start <= end <= cs@.len(),
            t == cs@.subrange(0, end as int),
            after_last_slash(t) == after_last_slash(cs@.subrange(0, start as int)) + cs@.subrange(start as int, end as int),
        decreases start,
    {
        assert(cs@.subrange(0, start as int).drop_last() =~= cs@.subrange(0, start - 1));
        assert(cs@.subrange(start - 1, end as int) =~= seq![cs@[start - 1]] + cs@.subrange(start as int, end as int));
        assert(after_last_slash(cs@.subrange(0, start - 1)).push(cs@[start - 1]) + cs@.subrange(start as int, end as int)
            =~= after_last_slash(cs@.subrange(0, start - 1)) + cs@.subrange(start - 1, end as int));
        start = start - 1;
    }
    assert(after_last_slash(cs@.subrange(0, start as int)) =~= Seq::<char>::empty());
    assert(after_last_slash(t) =~= cs@.subrange(start as int, end as int));
    String::from_str(path.substring_char(start, end))
}

/// The record of a project found at `path`, with the given identifier and
/// creation time.
pub fn new_project_record(path: &str, layout: &ProjectLayout, id: String, timestamp: String) -> (r: PhpProject)
    ensures
        r.id == id,
        r.name@ == last_segment(path@),
        r.path@ == path@,
        r.project_type@ == classification(*layout).spec_name(),
        r.entry_file@ == entry_file_of(*layout, classification(*layout)),
        r.created_at == timestamp,
        r.last_modified == timestamp,
{
    let t = detect_project_type(layout);
    let entry_file = find_entry_file(layout, t);
    let created_at = timestamp.clone();
    PhpProject {
        id,
        name: project_name(path),
        path: String::from_str(path),
        project_type: t.name(),
        entry_file,
        created_at,
        last_modified: timestamp,
    }
}

/// Relies on `uuid::Uuid::new_v4` for a fresh random identifier, and on
/// `Uuid`'s `Display`, which writes the 36-character hyphenated form.
#[verifier::external_body]
fn new_project_id() -> (r: String)
    ensures
        r@.len() == 36,
{
    uuid::Uuid::new_v4().to_string()
}

/// Relies on `chrono::Utc::now` and `DateTime::to_rfc3339` for the current
/// time as RFC 3339 text.
#[verifier::external_body]
fn current_timestamp() -> (r: String) {
    chrono::Utc::now().to_rfc3339()
}

/// Imports the project at `path`, which the caller found to be a directory
/// (`is_directory`) with the given layout. The record gets a fresh random
/// identifier and the current time.
pub fn import_php_project(path: &str, is_directory: bool, layout: &ProjectLayout) -> (r: Result<PhpProject, BundleError>)
    ensures
        match r {
            Ok(p) => {
                &&& is_directory
                &&& p.id@.len() == 36
                &&& p.name@ == last_segment(path@)
                &&& p.path@ == path@
                &&& p.project_type@ == classification(*layout).spec_name()
                &&& p.entry_file@ == entry_file_of(*layout, classification(*layout))
                &&& p.created_at == p.last_modified
            },
            Err(e) => !is_directory && e == BundleError::InvalidPath,
        },
{
    if !is_directory {
        return Err(BundleError::InvalidPath);
    }
    let id = new_project_id();
    let now = current_timestamp();
    Ok(new_project_record(path, layout, id, now))
}

} // verus!
