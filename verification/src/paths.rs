//! Derivation of the storage paths under the application-data root.
//!
//! Every category directory and the configuration file live under
//! `<documents>/AI-TRPG`. The functions here are pure string
//! computations; the documents directory itself is an environment
//! value, handed in by the caller (or resolved through `dirs`).

use vstd::prelude::*;

verus! {

/// `base` and `child` joined with a single separator.
pub open spec fn joined(base: Seq<char>, child: Seq<char>) -> Seq<char> {
    base + "/"@ + child
}

/// Joins one path component onto a base path.
pub fn join_path(base: &str, child: &str) -> (r: String)
    ensures
        r@ == joined(base@, child@),
{
    let mut r = base.to_owned();
    r.append("/");
    r.append(child);
    r
}

/// The application-data root under the documents directory.
pub open spec fn app_root_spec(docs: Seq<char>) -> Seq<char> {
    joined(docs, "AI-TRPG"@)
}

/// One category's storage directory under the application-data root.
pub open spec fn category_dir_spec(docs: Seq<char>, category: Seq<char>) -> Seq<char> {
    joined(app_root_spec(docs), category)
}

/// The configuration file's path under the application-data root.
pub open spec fn config_path_spec(docs: Seq<char>) -> Seq<char> {
    joined(app_root_spec(docs), "config.json"@)
}

/// The error reported when the platform documents directory cannot be
/// determined. It is fatal for every operation that depends on it.
pub open spec fn env_error_message() -> Seq<char> {
    "无法获取文档目录"@
}

/// One category's directory, from the documents directory the
/// environment reported; the environment error when it reported none.
fn category_directory(docs_dir: Option<&str>, category: &str) -> (r: Result<String, String>)
    ensures
        match r {
            Ok(p) => docs_dir matches Some(d) && p@ == category_dir_spec(d@, category@),
            Err(e) => docs_dir is None && e@ == env_error_message(),
        },
{
    match docs_dir {
        Some(d) => {
            let root = join_path(d, "AI-TRPG");
            Ok(join_path(root.as_str(), category))
        },
        None => Err("无法获取文档目录".to_owned()),
    }
}

/// The game-save directory.
pub fn get_save_directory(docs_dir: Option<&str>) -> (r: Result<String, String>)
    ensures
        match r {
            Ok(p) => docs_dir matches Some(d) && p@ == category_dir_spec(d@, "saves"@),
            Err(e) => docs_dir is None && e@ == env_error_message(),
        },
{
    category_directory(docs_dir, "saves")
}

/// The worldline directory.
pub fn get_worldlines_directory(docs_dir: Option<&str>) -> (r: Result<String, String>)
    ensures
        match r {
            Ok(p) => docs_dir matches Some(d) && p@ == category_dir_spec(d@, "worldlines"@),
            Err(e) => docs_dir is None && e@ == env_error_message(),
        },
{
    category_directory(docs_dir, "worldlines")
}

/// The lorebook directory.
pub fn get_lorebooks_directory(docs_dir: Option<&str>) -> (r: Result<String, String>)
    ensures
        match r {
            Ok(p) => docs_dir matches Some(d) && p@ == category_dir_spec(d@, "lorebooks"@),
            Err(e) => docs_dir is None && e@ == env_error_message(),
        },
{
    category_directory(docs_dir, "lorebooks")
}

/// The daily log directory.
pub fn get_logs_directory(docs_dir: Option<&str>) -> (r: Result<String, String>)
    ensures
        match r {
            Ok(p) => docs_dir matches Some(d) && p@ == category_dir_spec(d@, "logs"@),
            Err(e) => docs_dir is None && e@ == env_error_message(),
        },
{
    category_directory(docs_dir, "logs")
}

/// The configuration file's path.
pub fn get_config_path(docs_dir: Option<&str>) -> (r: Result<String, String>)
    ensures
        match r {
            Ok(p) => docs_dir matches Some(d) && p@ == config_path_spec(d@),
            Err(e) => docs_dir is None && e@ == env_error_message(),
        },
{
    match docs_dir {
        Some(d) => {
            let root = join_path(d, "AI-TRPG");
            Ok(join_path(root.as_str(), "config.json"))
        },
        None => Err("无法获取文档目录".to_owned()),
    }
}

/// Relies on dirs::document_dir: the platform's documents directory,
/// when the platform reports one, in its text form when that path is
/// valid UTF-8. The value depends on the environment alone.
#[verifier::external_body]
fn platform_documents_dir() -> (r: Option<String>) {
    dirs::document_dir().and_then(|p| p.to_str().map(|s| s.to_string()))
}

/// The documents directory the environment reports, or the environment
/// error when it reports none.
pub fn resolve_documents_dir() -> (r: Result<String, String>)
    ensures
        r matches Err(e) ==> e@ == env_error_message(),
{
    match platform_documents_dir() {
        Some(d) => Ok(d),
        None => Err("无法获取文档目录".to_owned()),
    }
}

} // verus!
