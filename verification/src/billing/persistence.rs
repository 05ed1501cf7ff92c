//! Where billing state is persisted, and in what shape.
//!
//! Prepaid balances are stored as JSON files in the workspace directory:
//!
//! ```text
//! <workspace_dir>/billing/
//!   └── <user_id>.json   — balance state
//! ```
//!
//! Reading and writing the files is the caller's business; this module names them.
use vstd::prelude::*;
use crate::text::{push_str, str_ends_with_slash, string_of};

verus! {

/// Persisted billing state for a single user.
#[derive(Debug, Clone)]
pub struct PersistedBalance {
    pub user_id: String,
    pub balance_cents: i64,
    /// ISO 8601 timestamp of last update.
    pub updated_at: String,
}

/// The path `part` inside the directory `base`, joined with a single `/`.
pub open spec fn join_path(base: Seq<char>, part: Seq<char>) -> Seq<char> {
    if base.len() == 0 {
        part
    } else if base.last() == '/' {
        base + part
    } else {
        base + seq!['/'] + part
    }
}

/// Appends the relative component `part` to the directory path `base`.
pub fn join(base: &str, part: &str) -> (r: String)
    ensures
        r@ == join_path(base@, part@),
{
    let mut out = string_of(base);
    if !base.is_empty() && !str_ends_with_slash(base) {
        push_str(&mut out, "/");
    }
    push_str(&mut out, part);
    proof {
        reveal_strlit("/");
        assert(out@ =~= join_path(base@, part@));
    }
    out
}

/// The billing directory of a workspace: `<workspace_dir>/billing`.
pub fn billing_dir(workspace_dir: &str) -> (r: String)
    ensures
        r@ == join_path(workspace_dir@, "billing"@),
{
    join(workspace_dir, "billing")
}

/// The file name of a user's balance: `<user_id>.json`.
pub fn balance_file_name(user_id: &str) -> (r: String)
    ensures
        r@ == user_id@ + ".json"@,
{
    let mut name = string_of(user_id);
    push_str(&mut name, ".json");
    name
}

/// The balance file of a user: `<workspace_dir>/billing/<user_id>.json`.
pub fn balance_file(workspace_dir: &str, user_id: &str) -> (r: String)
    ensures
        r@ == join_path(join_path(workspace_dir@, "billing"@), user_id@ + ".json"@),
{
    let dir = billing_dir(workspace_dir);
    let name = balance_file_name(user_id);
    join(dir.as_str(), name.as_str())
}

} // verus!
