//! Identifier policy: the injection-defence boundary.
//!
//! Project names are operator-influenced and end up interpolated into raw
//! SQL statements and instance identifiers, where parameter binding is not
//! available. They are therefore restricted to a safe character set before
//! any statement or identifier is constructed. From a validated name the
//! role, database and instance identities are derived; the derivation is a
//! pure function of the name (and engine), so repeated calls for the same
//! project always target the same resources.

use vstd::prelude::*;

use crate::engine::{spec_engine_name, Engine};

verus! {

/// Characters a project name may contain: ASCII letters, digits, `-`, `_`.
/// Quotes, statement separators, whitespace and control characters are all
/// outside this set.
pub open spec fn spec_safe_ident_char(c: char) -> bool {
    ||| 'a' <= c <= 'z'
    ||| 'A' <= c <= 'Z'
    ||| '0' <= c <= '9'
    ||| c == '-'
    ||| c == '_'
}

/// A usable project name: non-empty and made of safe characters only.
pub open spec fn spec_valid_project_name(s: Seq<char>) -> bool {
    &&& s.len() > 0
    &&& forall|i: int| 0 <= i < s.len() ==> spec_safe_ident_char(s[i])
}

/// The role owning a project's shared database: `user-<project>`.
pub open spec fn spec_role_name(project: Seq<char>) -> Seq<char> {
    "user-"@ + project
}

/// A project's shared database: `db-<project>`.
pub open spec fn spec_database_name(project: Seq<char>) -> Seq<char> {
    "db-"@ + project
}

/// A project's managed instance: `<project>-<engine>`.
pub open spec fn spec_instance_id(project: Seq<char>, engine: Engine) -> Seq<char> {
    project + "-"@ + spec_engine_name(engine)
}

/// Checks a project name against the safe character set. This runs before
/// any statement is built; every unsafe name is turned away here.
pub fn is_valid_project_name(project: &str) -> (b: bool)
    ensures
        b == spec_valid_project_name(project@),
{
    let len = project.unicode_len();
    if len == 0 {
        return false;
    }
    let mut i: usize = 0;
    while i < len
        invariant
            i <= len,
            len == project@.len(),
            forall|j: int| 0 <= j < i ==> spec_safe_ident_char(project@[j]),
        decreases len - i,
    {
        let c = project.get_char(i);
        let safe = ('a' <= c && c <= 'z') || ('A' <= c && c <= 'Z') || ('0' <= c && c <= '9')
            || c == '-' || c == '_';
        if !safe {
            return false;
        }
        i = i + 1;
    }
    true
}

/// Derives the shared role's name, `user-<project>`.
pub fn role_name(project: &str) -> (r: String)
    ensures
        r@ == spec_role_name(project@),
{
    let prefix: String = "user-".to_owned();
    prefix.concat(project)
}

/// Derives the shared database's name, `db-<project>`.
pub fn database_name(project: &str) -> (r: String)
    ensures
        r@ == spec_database_name(project@),
{
    let prefix: String = "db-".to_owned();
    prefix.concat(project)
}

/// Derives the managed instance's identifier, `<project>-<engine>`.
pub fn instance_id(project: &str, engine: Engine) -> (r: String)
    ensures
        r@ == spec_instance_id(project@, engine),
{
    let base: String = project.to_owned();
    let with_dash = base.concat("-");
    let name = engine.name();
    with_dash.concat(name.as_str())
}

/// A name holding a quote character or a statement separator is never a
/// valid project name, so it is rejected before any statement can be
/// built from it.
pub proof fn lemma_unsafe_char_rejects_name(s: Seq<char>, i: int)
    requires
        0 <= i < s.len(),
        s[i] == '\'' || s[i] == '"' || s[i] == ';',
    ensures
        !spec_valid_project_name(s),
{
}

} // verus!
