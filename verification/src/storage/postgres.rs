//! PostgreSQL store configuration and row conversions.

use vstd::prelude::*;
use crate::error::{DatabaseFailure, StorageError};
use crate::models::message::{spec_role_name, Message, Role};
use crate::tensorzero::client::str_equals;
use crate::json::push_char;

verus! {

#[verifier::external_type_specification]
#[verifier::external_body]
pub struct ExSqlxError(sqlx::Error);

/// Tells the variants of a `sqlx::Error` apart: `RowNotFound`, `Configuration` with the
/// text of its reason, and any other error with its `Display` text. Which variant a
/// value is cannot be seen from verified code, so nothing is stated of the result.
#[verifier::external_body]
fn classify_sqlx_error(e: &sqlx::Error) -> DatabaseFailure {
    match e {
        sqlx::Error::RowNotFound => DatabaseFailure::RowNotFound,
        sqlx::Error::Configuration(reason) => DatabaseFailure::Configuration { message: reason.to_string() },
        _ => DatabaseFailure::Other { message: e.to_string() },
    }
}

/// The storage error for a failed `sqlx` call: a missing row becomes a not-found error
/// for an unknown record, refused settings a connection error, anything else a query
/// error.
pub fn storage_error_from_sqlx(e: &sqlx::Error) -> (r: StorageError)
    ensures
        (r matches StorageError::NotFound { entity, id } && entity@ == "record"@ && id@ == "unknown"@)
            || r is Connection || r is Query,
{
    StorageError::from_failure(classify_sqlx_error(e))
}

/// Configuration of the PostgreSQL store.
#[derive(Debug, Clone)]
pub struct PostgresConfig {
    /// Database connection URL.
    pub url: String,
    /// Largest number of pooled connections.
    pub max_connections: u32,
    /// Number of pooled connections kept open.
    pub min_connections: u32,
}

/// Pooled connections at most, unless set.
pub const DEFAULT_MAX_CONNECTIONS: u32 = 10;

/// Pooled connections kept open, unless set.
pub const DEFAULT_MIN_CONNECTIONS: u32 = 1;

impl PostgresConfig {
    /// A configuration for the URL with at most 10 and at least 1 pooled connections.
    pub fn new(url: &str) -> (r: Self)
        ensures
            r.url@ == url@,
            r.max_connections == DEFAULT_MAX_CONNECTIONS,
            r.min_connections == DEFAULT_MIN_CONNECTIONS,
    {
        PostgresConfig {
            url: url.to_string(),
            max_connections: DEFAULT_MAX_CONNECTIONS,
            min_connections: DEFAULT_MIN_CONNECTIONS,
        }
    }

    /// The configuration with the largest number of connections replaced.
    pub fn max_connections(self, max: u32) -> (r: Self)
        ensures
            r.max_connections == max,
            r.url == self.url,
            r.min_connections == self.min_connections,
    {
        PostgresConfig { max_connections: max, ..self }
    }

    /// The configuration with the number of connections kept open replaced.
    pub fn min_connections(self, min: u32) -> (r: Self)
        ensures
            r.min_connections == min,
            r.url == self.url,
            r.max_connections == self.max_connections,
    {
        PostgresConfig { min_connections: min, ..self }
    }
}

impl Default for PostgresConfig {
    /// The local `agents` database with the default pool size.
    fn default() -> (r: Self)
        ensures
            r.url@ == "postgres://localhost/agents"@,
            r.max_connections == DEFAULT_MAX_CONNECTIONS,
            r.min_connections == DEFAULT_MIN_CONNECTIONS,
    {
        PostgresConfig::new("postgres://localhost/agents")
    }
}

/// The role a stored role name stands for: `assistant` is the assistant, any other
/// name the user.
pub open spec fn spec_parse_role(name: Seq<char>) -> Role {
    if name == "assistant"@ {
        Role::Assistant
    } else {
        Role::User
    }
}

/// The role a stored role name stands for; unknown names are read as the user.
pub fn parse_role(name: &str) -> (r: Role)
    ensures
        r == spec_parse_role(name@),
{
    proof {
        lemma_role_names_differ();
    }
    if str_equals(name, "user") {
        Role::User
    } else if str_equals(name, "assistant") {
        Role::Assistant
    } else {
        Role::User
    }
}

/// Reading back the name a role is stored under gives the role.
pub proof fn role_name_round_trip(role: Role)
    ensures
        spec_parse_role(spec_role_name(role)) == role,
{
    lemma_role_names_differ();
}

/// The two stored role names differ.
proof fn lemma_role_names_differ()
    ensures
        "user"@ != "assistant"@,
{
    reveal_strlit("assistant");
    reveal_strlit("user");
    assert("user"@.len() != "assistant"@.len());
}

/// Text with each `LIKE` wildcard (`%`, `_`) and the escape character `\` preceded by
/// `\`, so that a pattern matches it literally.
pub open spec fn spec_like_escape(s: Seq<char>) -> Seq<char>
    decreases s.len(),
{
    if s.len() == 0 {
        Seq::empty()
    } else {
        let c = s.last();
        if c == '%' || c == '_' || c == '\\' {
            spec_like_escape(s.drop_last()) + seq!['\\', c]
        } else {
            spec_like_escape(s.drop_last()).push(c)
        }
    }
}

/// The `LIKE` pattern that matches exactly the external IDs starting with a prefix: the
/// prefix with its wildcards escaped, then `%`.
pub fn external_id_pattern(prefix: &str) -> (r: String)
    ensures
        r@ == spec_like_escape(prefix@).push('%'),
{
    let ghost p = prefix@;
    let mut r = String::new();
    for c in it: prefix.chars()
        invariant
            it.seq() == p,
            r@ == spec_like_escape(p.take(it.index() as int)),
    {
        let ghost before = r@;
        assert(p.take(it.index() + 1).drop_last() =~= p.take(it.index() as int));
        if c == '%' || c == '_' || c == '\\' {
            push_char(&mut r, '\\');
        }
        push_char(&mut r, c);
        assert(r@ =~= spec_like_escape(p.take(it.index() + 1)));
    }
    assert(p.take(p.len() as int) =~= p);
    push_char(&mut r, '%');
    r
}

/// Messages read newest first, put back in the order they were written.
pub fn chronological(newest_first: Vec<Message>) -> (r: Vec<Message>)
    ensures
        r@ == newest_first@.reverse(),
{
    let mut rest = newest_first;
    let ghost all = rest@;
    let mut r: Vec<Message> = Vec::new();
    while rest.len() > 0
        invariant
            rest@ == all.take(rest@.len() as int),
            rest@.len() <= all.len(),
            r@ == all.skip(rest@.len() as int).reverse(),
        decreases rest@.len(),
    {
        let ghost n = rest@.len() as int;
        let m = rest.pop().unwrap();
        proof {
            assert(m == all[n - 1]);
            assert(all.skip(n - 1) =~= seq![all[n - 1]] + all.skip(n));
            assert(all.skip(n - 1).reverse() =~= all.skip(n).reverse().push(all[n - 1]));
        }
        r.push(m);
        assert(rest@ =~= all.take(rest@.len() as int));
    }
    assert(all.skip(0) =~= all);
    r
}

} // verus!
