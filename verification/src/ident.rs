//! Identifier safety for schema search paths.
//!
//! An identifier is safe when it can stand unquoted in a search path: it is
//! non-empty, starts with a lowercase letter or an underscore, continues with
//! lowercase letters, digits, underscores or dollar signs, and is not a
//! reserved keyword or reserved type/function name of the most restrictive
//! supported server. Unsafe identifiers must be quoted, which one server
//! family does not accept in connection parameters; the connection setup
//! decides from this predicate where the search path can be set.

use vstd::prelude::*;
use crate::strutil::{str_concat, str_eq};

verus! {

/// Whether the character is lowercase in the Unicode sense.
pub uninterp spec fn char_lowercase(c: char) -> bool;

/// Relies on char::is_lowercase: the Unicode lowercase property, a function
/// of the character alone, named rather than spelled out.
pub assume_specification[ char::is_lowercase ](c: char) -> (r: bool)
    ensures
        r == char_lowercase(c),
;

/// A character an identifier may start with: lowercase or underscore.
pub open spec fn safe_first_char(c: char) -> bool {
    char_lowercase(c) || c == '_'
}

/// A character an identifier may continue with: lowercase, an ASCII digit,
/// an underscore or a dollar sign.
pub open spec fn safe_rest_char(c: char) -> bool {
    char_lowercase(c) || c == '_' || (c as u32 >= 48 && c as u32 <= 57) || c == '$'
}

/// The reserved keywords of the most restrictive supported server.
pub open spec fn reserved_keyword_spec(s: Seq<char>) -> bool {
    ||| false
    ||| s == "all"@
    ||| s == "analyse"@
    ||| s == "analyze"@
    ||| s == "and"@
    ||| s == "any"@
    ||| s == "array"@
    ||| s == "as"@
    ||| s == "asc"@
    ||| s == "asymmetric"@
    ||| s == "both"@
    ||| s == "case"@
    ||| s == "cast"@
    ||| s == "check"@
    ||| s == "collate"@
    ||| s == "column"@
    ||| s == "concurrently"@
    ||| s == "constraint"@
    ||| s == "create"@
    ||| s == "current_catalog"@
    ||| s == "current_date"@
    ||| s == "current_role"@
    ||| s == "current_schema"@
    ||| s == "current_time"@
    ||| s == "current_timestamp"@
    ||| s == "current_user"@
    ||| s == "default"@
    ||| s == "deferrable"@
    ||| s == "desc"@
    ||| s == "distinct"@
    ||| s == "do"@
    ||| s == "else"@
    ||| s == "end"@
    ||| s == "except"@
    ||| s == "false"@
    ||| s == "fetch"@
    ||| s == "for"@
    ||| s == "foreign"@
    ||| s == "from"@
    ||| s == "grant"@
    ||| s == "group"@
    ||| s == "having"@
    ||| s == "in"@
    ||| s == "initially"@
    ||| s == "intersect"@
    ||| s == "into"@
    ||| s == "lateral"@
    ||| s == "leading"@
    ||| s == "limit"@
    ||| s == "localtime"@
    ||| s == "localtimestamp"@
    ||| s == "not"@
    ||| s == "null"@
    ||| s == "offset"@
    ||| s == "on"@
    ||| s == "only"@
    ||| s == "or"@
    ||| s == "order"@
    ||| s == "placing"@
    ||| s == "primary"@
    ||| s == "references"@
    ||| s == "returning"@
    ||| s == "select"@
    ||| s == "session_user"@
    ||| s == "some"@
    ||| s == "symmetric"@
    ||| s == "table"@
    ||| s == "then"@
    ||| s == "to"@
    ||| s == "trailing"@
    ||| s == "true"@
    ||| s == "union"@
    ||| s == "unique"@
    ||| s == "user"@
    ||| s == "using"@
    ||| s == "variadic"@
    ||| s == "when"@
    ||| s == "where"@
    ||| s == "window"@
    ||| s == "with"@
}

/// The reserved type and function names of the most restrictive supported
/// server.
pub open spec fn reserved_type_function_name_spec(s: Seq<char>) -> bool {
    ||| false
    ||| s == "authorization"@
    ||| s == "collation"@
    ||| s == "cross"@
    ||| s == "full"@
    ||| s == "ilike"@
    ||| s == "inner"@
    ||| s == "is"@
    ||| s == "isnull"@
    ||| s == "join"@
    ||| s == "left"@
    ||| s == "like"@
    ||| s == "natural"@
    ||| s == "none"@
    ||| s == "notnull"@
    ||| s == "outer"@
    ||| s == "overlaps"@
    ||| s == "right"@
    ||| s == "similar"@
}

/// Decides [`reserved_keyword_spec`].
pub fn is_reserved_keyword(s: &str) -> (r: bool)
    ensures
        r == reserved_keyword_spec(s@),
{
    if str_eq(s, "all") {
        return true;
    }
    if str_eq(s, "analyse") {
        return true;
    }
    if str_eq(s, "analyze") {
        return true;
    }
    if str_eq(s, "and") {
        return true;
    }
    if str_eq(s, "any") {
        return true;
    }
    if str_eq(s, "array") {
        return true;
    }
    if str_eq(s, "as") {
        return true;
    }
    if str_eq(s, "asc") {
        return true;
    }
    if str_eq(s, "asymmetric") {
        return true;
    }
    if str_eq(s, "both") {
        return true;
    }
    if str_eq(s, "case") {
        return true;
    }
    if str_eq(s, "cast") {
        return true;
    }
    if str_eq(s, "check") {
        return true;
    }
    if str_eq(s, "collate") {
        return true;
    }
    if str_eq(s, "column") {
        return true;
    }
    if str_eq(s, "concurrently") {
        return true;
    }
    if str_eq(s, "constraint") {
        return true;
    }
    if str_eq(s, "create") {
        return true;
    }
    if str_eq(s, "current_catalog") {
        return true;
    }
    if str_eq(s, "current_date") {
        return true;
    }
    if str_eq(s, "current_role") {
        return true;
    }
    if str_eq(s, "current_schema") {
        return true;
    }
    if str_eq(s, "current_time") {
        return true;
    }
    if str_eq(s, "current_timestamp") {
        return true;
    }
    if str_eq(s, "current_user") {
        return true;
    }
    if str_eq(s, "default") {
        return true;
    }
    if str_eq(s, "deferrable") {
        return true;
    }
    if str_eq(s, "desc") {
        return true;
    }
    if str_eq(s, "distinct") {
        return true;
    }
    if str_eq(s, "do") {
        return true;
    }
    if str_eq(s, "else") {
        return true;
    }
    if str_eq(s, "end") {
        return true;
    }
    if str_eq(s, "except") {
        return true;
    }
    if str_eq(s, "false") {
        return true;
    }
    if str_eq(s, "fetch") {
        return true;
    }
    if str_eq(s, "for") {
        return true;
    }
    if str_eq(s, "foreign") {
        return true;
    }
    if str_eq(s, "from") {
        return true;
    }
    if str_eq(s, "grant") {
        return true;
    }
    if str_eq(s, "group") {
        return true;
    }
    if str_eq(s, "having") {
        return true;
    }
    if str_eq(s, "in") {
        return true;
    }
    if str_eq(s, "initially") {
        return true;
    }
    if str_eq(s, "intersect") {
        return true;
    }
    if str_eq(s, "into") {
        return true;
    }
    if str_eq(s, "lateral") {
        return true;
    }
    if str_eq(s, "leading") {
        return true;
    }
    if str_eq(s, "limit") {
        return true;
    }
    if str_eq(s, "localtime") {
        return true;
    }
    if str_eq(s, "localtimestamp") {
        return true;
    }
    if str_eq(s, "not") {
        return true;
    }
    if str_eq(s, "null") {
        return true;
    }
    if str_eq(s, "offset") {
        return true;
    }
    if str_eq(s, "on") {
        return true;
    }
    if str_eq(s, "only") {
        return true;
    }
    if str_eq(s, "or") {
        return true;
    }
    if str_eq(s, "order") {
        return true;
    }
    if str_eq(s, "placing") {
        return true;
    }
    if str_eq(s, "primary") {
        return true;
    }
    if str_eq(s, "references") {
        return true;
    }
    if str_eq(s, "returning") {
        return true;
    }
    if str_eq(s, "select") {
        return true;
    }
    if str_eq(s, "session_user") {
        return true;
    }
    if str_eq(s, "some") {
        return true;
    }
    if str_eq(s, "symmetric") {
        return true;
    }
    if str_eq(s, "table") {
        return true;
    }
    if str_eq(s, "then") {
        return true;
    }
    if str_eq(s, "to") {
        return true;
    }
    if str_eq(s, "trailing") {
        return true;
    }
    if str_eq(s, "true") {
        return true;
    }
    if str_eq(s, "union") {
        return true;
    }
    if str_eq(s, "unique") {
        return true;
    }
    if str_eq(s, "user") {
        return true;
    }
    if str_eq(s, "using") {
        return true;
    }
    if str_eq(s, "variadic") {
        return true;
    }
    if str_eq(s, "when") {
        return true;
    }
    if str_eq(s, "where") {
        return true;
    }
    if str_eq(s, "window") {
        return true;
    }
    if str_eq(s, "with") {
        return true;
    }
    false
}

/// Decides [`reserved_type_function_name_spec`].
pub fn is_reserved_type_function_name(s: &str) -> (r: bool)
    ensures
        r == reserved_type_function_name_spec(s@),
{
    if str_eq(s, "authorization") {
        return true;
    }
    if str_eq(s, "collation") {
        return true;
    }
    if str_eq(s, "cross") {
        return true;
    }
    if str_eq(s, "full") {
        return true;
    }
    if str_eq(s, "ilike") {
        return true;
    }
    if str_eq(s, "inner") {
        return true;
    }
    if str_eq(s, "is") {
        return true;
    }
    if str_eq(s, "isnull") {
        return true;
    }
    if str_eq(s, "join") {
        return true;
    }
    if str_eq(s, "left") {
        return true;
    }
    if str_eq(s, "like") {
        return true;
    }
    if str_eq(s, "natural") {
        return true;
    }
    if str_eq(s, "none") {
        return true;
    }
    if str_eq(s, "notnull") {
        return true;
    }
    if str_eq(s, "outer") {
        return true;
    }
    if str_eq(s, "overlaps") {
        return true;
    }
    if str_eq(s, "right") {
        return true;
    }
    if str_eq(s, "similar") {
        return true;
    }
    false
}

/// The reserved keywords, for callers that enumerate them.
pub fn reserved_keywords() -> Vec<&'static str> {
    vec![
        "all", "analyse", "analyze", "and", "any", "array",
        "as", "asc", "asymmetric", "both", "case", "cast",
        "check", "collate", "column", "concurrently", "constraint", "create",
        "current_catalog", "current_date", "current_role", "current_schema", "current_time", "current_timestamp",
        "current_user", "default", "deferrable", "desc", "distinct", "do",
        "else", "end", "except", "false", "fetch", "for",
        "foreign", "from", "grant", "group", "having", "in",
        "initially", "intersect", "into", "lateral", "leading", "limit",
        "localtime", "localtimestamp", "not", "null", "offset", "on",
        "only", "or", "order", "placing", "primary", "references",
        "returning", "select", "session_user", "some", "symmetric", "table",
        "to", "trailing", "true", "union", "unique", "user",
        "using", "variadic", "when", "where", "window", "with",
    ]
}

/// The reserved type and function names, for callers that enumerate them.
pub fn reserved_type_function_names() -> Vec<&'static str> {
    vec![
        "authorization", "collation", "cross", "full", "ilike", "inner",
        "is", "isnull", "join", "left", "like", "natural",
        "none", "notnull", "outer", "overlaps", "right", "similar",
    ]
}

/// An identifier that can stand unquoted in a search path.
pub open spec fn safe_identifier_spec(s: Seq<char>) -> bool {
    &&& s.len() > 0
    &&& safe_first_char(s[0])
    &&& forall|i: int| 1 <= i < s.len() ==> safe_rest_char(#[trigger] s[i])
    &&& !reserved_keyword_spec(s)
    &&& !reserved_type_function_name_spec(s)
}

/// Decides [`safe_identifier_spec`].
pub fn is_safe_identifier(ident: &str) -> (r: bool)
    ensures
        r == safe_identifier_spec(ident@),
{
    let n = ident.unicode_len();
    if n == 0 {
        return false;
    }
    if is_reserved_keyword(ident) {
        return false;
    }
    if is_reserved_type_function_name(ident) {
        return false;
    }
    let first = ident.get_char(0);
    if !(first.is_lowercase() || first == '_') {
        return false;
    }
    let mut i: usize = 1;
    while i < n
        invariant
            1 <= i <= n,
            n == ident@.len(),
            forall|j: int| 1 <= j < i ==> safe_rest_char(#[trigger] ident@[j]),
        decreases n - i,
    {
        let c = ident.get_char(i);
        let u = c as u32;
        if !(c.is_lowercase() || c == '_' || (u >= 48 && u <= 57) || c == '$') {
            return false;
        }
        i += 1;
    }
    true
}

/// The PostgreSQL-compatible server families, which differ in how a search
/// path may be supplied.
#[derive(Debug, Clone, Copy, PartialEq, Eq, Structural)]
pub enum PostgresFlavour {
    /// A PostgreSQL server.
    Postgres,
    /// A CockroachDB server.
    Cockroach,
    /// Not announced; treated conservatively.
    Unknown,
}

/// The identifier wrapped in double quotes.
pub fn quote_ident(s: &str) -> (r: String)
    ensures
        r@ == "\""@ + s@ + "\""@,
{
    let open = str_concat("\"", s);
    str_concat(open.as_str(), "\"")
}

/// True when the schema search path must be set by a query after connecting
/// rather than through a client connection parameter: behind a multiplexer,
/// which ignores startup parameters; on an unannounced server family; and on
/// a server family that rejects quoted identifiers in connection parameters
/// whenever the identifier is unsafe and so needs the quoting.
pub fn search_path_via_query(flavour: PostgresFlavour, pg_bouncer: bool, schema: &str) -> (r: bool)
    ensures
        r == (pg_bouncer || flavour is Unknown || (flavour is Cockroach && !safe_identifier_spec(
            schema@,
        ))),
{
    pg_bouncer || matches!(flavour, PostgresFlavour::Unknown) || (matches!(
        flavour,
        PostgresFlavour::Cockroach,
    ) && !is_safe_identifier(schema))
}

/// The search-path value to send as a client connection parameter, when one
/// can be sent at all: quoted for a PostgreSQL server, unquoted for a
/// CockroachDB server with a safe identifier, and nothing otherwise.
pub fn search_path_param(flavour: PostgresFlavour, pg_bouncer: bool, schema: &str) -> (r: Option<
    String,
>)
    ensures
        pg_bouncer ==> r is None,
        !pg_bouncer && flavour is Postgres ==> (r matches Some(p) && p@ == "\""@ + schema@
            + "\""@),
        !pg_bouncer && flavour is Cockroach && safe_identifier_spec(schema@) ==> (r matches Some(p)
            && p@ == schema@),
        !pg_bouncer && flavour is Cockroach && !safe_identifier_spec(schema@) ==> r is None,
        !pg_bouncer && flavour is Unknown ==> r is None,
{
    if pg_bouncer {
        return None;
    }
    match flavour {
        PostgresFlavour::Postgres => Some(quote_ident(schema)),
        PostgresFlavour::Cockroach => {
            if is_safe_identifier(schema) {
                Some(schema.to_owned())
            } else {
                None
            }
        }
        PostgresFlavour::Unknown => None,
    }
}

} // verus!
