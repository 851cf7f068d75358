//! What a request to the server is made of: its address, its headers and the
//! statement in its query.

use vstd::prelude::*;
use vstd::string::StringExecFns;

verus! {

/// The header that names the user.
pub const USER_HEADER: &'static str = "X-ClickHouse-User";

/// The header that carries the user's key.
pub const KEY_HEADER: &'static str = "X-ClickHouse-Key";

/// The header that names the format of the answer.
pub const FORMAT_HEADER: &'static str = "X-ClickHouse-Format";

/// A `POST` request as plain values: the URL it goes to and the headers it
/// carries, in order.
#[derive(Debug, Clone)]
pub struct Request {
    /// The URL, with its query.
    pub url: String,
    /// The headers, each a name and a value.
    pub headers: Vec<(String, String)>,
}

/// A request as sequences of characters.
#[verifier::ext_equal]
pub struct RequestText {
    /// The URL, with its query.
    pub url: Seq<char>,
    /// The headers, each a name and a value.
    pub headers: Seq<(Seq<char>, Seq<char>)>,
}

impl View for Request {
    type V = RequestText;

    open spec fn view(&self) -> RequestText {
        RequestText { url: self.url@, headers: self.headers.deep_view() }
    }
}

/// The parts in order, with the separator between each two.
pub open spec fn joined(parts: Seq<Seq<char>>, separator: Seq<char>) -> Seq<char>
    decreases parts.len(),
{
    if parts.len() == 0 {
        Seq::empty()
    } else if parts.len() == 1 {
        parts[0]
    } else {
        joined(parts.drop_last(), separator) + separator + parts.last()
    }
}

/// The statement that streams rows into the named columns of a table.
pub open spec fn insert_statement(table: Seq<char>, columns: Seq<Seq<char>>) -> Seq<char> {
    "INSERT INTO "@ + table + "("@ + joined(columns, ","@) + ") FORMAT JSONEachRow"@
}

/// The statement that inserts rows into a table, whatever its columns.
pub open spec fn table_statement(table: Seq<char>) -> Seq<char> {
    "INSERT INTO "@ + table + " FORMAT JSONEachRow"@
}

/// The headers that carry the credentials: the user where there is one,
/// then the key where there is one.
pub open spec fn credentials(user: Option<Seq<char>>, password: Option<Seq<char>>) -> Seq<
    (Seq<char>, Seq<char>),
> {
    let named = match user {
        Some(u) => seq![(USER_HEADER@, u)],
        None => Seq::empty(),
    };
    let keyed = match password {
        Some(p) => seq![(KEY_HEADER@, p)],
        None => Seq::empty(),
    };
    named + keyed
}

/// The view of an optional string.
pub open spec fn text_of(value: Option<String>) -> Option<Seq<char>> {
    match value {
        Some(s) => Some(s@),
        None => None,
    }
}

/// A copy of an optional string.
pub fn copy_text(value: &Option<String>) -> (copy: Option<String>)
    ensures
        copy == *value,
{
    match value {
        Some(text) => Some(text.clone()),
        None => None,
    }
}

/// A copy of a list of strings.
pub fn copy_texts(texts: &Vec<String>) -> (copy: Vec<String>)
    ensures
        copy.deep_view() == texts.deep_view(),
{
    let copy = texts.clone();
    assert(copy.deep_view() =~= texts.deep_view());
    copy
}

/// Joins `parts` with `separator` between each two.
pub fn join(parts: &Vec<String>, separator: &str) -> (text: String)
    ensures
        text@ == joined(parts.deep_view(), separator@),
{
    let mut text = String::new();
    let mut i: usize = 0;
    while i < parts.len()
        invariant
            i <= parts.len(),
            text@ == joined(parts.deep_view().take(i as int), separator@),
        decreases parts.len() - i,
    {
        proof {
            let done = parts.deep_view().take(i as int);
            let next = parts.deep_view().take(i + 1);
            assert(next.drop_last() == done);
            assert(next.last() == parts[i as int]@);
        }
        if i > 0 {
            text.append(separator);
        }
        text.append(parts[i].as_str());
        i += 1;
    }
    proof {
        assert(parts.deep_view().take(parts.len() as int) == parts.deep_view());
    }
    text
}

/// Writes the statement that streams rows into `columns` of `table`.
pub fn insert_query(table: &str, columns: &Vec<String>) -> (query: String)
    ensures
        query@ == insert_statement(table@, columns.deep_view()),
{
    let fields = join(columns, ",");
    let mut query = String::from_str("INSERT INTO ");
    query.append(table);
    query.append("(");
    query.append(fields.as_str());
    query.append(") FORMAT JSONEachRow");
    query
}

/// Writes the statement that inserts rows into `table`.
pub fn table_query(table: &str) -> (query: String)
    ensures
        query@ == table_statement(table@),
{
    let mut query = String::from_str("INSERT INTO ");
    query.append(table);
    query.append(" FORMAT JSONEachRow");
    query
}

/// Makes the headers that carry the credentials.
pub fn credential_headers(user: &Option<String>, password: &Option<String>) -> (headers: Vec<
    (String, String),
>)
    ensures
        headers.deep_view() == credentials(text_of(*user), text_of(*password)),
{
    let mut headers: Vec<(String, String)> = Vec::new();
    if let Some(user) = user {
        headers.push((String::from_str(USER_HEADER), user.clone()));
    }
    if let Some(password) = password {
        headers.push((String::from_str(KEY_HEADER), password.clone()));
    }
    headers
}

} // verus!
