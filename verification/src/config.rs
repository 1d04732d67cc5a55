//! The settings the server starts with, and the quoting of the schema name.
//!
//! The schema name is quoted once, when the configuration is built, and every
//! statement splices the quoted form.

use vstd::prelude::*;

verus! {

/// `s` with every double quote written twice.
pub open spec fn doubled_quotes(s: Seq<char>) -> Seq<char>
    decreases s.len(),
{
    if s.len() == 0 {
        Seq::empty()
    } else if s[0] == '"' {
        seq!['"', '"'] + doubled_quotes(s.drop_first())
    } else {
        seq![s[0]] + doubled_quotes(s.drop_first())
    }
}

/// `s` as a quoted SQL identifier: between double quotes, with the double
/// quotes inside it doubled.
pub open spec fn escaped_identifier(s: Seq<char>) -> Seq<char> {
    seq!['"'] + doubled_quotes(s) + seq!['"']
}

/// Whether every double quote in `s` stands in a pair, read from the left.
pub open spec fn quotes_paired(s: Seq<char>) -> bool
    decreases s.len(),
{
    if s.len() == 0 {
        true
    } else if s[0] != '"' {
        quotes_paired(s.drop_first())
    } else {
        s.len() >= 2 && s[1] == '"' && quotes_paired(s.skip(2))
    }
}

/// Whether `t` reads as exactly one quoted identifier: it opens and closes with
/// a double quote, and no double quote in between ends it early.
pub open spec fn is_quoted_identifier(t: Seq<char>) -> bool {
    &&& t.len() >= 2
    &&& t[0] == '"'
    &&& t.last() == '"'
    &&& quotes_paired(t.subrange(1, t.len() - 1))
}

/// What is left of `s` when each pair of double quotes is read as one.
pub open spec fn halved_quotes(s: Seq<char>) -> Seq<char>
    decreases s.len(),
{
    if s.len() == 0 {
        Seq::empty()
    } else if s[0] == '"' && s.len() >= 2 {
        seq!['"'] + halved_quotes(s.skip(2))
    } else {
        seq![s[0]] + halved_quotes(s.drop_first())
    }
}

/// The name that the quoted identifier `t` stands for.
pub open spec fn unescaped_identifier(t: Seq<char>) -> Seq<char> {
    halved_quotes(t.subrange(1, t.len() - 1))
}

proof fn lemma_doubled_quotes_paired(s: Seq<char>)
    ensures
        quotes_paired(doubled_quotes(s)),
        halved_quotes(doubled_quotes(s)) == s,
    decreases s.len(),
{
    if s.len() == 0 {
        assert(halved_quotes(doubled_quotes(s)) =~= s);
    } else {
        let rest = s.drop_first();
        lemma_doubled_quotes_paired(rest);
        let d = doubled_quotes(s);
        if s[0] == '"' {
            assert(d.skip(2) =~= doubled_quotes(rest));
        } else {
            assert(d.drop_first() =~= doubled_quotes(rest));
        }
        assert(seq![s[0]] + rest =~= s);
    }
}

/// Quoting is safe: the quoted form of any name is one quoted identifier, so
/// no name, whatever it holds, can close the quotes and be read as SQL.
pub proof fn lemma_escaped_is_quoted(s: Seq<char>)
    ensures
        is_quoted_identifier(escaped_identifier(s)),
{
    lemma_doubled_quotes_paired(s);
    let t = escaped_identifier(s);
    assert(t.subrange(1, t.len() - 1) =~= doubled_quotes(s));
}

/// Quoting loses nothing: the quoted form stands for the name it was made
/// from, so two different names never give the same identifier.
pub proof fn lemma_escaped_round_trip(s: Seq<char>)
    ensures
        unescaped_identifier(escaped_identifier(s)) == s,
{
    lemma_doubled_quotes_paired(s);
    let t = escaped_identifier(s);
    assert(t.subrange(1, t.len() - 1) =~= doubled_quotes(s));
}

/// Calls `postgres_protocol::escape::escape_identifier`, which puts the input
/// between double quotes and writes each double quote inside it twice; every
/// other character is copied as it is.
#[verifier::external_body]
fn escape_identifier(input: &str) -> (escaped: String)
    ensures
        escaped@ == escaped_identifier(input@),
{
    postgres_protocol::escape::escape_identifier(input)
}

/// The name of a schema in the form that statements splice: quoted. It can be
/// made from a name only, so no text that was not quoted reaches a statement
/// in the place of the schema.
#[derive(Debug, PartialEq)]
pub struct Schema {
    quoted: String,
}

impl Clone for Schema {
    fn clone(&self) -> (copy: Self)
        ensures
            copy@ == self@,
    {
        proof {
            use_type_invariant(self);
        }
        Schema { quoted: self.quoted.clone() }
    }
}

impl View for Schema {
    type V = Seq<char>;

    /// The quoted form.
    closed spec fn view(&self) -> Seq<char> {
        self.quoted@
    }
}

impl Schema {
    #[verifier::type_invariant]
    spec fn is_quoted(self) -> bool {
        is_quoted_identifier(self.quoted@)
    }

    /// Quotes the name of a schema.
    pub fn new(name: &str) -> (schema: Schema)
        ensures
            schema@ == escaped_identifier(name@),
    {
        proof {
            lemma_escaped_is_quoted(name@);
        }
        Schema { quoted: escape_identifier(name) }
    }

    /// The quoted form, which is one quoted identifier whatever the name was.
    pub fn as_str(&self) -> (quoted: &str)
        ensures
            quoted@ == self@,
            is_quoted_identifier(quoted@),
    {
        proof {
            use_type_invariant(self);
        }
        self.quoted.as_str()
    }
}

/// The settings of the server.
#[derive(Clone, Debug, PartialEq)]
pub struct Config {
    pub port: String,
    pub host: String,
    /// The schema of the job queue.
    pub graphile_worker_schema: Schema,
}

/// The port that is used where none is set.
pub open spec fn default_port() -> Seq<char> {
    "80"@
}

/// The host that is used where none is set.
pub open spec fn default_host() -> Seq<char> {
    "0.0.0.0"@
}

/// The schema that is used where none is set, before quoting.
pub open spec fn default_schema() -> Seq<char> {
    "graphile_worker"@
}

/// The number of connections that the pool may hold where none is set.
pub const DEFAULT_POOL_MAX_SIZE: u64 = 16;

/// The text of `value`, or `default` where there is none.
pub open spec fn text_or(value: Option<String>, default: Seq<char>) -> Seq<char> {
    match value {
        Some(text) => text@,
        None => default,
    }
}

impl Config {
    /// Builds the configuration from the settings found in the environment.
    /// A setting that is absent takes its default; the schema name is quoted,
    /// here and never again.
    pub fn from_env(
        port: Option<String>,
        host: Option<String>,
        graphile_worker_schema: Option<String>,
    ) -> (config: Config)
        ensures
            config.port@ == text_or(port, default_port()),
            config.host@ == text_or(host, default_host()),
            config.graphile_worker_schema@ == escaped_identifier(
                text_or(graphile_worker_schema, default_schema()),
            ),
    {
        let port = match port {
            Some(port) => port,
            None => "80".to_owned(),
        };
        let host = match host {
            Some(host) => host,
            None => "0.0.0.0".to_owned(),
        };
        let schema = match graphile_worker_schema {
            Some(schema) => Schema::new(schema.as_str()),
            None => Schema::new("graphile_worker"),
        };
        Config { port, host, graphile_worker_schema: schema }
    }

    /// The address the server listens on: the host, a colon, the port.
    pub fn server_addr(&self) -> (addr: String)
        ensures
            addr@ == self.host@ + ":"@ + self.port@,
    {
        let mut addr = self.host.clone();
        addr.append(":");
        addr.append(self.port.as_str());
        addr
    }
}

} // verus!
