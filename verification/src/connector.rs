//! Connection parameters: what a connection string's query part asks of the
//! pool and of each session.

use crate::error::{DatabaseError, ErrorKind};
use vstd::prelude::*;
use vstd::string::StrSliceExecFns;

verus! {

/// The schema a session is pointed at when none is configured.
pub const DEFAULT_SCHEMA: &'static str = "public";

/// The size of a pool when the connection string sets none.
pub const DEFAULT_CONNECTION_LIMIT: u32 = 2;

/// The parameter that sets the size of the pool.
pub const CONNECTION_LIMIT_KEY: &'static str = "connection_limit";

/// The parameter that sets the schema of each session.
pub const SCHEMA_KEY: &'static str = "schema";

/// The parameters of a connection string's query part, in the order in which
/// they were written: each a key and a value.
pub type Query = Seq<(Seq<char>, Seq<char>)>;

/// The settings of a backend, as a connection string gives them.
pub struct PostgresParams {
    /// The most connections that the pool may hold.
    pub connection_limit: u32,
    /// The schema that each session is pointed at.
    pub schema: String,
    /// Where the backend is and how to sign in: the driver's own settings.
    pub config: postgres::Config,
}

/// What a query asks of the pool and of each session.
pub struct Settings {
    pub connection_limit: u32,
    pub schema: Seq<char>,
}

/// The driver's settings. Nothing here reads them: they are handed on to the
/// driver as they came.
#[verifier::external_type_specification]
#[verifier::external_body]
pub struct ExConfig(postgres::Config);

/// The value of a decimal digit.
pub open spec fn digit_value(c: char) -> Option<nat> {
    if '0' <= c && c <= '9' {
        Some((c as u32 - '0' as u32) as nat)
    } else {
        None
    }
}

/// The number that a run of decimal digits writes: the empty run writes 0, and
/// a run with anything but digits in it writes no number.
pub open spec fn decimal_value(digits: Seq<char>) -> Option<nat>
    decreases digits.len(),
{
    if digits.len() == 0 {
        Some(0)
    } else {
        match (decimal_value(digits.drop_last()), digit_value(digits.last())) {
            (Some(high), Some(low)) => Some(high * 10 + low),
            _ => None,
        }
    }
}

/// The digits of a number's text: what stands behind a leading `+`, if there
/// is one.
pub open spec fn unsigned_part(text: Seq<char>) -> Seq<char> {
    if text.len() > 0 && text[0] == '+' {
        text.skip(1)
    } else {
        text
    }
}

/// The connection limit that a text writes: one or more decimal digits, with
/// or without a `+` in front, for a number that fits 32 bits.
pub open spec fn connection_limit_of(text: Seq<char>) -> Option<u32> {
    let digits = unsigned_part(text);
    match decimal_value(digits) {
        Some(n) if digits.len() > 0 && n <= u32::MAX => Some(n as u32),
        _ => None,
    }
}

/// The settings without any parameter.
pub open spec fn default_settings() -> Settings {
    Settings { connection_limit: DEFAULT_CONNECTION_LIMIT, schema: DEFAULT_SCHEMA@ }
}

/// The settings after one more parameter: `schema` and `connection_limit`
/// replace what was set, any other parameter changes nothing, and a
/// connection limit that writes no number is refused.
pub open spec fn settings_with(
    settings: Settings,
    key: Seq<char>,
    value: Seq<char>,
) -> Option<Settings> {
    if key == SCHEMA_KEY@ {
        Some(Settings { schema: value, ..settings })
    } else if key == CONNECTION_LIMIT_KEY@ {
        match connection_limit_of(value) {
            Some(limit) => Some(Settings { connection_limit: limit, ..settings }),
            None => None,
        }
    } else {
        Some(settings)
    }
}

/// The settings that a query asks for, its parameters taken in order, or
/// `None` where one of them is refused.
pub open spec fn settings_of(query: Query) -> Option<Settings>
    decreases query.len(),
{
    if query.len() == 0 {
        Some(default_settings())
    } else {
        match settings_of(query.drop_last()) {
            Some(settings) => settings_with(settings, query.last().0, query.last().1),
            None => None,
        }
    }
}

/// The keys and values of parameters as plain text.
pub open spec fn query_of(pairs: Seq<(String, String)>) -> Query {
    pairs.map_values(|pair: (String, String)| (pair.0@, pair.1@))
}

impl PostgresParams {
    /// What the parameters ask of the pool and of each session.
    pub open spec fn settings(self) -> Settings {
        Settings { connection_limit: self.connection_limit, schema: self.schema@ }
    }

    /// The settings of a backend: the driver's settings as they are, and what
    /// the parameters of the connection string's query part ask for, taken in
    /// order. Without a `connection_limit` the pool holds
    /// `DEFAULT_CONNECTION_LIMIT` connections, and without a `schema` the
    /// sessions use `DEFAULT_SCHEMA`. A `connection_limit` that writes no
    /// number is refused.
    pub fn new(config: postgres::Config, query: &Vec<(String, String)>) -> (params: Result<
        PostgresParams,
        DatabaseError,
    >)
        ensures
            match settings_of(query_of(query@)) {
                Some(settings) => params matches Ok(p) && p.settings() == settings && p.config
                    == config,
                None => params matches Err(e) && e@ == (
                    ErrorKind::InvalidConnectionArguments,
                    Seq::<char>::empty(),
                ),
            },
    {
        let ghost all = query_of(query@);
        let mut connection_limit: u32 = DEFAULT_CONNECTION_LIMIT;
        let mut schema: String = String::from_str(DEFAULT_SCHEMA);
        let mut i: usize = 0;
        while i < query.len()
            invariant
                i <= query.len(),
                all == query_of(query@),
                settings_of(all.take(i as int)) == Some(
                    Settings { connection_limit, schema: schema@ },
                ),
            decreases query.len() - i,
        {
            let key: &String = &query[i].0;
            let value: &String = &query[i].1;
            proof {
                assert(all.take(i + 1).drop_last() =~= all.take(i as int));
                assert(all.take(i + 1).last() == (key@, value@));
            }
            if same_text(key, SCHEMA_KEY) {
                schema = value.clone();
            } else if same_text(key, CONNECTION_LIMIT_KEY) {
                match parse_connection_limit(value.as_str()) {
                    Some(limit) => {
                        connection_limit = limit;
                    },
                    None => {
                        proof {
                            lemma_settings_prefix(all, i + 1);
                        }
                        return Err(DatabaseError::invalid_connection_arguments());
                    },
                }
            }
            i = i + 1;
        }
        proof {
            assert(all.take(query.len() as int) =~= all);
        }
        Ok(PostgresParams { connection_limit, schema, config })
    }
}

/// Whether a text is the given key.
fn same_text(text: &String, key: &str) -> (same: bool)
    ensures
        same == (text@ == key@),
{
    let key: String = String::from_str(key);
    *text == key
}

/// Without a `connection_limit` parameter a query is never refused and the
/// pool gets the default size, which is 2.
pub proof fn lemma_absent_limit_is_default(query: Query)
    requires
        forall|i: int| 0 <= i < query.len() ==> (#[trigger] query[i]).0 != CONNECTION_LIMIT_KEY@,
    ensures
        settings_of(query) matches Some(settings) && settings.connection_limit
            == DEFAULT_CONNECTION_LIMIT,
        DEFAULT_CONNECTION_LIMIT == 2,
    decreases query.len(),
{
    if query.len() > 0 {
        assert(query.last() == query[query.len() - 1]);
        assert forall|i: int| 0 <= i < query.drop_last().len() implies (
        #[trigger] query.drop_last()[i]).0 != CONNECTION_LIMIT_KEY@ by {
            assert(query.drop_last()[i] == query[i]);
        }
        lemma_absent_limit_is_default(query.drop_last());
    }
}

/// Without a `schema` parameter the sessions use the default schema.
pub proof fn lemma_absent_schema_is_default(query: Query)
    requires
        forall|i: int| 0 <= i < query.len() ==> (#[trigger] query[i]).0 != SCHEMA_KEY@,
    ensures
        settings_of(query) matches Some(settings) ==> settings.schema == DEFAULT_SCHEMA@,
    decreases query.len(),
{
    if query.len() > 0 {
        assert(query.last() == query[query.len() - 1]);
        assert forall|i: int| 0 <= i < query.drop_last().len() implies (
        #[trigger] query.drop_last()[i]).0 != SCHEMA_KEY@ by {
            assert(query.drop_last()[i] == query[i]);
        }
        lemma_absent_schema_is_default(query.drop_last());
    }
}

/// Where a query is accepted, its last `connection_limit` parameter writes
/// the size of the pool.
pub proof fn lemma_last_limit_decides(query: Query, at: int)
    requires
        0 <= at < query.len(),
        query[at].0 == CONNECTION_LIMIT_KEY@,
        forall|i: int| at < i < query.len() ==> (#[trigger] query[i]).0 != CONNECTION_LIMIT_KEY@,
        settings_of(query) is Some,
    ensures
        connection_limit_of(query[at].1) == Some(settings_of(query)->0.connection_limit),
    decreases query.len(),
{
    lemma_keys_differ();
    assert(query.last() == query[query.len() - 1]);
    if at < query.len() - 1 {
        assert(query.drop_last()[at] == query[at]);
        assert forall|i: int| at < i < query.drop_last().len() implies (
        #[trigger] query.drop_last()[i]).0 != CONNECTION_LIMIT_KEY@ by {
            assert(query.drop_last()[i] == query[i]);
        }
        lemma_last_limit_decides(query.drop_last(), at);
    }
}

/// Where a query is accepted, its last `schema` parameter names the schema
/// of the sessions.
pub proof fn lemma_last_schema_decides(query: Query, at: int)
    requires
        0 <= at < query.len(),
        query[at].0 == SCHEMA_KEY@,
        forall|i: int| at < i < query.len() ==> (#[trigger] query[i]).0 != SCHEMA_KEY@,
        settings_of(query) is Some,
    ensures
        settings_of(query)->0.schema == query[at].1,
    decreases query.len(),
{
    assert(query.last() == query[query.len() - 1]);
    if at < query.len() - 1 {
        assert(query.drop_last()[at] == query[at]);
        assert forall|i: int| at < i < query.drop_last().len() implies (
        #[trigger] query.drop_last()[i]).0 != SCHEMA_KEY@ by {
            assert(query.drop_last()[i] == query[i]);
        }
        lemma_last_schema_decides(query.drop_last(), at);
    }
}

/// A query is refused exactly when one of its `connection_limit` parameters
/// writes no number.
pub proof fn lemma_refused_queries(query: Query)
    ensures
        settings_of(query) is None <==> exists|i: int|
            0 <= i < query.len() && (#[trigger] query[i]).0 == CONNECTION_LIMIT_KEY@
                && connection_limit_of(query[i].1) is None,
    decreases query.len(),
{
    lemma_keys_differ();
    if query.len() > 0 {
        let front = query.drop_last();
        let end = query.len() - 1;
        assert(query.last() == query[end]);
        lemma_refused_queries(front);
        if settings_of(query) is None {
            if settings_of(front) is None {
                let i = choose|i: int|
                    0 <= i < front.len() && (#[trigger] front[i]).0 == CONNECTION_LIMIT_KEY@
                        && connection_limit_of(front[i].1) is None;
                assert(front[i] == query[i]);
            } else {
                assert(query[end].0 == CONNECTION_LIMIT_KEY@ && connection_limit_of(query[end].1)
                    is None);
            }
        }
        if exists|i: int|
            0 <= i < query.len() && (#[trigger] query[i]).0 == CONNECTION_LIMIT_KEY@
                && connection_limit_of(query[i].1) is None {
            let i = choose|i: int|
                0 <= i < query.len() && (#[trigger] query[i]).0 == CONNECTION_LIMIT_KEY@
                    && connection_limit_of(query[i].1) is None;
            if i < end {
                assert(front[i] == query[i]);
            }
        }
    }
}

/// The two parameters that are read have different names.
pub proof fn lemma_keys_differ()
    ensures
        SCHEMA_KEY@ != CONNECTION_LIMIT_KEY@,
{
    reveal_strlit("schema");
    reveal_strlit("connection_limit");
    assert(SCHEMA_KEY@.len() != CONNECTION_LIMIT_KEY@.len());
}

/// A query is refused as soon as one of its beginnings is.
proof fn lemma_settings_prefix(query: Query, n: int)
    requires
        0 <= n <= query.len(),
        settings_of(query.take(n)) is None,
    ensures
        settings_of(query) is None,
    decreases query.len() - n,
{
    if n < query.len() {
        assert(query.take(n + 1).drop_last() =~= query.take(n));
        lemma_settings_prefix(query, n + 1);
    } else {
        assert(query.take(n) =~= query);
    }
}

/// Reads a connection limit.
pub fn parse_connection_limit(text: &str) -> (limit: Option<u32>)
    ensures
        limit == connection_limit_of(text@),
{
    let len: usize = text.unicode_len();
    let mut i: usize = 0;
    if len > 0 && text.get_char(0) == '+' {
        i = 1;
    }
    let start: usize = i;
    if start == len {
        return None;
    }
    let ghost digits = unsigned_part(text@);
    let mut value: u32 = 0;
    while i < len
        invariant
            start <= i <= len,
            len == text@.len(),
            digits == unsigned_part(text@),
            digits == text@.skip(start as int),
            digits.len() == len - start,
            decimal_value(digits.take(i - start)) == Some(value as nat),
        decreases len - i,
    {
        let c: char = text.get_char(i);
        let ghost upto = digits.take(i - start + 1);
        proof {
            assert(upto.drop_last() =~= digits.take(i - start));
            assert(upto.last() == c);
        }
        if c < '0' || c > '9' {
            proof {
                assert(decimal_value(upto) is None);
                lemma_decimal_value_prefix(digits, i - start + 1);
            }
            return None;
        }
        let d: u32 = c as u32 - '0' as u32;
        assert(decimal_value(upto) == Some((value * 10 + d) as nat));
        if value > (u32::MAX - d) / 10 {
            proof {
                lemma_decimal_value_grows(digits, i - start + 1);
            }
            return None;
        }
        value = value * 10 + d;
        i = i + 1;
    }
    proof {
        assert(digits.take(len - start) =~= digits);
    }
    Some(value)
}

/// A run of digits writes a number only if each of its beginnings does.
proof fn lemma_decimal_value_prefix(digits: Seq<char>, n: int)
    requires
        0 <= n <= digits.len(),
        decimal_value(digits.take(n)) is None,
    ensures
        decimal_value(digits) is None,
    decreases digits.len() - n,
{
    if n < digits.len() {
        assert(digits.take(n + 1).drop_last() =~= digits.take(n));
        lemma_decimal_value_prefix(digits, n + 1);
    } else {
        assert(digits.take(n) =~= digits);
    }
}

/// A run of digits writes no smaller a number than any of its beginnings.
proof fn lemma_decimal_value_grows(digits: Seq<char>, n: int)
    requires
        0 <= n <= digits.len(),
    ensures
        decimal_value(digits) matches Some(all) ==> decimal_value(digits.take(n)) matches Some(
            part,
        ) && part <= all,
    decreases digits.len() - n,
{
    if n < digits.len() {
        assert(digits.take(n + 1).drop_last() =~= digits.take(n));
        lemma_decimal_value_grows(digits, n + 1);
    } else {
        assert(digits.take(n) =~= digits);
    }
}

} // verus!
