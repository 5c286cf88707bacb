use crate::error::{Error, ErrorKind};
use crate::path::CollectionPath;
use crate::text::{
    decimal, parse_usize, parses_as_usize, split, split_on, trim, trimmed, usize_parse_error,
};
use vstd::prelude::*;
use vstd::string::StringExecFns;

verus! {

/// The bindings that a list of `(key, value)` entries stands for: a later
/// entry replaces an earlier one with the same key.
pub open spec fn bindings(entries: Seq<(String, String)>) -> Map<Seq<char>, Seq<char>>
    decreases entries.len(),
{
    if entries.len() == 0 {
        Map::empty()
    } else {
        bindings(entries.drop_last()).insert(entries.last().0@, entries.last().1@)
    }
}

/// A flat store of string settings, keyed by name: the source that every
/// lookup in this module reads from.
pub struct Environment {
    entries: Vec<(String, String)>,
}

impl View for Environment {
    type V = Map<Seq<char>, Seq<char>>;

    closed spec fn view(&self) -> Map<Seq<char>, Seq<char>> {
        bindings(self.entries@)
    }
}

impl Environment {
    /// A store with no settings.
    pub fn new() -> (env: Environment)
        ensures
            env@ == Map::<Seq<char>, Seq<char>>::empty(),
    {
        Environment { entries: Vec::new() }
    }

    /// Binds `key` to `value`, replacing any earlier binding of `key`.
    pub fn set(&mut self, key: &str, value: &str)
        ensures
            final(self)@ == old(self)@.insert(key@, value@),
    {
        let ghost before = self.entries@;
        self.entries.push((String::from_str(key), String::from_str(value)));
        proof {
            assert(self.entries@.drop_last() == before);
        }
    }

    /// The value bound to `key`, if there is one.
    pub fn get(&self, key: &str) -> (value: Option<String>)
        ensures
            match value {
                Some(v) => self@.contains_key(key@) && v@ == self@[key@],
                None => !self@.contains_key(key@),
            },
    {
        let wanted = String::from_str(key);
        let mut i: usize = self.entries.len();
        proof {
            assert(self.entries@.subrange(0, i as int) == self.entries@);
        }
        while i > 0
            invariant
                i <= self.entries.len(),
                wanted@ == key@,
                self@.contains_key(key@) == bindings(
                    self.entries@.subrange(0, i as int),
                ).contains_key(key@),
                self@.contains_key(key@) ==> self@[key@] == bindings(
                    self.entries@.subrange(0, i as int),
                )[key@],
            decreases i,
        {
            let ghost prefix = self.entries@.subrange(0, i as int);
            proof {
                assert(prefix.drop_last() == self.entries@.subrange(0, i - 1));
                assert(prefix.last() == self.entries@[i - 1]);
            }
            i -= 1;
            if self.entries[i].0 == wanted {
                return Some(self.entries[i].1.clone());
            }
        }
        None
    }
}

/// The name, below a namespace, of the setting that holds the project id.
pub const PROJECT_ID: &'static str = "PROJECT_ID";

/// The name of the setting that holds the credential material.
pub const CREDENTIALS: &'static str = "CREDENTIALS";

/// The name of the setting that holds the retry budget.
pub const MAX_RETRIES: &'static str = "MAX_RETRIES";

/// The name of the setting that holds the collection path.
pub const COLLECTION_PATH: &'static str = "COLLECTION_PATH";

/// The name of the setting that holds the collection name.
pub const COLLECTION: &'static str = "COLLECTION";

/// The name of the setting that holds the authorisation scopes.
pub const SCOPES: &'static str = "SCOPES";

/// The character that separates the scopes of a configured list.
pub const SCOPE_SEPARATOR: char = ',';

/// The key of setting `name` in namespace `namespace`: the namespace, an
/// underscore, the name.
pub open spec fn scoped(namespace: Seq<char>, name: Seq<char>) -> Seq<char> {
    namespace + seq!['_'] + name
}

/// What looking up the required setting `key` in `env` gives: its value, or
/// `MissingConfig` with the key when it has none.
pub open spec fn required_outcome(
    env: Map<Seq<char>, Seq<char>>,
    key: Seq<char>,
    r: Result<String, Error>,
) -> bool {
    match r {
        Ok(v) => env.contains_key(key) && v@ == env[key],
        Err(e) => !env.contains_key(key) && e.kind() == ErrorKind::MissingConfig(key),
    }
}

/// The scopes that the configured list `raw` holds: its pieces between
/// commas, each without the whitespace around it.
pub open spec fn scopes_of(raw: Seq<char>) -> Seq<Seq<char>> {
    split_on(raw, SCOPE_SEPARATOR).map_values(|piece: Seq<char>| trimmed(piece))
}

/// Builds the key of setting `name` in namespace `namespace`.
pub fn scoped_key(namespace: &str, name: &str) -> (key: String)
    ensures
        key@ == scoped(namespace@, name@),
{
    proof {
        reveal_strlit("_");
        assert("_"@ == seq!['_']);
    }
    String::from_str(namespace).concat("_").concat(name)
}

/// Looks up a setting that must be present.
fn required(env: &Environment, key: String) -> (r: Result<String, Error>)
    ensures
        required_outcome(env@, key@, r),
{
    match env.get(key.as_str()) {
        Some(v) => Ok(v),
        None => Err(Error::MissingConfig(key)),
    }
}

/// The project id, a required setting.
pub fn project_id(env: &Environment, namespace: &str) -> (r: Result<String, Error>)
    ensures
        required_outcome(env@, scoped(namespace@, PROJECT_ID@), r),
{
    required(env, scoped_key(namespace, PROJECT_ID))
}

/// The credential material, a required setting. It is handed on as it is.
pub fn credentials(env: &Environment, namespace: &str) -> (r: Result<String, Error>)
    ensures
        required_outcome(env@, scoped(namespace@, CREDENTIALS@), r),
{
    required(env, scoped_key(namespace, CREDENTIALS))
}

/// The collection name, a required setting.
pub fn collection(env: &Environment, namespace: &str) -> (r: Result<String, Error>)
    ensures
        required_outcome(env@, scoped(namespace@, COLLECTION@), r),
{
    required(env, scoped_key(namespace, COLLECTION))
}

/// The collection path, an optional setting: `None` when it is not set.
pub fn collection_path(env: &Environment, namespace: &str) -> (r: Result<
    Option<CollectionPath>,
    Error,
>)
    ensures
        r is Ok,
        match r->Ok_0 {
            Some(path) => env@.contains_key(scoped(namespace@, COLLECTION_PATH@)) && path@
                == env@[scoped(namespace@, COLLECTION_PATH@)],
            None => !env@.contains_key(scoped(namespace@, COLLECTION_PATH@)),
        },
{
    let key = scoped_key(namespace, COLLECTION_PATH);
    Ok(
        match env.get(key.as_str()) {
            Some(raw) => Some(CollectionPath::parse(raw.as_str())),
            None => None,
        },
    )
}

/// The retry budget, an optional setting: `default` when it is not set. A
/// value that is set must be a number written in decimal that fits a `usize`;
/// any other value gives `InvalidConfig` with the key and the value.
pub fn max_retries(env: &Environment, namespace: &str, default: usize) -> (r: Result<
    usize,
    Error,
>)
    ensures
        ({
            let key = scoped(namespace@, MAX_RETRIES@);
            match r {
                Ok(n) => if env@.contains_key(key) {
                    decimal(env@[key]) == Some(n as nat)
                } else {
                    n == default
                },
                Err(e) => {
                    &&& env@.contains_key(key)
                    &&& !parses_as_usize(env@[key])
                    &&& e.kind() == ErrorKind::InvalidConfig { key, value: env@[key] }
                    &&& e.parse_cause() == Some(usize_parse_error(env@[key]))
                },
            }
        }),
{
    let key = scoped_key(namespace, MAX_RETRIES);
    match env.get(key.as_str()) {
        Some(raw) => match parse_usize(raw.as_str()) {
            Ok(n) => Ok(n),
            Err(cause) => Err(Error::InvalidConfig { key, value: raw, cause }),
        },
        None => Ok(default),
    }
}

/// Reads a configured list of scopes.
pub fn parse_scopes(raw: &str) -> (scopes: Vec<String>)
    ensures
        scopes.deep_view() == scopes_of(raw@),
{
    let pieces = split(raw, SCOPE_SEPARATOR);
    let mut out: Vec<String> = Vec::new();
    let mut i: usize = 0;
    while i < pieces.len()
        invariant
            i <= pieces.len(),
            out.len() == i,
            forall|k: int| 0 <= k < i ==> (#[trigger] out[k])@ == trimmed(pieces[k]@),
        decreases pieces.len() - i,
    {
        out.push(String::from_str(trim(pieces[i].as_str())));
        i += 1;
    }
    assert(out.deep_view() =~= pieces.deep_view().map_values(|piece: Seq<char>| trimmed(piece)));
    out
}

/// The authorisation scopes, an optional setting. When it is not set,
/// `default` is called and its result returned; it is not called otherwise.
pub fn scopes<F: FnOnce() -> Vec<String>>(env: &Environment, namespace: &str, default: F) -> (r:
    Result<Vec<String>, Error>)
    requires
        !env@.contains_key(scoped(namespace@, SCOPES@)) ==> default.requires(()),
    ensures
        r is Ok,
        ({
            let key = scoped(namespace@, SCOPES@);
            if env@.contains_key(key) {
                r->Ok_0.deep_view() == scopes_of(env@[key])
            } else {
                default.ensures((), r->Ok_0)
            }
        }),
{
    let key = scoped_key(namespace, SCOPES);
    Ok(
        match env.get(key.as_str()) {
            Some(raw) => parse_scopes(raw.as_str()),
            None => default(),
        },
    )
}

} // verus!
