use crate::env::{
    collection, collection_path, credentials, max_retries, project_id, scoped, scopes, scopes_of,
    Environment, COLLECTION, COLLECTION_PATH, CREDENTIALS, MAX_RETRIES, PROJECT_ID, SCOPES,
};
use crate::error::{Error, ErrorKind};
use crate::path::{
    all_valid, compose, composed, document_id_rejection, documents_path, first_invalid, levels_of,
    CollectionPath, SEPARATOR,
};
use crate::text::{decimal, parses_as_usize, split_on, usize_parse_error};
use vstd::prelude::*;
use vstd::string::StringExecFns;

verus! {

/// The retry budget of a client whose namespace sets none.
pub const DEFAULT_MAX_RETRIES: usize = 3;

/// The scopes of a client whose namespace sets none.
pub open spec fn default_scopes_view() -> Seq<Seq<char>> {
    seq!["https://www.googleapis.com/auth/cloud-platform"@]
}

/// The scopes that the backend's SDK asks for by default. Clones
/// `gcloud_sdk::GCP_DEFAULT_SCOPES`, a list of one scope, the cloud platform
/// scope.
#[verifier::external_body]
fn default_scopes() -> (scopes: Vec<String>)
    ensures
        scopes.deep_view() == default_scopes_view(),
{
    gcloud_sdk::GCP_DEFAULT_SCOPES.clone()
}

/// Everything that a client needs to know before it connects.
pub struct ResolvedConfig {
    pub project_id: String,
    pub credentials: String,
    pub max_retries: usize,
    pub scopes: Vec<String>,
    pub collection: String,
    pub collection_path: Option<CollectionPath>,
}

/// The first thing that is wrong with the settings of `namespace` in `env`,
/// in the order in which they are resolved, if anything is.
pub open spec fn first_failure(env: Map<Seq<char>, Seq<char>>, namespace: Seq<char>) -> Option<
    ErrorKind,
> {
    let project = scoped(namespace, PROJECT_ID@);
    let retries = scoped(namespace, MAX_RETRIES@);
    let secret = scoped(namespace, CREDENTIALS@);
    let name = scoped(namespace, COLLECTION@);
    let path = scoped(namespace, COLLECTION_PATH@);
    if !env.contains_key(project) {
        Some(ErrorKind::MissingConfig(project))
    } else if !env.contains_key(secret) {
        Some(ErrorKind::MissingConfig(secret))
    } else if env.contains_key(retries) && !parses_as_usize(env[retries]) {
        Some(ErrorKind::InvalidConfig { key: retries, value: env[retries] })
    } else if !env.contains_key(name) {
        Some(ErrorKind::MissingConfig(name))
    } else if env.contains_key(path) && split_on(env[path], SEPARATOR).len() % 2 == 1 {
        Some(ErrorKind::InvalidCollectionPath(env[path]))
    } else {
        None
    }
}

impl ResolvedConfig {
    /// Whether this is what the settings of `namespace` in `env` resolve to.
    pub open spec fn resolves(
        self,
        env: Map<Seq<char>, Seq<char>>,
        namespace: Seq<char>,
    ) -> bool {
        let retries = scoped(namespace, MAX_RETRIES@);
        let scope_list = scoped(namespace, SCOPES@);
        let path = scoped(namespace, COLLECTION_PATH@);
        &&& self.project_id@ == env[scoped(namespace, PROJECT_ID@)]
        &&& self.credentials@ == env[scoped(namespace, CREDENTIALS@)]
        &&& self.collection@ == env[scoped(namespace, COLLECTION@)]
        &&& if env.contains_key(retries) {
            decimal(env[retries]) == Some(self.max_retries as nat)
        } else {
            self.max_retries == DEFAULT_MAX_RETRIES
        }
        &&& self.scopes.deep_view() == if env.contains_key(scope_list) {
            scopes_of(env[scope_list])
        } else {
            default_scopes_view()
        }
        &&& match self.collection_path {
            Some(p) => env.contains_key(path) && p@ == env[path],
            None => !env.contains_key(path),
        }
    }

    /// Resolves the settings of `namespace` in `env`: the project id, the
    /// credentials, the retry budget, the scopes, the collection and the
    /// collection path, in this order. The first setting that is missing or
    /// malformed decides the error; a collection path with an odd number of
    /// tokens is found last. Only a malformed retry budget has a cause, the
    /// parse error of its value.
    pub fn resolve(env: &Environment, namespace: &str) -> (r: Result<ResolvedConfig, Error>)
        ensures
            match r {
                Ok(config) => first_failure(env@, namespace@) is None && config.resolves(
                    env@,
                    namespace@,
                ),
                Err(e) => {
                    &&& first_failure(env@, namespace@) == Some(e.kind())
                    &&& e.backend_cause() is None
                    &&& e.parse_cause() == if e.kind() is InvalidConfig {
                        Some(usize_parse_error(env@[scoped(namespace@, MAX_RETRIES@)]))
                    } else {
                        None
                    }
                },
            },
    {
        let project_id = project_id(env, namespace)?;
        let credentials = credentials(env, namespace)?;
        let max_retries = max_retries(env, namespace, DEFAULT_MAX_RETRIES)?;
        let scopes = scopes(env, namespace, default_scopes)?;
        let collection = collection(env, namespace)?;
        let collection_path = collection_path(env, namespace)?;
        match &collection_path {
            Some(path) => {
                if !path.has_even_length() {
                    return Err(Error::InvalidCollectionPath(String::from_str(path.raw())));
                }
            },
            None => {},
        }
        Ok(ResolvedConfig { project_id, credentials, max_retries, scopes, collection, collection_path })
    }
}

/// What a request asks the backend to do with a document.
#[derive(Debug, Clone, Copy, PartialEq, Eq, Structural)]
pub enum Operation {
    /// Look the document up by its id.
    Select,
    /// Create the document, or merge into it where it exists.
    Update,
}

/// A request for one document, as the backend is to carry it out.
#[derive(Debug)]
pub struct Request {
    pub operation: Operation,
    /// The collection that holds the document.
    pub collection: String,
    /// The parent path that the collection lies under, if it is nested.
    pub parent: Option<String>,
    pub document_id: String,
}

/// A [`Request`] in specifications.
pub struct RequestView {
    pub operation: Operation,
    pub collection: Seq<char>,
    pub parent: Option<Seq<char>>,
    pub document_id: Seq<char>,
}

impl View for Request {
    type V = RequestView;

    open spec fn view(&self) -> RequestView {
        RequestView {
            operation: self.operation,
            collection: self.collection@,
            parent: match self.parent {
                Some(p) => Some(p@),
                None => None,
            },
            document_id: self.document_id@,
        }
    }
}

impl Request {
    /// A request to do `operation` with document `document_id` of
    /// `collection`, which lies under `parent` if there is one.
    pub fn new(operation: Operation, collection: &str, parent: Option<&str>, document_id: &str) -> (r:
        Request)
        ensures
            r@ == (RequestView {
                operation,
                collection: collection@,
                parent: match parent {
                    Some(p) => Some(p@),
                    None => None,
                },
                document_id: document_id@,
            }),
    {
        Request {
            operation,
            collection: String::from_str(collection),
            parent: match parent {
                Some(p) => Some(String::from_str(p)),
                None => None,
            },
            document_id: String::from_str(document_id),
        }
    }
}

/// A client of one collection: the connection to the backend, the name of
/// the collection and the parent path that the collection lies under. None
/// of them changes once the client is made.
pub struct Client {
    inner: firestore::FirestoreDb,
    collection: String,
    collection_path: Option<String>,
}

impl Client {
    /// The connection that the client uses.
    pub closed spec fn connection(self) -> firestore::FirestoreDb {
        self.inner
    }

    /// The name of the collection that the client reads and writes.
    pub closed spec fn collection_name(self) -> Seq<char> {
        self.collection@
    }

    /// The parent path of the collection, if it is nested.
    pub closed spec fn parent(self) -> Option<Seq<char>> {
        match self.collection_path {
            Some(p) => Some(p@),
            None => None,
        }
    }

    /// The request that the client makes to do `operation` with document
    /// `document_id`.
    pub open spec fn request(self, operation: Operation, document_id: Seq<char>) -> RequestView {
        RequestView {
            operation,
            collection: self.collection_name(),
            parent: self.parent(),
            document_id,
        }
    }

    /// Makes a client of `collection` on the open connection `inner`.
    ///
    /// Without a collection path the collection is a top-level one. With one,
    /// its parent path is composed below the documents path of the
    /// connection; this fails with `InvalidCollectionPath` when the path has an
    /// odd number of tokens, and otherwise with `Initialize` when the backend
    /// rejects a document id in it.
    pub fn new(inner: firestore::FirestoreDb, collection: &str, path: Option<&CollectionPath>) -> (r:
        Result<Client, Error>)
        ensures
            match r {
                Ok(db) => {
                    &&& db.connection() == inner
                    &&& db.collection_name() == collection@
                    &&& match path {
                        Some(p) => {
                            &&& p.tokens().len() % 2 == 0
                            &&& all_valid(levels_of(p.tokens()))
                            &&& db.parent() == Some(
                                composed(documents_path(inner), levels_of(p.tokens())),
                            )
                        },
                        None => db.parent() is None,
                    }
                },
                Err(e) => path matches Some(p) && if p.tokens().len() % 2 == 1 {
                    e.kind() == ErrorKind::InvalidCollectionPath(p@)
                } else {
                    let levels = levels_of(p.tokens());
                    &&& first_invalid(levels) < levels.len()
                    &&& e == Error::Initialize(
                        document_id_rejection(levels[first_invalid(levels)].1),
                    )
                },
            },
    {
        let collection_path = match path {
            Some(p) => Some(compose(&inner, p)?),
            None => None,
        };
        Ok(Client { inner, collection: String::from_str(collection), collection_path })
    }

    /// The connection that the client uses.
    pub fn inner(&self) -> (inner: &firestore::FirestoreDb)
        ensures
            *inner == self.connection(),
    {
        &self.inner
    }

    /// The name of the collection that the client reads and writes.
    pub fn collection(&self) -> (name: &str)
        ensures
            name@ == self.collection_name(),
    {
        self.collection.as_str()
    }

    /// The parent path of the collection, if it is nested.
    pub fn collection_path(&self) -> (path: Option<&str>)
        ensures
            match path {
                Some(p) => self.parent() == Some(p@),
                None => self.parent() is None,
            },
    {
        match &self.collection_path {
            Some(p) => Some(p.as_str()),
            None => None,
        }
    }

    /// The request that reads document `document_id`: a lookup by id in the
    /// client's collection, under its parent path if it has one.
    pub fn read(&self, document_id: &str) -> (r: Request)
        ensures
            r@ == self.request(Operation::Select, document_id@),
    {
        Request::new(Operation::Select, self.collection(), self.collection_path(), document_id)
    }

    /// The request that writes document `document_id`: an update in the
    /// client's collection, under its parent path if it has one.
    pub fn write(&self, document_id: &str) -> (r: Request)
        ensures
            r@ == self.request(Operation::Update, document_id@),
    {
        Request::new(Operation::Update, self.collection(), self.collection_path(), document_id)
    }
}

/// What opening a connection comes to: the connection, or `Initialize` with
/// the backend's error as its cause.
pub fn connect_outcome(
    opened: Result<firestore::FirestoreDb, firestore::errors::FirestoreError>,
) -> (r: Result<firestore::FirestoreDb, Error>)
    ensures
        match opened {
            Ok(db) => r == Ok::<firestore::FirestoreDb, Error>(db),
            Err(cause) => r == Err::<firestore::FirestoreDb, Error>(Error::Initialize(cause)),
        },
{
    match opened {
        Ok(db) => Ok(db),
        Err(cause) => Err(Error::Initialize(cause)),
    }
}

/// What a lookup comes to: the document that was found, `None` where there
/// is none under the id, or `Read` with the backend's error as its cause.
pub fn read_outcome<O>(found: Result<Option<O>, firestore::errors::FirestoreError>) -> (r: Result<
    Option<O>,
    Error,
>)
    ensures
        match found {
            Ok(document) => r == Ok::<Option<O>, Error>(document),
            Err(cause) => r == Err::<Option<O>, Error>(Error::Read(cause)),
        },
{
    match found {
        Ok(document) => Ok(document),
        Err(cause) => Err(Error::Read(cause)),
    }
}

/// What an update comes to: nothing, or `Write` with the backend's error as
/// its cause.
pub fn write_outcome(written: Result<(), firestore::errors::FirestoreError>) -> (r: Result<
    (),
    Error,
>)
    ensures
        match written {
            Ok(_) => r is Ok,
            Err(cause) => r == Err::<(), Error>(Error::Write(cause)),
        },
{
    match written {
        Ok(_) => Ok(()),
        Err(cause) => Err(Error::Write(cause)),
    }
}

/// A lookup and an update of the same document id by the same client address
/// the same document: the two requests differ in the operation only.
pub proof fn lemma_read_addresses_what_write_addresses(db: Client, document_id: Seq<char>)
    ensures
        db.request(Operation::Select, document_id) == (RequestView {
            operation: Operation::Select,
            ..db.request(Operation::Update, document_id)
        }),
{
}

} // verus!
