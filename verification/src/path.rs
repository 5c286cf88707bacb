use crate::error::{Error, ErrorKind};
use crate::text::{split, split_on};
use vstd::prelude::*;
use vstd::string::StringExecFns;

verus! {

/// The backend's connection handle.
#[verifier::external_type_specification]
#[verifier::external_body]
pub struct ExFirestoreDb(firestore::FirestoreDb);

/// The backend's parent path under construction.
#[verifier::external_type_specification]
#[verifier::external_body]
pub struct ExParentPathBuilder(firestore::ParentPathBuilder);

/// The documents path of the database that `db` is connected to: what
/// `firestore::FirestoreDb::get_documents_path` returns for it.
pub uninterp spec fn documents_path(db: firestore::FirestoreDb) -> Seq<char>;

/// The path that `builder` has reached: what it converts into as a `String`.
pub uninterp spec fn builder_path(builder: firestore::ParentPathBuilder) -> Seq<char>;

/// The error that the backend rejects the document id `document` with, where
/// it rejects it.
pub uninterp spec fn document_id_rejection(document: Seq<char>) -> firestore::errors::FirestoreError;

/// The character that separates the tokens of a collection path.
pub const SEPARATOR: char = '/';

/// The longest document id, in bytes, that the backend lets into a path.
pub const MAX_DOCUMENT_ID_BYTES: usize = 1500;

/// Whether the backend accepts `id` as a document id inside a path: it holds
/// no `/` and its UTF-8 encoding is at most 1500 bytes long.
pub open spec fn valid_document_id(id: Seq<char>) -> bool {
    &&& forall|i: int| 0 <= i < id.len() ==> id[i] != '/'
    &&& vstd::utf8::encode_utf8(id).len() <= MAX_DOCUMENT_ID_BYTES
}

/// The path of document `document` in collection `collection` below `parent`.
pub open spec fn nested(parent: Seq<char>, collection: Seq<char>, document: Seq<char>) -> Seq<
    char,
> {
    parent + seq!['/'] + collection + seq!['/'] + document
}

/// One level of nesting: a document inside a collection.
#[derive(Debug, Clone, PartialEq, Eq)]
pub struct Level {
    pub collection: String,
    pub document: String,
}

impl View for Level {
    type V = (Seq<char>, Seq<char>);

    open spec fn view(&self) -> (Seq<char>, Seq<char>) {
        (self.collection@, self.document@)
    }
}

impl DeepView for Level {
    type V = (Seq<char>, Seq<char>);

    open spec fn deep_view(&self) -> (Seq<char>, Seq<char>) {
        self@
    }
}

/// The levels that a token sequence of even length stands for, in the order
/// in which they are applied: the last pair of tokens first, then each pair
/// before it, going backward.
pub open spec fn levels_of(tokens: Seq<Seq<char>>) -> Seq<(Seq<char>, Seq<char>)> {
    Seq::new(
        (tokens.len() / 2) as nat,
        |k: int| (tokens[tokens.len() - 2 - 2 * k], tokens[tokens.len() - 1 - 2 * k]),
    )
}

/// Whether the backend accepts the document id of every level.
pub open spec fn all_valid(levels: Seq<(Seq<char>, Seq<char>)>) -> bool {
    forall|k: int| 0 <= k < levels.len() ==> valid_document_id(#[trigger] levels[k].1)
}

/// The position of the first level whose document id the backend rejects, or
/// the number of levels when it accepts them all.
pub open spec fn first_invalid(levels: Seq<(Seq<char>, Seq<char>)>) -> int
    decreases levels.len(),
{
    if levels.len() == 0 || !valid_document_id(levels[0].1) {
        0
    } else {
        1 + first_invalid(levels.drop_first())
    }
}

/// Every level before the first invalid one is accepted and that one is
/// rejected; so there is none exactly when every level is accepted.
pub proof fn lemma_first_invalid(levels: Seq<(Seq<char>, Seq<char>)>)
    ensures
        0 <= first_invalid(levels) <= levels.len(),
        all_valid(levels.subrange(0, first_invalid(levels))),
        first_invalid(levels) < levels.len() ==> !valid_document_id(
            levels[first_invalid(levels)].1,
        ),
        first_invalid(levels) == levels.len() <==> all_valid(levels),
    decreases levels.len(),
{
    if levels.len() == 0 || !valid_document_id(levels[0].1) {
    } else {
        let rest = levels.drop_first();
        lemma_first_invalid(rest);
        let k = first_invalid(levels);
        assert forall|j: int| 0 <= j < k implies valid_document_id(
            #[trigger] levels.subrange(0, k)[j].1,
        ) by {
            if j > 0 {
                assert(levels.subrange(0, k)[j] == rest.subrange(0, k - 1)[j - 1]);
            }
        }
        if k == levels.len() {
            assert(levels.subrange(0, k) == levels);
        }
    }
}

/// A level that is rejected after none before it is the first invalid one;
/// where all are accepted, the first invalid position is past the end.
pub proof fn lemma_first_invalid_is(levels: Seq<(Seq<char>, Seq<char>)>, k: int)
    requires
        0 <= k <= levels.len(),
        all_valid(levels.subrange(0, k)),
        k < levels.len() ==> !valid_document_id(levels[k].1),
    ensures
        first_invalid(levels) == k,
    decreases levels.len(),
{
    if levels.len() == 0 {
    } else if k == 0 {
    } else {
        assert(levels.subrange(0, k)[0] == levels[0]);
        let rest = levels.drop_first();
        assert forall|j: int| 0 <= j < k - 1 implies valid_document_id(
            #[trigger] rest.subrange(0, k - 1)[j].1,
        ) by {
            assert(rest.subrange(0, k - 1)[j] == levels.subrange(0, k)[j + 1]);
        }
        lemma_first_invalid_is(rest, k - 1);
    }
}

/// The path reached from `root` by applying `levels` one after the other.
pub open spec fn composed(root: Seq<char>, levels: Seq<(Seq<char>, Seq<char>)>) -> Seq<char>
    decreases levels.len(),
{
    if levels.len() == 0 {
        root
    } else {
        nested(composed(root, levels.drop_last()), levels.last().0, levels.last().1)
    }
}

/// Starts a parent path at a document directly below the database's
/// documents path. Calls `firestore::FirestoreDb::parent_path`, which accepts
/// exactly the valid document ids and then yields the documents path of the
/// connection followed by `/`, the collection, `/` and the document id. The
/// error of a rejection is made from the document id alone; it is only given
/// its name.
#[verifier::external_body]
fn anchor(db: &firestore::FirestoreDb, collection: &str, document: &str) -> (r: Result<
    firestore::ParentPathBuilder,
    firestore::errors::FirestoreError,
>)
    ensures
        r is Ok <==> valid_document_id(document@),
        r matches Ok(b) ==> builder_path(b) == nested(documents_path(*db), collection@, document@),
        r matches Err(e) ==> e == document_id_rejection(document@),
{
    db.parent_path(collection, document)
}

/// Extends a parent path by one level. Calls
/// `firestore::ParentPathBuilder::at`, which accepts exactly the valid
/// document ids and then yields the path so far followed by `/`, the
/// collection, `/` and the document id. It rejects a document id as
/// `firestore::FirestoreDb::parent_path` does, with the same error.
#[verifier::external_body]
fn extend(builder: firestore::ParentPathBuilder, collection: &str, document: &str) -> (r: Result<
    firestore::ParentPathBuilder,
    firestore::errors::FirestoreError,
>)
    ensures
        r is Ok <==> valid_document_id(document@),
        r matches Ok(b) ==> builder_path(b) == nested(
            builder_path(builder),
            collection@,
            document@,
        ),
        r matches Err(e) ==> e == document_id_rejection(document@),
{
    builder.at(collection, document)
}

/// Hands out the path that a builder has reached. Calls the conversion
/// `From<firestore::ParentPathBuilder> for String`.
#[verifier::external_body]
fn finish(builder: firestore::ParentPathBuilder) -> (path: String)
    ensures
        path@ == builder_path(builder),
{
    String::from(builder)
}

/// A collection path as it is configured: one string of tokens separated by
/// `/`, read in pairs of a collection name and a document id.
pub struct CollectionPath {
    raw: String,
    tokens: Vec<String>,
}

impl View for CollectionPath {
    type V = Seq<char>;

    /// The configured string.
    closed spec fn view(&self) -> Seq<char> {
        self.raw@
    }
}

impl CollectionPath {
    #[verifier::type_invariant]
    spec fn well_formed(&self) -> bool {
        self.tokens.deep_view() == split_on(self.raw@, SEPARATOR)
    }

    /// The tokens of the path, in the order in which they are written.
    pub open spec fn tokens(&self) -> Seq<Seq<char>> {
        split_on(self@, SEPARATOR)
    }

    /// Reads a configured value as a collection path.
    pub fn parse(raw: &str) -> (path: CollectionPath)
        ensures
            path@ == raw@,
    {
        CollectionPath { raw: String::from_str(raw), tokens: split(raw, SEPARATOR) }
    }

    /// Whether the tokens pair up: whether their number is even.
    pub fn has_even_length(&self) -> (even: bool)
        ensures
            even == (self.tokens().len() % 2 == 0),
    {
        proof {
            use_type_invariant(self);
        }
        assert(self.tokens.len() == self.tokens.deep_view().len());
        self.tokens.len() % 2 == 0
    }

    /// The configured string.
    pub fn raw(&self) -> (raw: &str)
        ensures
            raw@ == self@,
    {
        self.raw.as_str()
    }

    /// The tokens of the path.
    pub fn to_tokens(&self) -> (tokens: Vec<String>)
        ensures
            tokens.deep_view() == self.tokens(),
    {
        proof {
            use_type_invariant(self);
        }
        let mut out: Vec<String> = Vec::new();
        let mut i: usize = 0;
        while i < self.tokens.len()
            invariant
                i <= self.tokens.len(),
                out.len() == i,
                forall|k: int| 0 <= k < i ==> out[k]@ == self.tokens[k]@,
            decreases self.tokens.len() - i,
        {
            out.push(self.tokens[i].clone());
            i += 1;
        }
        assert(out.deep_view() =~= self.tokens.deep_view());
        out
    }

    /// The levels of the path in the order in which they are applied, or
    /// `InvalidCollectionPath` with the configured string when the number of
    /// tokens is odd.
    pub fn levels(&self) -> (r: Result<Vec<Level>, Error>)
        ensures
            match r {
                Ok(levels) => self.tokens().len() % 2 == 0 && levels.deep_view() == levels_of(
                    self.tokens(),
                ),
                Err(e) => self.tokens().len() % 2 == 1 && e.kind()
                    == ErrorKind::InvalidCollectionPath(self@),
            },
    {
        proof {
            use_type_invariant(self);
        }
        let n = self.tokens.len();
        if n % 2 != 0 {
            return Err(Error::InvalidCollectionPath(self.raw.clone()));
        }
        let mut out: Vec<Level> = Vec::new();
        let mut k: usize = 0;
        while k < n / 2
            invariant
                n == self.tokens.len(),
                n % 2 == 0,
                k <= n / 2,
                out.len() == k,
                self.tokens.deep_view() == self.tokens(),
                forall|j: int| 0 <= j < k ==> (#[trigger] out[j])@ == levels_of(self.tokens())[j],
            decreases n / 2 - k,
        {
            let collection = self.tokens[n - 2 - 2 * k].clone();
            let document = self.tokens[n - 1 - 2 * k].clone();
            proof {
                assert(self.tokens.deep_view()[n - 2 - 2 * k] == collection@);
                assert(self.tokens.deep_view()[n - 1 - 2 * k] == document@);
            }
            out.push(Level { collection, document });
            k += 1;
        }
        assert(out.deep_view() =~= levels_of(self.tokens()));
        Ok(out)
    }
}

/// Composes the parent path that `path` describes, below the documents path
/// of `db`: the last pair of tokens anchors it, and each pair before that,
/// going backward, nests one level further.
///
/// Fails with `InvalidCollectionPath` when the number of tokens is odd, and
/// otherwise with `Initialize` when the backend rejects the document id of a
/// level; the cause is then the rejection of the first such level.
pub fn compose(db: &firestore::FirestoreDb, path: &CollectionPath) -> (r: Result<String, Error>)
    ensures
        match r {
            Ok(p) => {
                &&& path.tokens().len() % 2 == 0
                &&& all_valid(levels_of(path.tokens()))
                &&& p@ == composed(documents_path(*db), levels_of(path.tokens()))
            },
            Err(e) => if path.tokens().len() % 2 == 1 {
                e.kind() == ErrorKind::InvalidCollectionPath(path@)
            } else {
                let levels = levels_of(path.tokens());
                &&& first_invalid(levels) < levels.len()
                &&& e == Error::Initialize(document_id_rejection(levels[first_invalid(levels)].1))
            },
        },
{
    let levels = match path.levels() {
        Ok(levels) => levels,
        Err(e) => {
            return Err(e);
        },
    };
    proof {
        crate::text::lemma_split_on_len(path@, SEPARATOR);
    }
    let ghost plan = levels_of(path.tokens());
    assert(levels.len() == levels.deep_view().len());
    let mut builder = match anchor(
        db,
        levels[0].collection.as_str(),
        levels[0].document.as_str(),
    ) {
        Ok(b) => b,
        Err(e) => {
            proof {
                assert(all_valid(plan.subrange(0, 0)));
                lemma_first_invalid_is(plan, 0);
            }
            return Err(Error::Initialize(e));
        },
    };
    proof {
        let first = plan.subrange(0, 1);
        assert(plan[0] == levels[0].deep_view());
        assert(first.drop_last() == Seq::<(Seq<char>, Seq<char>)>::empty());
        assert(first.last() == plan[0]);
        assert(composed(documents_path(*db), first.drop_last()) == documents_path(*db));
    }
    let mut k: usize = 1;
    while k < levels.len()
        invariant
            1 <= k <= levels.len(),
            levels.deep_view() == plan,
            plan == levels_of(path.tokens()),
            path.tokens().len() % 2 == 0,
            all_valid(plan.subrange(0, k as int)),
            builder_path(builder) == composed(documents_path(*db), plan.subrange(0, k as int)),
        decreases levels.len() - k,
    {
        let ghost before = plan.subrange(0, k as int);
        let ghost after = plan.subrange(0, k + 1);
        assert(plan[k as int] == levels[k as int].deep_view());
        builder = match extend(
            builder,
            levels[k].collection.as_str(),
            levels[k].document.as_str(),
        ) {
            Ok(b) => b,
            Err(e) => {
                proof {
                    lemma_first_invalid_is(plan, k as int);
                }
                return Err(Error::Initialize(e));
            },
        };
        proof {
            assert(after.drop_last() == before);
            assert(after.last() == plan[k as int]);
            assert forall|j: int| 0 <= j < after.len() implies valid_document_id(
                #[trigger] after[j].1,
            ) by {
                if j < k {
                    assert(after[j] == before[j]);
                }
            }
        }
        k += 1;
    }
    assert(plan.subrange(0, k as int) == plan);
    Ok(finish(builder))
}

} // verus!
