//! Storage settings for a Qdrant vector collection, and the records handed to it.
use vstd::prelude::*;
use crate::ingestion::{IngestionNode, attrs_view, AttrView};
use qdrant_client::Qdrant as QdrantClient;

verus! {

/// The Qdrant client: opaque here, it is only carried to whoever makes the calls.
#[verifier::external_type_specification]
#[verifier::external_body]
pub struct ExQdrantClient(QdrantClient);

/// The collection used when none is named.
pub const DEFAULT_COLLECTION_NAME: &'static str = "swiftide";

/// The payload field that holds a node's path.
pub const PATH_FIELD: &'static str = "path";

/// The payload field that holds a node's content.
pub const CONTENT_FIELD: &'static str = "content";

/// A Qdrant-backed storage: client, collection, vector size and batching.
pub struct Qdrant {
    client: QdrantClient,
    collection_name: String,
    vector_size: usize,
    batch_size: Option<usize>,
}

/// A field that `QdrantBuilder::build` needs and was not given.
pub enum QdrantBuildError {
    MissingClient,
    MissingVectorSize,
}

/// Collects the settings of a `Qdrant`.
pub struct QdrantBuilder {
    client: Option<QdrantClient>,
    collection_name: Option<String>,
    vector_size: Option<usize>,
    batch_size: Option<usize>,
}

/// The collection to create: its name and the size of its (cosine) vectors.
pub struct IndexParams {
    pub collection_name: String,
    pub vector_size: u64,
}

/// A node as a point: its id, its vector bits, and its payload fields.
pub struct PointRecord {
    pub id: u64,
    pub vector: Vec<u32>,
    pub payload: Vec<(String, String)>,
}

/// Why a node cannot become a point.
pub enum PointError {
    /// The node has not been embedded.
    MissingVector,
}

/// The payload of a node: its path, its content, then its metadata.
pub open spec fn payload_of(n: IngestionNode) -> Seq<AttrView> {
    seq![(PATH_FIELD@, n.path@), (CONTENT_FIELD@, n.chunk@)] + attrs_view(n.metadata@)
}

impl QdrantBuilder {
    pub closed spec fn client_spec(&self) -> Option<QdrantClient> {
        self.client
    }

    pub closed spec fn collection_name_spec(&self) -> Option<Seq<char>> {
        match self.collection_name {
            Some(s) => Some(s@),
            None => None,
        }
    }

    pub closed spec fn vector_size_spec(&self) -> Option<usize> {
        self.vector_size
    }

    pub closed spec fn batch_size_spec(&self) -> Option<usize> {
        self.batch_size
    }

    /// A builder with nothing set.
    pub fn new() -> (r: QdrantBuilder)
        ensures
            r.client_spec() is None,
            r.collection_name_spec() is None,
            r.vector_size_spec() is None,
            r.batch_size_spec() is None,
    {
        QdrantBuilder { client: None, collection_name: None, vector_size: None, batch_size: None }
    }

    pub fn client(self, client: QdrantClient) -> (r: QdrantBuilder)
        ensures
            r.client_spec() == Some(client),
            r.collection_name_spec() == self.collection_name_spec(),
            r.vector_size_spec() == self.vector_size_spec(),
            r.batch_size_spec() == self.batch_size_spec(),
    {
        QdrantBuilder { client: Some(client), ..self }
    }

    pub fn collection_name(self, name: String) -> (r: QdrantBuilder)
        ensures
            r.client_spec() == self.client_spec(),
            r.collection_name_spec() == Some(name@),
            r.vector_size_spec() == self.vector_size_spec(),
            r.batch_size_spec() == self.batch_size_spec(),
    {
        QdrantBuilder { collection_name: Some(name), ..self }
    }

    pub fn vector_size(self, size: usize) -> (r: QdrantBuilder)
        ensures
            r.client_spec() == self.client_spec(),
            r.collection_name_spec() == self.collection_name_spec(),
            r.vector_size_spec() == Some(size),
            r.batch_size_spec() == self.batch_size_spec(),
    {
        QdrantBuilder { vector_size: Some(size), ..self }
    }

    pub fn batch_size(self, size: usize) -> (r: QdrantBuilder)
        ensures
            r.client_spec() == self.client_spec(),
            r.collection_name_spec() == self.collection_name_spec(),
            r.vector_size_spec() == self.vector_size_spec(),
            r.batch_size_spec() == Some(size),
    {
        QdrantBuilder { batch_size: Some(size), ..self }
    }

    /// The storage, once a client and a vector size were given; the collection
    /// name defaults to `DEFAULT_COLLECTION_NAME` and batching to none.
    pub fn build(self) -> (r: Result<Qdrant, QdrantBuildError>)
        ensures
            self.client_spec() is None ==> r matches Err(QdrantBuildError::MissingClient),
            self.client_spec() is Some && self.vector_size_spec() is None ==> r matches Err(
                QdrantBuildError::MissingVectorSize,
            ),
            r is Ok <==> (self.client_spec() is Some && self.vector_size_spec() is Some),
            r matches Ok(q) ==> {
                &&& Some(q.client_spec()) == self.client_spec()
                &&& Some(q.vector_size_spec()) == self.vector_size_spec()
                &&& q.batch_size_spec() == self.batch_size_spec()
                &&& q.collection_name_spec() == match self.collection_name_spec() {
                    Some(n) => n,
                    None => DEFAULT_COLLECTION_NAME@,
                }
            },
    {
        let client = match self.client {
            Some(c) => c,
            None => return Err(QdrantBuildError::MissingClient),
        };
        let vector_size = match self.vector_size {
            Some(v) => v,
            None => return Err(QdrantBuildError::MissingVectorSize),
        };
        let collection_name = match self.collection_name {
            Some(n) => n,
            None => String::from_str(DEFAULT_COLLECTION_NAME),
        };
        Ok(Qdrant { client, collection_name, vector_size, batch_size: self.batch_size })
    }
}

impl Qdrant {
    pub closed spec fn client_spec(&self) -> QdrantClient {
        self.client
    }

    pub closed spec fn collection_name_spec(&self) -> Seq<char> {
        self.collection_name@
    }

    pub closed spec fn vector_size_spec(&self) -> usize {
        self.vector_size
    }

    pub closed spec fn batch_size_spec(&self) -> Option<usize> {
        self.batch_size
    }

    /// A builder with nothing set.
    pub fn builder() -> (r: QdrantBuilder)
        ensures
            r.client_spec() is None,
            r.collection_name_spec() is None,
            r.vector_size_spec() is None,
            r.batch_size_spec() is None,
    {
        QdrantBuilder::new()
    }

    pub fn client(&self) -> (r: &QdrantClient)
        ensures
            *r == self.client_spec(),
    {
        &self.client
    }

    pub fn collection_name(&self) -> (r: &String)
        ensures
            r@ == self.collection_name_spec(),
    {
        &self.collection_name
    }

    /// The preferred number of nodes per storage call, if any.
    pub fn batch_size(&self) -> (r: Option<usize>)
        ensures
            r == self.batch_size_spec(),
    {
        self.batch_size
    }

    /// What to create given whether the collection exists: nothing if it does,
    /// else the collection with this storage's name and vector size.
    pub fn index_to_create(&self, exists: bool) -> (r: Option<IndexParams>)
        ensures
            r is None <==> exists,
            r matches Some(p) ==> p.collection_name@ == self.collection_name_spec()
                && p.vector_size == self.vector_size_spec() as u64,
    {
        if exists {
            None
        } else {
            Some(
                IndexParams {
                    collection_name: self.collection_name.clone(),
                    vector_size: self.vector_size as u64,
                },
            )
        }
    }
}

/// A node as a point: its fingerprint as id, its vector, and as payload its
/// path under `path`, its content under `content`, then its metadata.
pub fn point_of(node: IngestionNode) -> (r: Result<PointRecord, PointError>)
    ensures
        r is Err <==> node.vector is None,
        r matches Ok(p) ==> {
            &&& p.id == node.fingerprint()
            &&& Some(p.vector@) == match node.vector {
                Some(v) => Some(v@),
                None => None::<Seq<u32>>,
            }
            &&& attrs_view(p.payload@) == payload_of(node)
        },
{
    let id = node.calculate_hash();
    let ghost n0 = node;
    let IngestionNode { id: _, path, chunk, vector, metadata } = node;
    let vector = match vector {
        Some(v) => v,
        None => return Err(PointError::MissingVector),
    };
    let mut payload: Vec<(String, String)> = Vec::new();
    payload.push((String::from_str(PATH_FIELD), path));
    payload.push((String::from_str(CONTENT_FIELD), chunk));
    let mut metadata = metadata;
    payload.append(&mut metadata);
    assert(attrs_view(payload@) =~= payload_of(n0));
    Ok(PointRecord { id, vector, payload })
}

} // verus!
