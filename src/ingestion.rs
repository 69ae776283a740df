//! The unit of content that travels through an ingestion run, and its fingerprint.
use vstd::prelude::*;

verus! {

/// A key/value attribute as plain sequences of characters.
pub type AttrView = (Seq<char>, Seq<char>);

/// The attribute list of a node, seen as sequences of characters.
pub open spec fn attrs_view(s: Seq<(String, String)>) -> Seq<AttrView> {
    s.map_values(|p: (String, String)| (p.0@, p.1@))
}

/// No key occurs twice in an attribute list.
pub open spec fn keys_unique(s: Seq<AttrView>) -> bool {
    forall|i: int, j: int| 0 <= i < j < s.len() ==> s[i].0 != s[j].0
}

/// The mapping that an attribute list stands for.
pub open spec fn attr_map(s: Seq<AttrView>) -> Map<Seq<char>, Seq<char>>
    decreases s.len(),
{
    if s.len() == 0 {
        Map::empty()
    } else {
        attr_map(s.drop_last()).insert(s.last().0, s.last().1)
    }
}

/// One attribute rendered as `key: value`.
pub open spec fn attr_line(a: AttrView) -> Seq<char> {
    a.0 + ": "@ + a.1
}

/// The attribute lines, joined by newlines.
pub open spec fn attr_lines(s: Seq<AttrView>) -> Seq<char>
    decreases s.len(),
{
    if s.len() == 0 {
        Seq::empty()
    } else if s.len() == 1 {
        attr_line(s[0])
    } else {
        attr_lines(s.drop_last()) + "\n"@ + attr_line(s.last())
    }
}

/// The text handed to an embedding model: the attribute lines, a newline, the content.
pub open spec fn embeddable(s: Seq<AttrView>, chunk: Seq<char>) -> Seq<char> {
    attr_lines(s) + "\n"@ + chunk
}

/// The 64-bit fingerprint of a path and a chunk.
pub uninterp spec fn fingerprint_of(path: Seq<char>, chunk: Seq<char>) -> u64;

/// Relies on std's `BuildHasher::hash_one` over `BuildHasherDefault<DefaultHasher>`:
/// every `DefaultHasher::new()` starts from the same keys, so the hash of the pair
/// depends on the two strings alone.
#[verifier::external_body]
fn hash_path_and_chunk(path: &str, chunk: &str) -> (r: u64)
    ensures
        r == fingerprint_of(path@, chunk@),
{
    let build = std::hash::BuildHasherDefault::<std::collections::hash_map::DefaultHasher>::default();
    std::hash::BuildHasher::hash_one(&build, (path, chunk))
}

/// A unit of content travelling through an ingestion run.
///
/// The embedding, once set, is held as the IEEE-754 bit pattern of each component.
#[derive(Clone, Debug)]
pub struct IngestionNode {
    pub id: Option<u64>,
    pub path: String,
    pub chunk: String,
    pub vector: Option<Vec<u32>>,
    pub metadata: Vec<(String, String)>,
}

impl IngestionNode {
    /// The attribute list has no repeated key.
    pub open spec fn wf(&self) -> bool {
        keys_unique(attrs_view(self.metadata@))
    }

    /// The metadata of the node, as a mapping.
    pub open spec fn attr_model(&self) -> Map<Seq<char>, Seq<char>> {
        attr_map(attrs_view(self.metadata@))
    }

    /// The fingerprint of the node: of its path and content only.
    pub open spec fn fingerprint(&self) -> u64 {
        fingerprint_of(self.path@, self.chunk@)
    }

    /// A fresh node with no identity, no vector and no metadata.
    pub fn new(path: String, chunk: String) -> (r: IngestionNode)
        ensures
            r.id is None,
            r.path@ == path@,
            r.chunk@ == chunk@,
            r.vector is None,
            r.metadata@.len() == 0,
            r.wf(),
    {
        IngestionNode { id: None, path, chunk, vector: None, metadata: Vec::new() }
    }

    /// The text to embed: each attribute as `key: value` on its own line, then a
    /// newline, then the content.
    pub fn as_embeddable(&self) -> (r: String)
        ensures
            r@ == embeddable(attrs_view(self.metadata@), self.chunk@),
    {
        let ghost av = attrs_view(self.metadata@);
        let mut out = String::new();
        let n = self.metadata.len();
        let mut i: usize = 0;
        while i < n
            invariant
                n == self.metadata@.len(),
                av == attrs_view(self.metadata@),
                i <= n,
                out@ == attr_lines(av.take(i as int)),
            decreases n - i,
        {
            let ghost before = out@;
            if i > 0 {
                out.append("\n");
            }
            out.append(self.metadata[i].0.as_str());
            out.append(": ");
            out.append(self.metadata[i].1.as_str());
            proof {
                assert(av.take(i + 1).drop_last() =~= av.take(i as int));
                assert(av.take(i + 1).last() == av[i as int]);
                if i == 0 {
                    assert(before =~= Seq::<char>::empty());
                }
            }
            i = i + 1;
        }
        assert(av.take(n as int) =~= av);
        out.append("\n");
        out.append(self.chunk.as_str());
        out
    }

    /// The fingerprint of the node, computed from its path and content only.
    pub fn calculate_hash(&self) -> (r: u64)
        ensures
            r == self.fingerprint(),
    {
        hash_path_and_chunk(self.path.as_str(), self.chunk.as_str())
    }

    /// Sets attribute `key` to `value`, replacing an earlier value of that key.
    pub fn insert_attribute(&mut self, key: String, value: String)
        requires
            old(self).wf(),
        ensures
            final(self).wf(),
            final(self).attr_model() == old(self).attr_model().insert(key@, value@),
            final(self).id == old(self).id,
            final(self).path == old(self).path,
            final(self).chunk == old(self).chunk,
            final(self).vector == old(self).vector,
    {
        let ghost s0 = attrs_view(self.metadata@);
        let n = self.metadata.len();
        let mut i: usize = 0;
        while i < n
            invariant
                n == self.metadata@.len(),
                s0 == attrs_view(self.metadata@),
                *self == *old(self),
                keys_unique(s0),
                i <= n,
                forall|j: int| 0 <= j < i ==> s0[j].0 != key@,
            decreases n - i,
        {
            if self.metadata[i].0 == key {
                let ghost k = key@;
                let ghost v = value@;
                self.metadata.set(i, (key, value));
                proof {
                    assert(attrs_view(self.metadata@) =~= s0.update(i as int, (k, v)));
                    lemma_update_existing(s0, i as int, v);
                }
                return;
            }
            i = i + 1;
        }
        let ghost k = key@;
        let ghost v = value@;
        self.metadata.push((key, value));
        proof {
            let s1 = attrs_view(self.metadata@);
            assert(s1 =~= s0.push((k, v)));
            assert(s1.drop_last() =~= s0);
        }
    }

    /// Fresh nodes, one for each piece, each with the path of `self`.
    pub fn split(&self, pieces: Vec<String>) -> (r: Vec<IngestionNode>)
        ensures
            r@.len() == pieces@.len(),
            forall|i: int|
                0 <= i < r@.len() ==> {
                    &&& #[trigger] r@[i].path@ == self.path@
                    &&& r@[i].chunk@ == pieces@[i]@
                    &&& r@[i].id is None
                    &&& r@[i].vector is None
                    &&& r@[i].metadata@.len() == 0
                },
    {
        let mut out: Vec<IngestionNode> = Vec::new();
        let n = pieces.len();
        let mut i: usize = 0;
        while i < n
            invariant
                n == pieces@.len(),
                i <= n,
                out@.len() == i,
                forall|j: int|
                    0 <= j < i ==> {
                        &&& #[trigger] out@[j].path@ == self.path@
                        &&& out@[j].chunk@ == pieces@[j]@
                        &&& out@[j].id is None
                        &&& out@[j].vector is None
                        &&& out@[j].metadata@.len() == 0
                    },
            decreases n - i,
        {
            out.push(IngestionNode::new(self.path.clone(), pieces[i].clone()));
            i = i + 1;
        }
        out
    }
}

/// Replacing the value at the one position holding a key acts on the mapping as an insert.
proof fn lemma_update_existing(s: Seq<AttrView>, i: int, v: Seq<char>)
    requires
        keys_unique(s),
        0 <= i < s.len(),
    ensures
        attr_map(s.update(i, (s[i].0, v))) == attr_map(s).insert(s[i].0, v),
        keys_unique(s.update(i, (s[i].0, v))),
    decreases s.len(),
{
    let k = s[i].0;
    let t = s.update(i, (k, v));
    if i == s.len() - 1 {
        assert(t.drop_last() =~= s.drop_last());
        assert(attr_map(t) =~= attr_map(s).insert(k, v));
    } else {
        let d = s.drop_last();
        assert(t.drop_last() =~= d.update(i, (k, v)));
        assert(d[i] == s[i]);
        lemma_update_existing(d, i, v);
        assert(s.last().0 != k);
        assert(attr_map(t) =~= attr_map(s).insert(k, v));
    }
    assert(keys_unique(t));
}

/// Nodes with equal path and content have equal fingerprints, whatever their
/// identities, vectors and metadata.
pub proof fn lemma_fingerprint_determined(a: IngestionNode, b: IngestionNode)
    requires
        a.path@ == b.path@,
        a.chunk@ == b.chunk@,
    ensures
        a.fingerprint() == b.fingerprint(),
{
}

} // verus!
