use vstd::prelude::*;

use crate::error::{C2paError, StreamError};
use crate::stream::{C2paStream, StreamCallbacks};

verus! {

/// One named byte blob of a manifest.
pub struct ResourceEntry {
    pub id: String,
    pub data: Vec<u8>,
}

/// One manifest of a store, with its resources.
pub struct ManifestEntry {
    pub label: String,
    pub resources: Vec<ResourceEntry>,
}

/// What the reader keeps of a parsed store: its JSON report and the resources
/// of each manifest, as plain values.
pub struct StoreSnapshot {
    pub json: String,
    pub manifests: Vec<ManifestEntry>,
}

/// `i` is the first manifest labelled `label`.
pub open spec fn first_label(ms: Seq<ManifestEntry>, i: int, label: Seq<char>) -> bool {
    &&& 0 <= i < ms.len()
    &&& ms[i].label@ == label
    &&& forall|j: int| 0 <= j < i ==> ms[j].label@ != label
}

/// `k` is the first resource with id `id`.
pub open spec fn first_id(rs: Seq<ResourceEntry>, k: int, id: Seq<char>) -> bool {
    &&& 0 <= k < rs.len()
    &&& rs[k].id@ == id
    &&& forall|j: int| 0 <= j < k ==> rs[j].id@ != id
}

/// Some manifest is labelled `label`.
pub open spec fn has_label(ms: Seq<ManifestEntry>, label: Seq<char>) -> bool {
    exists|i: int| first_label(ms, i, label)
}

/// The bytes of resource `id` of manifest `label`, or the key that was not
/// found: the label when no manifest has it, else the id.
pub open spec fn resource_result(ms: Seq<ManifestEntry>, label: Seq<char>, id: Seq<char>) -> Result<Seq<u8>, Seq<char>> {
    if has_label(ms, label) {
        let i = choose|i: int| first_label(ms, i, label);
        let rs = ms[i].resources@;
        if exists|k: int| first_id(rs, k, id) {
            let k = choose|k: int| first_id(rs, k, id);
            Ok(rs[k].data@)
        } else {
            Err(id)
        }
    } else {
        Err(label)
    }
}

/// The first match of a label, or of an id, is unique.
proof fn lemma_first_unique(ms: Seq<ManifestEntry>, i: int, label: Seq<char>)
    requires
        first_label(ms, i, label),
    ensures
        (choose|x: int| first_label(ms, x, label)) == i,
{
    let x = choose|x: int| first_label(ms, x, label);
    assert(first_label(ms, x, label));
    if x < i {
        assert(ms[x].label@ != label);
    } else if i < x {
        assert(ms[i].label@ != label);
    }
}

proof fn lemma_first_id_unique(rs: Seq<ResourceEntry>, k: int, id: Seq<char>)
    requires
        first_id(rs, k, id),
    ensures
        (choose|x: int| first_id(rs, x, id)) == k,
{
    let x = choose|x: int| first_id(rs, x, id);
    assert(first_id(rs, x, id));
    if x < k {
        assert(rs[x].id@ != id);
    } else if k < x {
        assert(rs[k].id@ != id);
    }
}

/// A resource lookup that finds the manifest but not the id, and one that
/// does not find the manifest, fail the same way: not found, with the missing
/// key.
pub proof fn lemma_not_found_symmetry(
    ms: Seq<ManifestEntry>,
    i: int,
    present: Seq<char>,
    missing_id: Seq<char>,
    missing_label: Seq<char>,
    any_id: Seq<char>,
)
    requires
        first_label(ms, i, present),
        forall|k: int| 0 <= k < ms[i].resources@.len() ==> ms[i].resources@[k].id@ != missing_id,
        !has_label(ms, missing_label),
    ensures
        resource_result(ms, present, missing_id) == Err::<Seq<u8>, Seq<char>>(missing_id),
        resource_result(ms, missing_label, any_id) == Err::<Seq<u8>, Seq<char>>(missing_label),
{
    lemma_first_unique(ms, i, present);
}

/// Lookups of two resources of one store answer each with its own bytes: what
/// one returns does not depend on the other, nor on the order of the two.
pub proof fn lemma_independent_lookups(
    ms: Seq<ManifestEntry>,
    i: int,
    label: Seq<char>,
    k1: int,
    id1: Seq<char>,
    k2: int,
    id2: Seq<char>,
)
    requires
        first_label(ms, i, label),
        first_id(ms[i].resources@, k1, id1),
        first_id(ms[i].resources@, k2, id2),
    ensures
        resource_result(ms, label, id1) == Ok::<Seq<u8>, Seq<char>>(ms[i].resources@[k1].data@),
        resource_result(ms, label, id2) == Ok::<Seq<u8>, Seq<char>>(ms[i].resources@[k2].data@),
{
    lemma_first_unique(ms, i, label);
    lemma_first_id_unique(ms[i].resources@, k1, id1);
    lemma_first_id_unique(ms[i].resources@, k2, id2);
}

/// Relies on `Reader::default` and `Reader::json`: the JSON report of an empty
/// store.
#[verifier::external_body]
fn empty_store_json() -> (r: String) {
    c2pa::Reader::default().json()
}

/// The engine's parsed manifest store.
#[verifier::external_type_specification]
#[verifier::external_body]
pub struct ExReader(c2pa::Reader);

/// What a parsed store holds: for each manifest label, its resources by id.
pub uninterp spec fn reader_resources(r: c2pa::Reader) -> Map<Seq<char>, Map<Seq<char>, Seq<u8>>>;

/// The JSON report of a parsed store.
pub uninterp spec fn reader_json(r: c2pa::Reader) -> Seq<char>;

/// A lookup in a map of manifests: the bytes, or the key that is missing.
pub open spec fn map_lookup(m: Map<Seq<char>, Map<Seq<char>, Seq<u8>>>, label: Seq<char>, id: Seq<char>) -> Result<Seq<u8>, Seq<char>> {
    if m.contains_key(label) {
        if m[label].contains_key(id) {
            Ok(m[label][id])
        } else {
            Err(id)
        }
    } else {
        Err(label)
    }
}

/// The manifests `ms` answer every lookup as the map `m` does.
pub open spec fn answers_as(ms: Seq<ManifestEntry>, m: Map<Seq<char>, Map<Seq<char>, Seq<u8>>>) -> bool {
    forall|label: Seq<char>, id: Seq<char>| #[trigger] resource_result(ms, label, id) == map_lookup(m, label, id)
}

/// Relies on `Reader::from_stream`: parses and validates the store held in
/// `bytes`, of the given format.
#[verifier::external_body]
fn parse_store(format: &str, bytes: Vec<u8>) -> (r: Result<c2pa::Reader, c2pa::Error>) {
    c2pa::Reader::from_stream(format, std::io::Cursor::new(bytes))
}

/// Relies on `Reader::json`: the store's JSON report, a function of the store.
#[verifier::external_body]
fn store_json(reader: &c2pa::Reader) -> (r: String)
    ensures
        r@ == reader_json(*reader),
{
    reader.json()
}

/// Relies on `Reader::manifests` and `ResourceStore::resources`: each manifest
/// with a copy of its resources. Both are hash maps, so labels are unique and
/// so are the ids of one manifest: a first match is the only match.
#[verifier::external_body]
fn store_manifests(reader: &c2pa::Reader) -> (r: Vec<ManifestEntry>)
    ensures
        answers_as(r@, reader_resources(*reader)),
{
    reader.manifests().iter().map(|(label, m)| ManifestEntry {
        label: label.clone(),
        resources: m.resources().resources().iter().map(|(id, data)| ResourceEntry {
            id: id.clone(),
            data: data.clone(),
        }).collect(),
    }).collect()
}

/// Checks a stream as a store of the default image format and returns its
/// JSON report.
pub fn verify_stream<C: StreamCallbacks>(stream: &mut C2paStream<C>) -> (r: Result<String, C2paError>)
    ensures
        r is Ok ==> exists|p: c2pa::Reader| r->Ok_0@ == #[trigger] reader_json(p),
        r is Err ==> r->Err_0 is Stream || r->Err_0 is Sdk,
{
    let mut reader = ManifestStoreReader::new();
    reader.read("image/jpeg", stream)
}

/// Reads a manifest store from a stream and answers queries on the last one
/// read.
pub struct ManifestStoreReader {
    pub store: StoreSnapshot,
}

impl ManifestStoreReader {
    /// A reader that holds an empty store.
    pub fn new() -> (r: Self)
        ensures
            r.store.manifests@.len() == 0,
    {
        ManifestStoreReader { store: StoreSnapshot { json: empty_store_json(), manifests: Vec::new() } }
    }

    /// Replaces the held store wholesale and returns the new store's JSON.
    pub fn replace_store(&mut self, store: StoreSnapshot) -> (r: String)
        ensures
            final(self).store == store,
            r@ == store.json@,
    {
        let json = store.json.clone();
        self.store = store;
        json
    }

    /// Replaces the held store wholesale with a parsed one and returns its
    /// JSON: afterwards every lookup answers as the parsed store does, and
    /// nothing of the store held before is left.
    pub fn install(&mut self, parsed: c2pa::Reader) -> (r: String)
        ensures
            answers_as(final(self).store.manifests@, reader_resources(parsed)),
            final(self).store.json@ == reader_json(parsed),
            r@ == reader_json(parsed),
    {
        let snapshot = StoreSnapshot { json: store_json(&parsed), manifests: store_manifests(&parsed) };
        self.replace_store(snapshot)
    }

    /// Parses `bytes` as a store of the given format and, on success, installs
    /// it. A parse failure is the engine's error and keeps the held store.
    pub fn read_bytes(&mut self, format: &str, bytes: Vec<u8>) -> (r: Result<String, C2paError>)
        ensures
            r is Ok ==> exists|p: c2pa::Reader| {
                &&& answers_as(final(self).store.manifests@, #[trigger] reader_resources(p))
                &&& final(self).store.json@ == reader_json(p)
                &&& r->Ok_0@ == reader_json(p)
            },
            r is Err ==> r->Err_0 is Sdk && final(self).store == old(self).store,
    {
        match parse_store(format, bytes) {
            Ok(parsed) => {
                let json = self.install(parsed);
                assert(answers_as(self.store.manifests@, reader_resources(parsed)));
                Ok(json)
            },
            Err(e) => Err(C2paError::Sdk(e)),
        }
    }

    /// Reads the whole stream, parses it as a store of the given format and,
    /// on success, replaces the held store with it and returns its JSON. A
    /// failing read is a stream error, a failing parse the engine's error; on
    /// either the held store is kept.
    pub fn read<C: StreamCallbacks>(&mut self, format: &str, stream: &mut C2paStream<C>) -> (r: Result<String, C2paError>)
        ensures
            r is Ok ==> exists|p: c2pa::Reader| {
                &&& answers_as(final(self).store.manifests@, #[trigger] reader_resources(p))
                &&& final(self).store.json@ == reader_json(p)
                &&& r->Ok_0@ == reader_json(p)
            },
            r is Err ==> final(self).store == old(self).store,
            r is Err ==> r->Err_0 is Sdk || r->Err_0 == C2paError::Stream(StreamError::ReadFailed)
                || r->Err_0 == C2paError::Stream(StreamError::TooLarge),
    {
        let bytes = match stream.read_to_end() {
            Ok(b) => b,
            Err(e) => {
                return Err(C2paError::Stream(e));
            },
        };
        self.read_bytes(format, bytes)
    }

    /// The held store's JSON.
    pub fn json(&self) -> (r: String)
        ensures
            r@ == self.store.json@,
    {
        self.store.json.clone()
    }

    /// The bytes of resource `id` of the manifest labelled `manifest`. A
    /// missing manifest and a missing resource fail alike, with
    /// `ResourceNotFound` and the key that was not found.
    pub fn resource(&self, manifest: &str, id: &str) -> (r: Result<Vec<u8>, C2paError>)
        ensures
            match resource_result(self.store.manifests@, manifest@, id@) {
                Ok(b) => r is Ok && r->Ok_0@ == b,
                Err(key) => r is Err && r->Err_0 is ResourceNotFound && r->Err_0->ResourceNotFound_0@ == key,
            },
    {
        let label = manifest.to_owned();
        let key = id.to_owned();
        let ms = &self.store.manifests;
        let mut i: usize = 0;
        while i < ms.len()
            invariant
                i <= ms@.len(),
                ms@ == self.store.manifests@,
                label@ == manifest@,
                key@ == id@,
                forall|j: int| 0 <= j < i ==> ms@[j].label@ != manifest@,
            decreases ms@.len() - i,
        {
            if ms[i].label == label {
                proof {
                    lemma_first_unique(ms@, i as int, manifest@);
                }
                let rs = &ms[i].resources;
                let mut k: usize = 0;
                while k < rs.len()
                    invariant
                        k <= rs@.len(),
                        key@ == id@,
                        i < ms@.len(),
                        ms@ == self.store.manifests@,
                        rs@ == ms@[i as int].resources@,
                        first_label(ms@, i as int, manifest@),
                        (choose|x: int| first_label(ms@, x, manifest@)) == i,
                        forall|j: int| 0 <= j < k ==> rs@[j].id@ != id@,
                    decreases rs@.len() - k,
                {
                    if rs[k].id == key {
                        proof {
                            lemma_first_id_unique(rs@, k as int, id@);
                            assert(first_id(rs@, k as int, id@));
                        }
                        let data = rs[k].data.clone();
                        assert(data@ =~= rs@[k as int].data@);
                        return Ok(data);
                    }
                    k = k + 1;
                }
                return Err(C2paError::ResourceNotFound(key));
            }
            i = i + 1;
        }
        Err(C2paError::ResourceNotFound(label))
    }

    /// Writes resource `id` of manifest `manifest` to the stream. A failed
    /// lookup returns the lookup's own error and leaves the stream untouched;
    /// an empty resource is written without any callback.
    pub fn resource_write<C: StreamCallbacks>(&self, manifest: &str, id: &str, stream: &mut C2paStream<C>) -> (r: Result<(), C2paError>)
        ensures
            match resource_result(self.store.manifests@, manifest@, id@) {
                Ok(b) => {
                    &&& b.len() == 0 ==> r is Ok && *final(stream) == *old(stream)
                    &&& r is Err ==> r->Err_0 == C2paError::Stream(StreamError::WriteFailed)
                        || r->Err_0 == C2paError::Stream(StreamError::WriteZero)
                },
                Err(key) => {
                    &&& r is Err && r->Err_0 is ResourceNotFound && r->Err_0->ResourceNotFound_0@ == key
                    &&& *final(stream) == *old(stream)
                },
            },
    {
        let bytes = match self.resource(manifest, id) {
            Ok(b) => b,
            Err(e) => {
                return Err(e);
            },
        };
        match stream.write_all(bytes.as_slice()) {
            Ok(()) => Ok(()),
            Err(e) => Err(C2paError::Stream(e)),
        }
    }
}

} // verus!
