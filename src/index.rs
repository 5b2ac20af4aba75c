use vstd::prelude::*;

use crate::codec::{
    bincode_entries, decode_entries, encode_entries, raw_entries_view, RawEntry,
};
use crate::error::Error;

verus! {

/// Metadata of one stored asset.
#[derive(Debug, PartialEq, Eq, PartialOrd, Ord)]
pub struct AssetMetadata {
    /// Key of the asset's bytes in the store.
    pub path: String,
    /// Last modification time, in UTC seconds since the epoch.
    pub modified: u64,
    /// Size of the asset in bytes.
    pub size: u64,
}

/// The value of an [`AssetMetadata`].
pub ghost struct MetadataModel {
    pub path: Seq<char>,
    pub modified: u64,
    pub size: u64,
}

impl View for AssetMetadata {
    type V = MetadataModel;

    open spec fn view(&self) -> MetadataModel {
        MetadataModel { path: self.path@, modified: self.modified, size: self.size }
    }
}

impl Clone for AssetMetadata {
    fn clone(&self) -> (r: Self)
        ensures
            r@ == self@,
    {
        AssetMetadata { path: self.path.clone(), modified: self.modified, size: self.size }
    }
}

/// The map that a sequence of (key, metadata) entries describes: each entry
/// is inserted in turn, so a later entry replaces an earlier one of the same key.
pub open spec fn index_map(s: Seq<(Seq<char>, MetadataModel)>) -> Map<Seq<char>, MetadataModel>
    decreases s.len(),
{
    if s.len() == 0 {
        Map::empty()
    } else {
        index_map(s.drop_last()).insert(s.last().0, s.last().1)
    }
}

/// The (key, metadata) entries that raw decoded entries stand for.
pub open spec fn entries_of_raw(r: Seq<(Seq<char>, Seq<char>, u64, u64)>) -> Seq<(Seq<char>, MetadataModel)> {
    r.map_values(
        |e: (Seq<char>, Seq<char>, u64, u64)|
            (e.0, MetadataModel { path: e.1, modified: e.2, size: e.3 }),
    )
}

/// The index that a blob encodes, or `None` where the blob does not decode.
pub open spec fn decoded_index(bytes: Seq<u8>) -> Option<Map<Seq<char>, MetadataModel>> {
    match bincode_entries(bytes) {
        Some(r) => Some(index_map(entries_of_raw(r))),
        None => None,
    }
}

/// A key is the last one of its value among the entries from `i` on.
proof fn lemma_index_map_last(s: Seq<(Seq<char>, MetadataModel)>, k: Seq<char>, i: int)
    requires
        0 <= i < s.len(),
        s[i].0 == k,
        forall|j: int| i < j < s.len() ==> s[j].0 != k,
    ensures
        index_map(s).contains_key(k),
        index_map(s)[k] == s[i].1,
    decreases s.len(),
{
    if i < s.len() - 1 {
        lemma_index_map_last(s.drop_last(), k, i);
    }
}

proof fn lemma_index_map_absent(s: Seq<(Seq<char>, MetadataModel)>, k: Seq<char>)
    requires
        forall|j: int| 0 <= j < s.len() ==> s[j].0 != k,
    ensures
        !index_map(s).contains_key(k),
    decreases s.len(),
{
    if s.len() > 0 {
        lemma_index_map_absent(s.drop_last(), k);
    }
}

/// Map from normalized request path (no leading `/`) to asset metadata.
pub struct AssetIndex {
    entries: Vec<(String, AssetMetadata)>,
}

impl AssetIndex {
    /// The entries in the order in which they were added.
    pub closed spec fn entries_model(&self) -> Seq<(Seq<char>, MetadataModel)> {
        self.entries@.map_values(|e: (String, AssetMetadata)| (e.0@, e.1@))
    }
}

impl View for AssetIndex {
    type V = Map<Seq<char>, MetadataModel>;

    open spec fn view(&self) -> Map<Seq<char>, MetadataModel> {
        index_map(self.entries_model())
    }
}

impl AssetIndex {
    /// An index with no entries.
    pub fn new() -> (r: AssetIndex)
        ensures
            r@ == Map::<Seq<char>, MetadataModel>::empty(),
    {
        let r = AssetIndex { entries: Vec::new() };
        assert(r.entries_model() =~= Seq::empty());
        r
    }

    /// Records `md` under `key`, replacing what the key held.
    pub fn insert(&mut self, key: String, md: AssetMetadata)
        ensures
            final(self)@ == old(self)@.insert(key@, md@),
    {
        let ghost k = key@;
        let ghost m = md@;
        self.entries.push((key, md));
        assert(self.entries_model().drop_last() =~= old(self).entries_model());
        assert(self.entries_model().last() == (k, m));
    }

    /// The metadata recorded under `key`, if any.
    pub fn get(&self, key: &String) -> (r: Option<&AssetMetadata>)
        ensures
            r is Some <==> self@.contains_key(key@),
            r is Some ==> r->Some_0@ == self@[key@],
    {
        let n = self.entries.len();
        let mut i: usize = n;
        while i > 0
            invariant
                i <= n,
                n == self.entries@.len(),
                forall|j: int| i <= j < n ==> self.entries_model()[j].0 != key@,
            decreases i,
        {
            i = i - 1;
            if self.entries[i].0 == *key {
                proof {
                    lemma_index_map_last(self.entries_model(), key@, i as int);
                }
                return Some(&self.entries[i].1);
            }
        }
        proof {
            lemma_index_map_absent(self.entries_model(), key@);
        }
        None
    }

    /// Decodes an index blob.
    ///
    /// Fails with [`Error::DeserializeAssets`] exactly when the blob is not a
    /// valid encoding of an index.
    pub fn from_bytes(bytes: &[u8]) -> (r: Result<AssetIndex, Error>)
        ensures
            r is Ok <==> decoded_index(bytes@) is Some,
            r is Ok ==> r->Ok_0@ == decoded_index(bytes@)->Some_0,
            r is Err ==> r->Err_0 is DeserializeAssets,
    {
        match decode_entries(bytes) {
            Ok(raw) => Ok(AssetIndex::from_raw(&raw)),
            Err(e) => Err(Error::DeserializeAssets(e)),
        }
    }

    fn from_raw(raw: &Vec<RawEntry>) -> (r: AssetIndex)
        ensures
            r.entries_model() == entries_of_raw(raw_entries_view(raw@)),
    {
        let ghost target = entries_of_raw(raw_entries_view(raw@));
        let mut entries: Vec<(String, AssetMetadata)> = Vec::new();
        let mut i: usize = 0;
        while i < raw.len()
            invariant
                i <= raw@.len(),
                target == entries_of_raw(raw_entries_view(raw@)),
                target.len() == raw@.len(),
                entries@.len() == i,
                entries@.map_values(|e: (String, AssetMetadata)| (e.0@, e.1@)) =~= target.take(
                    i as int,
                ),
            decreases raw@.len() - i,
        {
            let e = &raw[i];
            let md = AssetMetadata { path: e.1.clone(), modified: e.2, size: e.3 };
            let key = e.0.clone();
            assert(raw_entries_view(raw@)[i as int] == (e.0@, e.1@, e.2, e.3));
            assert(target[i as int] == (key@, md@));
            entries.push((key, md));
            i = i + 1;
            assert(entries@.map_values(|e: (String, AssetMetadata)| (e.0@, e.1@)) =~= target.take(
                i as int,
            ));
        }
        assert(target.take(raw@.len() as int) =~= target);
        AssetIndex { entries }
    }

    /// Encodes the index as a blob that [`AssetIndex::from_bytes`] reads back
    /// as the same index.
    pub fn to_bytes(&self) -> (r: Result<Vec<u8>, Error>)
        ensures
            r is Ok,
            decoded_index(r->Ok_0@) == Some(self@),
    {
        let mut raw: Vec<RawEntry> = Vec::new();
        let mut i: usize = 0;
        while i < self.entries.len()
            invariant
                i <= self.entries@.len(),
                raw@.len() == i,
                entries_of_raw(raw_entries_view(raw@)) =~= self.entries_model().take(i as int),
            decreases self.entries@.len() - i,
        {
            let e = &self.entries[i];
            let entry: RawEntry = (e.0.clone(), e.1.path.clone(), e.1.modified, e.1.size);
            assert(self.entries_model()[i as int] == (entry.0@, MetadataModel {
                path: entry.1@,
                modified: entry.2,
                size: entry.3,
            }));
            raw.push(entry);
            assert(raw_entries_view(raw@)[i as int] == (entry.0@, entry.1@, entry.2, entry.3));
            i = i + 1;
            assert(entries_of_raw(raw_entries_view(raw@)) =~= self.entries_model().take(i as int));
        }
        assert(self.entries_model().take(self.entries@.len() as int) =~= self.entries_model());
        match encode_entries(&raw) {
            Ok(b) => Ok(b),
            // not reached: encoding a sequence of known length cannot fail
            Err(e) => Err(Error::SerializeAssets(e)),
        }
    }
}

} // verus!
