use vstd::prelude::*;

verus! {

#[verifier::external_type_specification]
#[verifier::external_body]
pub struct ExBincodeErrorKind(bincode::ErrorKind);

/// One index entry as it travels in the blob: the lookup key, then the
/// storage key, the modification time and the size of the asset.
///
/// Its encoding is the same as that of one entry of a map from a string to a
/// record of a string and two `u64`s, which is how the index is produced.
pub type RawEntry = (String, String, u64, u64);

/// What a sequence of raw entries holds, as plain values.
pub open spec fn raw_entries_view(v: Seq<RawEntry>) -> Seq<(Seq<char>, Seq<char>, u64, u64)> {
    v.map_values(|e: RawEntry| (e.0@, e.1@, e.2, e.3))
}

/// The entries that bincode's default decoding reads from `bytes`, or `None`
/// where it refuses them. It depends on the bytes alone.
pub uninterp spec fn bincode_entries(bytes: Seq<u8>) -> Option<Seq<(Seq<char>, Seq<char>, u64, u64)>>;

/// Relies on `bincode::deserialize` (default, fixed-width configuration): it
/// either reads a sequence of entries from the bytes or reports an error.
#[verifier::external_body]
pub(crate) fn decode_entries(bytes: &[u8]) -> (r: Result<Vec<RawEntry>, bincode::Error>)
    ensures
        r is Ok <==> bincode_entries(bytes@) is Some,
        r is Ok ==> raw_entries_view(r->Ok_0@) == bincode_entries(bytes@)->Some_0,
{
    bincode::deserialize::<Vec<RawEntry>>(bytes)
}

/// Relies on `bincode::serialize` (same configuration): with no size limit
/// and a sequence of known length it always succeeds, and what it writes
/// `bincode::deserialize` reads back as the same entries.
#[verifier::external_body]
pub(crate) fn encode_entries(entries: &Vec<RawEntry>) -> (r: Result<Vec<u8>, bincode::Error>)
    ensures
        r is Ok,
        r is Ok ==> bincode_entries(r->Ok_0@) == Some(raw_entries_view(entries@)),
{
    bincode::serialize(entries)
}

} // verus!
