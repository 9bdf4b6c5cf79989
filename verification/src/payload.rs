use vstd::prelude::*;
use vstd::string::*;

verus! {

/// One metadata entry of a payload: a key and the bytes stored under it.
#[derive(Debug, Clone, PartialEq, Eq)]
pub struct MetadataEntry {
    pub key: String,
    pub value: Vec<u8>,
}

/// A serialized value as it travels between a workflow and the server:
/// metadata that says how the data is encoded, and the data itself.
///
/// The metadata maps keys to bytes: a payload is meant to hold each key at
/// most once (`metadata_keys_unique`), and every payload this library builds
/// does. Lookups read the first entry of a key, so a list that repeats a key
/// still has one definite meaning.
#[derive(Debug, Clone, PartialEq, Eq)]
pub struct Payload {
    pub metadata: Vec<MetadataEntry>,
    pub data: Vec<u8>,
}

/// Error when a payload cannot be turned into a value.
#[derive(Debug, Clone, PartialEq, Eq)]
pub enum PayloadDecodeError {
    /// The payload is not marked as JSON, so this decoder does not handle it.
    DeserializerDoesNotHandle,
    /// The payload is marked as JSON but its data could not be deserialized.
    DeserializeErr(String),
}

/// The mathematical content of a payload.
pub struct PayloadView {
    pub metadata: Seq<(Seq<char>, Seq<u8>)>,
    pub data: Seq<u8>,
}

impl View for MetadataEntry {
    type V = (Seq<char>, Seq<u8>);

    open spec fn view(&self) -> (Seq<char>, Seq<u8>) {
        (self.key@, self.value@)
    }
}

impl View for Payload {
    type V = PayloadView;

    open spec fn view(&self) -> PayloadView {
        PayloadView {
            metadata: self.metadata@.map_values(|e: MetadataEntry| e@),
            data: self.data@,
        }
    }
}

/// The metadata key under which a payload names its encoding.
pub open spec fn encoding_key() -> Seq<char> {
    "encoding"@
}

/// The bytes of `json/plain`, the encoding of JSON payloads.
pub open spec fn json_encoding() -> Seq<u8> {
    seq![106u8, 115u8, 111u8, 110u8, 47u8, 112u8, 108u8, 97u8, 105u8, 110u8]
}

/// The value stored under `key` in an association list: that of its first entry.
pub open spec fn metadata_lookup(entries: Seq<(Seq<char>, Seq<u8>)>, key: Seq<char>) -> Option<Seq<u8>>
    decreases entries.len(),
{
    if entries.len() == 0 {
        None
    } else if entries[0].0 == key {
        Some(entries[0].1)
    } else {
        metadata_lookup(entries.drop_first(), key)
    }
}

/// No key occurs in two entries.
pub open spec fn metadata_keys_unique(entries: Seq<(Seq<char>, Seq<u8>)>) -> bool {
    forall|i: int, j: int|
        0 <= i < entries.len() && 0 <= j < entries.len() && i != j ==> #[trigger] entries[i].0 != #[trigger] entries[j].0
}

/// In metadata whose keys are unique, looking up the key of any entry gives
/// that entry's value.
pub proof fn lemma_unique_metadata_lookup(entries: Seq<(Seq<char>, Seq<u8>)>, i: int)
    requires
        metadata_keys_unique(entries),
        0 <= i < entries.len(),
    ensures
        metadata_lookup(entries, entries[i].0) == Some(entries[i].1),
    decreases i,
{
    if i > 0 {
        let rest = entries.drop_first();
        assert(entries[0].0 != entries[i].0);
        assert(rest[i - 1] == entries[i]);
        assert forall|a: int, b: int|
            0 <= a < rest.len() && 0 <= b < rest.len() && a != b implies #[trigger] rest[a].0 != #[trigger] rest[b].0 by {
            assert(rest[a] == entries[a + 1]);
            assert(rest[b] == entries[b + 1]);
        }
        lemma_unique_metadata_lookup(rest, i - 1);
    }
}

/// A payload is JSON when its encoding entry reads `json/plain`.
pub open spec fn is_json(p: PayloadView) -> bool {
    metadata_lookup(p.metadata, encoding_key()) == Some(json_encoding())
}

/// The JSON payload that carries `data`.
pub open spec fn json_payload(data: Seq<u8>) -> PayloadView {
    PayloadView { metadata: seq![(encoding_key(), json_encoding())], data }
}

/// What a JSON decoder reads from a payload: its data when it is JSON, nothing otherwise.
pub open spec fn json_data(p: PayloadView) -> Option<Seq<u8>> {
    if is_json(p) {
        Some(p.data)
    } else {
        None
    }
}

/// Whatever bytes a JSON payload is made of, a JSON decoder reads exactly those bytes back.
pub proof fn lemma_json_payload_roundtrip(data: Seq<u8>)
    ensures
        is_json(json_payload(data)),
        json_data(json_payload(data)) == Some(data),
{
    let p = json_payload(data);
    assert(p.metadata[0].0 == encoding_key());
}

/// The bytes of `json/plain`.
fn json_encoding_bytes() -> (v: Vec<u8>)
    ensures
        v@ == json_encoding(),
{
    let v: Vec<u8> = vec![106u8, 115u8, 111u8, 110u8, 47u8, 112u8, 108u8, 97u8, 105u8, 110u8];
    assert(v@ =~= json_encoding());
    v
}

/// Whether two byte strings are equal.
fn same_bytes(a: &Vec<u8>, b: &Vec<u8>) -> (r: bool)
    ensures
        r == (a@ == b@),
{
    if a.len() != b.len() {
        return false;
    }
    let mut i: usize = 0;
    while i < a.len()
        invariant
            a.len() == b.len(),
            i <= a.len(),
            forall|j: int| 0 <= j < i ==> a@[j] == b@[j],
        decreases a.len() - i,
    {
        if a[i] != b[i] {
            return false;
        }
        i = i + 1;
    }
    assert(a@ =~= b@);
    true
}

impl Default for Payload {
    fn default() -> (p: Self)
        ensures
            p@.metadata.len() == 0,
            p@.data.len() == 0,
            metadata_keys_unique(p@.metadata),
    {
        Payload { metadata: Vec::new(), data: Vec::new() }
    }
}

impl Payload {
    /// Frames serialized JSON text as a payload marked `json/plain`.
    pub fn json(data: Vec<u8>) -> (p: Payload)
        ensures
            p@ == json_payload(data@),
            metadata_keys_unique(p@.metadata),
            p@.data == data@,
            p@.metadata.len() == 1,
            p@.metadata[0].0 == "encoding"@,
            p@.metadata[0].1 == seq![106u8, 115u8, 111u8, 110u8, 47u8, 112u8, 108u8, 97u8, 105u8, 110u8],
    {
        let entry = MetadataEntry { key: String::from_str("encoding"), value: json_encoding_bytes() };
        let mut metadata: Vec<MetadataEntry> = Vec::new();
        metadata.push(entry);
        let p = Payload { metadata, data };
        assert(p@.metadata =~= seq![(encoding_key(), json_encoding())]);
        p
    }

    /// The value of the first metadata entry whose key is `key`.
    pub fn metadata_value(&self, key: &String) -> (r: Option<&Vec<u8>>)
        ensures
            r is None <==> metadata_lookup(self@.metadata, key@) is None,
            r matches Some(v) ==> metadata_lookup(self@.metadata, key@) == Some(v@),
    {
        let ghost entries = self@.metadata;
        let mut i: usize = 0;
        assert(entries.skip(0) =~= entries);
        while i < self.metadata.len()
            invariant
                i <= self.metadata.len(),
                entries == self@.metadata,
                entries.len() == self.metadata.len(),
                metadata_lookup(entries, key@) == metadata_lookup(entries.skip(i as int), key@),
            decreases self.metadata.len() - i,
        {
            let entry = &self.metadata[i];
            proof {
                let rest = entries.skip(i as int);
                assert(rest[0] == entry@);
                assert(rest.drop_first() =~= entries.skip(i + 1));
            }
            if entry.key == *key {
                return Some(&entry.value);
            }
            i = i + 1;
        }
        proof {
            assert(entries.skip(i as int).len() == 0);
        }
        None
    }

    /// The data of a JSON payload, ready for a JSON deserializer; a payload
    /// that is not marked `json/plain` is refused.
    pub fn json_data(&self) -> (r: Result<&Vec<u8>, PayloadDecodeError>)
        ensures
            match json_data(self@) {
                Some(d) => r matches Ok(v) && v@ == d,
                None => r == Err::<&Vec<u8>, PayloadDecodeError>(PayloadDecodeError::DeserializerDoesNotHandle),
            },
            r is Ok <==> metadata_lookup(self@.metadata, "encoding"@)
                == Some(seq![106u8, 115u8, 111u8, 110u8, 47u8, 112u8, 108u8, 97u8, 105u8, 110u8]),
            r matches Ok(v) ==> v@ == self@.data,
            r is Err ==> r == Err::<&Vec<u8>, PayloadDecodeError>(PayloadDecodeError::DeserializerDoesNotHandle),
    {
        let key = String::from_str("encoding");
        match self.metadata_value(&key) {
            Some(v) => {
                let expected = json_encoding_bytes();
                if same_bytes(v, &expected) {
                    Ok(&self.data)
                } else {
                    Err(PayloadDecodeError::DeserializerDoesNotHandle)
                }
            },
            None => Err(PayloadDecodeError::DeserializerDoesNotHandle),
        }
    }
}

/// Looking up a key reads its first entry: it finds nothing exactly when no
/// entry has the key, and otherwise the value of an entry with the key that
/// no earlier entry with the key precedes.
pub proof fn lemma_metadata_lookup_reads_the_first_entry(entries: Seq<(Seq<char>, Seq<u8>)>, key: Seq<char>)
    ensures
        metadata_lookup(entries, key) is None <==> (forall|i: int| 0 <= i < entries.len() ==> #[trigger] entries[i].0 != key),
        metadata_lookup(entries, key) is Some ==> exists|i: int|
            0 <= i < entries.len() && #[trigger] entries[i].0 == key
                && metadata_lookup(entries, key) == Some(entries[i].1)
                && (forall|j: int| 0 <= j < i ==> #[trigger] entries[j].0 != key),
    decreases entries.len(),
{
    if entries.len() > 0 {
        let rest = entries.drop_first();
        lemma_metadata_lookup_reads_the_first_entry(rest, key);
        if entries[0].0 == key {
            assert(entries[0].0 == key && metadata_lookup(entries, key) == Some(entries[0].1));
        } else {
            assert forall|i: int| 0 <= i < rest.len() implies rest[i] == entries[i + 1] by {}
            if metadata_lookup(rest, key) is Some {
                let k = choose|k: int|
                    0 <= k < rest.len() && #[trigger] rest[k].0 == key
                        && metadata_lookup(rest, key) == Some(rest[k].1)
                        && (forall|j: int| 0 <= j < k ==> #[trigger] rest[j].0 != key);
                assert(entries[k + 1].0 == key);
                assert forall|j: int| 0 <= j < k + 1 implies #[trigger] entries[j].0 != key by {
                    if j > 0 {
                        assert(entries[j] == rest[j - 1]);
                    }
                }
            } else {
                assert forall|i: int| 0 <= i < entries.len() implies #[trigger] entries[i].0 != key by {
                    if i > 0 {
                        assert(entries[i] == rest[i - 1]);
                    }
                }
            }
        }
    }
}

/// A payload is decoded as JSON exactly when the first metadata entry under
/// `encoding` holds the bytes `json/plain`, no more and no fewer; the decoder
/// then reads the payload's data. Any other encoding value, and a payload
/// with no encoding entry, is refused.
pub proof fn lemma_json_data_needs_exactly_json_plain(p: PayloadView)
    ensures
        json_data(p) is Some <==> exists|i: int|
            0 <= i < p.metadata.len() && #[trigger] p.metadata[i].0 == "encoding"@
                && p.metadata[i].1 == seq![106u8, 115u8, 111u8, 110u8, 47u8, 112u8, 108u8, 97u8, 105u8, 110u8]
                && (forall|j: int| 0 <= j < i ==> #[trigger] p.metadata[j].0 != "encoding"@),
        json_data(p) is Some ==> json_data(p) == Some(p.data),
{
    let lit = seq![106u8, 115u8, 111u8, 110u8, 47u8, 112u8, 108u8, 97u8, 105u8, 110u8];
    assert(json_encoding() =~= lit);
    lemma_metadata_lookup_reads_the_first_entry(p.metadata, "encoding"@);
    if exists|i: int|
        0 <= i < p.metadata.len() && #[trigger] p.metadata[i].0 == "encoding"@
            && p.metadata[i].1 == lit
            && (forall|j: int| 0 <= j < i ==> #[trigger] p.metadata[j].0 != "encoding"@) {
        let i = choose|i: int|
            0 <= i < p.metadata.len() && #[trigger] p.metadata[i].0 == "encoding"@
                && p.metadata[i].1 == lit
                && (forall|j: int| 0 <= j < i ==> #[trigger] p.metadata[j].0 != "encoding"@);
        let k = choose|k: int|
            0 <= k < p.metadata.len() && #[trigger] p.metadata[k].0 == "encoding"@
                && metadata_lookup(p.metadata, "encoding"@) == Some(p.metadata[k].1)
                && (forall|j: int| 0 <= j < k ==> #[trigger] p.metadata[j].0 != "encoding"@);
        if k < i {
            assert(p.metadata[k].0 != "encoding"@);
        } else if i < k {
            assert(p.metadata[i].0 != "encoding"@);
        }
    }
}

/// A JSON payload holds one metadata entry, `encoding` = `json/plain`, and
/// exactly the data it was made from.
pub proof fn lemma_json_payload_shape(data: Seq<u8>)
    ensures
        json_payload(data).data == data,
        json_payload(data).metadata.len() == 1,
        json_payload(data).metadata[0].0 == "encoding"@,
        json_payload(data).metadata[0].1 == seq![106u8, 115u8, 111u8, 110u8, 47u8, 112u8, 108u8, 97u8, 105u8, 110u8],
{
}

} // verus!
