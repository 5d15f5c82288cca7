use vstd::prelude::*;
use vstd::utf8::encode_utf8;
use crate::digest::{keccak256, keccak256_of};

verus! {

/// How many leading bytes of a key are kept in plain text beside its hash.
pub const PREFIX_LEN: usize = 10;

/// One entry of the allow-list: the hash of a key and its first bytes.
#[derive(Clone, Debug)]
pub struct CredentialRecord {
    pub key_hash: Vec<u8>,
    pub key_prefix: Vec<u8>,
}

/// An allow-list entry as a mathematical value.
pub struct CredentialV {
    pub key_hash: Seq<u8>,
    pub key_prefix: Seq<u8>,
}

impl View for CredentialRecord {
    type V = CredentialV;

    open spec fn view(&self) -> CredentialV {
        CredentialV { key_hash: self.key_hash@, key_prefix: self.key_prefix@ }
    }
}

/// An allow-list as a sequence of entry values.
pub open spec fn records_view(v: Seq<CredentialRecord>) -> Seq<CredentialV> {
    v.map_values(|c: CredentialRecord| c@)
}

/// The bytes of a key: its UTF-8 encoding.
pub open spec fn key_bytes(key: Seq<char>) -> Seq<u8> {
    encode_utf8(key)
}

/// The first `PREFIX_LEN` bytes of `b`, or all of them where there are fewer.
pub open spec fn prefix_of(b: Seq<u8>) -> Seq<u8> {
    if b.len() <= PREFIX_LEN {
        b
    } else {
        b.subrange(0, PREFIX_LEN as int)
    }
}

/// The allow-list entry that registers `key`.
pub open spec fn record_of_key(key: Seq<char>) -> CredentialV {
    CredentialV { key_hash: keccak256_of(key_bytes(key)), key_prefix: prefix_of(key_bytes(key)) }
}

/// Some entry holds both this hash and this prefix.
pub open spec fn list_matches(records: Seq<CredentialV>, hash: Seq<u8>, prefix: Seq<u8>) -> bool {
    exists|i: int|
        0 <= i < records.len() && (#[trigger] records[i]).key_hash == hash && records[i].key_prefix
            == prefix
}

/// The allow-list accepts `key`: it is not empty, and some entry holds its
/// hash and its prefix.
pub open spec fn key_accepted(records: Seq<CredentialV>, key: Seq<char>) -> bool {
    key.len() > 0 && list_matches(records, record_of_key(key).key_hash, record_of_key(key).key_prefix)
}

/// Whether two byte sequences are equal.
pub fn bytes_equal(a: &[u8], b: &[u8]) -> (r: bool)
    ensures
        r == (a@ == b@),
{
    if a.len() != b.len() {
        return false;
    }
    let mut i: usize = 0;
    while i < a.len()
        invariant
            a@.len() == b@.len(),
            i <= a@.len(),
            forall|j: int| 0 <= j < i ==> a@[j] == b@[j],
        decreases a.len() - i,
    {
        if a[i] != b[i] {
            return false;
        }
        i = i + 1;
    }
    assert(a@ =~= b@);
    true
}

/// The first `PREFIX_LEN` bytes of `b`.
pub fn take_prefix(b: &[u8]) -> (r: Vec<u8>)
    ensures
        r@ == prefix_of(b@),
{
    let n: usize = if b.len() < PREFIX_LEN {
        b.len()
    } else {
        PREFIX_LEN
    };
    let mut r: Vec<u8> = Vec::new();
    let mut i: usize = 0;
    while i < n
        invariant
            n <= b@.len(),
            n == (if b@.len() < PREFIX_LEN { b@.len() } else { PREFIX_LEN as nat }),
            i <= n,
            r@ =~= b@.subrange(0, i as int),
        decreases n - i,
    {
        r.push(b[i]);
        i = i + 1;
    }
    assert(b@.subrange(0, b@.len() as int) =~= b@);
    r
}

/// The allow-list entry that registers `api_key`: the hash of its bytes and
/// their first `PREFIX_LEN`.
pub fn credential_record(api_key: &str) -> (r: CredentialRecord)
    ensures
        r@ == record_of_key(api_key@),
{
    let bytes = api_key.as_bytes();
    let key_hash = keccak256(bytes);
    let key_prefix = take_prefix(bytes);
    CredentialRecord { key_hash, key_prefix }
}

/// Whether some entry of the allow-list holds both `hash` and `prefix`.
pub fn credential_matches(records: &Vec<CredentialRecord>, hash: &Vec<u8>, prefix: &Vec<u8>) -> (r: bool)
    ensures
        r == list_matches(records_view(records@), hash@, prefix@),
{
    let ghost rv = records_view(records@);
    let mut i: usize = 0;
    while i < records.len()
        invariant
            i <= records@.len(),
            rv == records_view(records@),
            forall|j: int|
                0 <= j < i ==> !((#[trigger] rv[j]).key_hash == hash@ && rv[j].key_prefix
                    == prefix@),
        decreases records.len() - i,
    {
        let rec = &records[i];
        assert(rv[i as int] == rec@);
        if bytes_equal(rec.key_hash.as_slice(), hash.as_slice()) && bytes_equal(
            rec.key_prefix.as_slice(),
            prefix.as_slice(),
        ) {
            return true;
        }
        i = i + 1;
    }
    false
}

/// Whether the allow-list accepts `candidate`: it is not empty, and some
/// entry holds both the hash of its bytes and their first `PREFIX_LEN`.
pub fn verify(records: &Vec<CredentialRecord>, candidate: &str) -> (r: bool)
    ensures
        r == key_accepted(records_view(records@), candidate@),
{
    if candidate.is_empty() {
        return false;
    }
    let rec = credential_record(candidate);
    credential_matches(records, &rec.key_hash, &rec.key_prefix)
}

/// A non-empty key whose entry has been added to an allow-list is accepted
/// by it; the empty key is accepted by no allow-list.
pub proof fn lemma_registered_key_accepted(records: Seq<CredentialV>, key: Seq<char>)
    ensures
        key.len() > 0 ==> key_accepted(records.push(record_of_key(key)), key),
        !key_accepted(records, Seq::<char>::empty()),
{
    let r = records.push(record_of_key(key));
    assert(r[records.len() as int] == record_of_key(key));
}

} // verus!
