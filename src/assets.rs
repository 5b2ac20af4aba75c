use vstd::prelude::*;

use crate::error::Error;
use crate::index::{decoded_index, AssetIndex, AssetMetadata, MetadataModel};
use crate::text::{debug_list, debug_list_of, decimal, decimal_string, strings_view};

verus! {

/// Base URL of the key-value store's HTTP API.
pub const CLOUDFLARE_KV_ENDPOINT: &'static str = "https://api.cloudflare.com/client/v4";

/// Smallest expiration TTL, in seconds, that the store accepts.
pub const MIN_EXPIRATION_TTL: u64 = 60;

/// The lookup key of a request path: one leading `/`, if present, is removed.
pub open spec fn normalized(p: Seq<char>) -> Seq<char> {
    if p.len() > 0 && p[0] == '/' {
        p.drop_first()
    } else {
        p
    }
}

/// What the index `m` holds under `k`.
pub open spec fn lookup_in(m: Map<Seq<char>, MetadataModel>, k: Seq<char>) -> Option<MetadataModel> {
    if m.contains_key(k) {
        Some(m[k])
    } else {
        None
    }
}

/// The value of an optional metadata record.
pub open spec fn metadata_opt_view(o: Option<AssetMetadata>) -> Option<MetadataModel> {
    match o {
        Some(md) => Some(md@),
        None => None,
    }
}

/// URL of the value stored under `key`.
pub open spec fn value_url_of(account: Seq<char>, namespace: Seq<char>, key: Seq<char>) -> Seq<char> {
    CLOUDFLARE_KV_ENDPOINT@ + "/accounts/"@ + account + "/storage/kv/namespaces/"@ + namespace
        + "/values/"@ + key
}

/// Query suffix that carries an expiration TTL, if one is given.
pub open spec fn ttl_query(ttl: Option<u64>) -> Seq<char> {
    match ttl {
        Some(t) => "?expiration_ttl="@ + decimal(t as nat),
        None => Seq::empty(),
    }
}

/// Whether a TTL is given and is below the store's minimum.
pub open spec fn ttl_too_short(ttl: Option<u64>) -> bool {
    ttl is Some && ttl->Some_0 < MIN_EXPIRATION_TTL
}

/// Text of the error reported when the store rejects a write, given the
/// rendered lists of errors and messages.
pub open spec fn failure_text(key: Seq<char>, errors_text: Seq<char>, messages_text: Seq<char>) -> Seq<
    char,
> {
    "writing key "@ + key + ": errors:"@ + errors_text + " messages:"@ + messages_text
}

/// Text of the error reported when the store rejects a write: the key, then
/// the errors and the messages each as `{:?}` renders a list.
pub open spec fn write_failure_text(
    key: Seq<char>,
    errors: Seq<Seq<char>>,
    messages: Seq<Seq<char>>,
) -> Seq<char> {
    failure_text(key, debug_list_of(errors), debug_list_of(messages))
}

/// Whether an HTTP status code is a success (2xx).
pub open spec fn is_success_status(status: u16) -> bool {
    200 <= status < 300
}

/// Relies on `str::strip_prefix` with a `char` pattern: the text after one
/// leading `/`, when the string starts with one.
#[verifier::external_body]
fn strip_leading_slash(s: &str) -> (r: Option<&str>)
    ensures
        r is Some <==> (s@.len() > 0 && s@[0] == '/'),
        r is Some ==> r->Some_0@ == s@.drop_first(),
{
    s.strip_prefix('/')
}

/// Resolves request paths against an index of stored assets, and prepares
/// and judges the exchanges with the key-value store that holds them.
pub struct KVAssets<'ah> {
    index: &'ah [u8],
    account_id: &'ah str,
    namespace_id: &'ah str,
    auth_token: &'ah str,
    map: Option<AssetIndex>,
}

impl<'ah> KVAssets<'ah> {
    /// The encoded index.
    pub closed spec fn index_bytes(&self) -> Seq<u8> {
        self.index@
    }

    pub closed spec fn account(&self) -> Seq<char> {
        self.account_id@
    }

    pub closed spec fn namespace(&self) -> Seq<char> {
        self.namespace_id@
    }

    pub closed spec fn token(&self) -> Seq<char> {
        self.auth_token@
    }

    /// The decoded index, once it has been decoded.
    pub closed spec fn loaded(&self) -> Option<Map<Seq<char>, MetadataModel>> {
        match self.map {
            Some(m) => Some(m@),
            None => None,
        }
    }

    /// A decoded index is the one that the blob encodes.
    pub open spec fn well_formed(&self) -> bool {
        self.loaded() is Some ==> self.loaded() == decoded_index(self.index_bytes())
    }

    /// The blob and the credentials of `self` and `other` are the same.
    pub open spec fn same_source(&self, other: &KVAssets) -> bool {
        &&& self.index_bytes() == other.index_bytes()
        &&& self.account() == other.account()
        &&& self.namespace() == other.namespace()
        &&& self.token() == other.token()
    }

    /// Sets up a resolver over an encoded index and the store's credentials.
    /// Nothing is decoded yet.
    pub fn init(
        index: &'ah [u8],
        account_id: &'ah str,
        namespace_id: &'ah str,
        auth_token: &'ah str,
    ) -> (r: Self)
        ensures
            r.index_bytes() == index@,
            r.account() == account_id@,
            r.namespace() == namespace_id@,
            r.token() == auth_token@,
            r.loaded() is None,
            r.well_formed(),
    {
        KVAssets { index, account_id, namespace_id, auth_token, map: None }
    }

    /// Decodes the index unless that was done already.
    ///
    /// A decoded index is kept and never decoded again; a failure is not
    /// kept, so the next call tries again.
    pub fn ensure_map(&mut self) -> (r: Result<(), Error>)
        requires
            old(self).well_formed(),
        ensures
            final(self).well_formed(),
            final(self).same_source(old(self)),
            old(self).loaded() is Some ==> final(self).loaded() == old(self).loaded(),
            old(self).loaded() is None ==> final(self).loaded() == decoded_index(
                old(self).index_bytes(),
            ),
            r is Ok <==> decoded_index(old(self).index_bytes()) is Some,
            r is Ok ==> final(self).loaded() is Some,
            r is Err ==> r->Err_0 is DeserializeAssets,
    {
        if self.map.is_none() {
            match AssetIndex::from_bytes(self.index) {
                Ok(m) => {
                    self.map = Some(m);
                },
                Err(e) => {
                    return Err(e);
                },
            }
        }
        Ok(())
    }

    /// Finds the metadata of a request path in the index, without contacting
    /// the store.
    ///
    /// One leading `/` is removed first; an empty path then fails with
    /// [`Error::EmptyKey`]. A blob that does not decode fails with
    /// [`Error::DeserializeAssets`]. Otherwise the result is the metadata
    /// recorded under the path, or `None`.
    pub fn lookup_key(&mut self, path: &str) -> (r: Result<Option<AssetMetadata>, Error>)
        requires
            old(self).well_formed(),
        ensures
            final(self).well_formed(),
            final(self).same_source(old(self)),
            old(self).loaded() is Some ==> final(self).loaded() == old(self).loaded(),
            normalized(path@).len() == 0 ==> r is Err && r->Err_0 is EmptyKey
                && final(self).loaded() == old(self).loaded(),
            normalized(path@).len() > 0 ==> match decoded_index(old(self).index_bytes()) {
                Some(m) => r is Ok && metadata_opt_view(r->Ok_0) == lookup_in(
                    m,
                    normalized(path@),
                ) && final(self).loaded() == Some(m),
                None => r is Err && r->Err_0 is DeserializeAssets,
            },
    {
        let key = match strip_leading_slash(path) {
            Some(rest) => rest,
            None => path,
        };
        if key.is_empty() {
            return Err(Error::EmptyKey);
        }
        match self.ensure_map() {
            Ok(()) => {},
            Err(e) => {
                return Err(e);
            },
        }
        let k = key.to_owned();
        match &self.map {
            Some(m) => match m.get(&k) {
                Some(md) => Ok(Some(md.clone())),
                None => Ok(None),
            },
            // not reached: `ensure_map` succeeded, so the index is loaded
            None => Ok(None),
        }
    }

    /// URL of the store's value under `key`.
    pub fn value_url(&self, key: &str) -> (r: String)
        ensures
            r@ == value_url_of(self.account(), self.namespace(), key@),
    {
        let mut url = String::from_str(CLOUDFLARE_KV_ENDPOINT);
        url.append("/accounts/");
        url.append(self.account_id);
        url.append("/storage/kv/namespaces/");
        url.append(self.namespace_id);
        url.append("/values/");
        url.append(key);
        url
    }

    /// URL to which a write of `key` goes, with the expiration TTL as a query
    /// parameter when one is given.
    ///
    /// A TTL below sixty seconds fails with [`Error::TTLTooShort`]: no write
    /// is to be sent then.
    pub fn put_url(&self, key: &str, expiration_ttl: Option<u64>) -> (r: Result<String, Error>)
        ensures
            r is Err <==> ttl_too_short(expiration_ttl),
            r is Err ==> r->Err_0 is TTLTooShort,
            r is Ok ==> r->Ok_0@ == value_url_of(self.account(), self.namespace(), key@)
                + ttl_query(expiration_ttl),
    {
        let mut url = self.value_url(key);
        match expiration_ttl {
            Some(ttl) => {
                if ttl < MIN_EXPIRATION_TTL {
                    return Err(Error::TTLTooShort);
                }
                url.append("?expiration_ttl=");
                let digits = decimal_string(ttl);
                url.append(digits.as_str());
            },
            None => {},
        }
        Ok(url)
    }

    /// Value of the `Authorization` header sent with every request.
    pub fn auth_header(&self) -> (r: String)
        ensures
            r@ == "Bearer "@ + self.token(),
    {
        let mut h = String::from_str("Bearer ");
        h.append(self.auth_token);
        h
    }
}

/// Judges the status of the store's answer to a read of `key`: a success
/// status lets the body through, any other one is
/// [`Error::KVKeyNotFound`] with the key and the status.
pub fn read_outcome(key: &str, status: u16) -> (r: Result<(), Error>)
    ensures
        r is Ok <==> is_success_status(status),
        r is Err ==> r->Err_0 is KVKeyNotFound && r->Err_0->KVKeyNotFound_0@ == key@
            && r->Err_0->KVKeyNotFound_1 == status,
{
    if 200 <= status && status < 300 {
        Ok(())
    } else {
        Err(Error::KVKeyNotFound(key.to_owned(), status))
    }
}

/// Judges the store's acknowledgment of a write of `key`: success, or
/// [`Error::Message`] with the key and the store's errors and messages.
pub fn write_outcome(key: &str, success: bool, errors: &Vec<String>, messages: &Vec<String>) -> (r:
    Result<(), Error>)
    ensures
        r is Ok <==> success,
        r is Err ==> r->Err_0 is Message && r->Err_0->Message_0@ == write_failure_text(
            key@,
            strings_view(errors@),
            strings_view(messages@),
        ),
{
    if success {
        Ok(())
    } else {
        let e = debug_list(errors);
        let m = debug_list(messages);
        Err(Error::Message(failure_message(key, e.as_str(), m.as_str())))
    }
}

/// The message of a rejected write of `key`, from the already rendered
/// lists of the store's errors and messages.
pub fn failure_message(key: &str, errors_text: &str, messages_text: &str) -> (r: String)
    ensures
        r@ == failure_text(key@, errors_text@, messages_text@),
{
    let mut text = String::from_str("writing key ");
    text.append(key);
    text.append(": errors:");
    text.append(errors_text);
    text.append(" messages:");
    text.append(messages_text);
    text
}

/// Resolving a path, or `/` followed by the path's lookup key, gives the
/// same answer from any index: the lookup key is the same for both.
pub proof fn lemma_leading_slash_same_lookup(m: Map<Seq<char>, MetadataModel>, p: Seq<char>)
    ensures
        normalized(seq!['/'] + normalized(p)) == normalized(p),
        lookup_in(m, normalized(seq!['/'] + normalized(p))) == lookup_in(m, normalized(p)),
{
    assert((seq!['/'] + normalized(p)).drop_first() =~= normalized(p));
}

} // verus!
