use vstd::prelude::*;
use crate::algorithm::Mac;

verus! {

/// The capabilities that the calculator consumes from a cryptographic backend.
///
/// Nothing is assumed of an implementation: every answer it may give is
/// provided for by the functions that call it.
pub trait Backend {
    /// The handle under which the backend keeps a registered key.
    type Key;

    /// Registers `secret` as a volatile shared key and hands out its handle,
    /// or `None` where the backend refuses.
    fn inject_volatile_key(&mut self, secret: &[u8]) -> Option<Self::Key>;

    /// HMAC-SHA1 of `message` under the key behind `key`, or `None` on failure.
    fn sign_hmacsha1(&mut self, key: &Self::Key, message: &[u8]) -> Option<Vec<u8>>;

    /// HMAC-SHA256 of `message` under the key behind `key`, or `None` on failure.
    fn sign_hmacsha256(&mut self, key: &Self::Key, message: &[u8]) -> Option<Vec<u8>>;

    /// Removes the key behind `key`; `false` where the backend reports a failure.
    fn delete(&mut self, key: &Self::Key) -> bool;
}

/// One request made of a backend, with what it answered.
pub enum Call<K> {
    /// A secret was offered as a volatile key; `issued` is the handle that came back, if any.
    Inject { secret: Seq<u8>, issued: Option<K> },
    /// A keyed hash of `message` under `key` was asked for; `digest` is what came back, if anything.
    Sign { mac: Mac, key: K, message: Seq<u8>, digest: Option<Seq<u8>> },
    /// Deletion of `key` was asked for; `done` tells whether the backend reported success.
    Delete { key: K, done: bool },
}

/// The bytes of a digest that a backend handed out, if it handed out any.
pub open spec fn digest_view(digest: Option<Vec<u8>>) -> Option<Seq<u8>> {
    match digest {
        Some(d) => Some(d@),
        None => None,
    }
}

/// A backend together with the record of every request made of it.
///
/// The record is ghost state: it costs nothing at run time, and lets a
/// contract say which requests a function has made, in which order and with
/// which arguments.
pub struct Session<B: Backend> {
    backend: B,
    log: Ghost<Seq<Call<B::Key>>>,
}

impl<B: Backend> Session<B> {
    /// The requests made so far, oldest first.
    pub closed spec fn calls(&self) -> Seq<Call<B::Key>> {
        self.log@
    }

    /// The backend that the session runs on.
    pub closed spec fn inner(&self) -> B {
        self.backend
    }

    /// Starts a session on `backend`, with an empty record.
    pub fn new(backend: B) -> (session: Self)
        ensures
            session.calls() == Seq::<Call<B::Key>>::empty(),
            session.inner() == backend,
    {
        Session { backend, log: Ghost(Seq::empty()) }
    }

    /// The backend, for inspection.
    pub fn backend(&self) -> (backend: &B)
        ensures
            *backend == self.inner(),
    {
        &self.backend
    }

    /// Ends the session and gives the backend back.
    pub fn into_backend(self) -> (backend: B)
        ensures
            backend == self.inner(),
    {
        self.backend
    }

    /// Offers `secret` to the backend as a volatile shared key.
    pub fn inject_volatile_key(&mut self, secret: &[u8]) -> (issued: Option<B::Key>)
        ensures
            final(self).calls() == old(self).calls().push(
                Call::Inject { secret: secret@, issued },
            ),
    {
        let issued = self.backend.inject_volatile_key(secret);
        proof {
            self.log@ = self.log@.push(Call::Inject { secret: secret@, issued });
        }
        issued
    }

    /// Asks the backend for the keyed hash `mac` of `message` under `key`.
    pub fn sign(&mut self, mac: Mac, key: &B::Key, message: &[u8]) -> (digest: Option<Vec<u8>>)
        ensures
            final(self).calls() == old(self).calls().push(
                Call::Sign { mac, key: *key, message: message@, digest: digest_view(digest) },
            ),
    {
        let digest = match mac {
            Mac::HmacSha1 => self.backend.sign_hmacsha1(key, message),
            Mac::HmacSha256 => self.backend.sign_hmacsha256(key, message),
        };
        proof {
            self.log@ = self.log@.push(
                Call::Sign { mac, key: *key, message: message@, digest: digest_view(digest) },
            );
        }
        digest
    }

    /// Asks the backend to delete the key behind `key`.
    pub fn delete(&mut self, key: &B::Key) -> (done: bool)
        ensures
            final(self).calls() == old(self).calls().push(Call::Delete { key: *key, done }),
    {
        let done = self.backend.delete(key);
        proof {
            self.log@ = self.log@.push(Call::Delete { key: *key, done });
        }
        done
    }
}

} // verus!
