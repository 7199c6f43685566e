use vstd::prelude::*;
use crate::algorithm::Mac;
use crate::backend::{digest_view, Backend, Call, Session};
use crate::status::Status;

verus! {

/// How a key-scoped operation ended: the refusal of the secret, or what the
/// keyed hash answered, a digest or nothing.
pub type Outcome = Result<Option<Seq<u8>>, Status>;

/// The record `before`, extended by a full key-scoped operation on the handle `key`.
pub open spec fn scoped_calls<K>(
    before: Seq<Call<K>>,
    secret: Seq<u8>,
    mac: Mac,
    message: Seq<u8>,
    digest: Option<Seq<u8>>,
    key: K,
    done: bool,
) -> Seq<Call<K>> {
    before.push(Call::Inject { secret, issued: Some(key) }).push(
        Call::Sign { mac, key, message, digest },
    ).push(Call::Delete { key, done })
}

/// The requests of one key-scoped operation, as they extend the record
/// `before` to `after`, together with how the operation ended.
///
/// Either the injection alone, refused; or the injection, the keyed hash
/// under the handle it issued, and the deletion of that same handle, in this
/// order and with nothing else between or after them.
pub open spec fn key_scoped<K>(
    before: Seq<Call<K>>,
    after: Seq<Call<K>>,
    secret: Seq<u8>,
    mac: Mac,
    message: Seq<u8>,
    outcome: Outcome,
) -> bool {
    match outcome {
        Err(status) => {
            &&& status == Status::UnspecifiedNonpersistentExecutionError
            &&& after == before.push(Call::Inject { secret, issued: None })
        },
        Ok(digest) => exists|key: K, done: bool|
            after == #[trigger] scoped_calls(before, secret, mac, message, digest, key, done),
    }
}

/// Whether every handle issued between `before` and `after` was handed to
/// the deletion that closes `after`.
pub open spec fn releases_every_key<K>(before: Seq<Call<K>>, after: Seq<Call<K>>) -> bool {
    forall|i: int|
        before.len() <= i < after.len() ==> (#[trigger] after[i] matches Call::Inject {
            issued: Some(key),
            ..
        } ==> after.last() matches Call::Delete { key: deleted, .. } && deleted == key)
}

/// What `hash_with_key` reports, as an `Outcome`.
pub open spec fn outcome_of(result: Result<Option<Vec<u8>>, Status>) -> Outcome {
    match result {
        Ok(digest) => Ok(digest_view(digest)),
        Err(status) => Err(status),
    }
}

/// A key scope leaves no handle behind: the handle that the injection issued
/// is the one whose deletion is asked for last, whether the keyed hash
/// yielded a digest or failed. Where the secret was refused, no handle was
/// issued.
pub proof fn lemma_key_scope_releases<K>(
    before: Seq<Call<K>>,
    after: Seq<Call<K>>,
    secret: Seq<u8>,
    mac: Mac,
    message: Seq<u8>,
    outcome: Outcome,
)
    requires
        key_scoped(before, after, secret, mac, message, outcome),
    ensures
        releases_every_key(before, after),
        outcome is Ok ==> after.len() == before.len() + 3 && after.last() is Delete,
        outcome is Err ==> after.len() == before.len() + 1,
{
    match outcome {
        Err(_) => {},
        Ok(digest) => {
            let (key, done) = choose|key: K, done: bool|
                after == #[trigger] scoped_calls(before, secret, mac, message, digest, key, done);
            assert(after[before.len() as int] == Call::Inject { secret, issued: Some(key) });
            assert(after[before.len() as int + 1] == Call::Sign { mac, key, message, digest });
            assert(after.last() == Call::Delete { key, done });
        },
    }
}

/// Whether `call` is an injection that issued `key`.
pub open spec fn issues<K>(call: Call<K>, key: K) -> bool {
    call matches Call::Inject { issued: Some(issued), .. } && issued == key
}

/// Whether `call` is a deletion of `key` that the backend reported done.
pub open spec fn removes<K>(call: Call<K>, key: K) -> bool {
    call matches Call::Delete { key: deleted, done } && deleted == key && done
}

/// Whether `call` is a deletion of `key` that the backend reported failed.
pub open spec fn fails_to_remove<K>(call: Call<K>, key: K) -> bool {
    call matches Call::Delete { key: deleted, done } && deleted == key && !done
}

/// Whether the record shows `key` as still held by the backend: it was
/// issued, and no deletion of it has been reported done since.
pub open spec fn holds_key<K>(calls: Seq<Call<K>>, key: K) -> bool {
    exists|i: int|
        0 <= i < calls.len() && #[trigger] issues(calls[i], key) && forall|j: int|
            i < j < calls.len() ==> !#[trigger] removes(calls[j], key)
}

/// Whether the backend holds no more keys after than before, but for one
/// whose deletion, the last request of `after`, it reported failed.
pub open spec fn adds_no_key<K>(before: Seq<Call<K>>, after: Seq<Call<K>>) -> bool {
    forall|key: K|
        holds_key(after, key) && !holds_key(before, key) ==> fails_to_remove(after.last(), key)
}

/// A key scope adds no key to those the backend holds, unless the backend
/// itself reported that the closing deletion failed: a key that the record
/// shows as held after the scope and not before it is the key of that
/// deletion.
pub proof fn lemma_key_scope_leaves_no_key<K>(
    before: Seq<Call<K>>,
    after: Seq<Call<K>>,
    secret: Seq<u8>,
    mac: Mac,
    message: Seq<u8>,
    outcome: Outcome,
)
    requires
        key_scoped(before, after, secret, mac, message, outcome),
    ensures
        adds_no_key(before, after),
{
    assert forall|key: K| holds_key(after, key) && !holds_key(before, key) implies fails_to_remove(
        after.last(),
        key,
    ) by {
        let i = choose|i: int|
            0 <= i < after.len() && #[trigger] issues(after[i], key) && forall|j: int|
                i < j < after.len() ==> !#[trigger] removes(after[j], key);
        match outcome {
            Err(_) => {
                assert(i < before.len());
                assert(issues(before[i], key));
                assert forall|j: int| i < j < before.len() implies !#[trigger] removes(
                    before[j],
                    key,
                ) by {
                    assert(before[j] == after[j]);
                }
                assert(holds_key(before, key));
            },
            Ok(digest) => {
                let (issued, done) = choose|issued: K, done: bool|
                    after == #[trigger] scoped_calls(
                        before,
                        secret,
                        mac,
                        message,
                        digest,
                        issued,
                        done,
                    );
                let n = before.len() as int;
                assert(after[n] == Call::Inject { secret, issued: Some(issued) });
                assert(after[n + 1] == Call::Sign { mac, key: issued, message, digest });
                assert(after[n + 2] == Call::Delete { key: issued, done });
                if i < n {
                    assert(issues(before[i], key));
                    assert forall|j: int| i < j < before.len() implies !#[trigger] removes(
                        before[j],
                        key,
                    ) by {
                        assert(before[j] == after[j]);
                    }
                    assert(holds_key(before, key));
                } else {
                    assert(i == n);
                    assert(key == issued);
                    assert(!removes(after[n + 2], key));
                }
            },
        }
    }
}

/// An operation that runs under a key handle, inside a key scope.
pub trait KeyedOperation<B: Backend>: Sized {
    /// What the operation yields.
    type Output;

    /// Whether running the operation under `key` may extend the record
    /// `before` to `after` and yield `output`.
    spec fn runs(
        &self,
        key: B::Key,
        before: Seq<Call<B::Key>>,
        after: Seq<Call<B::Key>>,
        output: Self::Output,
    ) -> bool;

    /// Runs the operation under `key`.
    fn run(self, session: &mut Session<B>, key: &B::Key) -> (output: Self::Output)
        ensures
            self.runs(*key, old(session).calls(), final(session).calls(), output),
    ;
}

/// One keyed hash of a message.
pub struct KeyedHash<'a> {
    pub mac: Mac,
    pub message: &'a [u8],
}

impl<'a, B: Backend> KeyedOperation<B> for KeyedHash<'a> {
    type Output = Option<Vec<u8>>;

    open spec fn runs(
        &self,
        key: B::Key,
        before: Seq<Call<B::Key>>,
        after: Seq<Call<B::Key>>,
        output: Option<Vec<u8>>,
    ) -> bool {
        after == before.push(
            Call::Sign { mac: self.mac, key, message: self.message@, digest: digest_view(output) },
        )
    }

    fn run(self, session: &mut Session<B>, key: &B::Key) -> (output: Option<Vec<u8>>) {
        session.sign(self.mac, key, self.message)
    }
}

/// The requests of a key scope that issued `key`: the injection of the
/// secret, then what the operation asked for, which extends the record to
/// `inner`, then the deletion of `key`, with which the record ends.
pub open spec fn in_scope<B: Backend, F: KeyedOperation<B>>(
    operation: F,
    before: Seq<Call<B::Key>>,
    after: Seq<Call<B::Key>>,
    secret: Seq<u8>,
    output: F::Output,
    key: B::Key,
    inner: Seq<Call<B::Key>>,
    done: bool,
) -> bool {
    &&& operation.runs(key, before.push(Call::Inject { secret, issued: Some(key) }), inner, output)
    &&& after == inner.push(Call::Delete { key, done })
}

/// Binds `secret` to the backend for the duration of one operation.
///
/// The secret is registered as a volatile key. Where the backend refuses it,
/// nothing else is asked of the backend. Otherwise the operation runs under
/// the new handle, and the handle is deleted whatever the operation yielded;
/// how the deletion went has no bearing on the result.
pub fn with_key<B: Backend, F: KeyedOperation<B>>(
    session: &mut Session<B>,
    secret: &[u8],
    operation: F,
) -> (result: Result<F::Output, Status>)
    ensures
        result matches Err(status) ==> {
            &&& status == Status::UnspecifiedNonpersistentExecutionError
            &&& final(session).calls() == old(session).calls().push(
                Call::Inject { secret: secret@, issued: None },
            )
        },
        result matches Ok(output) ==> exists|key: B::Key, inner: Seq<Call<B::Key>>, done: bool|
            #[trigger] in_scope(
                operation,
                old(session).calls(),
                final(session).calls(),
                secret@,
                output,
                key,
                inner,
                done,
            ),
{
    let injected = match session.inject_volatile_key(secret) {
        Some(key) => key,
        None => {
            return Err(Status::UnspecifiedNonpersistentExecutionError);
        },
    };
    let output = operation.run(session, &injected);
    let ghost inner = session.calls();
    let done = session.delete(&injected);
    proof {
        assert(in_scope(
            operation,
            old(session).calls(),
            session.calls(),
            secret@,
            output,
            injected,
            inner,
            done,
        ));
    }
    let result = Ok(output);
    assert(result->Ok_0 == output);
    result
}

/// One keyed hash of `message` under `secret`, inside a key scope.
pub fn hash_with_key<B: Backend>(
    session: &mut Session<B>,
    secret: &[u8],
    mac: Mac,
    message: &[u8],
) -> (result: Result<Option<Vec<u8>>, Status>)
    ensures
        key_scoped(
            old(session).calls(),
            final(session).calls(),
            secret@,
            mac,
            message@,
            outcome_of(result),
        ),
        releases_every_key(old(session).calls(), final(session).calls()),
        adds_no_key(old(session).calls(), final(session).calls()),
{
    let operation = KeyedHash { mac, message };
    let result = with_key(session, secret, operation);
    proof {
        let before = old(session).calls();
        let after = session.calls();
        if result is Ok {
            let output = result->Ok_0;
            let (key, inner, done) = choose|key: B::Key, inner: Seq<Call<B::Key>>, done: bool| #[trigger]
                in_scope::<B, KeyedHash<'_>>(operation, before, after, secret@, output, key, inner, done);
            assert(after == scoped_calls(
                before,
                secret@,
                mac,
                message@,
                digest_view(output),
                key,
                done,
            ));
        }
        lemma_key_scope_releases(before, after, secret@, mac, message@, outcome_of(result));
        lemma_key_scope_leaves_no_key(before, after, secret@, mac, message@, outcome_of(result));
    }
    result
}

} // verus!
