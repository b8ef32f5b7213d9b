//! The coordinator: the sole custodian of the gateway to the distributed
//! hash table. Concurrent callers hand it typed requests; it admits at
//! most one outstanding publish per address, maps every gateway outcome
//! to the client-facing error taxonomy, and writes resolve responses into
//! the record cache.

use vstd::prelude::*;

use crate::cache::{spec_lww, PkarrCache};
use crate::dht::DhtPutOutcome;
use crate::errors::Error;
use crate::packet::SignedPacket;

verus! {

/// The mathematical content of the coordinator's state: whether its
/// processing loop is still running, and which addresses have a publish
/// outstanding.
#[verifier::ext_equal]
pub ghost struct CoordinatorView {
    pub running: bool,
    pub inflight: Seq<Seq<u8>>,
}

/// A request sent from a caller to the coordinator. The reply path is a
/// per-request one-shot channel owned by the unverified runtime; here a
/// request carries only the data the decision depends on.
pub enum Request {
    /// Store a packet under its address.
    Publish { address: Vec<u8>, packet: SignedPacket },
    /// Look an address up; `known_timestamp` is the timestamp of the
    /// caller's cached packet, if any, so nodes need not resend it.
    Resolve { address: Vec<u8>, known_timestamp: Option<u64> },
    /// Stop the processing loop.
    Shutdown,
}

/// What the coordinator asks the gateway to do in response to a request.
pub enum Action {
    /// Issue a table-level `put` for this packet.
    Put { address: Vec<u8>, packet: SignedPacket },
    /// Issue a table-level `get`.
    Get { address: Vec<u8>, known_timestamp: Option<u64> },
    /// Release the gateway handle and stop.
    Stop,
}

/// The coordinator's state.
pub struct Coordinator {
    pub running: bool,
    pub inflight: Vec<Vec<u8>>,
}

impl View for Coordinator {
    type V = CoordinatorView;

    open spec fn view(&self) -> CoordinatorView {
        CoordinatorView {
            running: self.running,
            inflight: self.inflight@.map_values(|v: Vec<u8>| v@),
        }
    }
}

/// State after a publish is admitted or rejected: admission records the
/// address as in flight; any rejection leaves the state unchanged.
pub open spec fn spec_begin_state(pre: CoordinatorView, a: Seq<u8>) -> CoordinatorView {
    if pre.running && !pre.inflight.contains(a) {
        CoordinatorView { running: true, inflight: pre.inflight.push(a) }
    } else {
        pre
    }
}

/// Whether a publish for `a` is admitted, and if not, why.
pub open spec fn spec_begin_result(pre: CoordinatorView, a: Seq<u8>) -> Result<(), Error> {
    if !pre.running {
        Err(Error::DhtIsShutdown)
    } else if pre.inflight.contains(a) {
        Err(Error::PublishInflight)
    } else {
        Ok(())
    }
}

/// Removes the first occurrence of `a`.
pub open spec fn spec_remove_first(s: Seq<Seq<u8>>, a: Seq<u8>) -> Seq<Seq<u8>>
    decreases s.len(),
{
    if s.len() == 0 {
        s
    } else if s[0] == a {
        s.drop_first()
    } else {
        seq![s[0]] + spec_remove_first(s.drop_first(), a)
    }
}

/// State after the gateway reported the outcome of a publish for `a`: the
/// address is no longer in flight.
pub open spec fn spec_finish_state(pre: CoordinatorView, a: Seq<u8>) -> CoordinatorView {
    CoordinatorView { running: pre.running, inflight: spec_remove_first(pre.inflight, a) }
}

/// How a gateway `put` outcome maps onto the error taxonomy: success
/// passes the table's identifier through; an in-flight report becomes
/// [`Error::PublishInflight`]; a query failure becomes
/// [`Error::FailedToPublish`] with its cause; any other table error
/// becomes [`Error::MainlineError`] with its cause; a reply path that
/// closed with no outcome downgrades the call to
/// [`Error::DhtIsShutdown`].
pub open spec fn spec_put_result(outcome: DhtPutOutcome) -> Result<Vec<u8>, Error> {
    match outcome {
        DhtPutOutcome::Success(id) => Ok(id),
        DhtPutOutcome::Inflight => Err(Error::PublishInflight),
        DhtPutOutcome::QueryFailed(cause) => Err(Error::FailedToPublish(cause)),
        DhtPutOutcome::Other(cause) => Err(Error::MainlineError(cause)),
        DhtPutOutcome::Dropped => Err(Error::DhtIsShutdown),
    }
}

/// Result of stopping the processing loop: only the first request can
/// succeed; once stopped, the coordinator is unreachable.
pub open spec fn spec_shutdown_result(pre: CoordinatorView) -> Result<(), Error> {
    if pre.running {
        Ok(())
    } else {
        Err(Error::DhtIsShutdown)
    }
}

impl Coordinator {
    pub fn new() -> (r: Coordinator)
        ensures
            r@.running,
            r@.inflight.len() == 0,
    {
        Coordinator { running: true, inflight: Vec::new() }
    }

    /// Admits or rejects a publish for `address`: rejected when the loop
    /// has stopped or when a publish for the same address is already
    /// outstanding, admitted and recorded otherwise.
    pub fn begin_publish(&mut self, address: &Vec<u8>) -> (r: Result<(), Error>)
        ensures
            final(self)@ == spec_begin_state(old(self)@, address@),
            r == spec_begin_result(old(self)@, address@),
    {
        if !self.running {
            return Err(Error::DhtIsShutdown);
        }
        let ghost pre = self@;
        let mut i: usize = 0;
        while i < self.inflight.len()
            invariant
                pre == old(self)@,
                pre.running,
                self@ == pre,
                i <= self.inflight@.len(),
                forall|k: int| 0 <= k < i ==> pre.inflight[k] != address@,
            decreases self.inflight@.len() - i,
        {
            if crate::cache::bytes_eq(&self.inflight[i], address) {
                proof {
                    assert(pre.inflight[i as int] == address@);
                    assert(pre.inflight.contains(address@));
                }
                return Err(Error::PublishInflight);
            }
            i += 1;
        }
        proof {
            assert(!pre.inflight.contains(address@));
        }
        self.inflight.push(crate::packet::copy_bytes(address));
        proof {
            assert(self@.inflight =~= pre.inflight.push(address@));
            assert(self@ =~= spec_begin_state(pre, address@));
        }
        Ok(())
    }

    /// Records the gateway's outcome for a publish of `address`: the
    /// address leaves the in-flight set and the outcome is mapped onto
    /// the error taxonomy; see [`spec_put_result`].
    pub fn finish_publish(&mut self, address: &Vec<u8>, outcome: DhtPutOutcome) -> (r: Result<
        Vec<u8>,
        Error,
    >)
        ensures
            final(self)@ == spec_finish_state(old(self)@, address@),
            r == spec_put_result(outcome),
    {
        let ghost pre = self@;
        let mut i: usize = 0;
        while i < self.inflight.len()
            invariant
                pre == old(self)@,
                self@ == pre,
                i <= self.inflight@.len(),
                forall|k: int| 0 <= k < i ==> pre.inflight[k] != address@,
            decreases self.inflight@.len() - i,
        {
            if crate::cache::bytes_eq(&self.inflight[i], address) {
                proof {
                    assert(pre.inflight[i as int] == address@);
                }
                self.inflight.remove(i);
                proof {
                    assert(self@.inflight =~= pre.inflight.remove(i as int));
                    lemma_remove_first_at(pre.inflight, i as int, address@);
                    assert(spec_remove_first(pre.inflight, address@) == pre.inflight.remove(i as int));
                    assert(self@ =~= spec_finish_state(pre, address@));
                }
                return put_outcome_to_result(outcome);
            }
            i += 1;
        }
        proof {
            lemma_remove_first_absent(pre.inflight, address@);
            assert(self@ =~= spec_finish_state(pre, address@));
        }
        put_outcome_to_result(outcome)
    }

    /// Stops the processing loop. Only the first shutdown succeeds; a
    /// second one finds the coordinator already unreachable.
    pub fn handle_shutdown(&mut self) -> (r: Result<(), Error>)
        ensures
            final(self)@ == (CoordinatorView { running: false, ..old(self)@ }),
            r == spec_shutdown_result(old(self)@),
    {
        if self.running {
            self.running = false;
            Ok(())
        } else {
            proof {
                assert(self@ =~= (CoordinatorView { running: false, ..self@ }));
            }
            Err(Error::DhtIsShutdown)
        }
    }

    /// Turns one inbound request into the gateway action it calls for,
    /// or into the error the caller is owed. Publish admission follows
    /// [`spec_begin_result`]; resolve and shutdown requests fail exactly
    /// when the loop has stopped.
    pub fn handle_request(&mut self, request: Request) -> (r: Result<Action, Error>)
        ensures
            ({
                let pre = old(self)@;
                let post = final(self)@;
                match request {
                    Request::Publish { address, packet } => {
                        &&& post == spec_begin_state(pre, address@)
                        &&& match spec_begin_result(pre, address@) {
                            Ok(_) => r == Ok::<Action, Error>(
                                Action::Put { address, packet },
                            ),
                            Err(e) => r == Err::<Action, Error>(e),
                        }
                    },
                    Request::Resolve { address, known_timestamp } => {
                        &&& post == pre
                        &&& if pre.running {
                            r == Ok::<Action, Error>(Action::Get { address, known_timestamp })
                        } else {
                            r == Err::<Action, Error>(Error::DhtIsShutdown)
                        }
                    },
                    Request::Shutdown => {
                        &&& post == (CoordinatorView { running: false, ..pre })
                        &&& match spec_shutdown_result(pre) {
                            Ok(_) => r == Ok::<Action, Error>(Action::Stop),
                            Err(e) => r == Err::<Action, Error>(e),
                        }
                    },
                }
            }),
    {
        match request {
            Request::Publish { address, packet } => {
                match self.begin_publish(&address) {
                    Ok(_) => Ok(Action::Put { address, packet }),
                    Err(e) => Err(e),
                }
            },
            Request::Resolve { address, known_timestamp } => {
                if self.running {
                    Ok(Action::Get { address, known_timestamp })
                } else {
                    Err(Error::DhtIsShutdown)
                }
            },
            Request::Shutdown => {
                match self.handle_shutdown() {
                    Ok(_) => Ok(Action::Stop),
                    Err(e) => Err(e),
                }
            },
        }
    }
}

/// Maps a gateway `put` outcome onto the error taxonomy; the executable
/// side of [`spec_put_result`].
pub fn put_outcome_to_result(outcome: DhtPutOutcome) -> (r: Result<Vec<u8>, Error>)
    ensures
        r == spec_put_result(outcome),
{
    match outcome {
        DhtPutOutcome::Success(id) => Ok(id),
        DhtPutOutcome::Inflight => Err(Error::PublishInflight),
        DhtPutOutcome::QueryFailed(cause) => Err(Error::FailedToPublish(cause)),
        DhtPutOutcome::Other(cause) => Err(Error::MainlineError(cause)),
        DhtPutOutcome::Dropped => Err(Error::DhtIsShutdown),
    }
}

/// Writes one packet received from the network for `address` into the
/// cache (last-writer-wins) and says whether the original caller is still
/// owed a reply: exactly the first packet of a response stream answers
/// the caller, every later one only refreshes the cache.
pub fn process_resolve_response(
    cache: &mut PkarrCache,
    address: &Vec<u8>,
    packet: &SignedPacket,
    already_replied: bool,
) -> (reply: bool)
    requires
        old(cache).wf(),
    ensures
        final(cache).wf(),
        final(cache).spec_get(address@) == Some(spec_lww(old(cache).spec_get(address@), packet@)),
        forall|b: Seq<u8>| b != address@ ==> final(cache).spec_get(b) == old(cache).spec_get(b),
        reply == !already_replied,
{
    cache.put(address, packet);
    !already_replied
}

/// If the first occurrence of `a` in `s` is at `i`, removing that element
/// is exactly what [`spec_remove_first`] yields.
pub proof fn lemma_remove_first_at(s: Seq<Seq<u8>>, i: int, a: Seq<u8>)
    requires
        0 <= i < s.len(),
        s[i] == a,
        forall|k: int| 0 <= k < i ==> s[k] != a,
    ensures
        spec_remove_first(s, a) == s.remove(i),
    decreases i,
{
    if i == 0 {
        assert(s.remove(0) =~= s.drop_first());
    } else {
        lemma_remove_first_at(s.drop_first(), i - 1, a);
        assert(s.drop_first().remove(i - 1) =~= s.remove(i).drop_first());
        assert(seq![s[0]] + s.remove(i).drop_first() =~= s.remove(i));
    }
}

/// Removing an absent element changes nothing.
pub proof fn lemma_remove_first_absent(s: Seq<Seq<u8>>, a: Seq<u8>)
    requires
        !s.contains(a),
    ensures
        spec_remove_first(s, a) == s,
    decreases s.len(),
{
    if s.len() > 0 {
        assert(s[0] != a);
        assert(!s.drop_first().contains(a)) by {
            if s.drop_first().contains(a) {
                let j = choose|j: int| 0 <= j < s.drop_first().len() && s.drop_first()[j] == a;
                assert(s[j + 1] == a);
            }
        }
        lemma_remove_first_absent(s.drop_first(), a);
        assert(seq![s[0]] + s.drop_first() =~= s);
    }
}

/// Two concurrent publishes for one address can never both be admitted:
/// the first is admitted, the second is rejected with
/// [`Error::PublishInflight`] while the first is still outstanding, and
/// is admitted again once the first has finished.
pub proof fn lemma_concurrent_publish_same_address(pre: CoordinatorView, a: Seq<u8>)
    requires
        pre.running,
        !pre.inflight.contains(a),
    ensures
        spec_begin_result(pre, a) == Ok::<(), Error>(()),
        spec_begin_result(spec_begin_state(pre, a), a) == Err::<(), Error>(
            Error::PublishInflight,
        ),
        spec_begin_result(spec_finish_state(spec_begin_state(pre, a), a), a) == Ok::<(), Error>(
            (),
        ),
{
    let mid = spec_begin_state(pre, a);
    assert(mid.inflight[pre.inflight.len() as int] == a);
    assert(mid.inflight.contains(a));
    lemma_remove_first_push(pre.inflight, a);
    assert(spec_finish_state(mid, a).inflight == pre.inflight);
}

/// Pushing `a` onto a sequence without it and then removing the first
/// occurrence of `a` gives the original sequence back.
pub proof fn lemma_remove_first_push(s: Seq<Seq<u8>>, a: Seq<u8>)
    requires
        !s.contains(a),
    ensures
        spec_remove_first(s.push(a), a) == s,
    decreases s.len(),
{
    if s.len() == 0 {
        assert(s.push(a)[0] == a);
        assert(s.push(a).drop_first() =~= s);
    } else {
        assert(s[0] != a);
        assert(s.push(a)[0] == s[0]);
        assert(!s.drop_first().contains(a)) by {
            if s.drop_first().contains(a) {
                let j = choose|j: int| 0 <= j < s.drop_first().len() && s.drop_first()[j] == a;
                assert(s[j + 1] == a);
            }
        }
        assert(s.push(a).drop_first() =~= s.drop_first().push(a));
        lemma_remove_first_push(s.drop_first(), a);
        assert(seq![s[0]] + s.drop_first() =~= s);
    }
}

} // verus!
