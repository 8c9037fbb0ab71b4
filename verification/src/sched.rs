//! A deterministic model of the host frame-callback service.
//!
//! The host offers `requestFrame(callback) -> token` and
//! `cancelFrame(token)`. Treating that service as an injected capability,
//! rather than an ambient global, keeps the loop controller testable and
//! lets its client behaviour — exactly one outstanding token, always
//! cancelled on teardown — be stated and proved. The scheduler here issues
//! fresh tokens, keeps the queue of outstanding ones in request order, and
//! logs every cancellation.

use vstd::prelude::*;

verus! {

/// The frame scheduler: fresh-token counter, outstanding requests in order,
/// and a log of cancelled tokens.
pub struct Scheduler {
    next_token: u64,
    outstanding: Vec<u64>,
    cancelled: Vec<u64>,
}

impl Scheduler {
    /// The tokens of requests not yet fired or cancelled, oldest first.
    pub closed spec fn outstanding(self) -> Seq<u64> {
        self.outstanding@
    }

    /// Every token ever cancelled, in cancellation order.
    pub closed spec fn cancelled(self) -> Seq<u64> {
        self.cancelled@
    }

    /// The token the next request will receive.
    pub closed spec fn next(self) -> u64 {
        self.next_token
    }

    /// Outstanding tokens were all issued, and no token is queued twice.
    pub open spec fn wf(self) -> bool {
        &&& (forall|i: int| 0 <= i < self.outstanding().len() ==> self.outstanding()[i]
            < self.next())
        &&& (forall|i: int, j: int|
            0 <= i < j < self.outstanding().len() ==> self.outstanding()[i]
                != self.outstanding()[j])
    }

    /// A scheduler with no history.
    pub fn new() -> (r: Scheduler)
        ensures
            r.wf(),
            r.outstanding().len() == 0,
            r.cancelled().len() == 0,
            r.next() == 0,
    {
        Scheduler { next_token: 0, outstanding: Vec::new(), cancelled: Vec::new() }
    }

    /// Registers a callback for the next frame and returns its token, which
    /// is distinct from every token already outstanding.
    pub fn request(&mut self) -> (t: u64)
        requires
            old(self).wf(),
            old(self).next() < u64::MAX,
        ensures
            final(self).wf(),
            t == old(self).next(),
            final(self).next() == old(self).next() + 1,
            final(self).outstanding() == old(self).outstanding().push(t),
            final(self).cancelled() == old(self).cancelled(),
    {
        let t = self.next_token;
        self.next_token = self.next_token + 1;
        self.outstanding.push(t);
        proof {
            let s = self.outstanding@;
            assert forall|i: int| 0 <= i < s.len() implies s[i] < self.next_token by {
                if i < s.len() - 1 {
                    assert(s[i] == old(self).outstanding()[i]);
                }
            }
            assert forall|i: int, j: int| 0 <= i < j < s.len() implies s[i] != s[j] by {
                assert(s[i] == old(self).outstanding()[i]);
            }
        }
        t
    }

    /// Cancels the request with the given token, if it is outstanding, and
    /// logs the cancellation either way.
    pub fn cancel(&mut self, t: u64)
        requires
            old(self).wf(),
        ensures
            final(self).wf(),
            final(self).next() == old(self).next(),
            final(self).cancelled() == old(self).cancelled().push(t),
            forall|u: u64|
                final(self).outstanding().contains(u) <==> (old(self).outstanding().contains(u)
                    && u != t),
    {
        let mut kept: Vec<u64> = Vec::new();
        let mut i: usize = 0;
        let ghost prior = self.outstanding@;
        while i < self.outstanding.len()
            invariant
                i <= self.outstanding@.len(),
                self.outstanding@ == prior,
                kept@ == without(prior.take(i as int), t),
            decreases self.outstanding@.len() - i,
        {
            let u = self.outstanding[i];
            proof {
                assert(prior.take(i as int + 1).drop_last() =~= prior.take(i as int));
                reveal_with_fuel(Seq::filter, 2);
            }
            if u != t {
                kept.push(u);
            }
            i += 1;
        }
        proof {
            assert(prior.take(prior.len() as int) =~= prior);
        }
        self.outstanding = kept;
        self.cancelled.push(t);
        proof {
            lemma_remove_token(prior, t);
            assert(self.outstanding@ == without(prior, t));
            assert forall|i: int| 0 <= i < self.outstanding@.len() implies self.outstanding@[i]
                < self.next_token by {
                let u = self.outstanding@[i];
                assert(without(prior, t).contains(u));
                assert(prior.contains(u));
                let j = choose|j: int| 0 <= j < prior.len() && prior[j] == u;
                assert(old(self).outstanding()[j] == u);
                assert(old(self).outstanding()[j] < old(self).next());
            }
        }
    }

    /// Hands out the token whose callback the host will invoke next, in
    /// request order, if any request is outstanding.
    pub fn take_next(&mut self) -> (r: Option<u64>)
        requires
            old(self).wf(),
        ensures
            final(self).wf(),
            final(self).next() == old(self).next(),
            final(self).cancelled() == old(self).cancelled(),
            old(self).outstanding().len() == 0 ==> r is None && final(self).outstanding()
                == old(self).outstanding(),
            old(self).outstanding().len() > 0 ==> r == Some(old(self).outstanding()[0])
                && final(self).outstanding() == old(self).outstanding().drop_first(),
    {
        if self.outstanding.len() == 0 {
            return None;
        }
        let t = self.outstanding.remove(0);
        Some(t)
    }

    /// How many requests are outstanding.
    pub fn outstanding_len(&self) -> (r: usize)
        ensures
            r == self.outstanding().len(),
    {
        self.outstanding.len()
    }

    /// How many cancellations have been issued.
    pub fn cancelled_len(&self) -> (r: usize)
        ensures
            r == self.cancelled().len(),
    {
        self.cancelled.len()
    }

    /// The token most recently cancelled, if any.
    pub fn last_cancelled(&self) -> (r: Option<u64>)
        ensures
            self.cancelled().len() == 0 ==> r is None,
            self.cancelled().len() > 0 ==> r == Some(self.cancelled().last()),
    {
        if self.cancelled.len() == 0 {
            None
        } else {
            Some(self.cancelled[self.cancelled.len() - 1])
        }
    }
}

/// The sequence with every occurrence of `t` filtered out.
spec fn without(s: Seq<u64>, t: u64) -> Seq<u64> {
    s.filter(|x: u64| x != t)
}

/// What filtering one value out of a sequence leaves: exactly the other
/// values, still free of duplicates if the sequence had none.
proof fn lemma_remove_token(s: Seq<u64>, t: u64)
    ensures
        forall|u: u64| #[trigger] without(s, t).contains(u) <==> (s.contains(u) && u != t),
        (forall|i: int, j: int| 0 <= i < j < s.len() ==> s[i] != s[j]) ==> (forall|i: int, j: int|
            0 <= i < j < without(s, t).len() ==> without(s, t)[i] != without(s, t)[j]),
    decreases s.len(),
{
    reveal_with_fuel(Seq::filter, 2);
    let f = without(s, t);
    if s.len() == 0 {
        assert forall|u: u64| #[trigger] f.contains(u) implies false by {}
        assert forall|u: u64| s.contains(u) implies false by {}
    } else {
        let head = s.drop_last();
        let hf = without(head, t);
        lemma_remove_token(head, t);
        assert forall|u: u64| s.contains(u) implies (head.contains(u) || s.last() == u) by {
            let k = choose|k: int| 0 <= k < s.len() && s[k] == u;
            if k < s.len() - 1 {
                assert(head[k] == u);
            }
        }
        assert forall|u: u64| head.contains(u) implies s.contains(u) by {
            let k = choose|k: int| 0 <= k < head.len() && head[k] == u;
            assert(s[k] == u);
        }
        assert(s.contains(s.last())) by {
            assert(s[s.len() - 1] == s.last());
        }
        if s.last() != t {
            assert(f == hf.push(s.last()));
            assert forall|u: u64| #[trigger] f.contains(u) implies (hf.contains(u) || s.last()
                == u) by {
                let k = choose|k: int| 0 <= k < f.len() && f[k] == u;
                if k < f.len() - 1 {
                    assert(hf[k] == u);
                }
            }
            assert forall|u: u64| hf.contains(u) implies f.contains(u) by {
                let k = choose|k: int| 0 <= k < hf.len() && hf[k] == u;
                assert(f[k] == u);
            }
            assert(f.contains(s.last())) by {
                assert(f[f.len() - 1] == s.last());
            }
            if forall|i: int, j: int| 0 <= i < j < s.len() ==> s[i] != s[j] {
                assert forall|i: int, j: int| 0 <= i < j < head.len() implies head[i]
                    != head[j] by {
                    assert(s[i] == head[i] && s[j] == head[j]);
                }
                assert forall|i: int, j: int| 0 <= i < j < f.len() implies f[i] != f[j] by {
                    if j < f.len() - 1 {
                        assert(f[i] == hf[i] && f[j] == hf[j]);
                    } else {
                        assert(f[j] == s.last());
                        assert(f[i] == hf[i]);
                        if hf[i] == s.last() {
                            assert(hf.contains(s.last()));
                            assert(head.contains(s.last()));
                            let k = choose|k: int|
                                0 <= k < head.len() && head[k] == s.last();
                            assert(s[k] == s[s.len() - 1]);
                        }
                    }
                }
            }
        } else {
            assert(f == hf);
            if forall|i: int, j: int| 0 <= i < j < s.len() ==> s[i] != s[j] {
                assert forall|i: int, j: int| 0 <= i < j < head.len() implies head[i]
                    != head[j] by {
                    assert(s[i] == head[i] && s[j] == head[j]);
                }
            }
        }
    }
}

} // verus!
