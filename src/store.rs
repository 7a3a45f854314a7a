//! The store of short-lived authentication contexts, keyed by their state.
use vstd::prelude::*;
use crate::client::fits_i64;
use crate::ct::ct_eq;
use crate::error::DuoError;

verus! {

/// Seconds for which a stored context stays valid.
pub const CTX_VALIDITY_SECS: i64 = 300;

/// The server-side record that binds a state to a user and a nonce until it expires.
#[derive(Debug, Clone)]
pub struct AuthContext {
    pub state: String,
    pub user_email: String,
    pub nonce: String,
    /// Expiry, in seconds since the Unix epoch.
    pub exp: i64,
}

pub ghost struct ContextView {
    pub state: Seq<char>,
    pub user_email: Seq<char>,
    pub nonce: Seq<char>,
    pub exp: int,
}

impl View for AuthContext {
    type V = ContextView;

    open spec fn view(&self) -> ContextView {
        ContextView { state: self.state@, user_email: self.user_email@, nonce: self.nonce@, exp: self.exp as int }
    }
}

/// No two contexts share a state.
pub open spec fn states_unique(v: Seq<ContextView>) -> bool {
    forall|i: int, j: int| 0 <= i < v.len() && 0 <= j < v.len() && i != j ==> v[i].state != v[j].state
}

/// Some context holds the state `s`.
pub open spec fn has_state(v: Seq<ContextView>, s: Seq<char>) -> bool {
    exists|i: int| 0 <= i < v.len() && #[trigger] v[i].state == s
}

/// The position of the context holding `s`, where there is one.
pub open spec fn state_index(v: Seq<ContextView>, s: Seq<char>) -> int {
    choose|i: int| 0 <= i < v.len() && #[trigger] v[i].state == s
}

/// The context holding `s`.
pub open spec fn context_of(v: Seq<ContextView>, s: Seq<char>) -> Option<ContextView> {
    if has_state(v, s) {
        Some(v[state_index(v, s)])
    } else {
        None
    }
}

/// The contexts without the one holding `s`.
pub open spec fn without_state(v: Seq<ContextView>, s: Seq<char>) -> Seq<ContextView> {
    if has_state(v, s) {
        v.remove(state_index(v, s))
    } else {
        v
    }
}

/// What consuming the state `s` at time `now` yields: the context, unless it
/// expired before `now`.
pub open spec fn consumed(v: Seq<ContextView>, s: Seq<char>, now: int) -> Option<ContextView> {
    match context_of(v, s) {
        Some(c) => if c.exp < now { None } else { Some(c) },
        None => None,
    }
}

/// The contexts still live at `now`.
pub open spec fn live_at(v: Seq<ContextView>, now: int) -> Seq<ContextView> {
    v.filter(|c: ContextView| c.exp >= now)
}

proof fn lemma_index_unique(v: Seq<ContextView>, s: Seq<char>, i: int)
    requires
        states_unique(v),
        0 <= i < v.len(),
        v[i].state == s,
    ensures
        has_state(v, s),
        state_index(v, s) == i,
{
    assert(v[i].state == s);
}

proof fn lemma_remove_unique(v: Seq<ContextView>, i: int)
    requires
        states_unique(v),
        0 <= i < v.len(),
    ensures
        states_unique(v.remove(i)),
        forall|s: Seq<char>| has_state(v.remove(i), s) <==> has_state(v, s) && s != v[i].state,
{
    let r = v.remove(i);
    assert forall|a: int, b: int| 0 <= a < r.len() && 0 <= b < r.len() && a != b implies r[a].state != r[b].state by {
        let a2 = if a < i { a } else { a + 1 };
        let b2 = if b < i { b } else { b + 1 };
        assert(r[a] == v[a2]);
        assert(r[b] == v[b2]);
    }
    assert forall|s: Seq<char>| has_state(r, s) <==> has_state(v, s) && s != v[i].state by {
        if has_state(r, s) {
            let a = choose|a: int| 0 <= a < r.len() && #[trigger] r[a].state == s;
            let a2 = if a < i { a } else { a + 1 };
            assert(r[a] == v[a2]);
            assert(v[a2].state == s);
        }
        if has_state(v, s) && s != v[i].state {
            let a = choose|a: int| 0 <= a < v.len() && #[trigger] v[a].state == s;
            let a2 = if a < i { a } else { a - 1 };
            assert(r[a2] == v[a]);
            assert(r[a2].state == s);
        }
    }
}

proof fn lemma_filter_unique(v: Seq<ContextView>, now: int)
    requires
        states_unique(v),
    ensures
        states_unique(live_at(v, now)),
        forall|s: Seq<char>| #[trigger] has_state(live_at(v, now), s) ==> has_state(v, s),
    decreases v.len(),
{
    reveal(Seq::filter);
    if v.len() > 0 {
        let d = v.drop_last();
        assert(states_unique(d)) by {
            assert forall|a: int, b: int| 0 <= a < d.len() && 0 <= b < d.len() && a != b implies d[a].state != d[b].state by {
                assert(d[a] == v[a] && d[b] == v[b]);
            }
        }
        lemma_filter_unique(d, now);
        let f = live_at(d, now);
        assert(live_at(v, now) == (if v.last().exp >= now { f.push(v.last()) } else { f }));
        if v.last().exp >= now {
            assert(!has_state(f, v.last().state)) by {
                if has_state(d, v.last().state) {
                    let a = choose|a: int| 0 <= a < d.len() && #[trigger] d[a].state == v.last().state;
                    assert(d[a] == v[a]);
                    assert(v[a].state == v[v.len() - 1].state);
                }
            }
            let g = f.push(v.last());
            assert forall|a: int, b: int| 0 <= a < g.len() && 0 <= b < g.len() && a != b implies g[a].state != g[b].state by {
                if a < f.len() && b < f.len() {
                    assert(g[a] == f[a] && g[b] == f[b]);
                } else if a < f.len() {
                    assert(g[a] == f[a]);
                    assert(f[a].state == g[a].state);
                } else if b < f.len() {
                    assert(g[b] == f[b]);
                    assert(f[b].state == g[b].state);
                }
            }
            assert forall|s: Seq<char>| has_state(g, s) implies has_state(v, s) by {
                let a = choose|a: int| 0 <= a < g.len() && #[trigger] g[a].state == s;
                if a < f.len() {
                    assert(g[a] == f[a]);
                    assert(has_state(f, s));
                    assert(has_state(d, s));
                    let b = choose|b: int| 0 <= b < d.len() && #[trigger] d[b].state == s;
                    assert(d[b] == v[b]);
                } else {
                    assert(v[v.len() - 1].state == s);
                }
            }
        } else {
            assert forall|s: Seq<char>| has_state(f, s) implies has_state(v, s) by {
                assert(has_state(d, s));
                let b = choose|b: int| 0 <= b < d.len() && #[trigger] d[b].state == s;
                assert(d[b] == v[b]);
            }
        }
    }
}

/// The authentication contexts of flows in progress.
pub struct ContextStore {
    contexts: Vec<AuthContext>,
}

impl View for ContextStore {
    type V = Seq<ContextView>;

    closed spec fn view(&self) -> Seq<ContextView> {
        self.contexts@.map_values(|c: AuthContext| c@)
    }
}

impl ContextStore {
    /// Well formed: states are unique.
    pub open spec fn wf(&self) -> bool {
        states_unique(self@)
    }

    /// An empty store.
    pub fn new() -> (r: ContextStore)
        ensures
            r.wf(),
            r@ == Seq::<ContextView>::empty(),
    {
        let r = ContextStore { contexts: Vec::new() };
        assert(r@ =~= Seq::<ContextView>::empty());
        r
    }

    /// The number of stored contexts.
    pub fn len(&self) -> (r: usize)
        ensures
            r == self@.len(),
    {
        self.contexts.len()
    }

    fn position(&self, state: &str) -> (r: Option<usize>)
        requires
            self.wf(),
        ensures
            r matches Some(i) ==> i < self@.len() && self@[i as int].state == state@ && state_index(self@, state@)
                == i as int && has_state(self@, state@),
            r is None ==> !has_state(self@, state@),
    {
        let mut i: usize = 0;
        while i < self.contexts.len()
            invariant
                i <= self@.len(),
                self.wf(),
                self@.len() == self.contexts@.len(),
                forall|k: int| 0 <= k < i ==> #[trigger] self@[k].state != state@,
            decreases self.contexts@.len() - i,
        {
            assert(self@[i as int] == self.contexts@[i as int]@);
            if ct_eq(self.contexts[i].state.as_str(), state) {
                proof {
                    lemma_index_unique(self@, state@, i as int);
                }
                return Some(i);
            }
            i = i + 1;
        }
        None
    }

    /// Stores a new context, expiring `ttl` seconds after `now`. Refused when
    /// the state is already in use or the expiry is not representable; the
    /// store is then unchanged.
    pub fn save(&mut self, state: &str, user_email: &str, nonce: &str, now: i64, ttl: i64) -> (r: Result<(), DuoError>)
        requires
            old(self).wf(),
        ensures
            final(self).wf(),
            r is Ok <==> !has_state(old(self)@, state@) && fits_i64(now + ttl),
            r is Ok ==> final(self)@ == old(self)@.push(
                ContextView { state: state@, user_email: user_email@, nonce: nonce@, exp: now + ttl },
            ),
            r is Err ==> final(self)@ == old(self)@,
            r matches Err(e) ==> e == DuoError::Storage,
    {
        if self.position(state).is_some() {
            return Err(DuoError::Storage);
        }
        let exp = match now.checked_add(ttl) {
            Some(e) => e,
            None => return Err(DuoError::Storage),
        };
        let ghost before = self@;
        let ctx = AuthContext {
            state: String::from_str(state),
            user_email: String::from_str(user_email),
            nonce: String::from_str(nonce),
            exp,
        };
        self.contexts.push(ctx);
        assert(self@ =~= before.push(ctx@));
        assert forall|a: int, b: int| 0 <= a < self@.len() && 0 <= b < self@.len() && a != b implies self@[a].state
            != self@[b].state by {
            if a < before.len() && b < before.len() {
            } else if a < before.len() {
                assert(self@[a] == before[a]);
            } else {
                assert(self@[b] == before[b]);
            }
        }
        Ok(())
    }

    /// The context holding `state`, expired or not.
    pub fn find_by_state(&self, state: &str) -> (r: Option<AuthContext>)
        requires
            self.wf(),
        ensures
            r matches Some(c) ==> context_of(self@, state@) == Some(c@),
            r is None ==> context_of(self@, state@) is None,
    {
        match self.position(state) {
            Some(i) => {
                assert(self@[i as int] == self.contexts@[i as int]@);
                Some(self.contexts[i].clone_context())
            },
            None => None,
        }
    }

    /// Removes the context holding `state`, if any.
    pub fn delete(&mut self, state: &str)
        requires
            old(self).wf(),
        ensures
            final(self).wf(),
            final(self)@ == without_state(old(self)@, state@),
    {
        if let Some(i) = self.position(state) {
            let ghost before = self@;
            proof {
                lemma_remove_unique(before, i as int);
            }
            self.contexts.remove(i);
            assert(self@ =~= before.remove(i as int));
        }
    }

    /// Takes the context holding `state` out of the store, whether or not it is
    /// still live, and hands it back only if it has not expired before `now`.
    /// A state can therefore be consumed once at most.
    pub fn extract_context(&mut self, state: &str, now: i64) -> (r: Option<AuthContext>)
        requires
            old(self).wf(),
        ensures
            final(self).wf(),
            final(self)@ == without_state(old(self)@, state@),
            !has_state(final(self)@, state@),
            r matches Some(c) ==> consumed(old(self)@, state@, now as int) == Some(c@),
            r is None ==> consumed(old(self)@, state@, now as int) is None,
    {
        let found = self.find_by_state(state);
        proof {
            if has_state(self@, state@) {
                lemma_remove_unique(self@, state_index(self@, state@));
            }
        }
        self.delete(state);
        match found {
            Some(ctx) => {
                if ctx.exp < now {
                    None
                } else {
                    Some(ctx)
                }
            },
            None => None,
        }
    }

    /// Removes every context that expired before `now`.
    pub fn purge_expired(&mut self, now: i64)
        requires
            old(self).wf(),
        ensures
            final(self).wf(),
            final(self)@ == live_at(old(self)@, now as int),
    {
        let ghost v = self@;
        let mut kept: Vec<AuthContext> = Vec::new();
        let mut i: usize = 0;
        while i < self.contexts.len()
            invariant
                i <= self.contexts@.len(),
                self@ == v,
                v.len() == self.contexts@.len(),
                kept@.map_values(|c: AuthContext| c@) == live_at(v.subrange(0, i as int), now as int),
            decreases self.contexts@.len() - i,
        {
            let ghost sub = v.subrange(0, i as int + 1);
            assert(sub.drop_last() =~= v.subrange(0, i as int));
            assert(sub.last() == self.contexts@[i as int]@);
            proof {
                reveal(Seq::filter);
            }
            let ghost old_kept = kept@;
            if self.contexts[i].exp >= now {
                kept.push(self.contexts[i].clone_context());
                assert(kept@.map_values(|c: AuthContext| c@) =~= old_kept.map_values(|c: AuthContext| c@).push(
                    sub.last(),
                ));
            }
            i = i + 1;
        }
        assert(v.subrange(0, v.len() as int) =~= v);
        proof {
            lemma_filter_unique(v, now as int);
        }
        self.contexts = kept;
    }
}

impl AuthContext {
    /// A copy of the context.
    pub fn clone_context(&self) -> (r: AuthContext)
        ensures
            r@ == self@,
    {
        AuthContext {
            state: self.state.clone(),
            user_email: self.user_email.clone(),
            nonce: self.nonce.clone(),
            exp: self.exp,
        }
    }
}

} // verus!
