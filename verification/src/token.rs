//! Bearer tokens for non-loopback upload callers: issuance, validation and
//! pruning of expired entries.

use vstd::prelude::*;
use vstd::string::*;

use crate::host::new_id;
use crate::text::str_eq;

verus! {

/// A fresh opaque token and the instant it stops validating.
pub struct PhoneTokenResponse {
    pub token: String,
    pub expires_at: i64,
}

/// Why a caller was refused: uploads administratively off for non-loopback
/// callers, a missing token, or a token that is unknown or expired.
#[derive(Clone, Copy, PartialEq, Eq, Structural, Debug)]
pub enum AuthError {
    UploadsOff,
    MissingToken,
    InvalidToken,
}

impl AuthError {
    /// The HTTP status reported for this refusal.
    pub fn status_code(&self) -> (r: u16)
        ensures
            r == (if self is UploadsOff {
                503u16
            } else {
                401u16
            }),
    {
        match self {
            AuthError::UploadsOff => 503,
            AuthError::MissingToken => 401,
            AuthError::InvalidToken => 401,
        }
    }

    /// The message reported for this refusal.
    pub fn message(&self) -> (r: String)
        ensures
            self is UploadsOff ==> r@ == "Phone uploads are off"@,
            self is MissingToken ==> r@ == "Missing token"@,
            self is InvalidToken ==> r@ == "Invalid or expired token"@,
    {
        match self {
            AuthError::UploadsOff => String::from_str("Phone uploads are off"),
            AuthError::MissingToken => String::from_str("Missing token"),
            AuthError::InvalidToken => String::from_str("Invalid or expired token"),
        }
    }
}

struct TokenEntry {
    value: String,
    expires_at: i64,
}

/// The mapping of outstanding upload tokens to their expiry instants.
pub struct TokenStore {
    entries: Vec<TokenEntry>,
}

impl View for TokenStore {
    type V = Seq<(Seq<char>, int)>;

    closed spec fn view(&self) -> Seq<(Seq<char>, int)> {
        Seq::new(
            self.entries@.len(),
            |i: int| (self.entries@[i].value@, self.entries@[i].expires_at as int),
        )
    }
}

/// The store holds an entry for token `v` expiring at `x`.
pub open spec fn in_store(s: Seq<(Seq<char>, int)>, v: Seq<char>, x: int) -> bool {
    exists|i: int| 0 <= i < s.len() && s[i] == (v, x)
}

/// Token `v` has an entry that has not yet expired at `now`.
pub open spec fn spec_token_valid(s: Seq<(Seq<char>, int)>, v: Seq<char>, now: int) -> bool {
    exists|i: int| 0 <= i < s.len() && s[i].0 == v && s[i].1 > now
}

/// No two entries carry the same token value.
pub open spec fn wf_token_seq(s: Seq<(Seq<char>, int)>) -> bool {
    forall|i: int, j: int| 0 <= i < j < s.len() ==> (#[trigger] s[i]).0 != (#[trigger] s[j]).0
}

/// `t` holds exactly the entries of `s` whose expiry lies after `now`.
pub open spec fn pruned_of(s: Seq<(Seq<char>, int)>, t: Seq<(Seq<char>, int)>, now: int) -> bool {
    &&& forall|k: int| 0 <= k < t.len() ==> (#[trigger] t[k]).1 > now && in_store(s, t[k].0, t[k].1)
    &&& forall|j: int| 0 <= j < s.len() && (#[trigger] s[j]).1 > now ==> in_store(t, s[j].0, s[j].1)
}

/// A token in the store with expiry `exp` validates at `now` exactly when
/// `now` lies before `exp`: issuing with TTL `T` at time `issued` makes the
/// token validate at every `now < issued + T` and fail from `issued + T` on.
pub proof fn lemma_issued_token_validity(
    s: Seq<(Seq<char>, int)>,
    tok: Seq<char>,
    exp: int,
    now: int,
)
    requires
        wf_token_seq(s),
        in_store(s, tok, exp),
    ensures
        spec_token_valid(s, tok, now) <==> now < exp,
{
    let i = choose|i: int| 0 <= i < s.len() && s[i] == (tok, exp);
    if spec_token_valid(s, tok, now) {
        let j = choose|j: int| 0 <= j < s.len() && s[j].0 == tok && s[j].1 > now;
        assert(i == j);
    }
    if now < exp {
        assert(s[i].0 == tok && s[i].1 > now);
    }
}

impl TokenStore {
    /// No two entries of the store carry the same token value.
    pub open spec fn wf(self) -> bool {
        wf_token_seq(self@)
    }

    /// An empty store.
    pub fn new() -> (r: TokenStore)
        ensures
            r@.len() == 0,
            r.wf(),
    {
        TokenStore { entries: Vec::new() }
    }

    /// Drops every outstanding token; called whenever the server stops.
    pub fn clear_phone_tokens(&mut self)
        ensures
            final(self)@.len() == 0,
            final(self).wf(),
    {
        self.entries.clear();
    }

    /// How many tokens are outstanding.
    pub fn len(&self) -> (r: usize)
        ensures
            r == self@.len(),
    {
        self.entries.len()
    }

    /// Removes every entry whose expiry has passed at `now`.
    #[verifier::rlimit(50)]
    fn prune(&mut self, now: i64)
        requires
            old(self).wf(),
        ensures
            final(self).wf(),
            pruned_of(old(self)@, final(self)@, now as int),
            forall|v: Seq<char>|
                spec_token_valid(final(self)@, v, now as int) == spec_token_valid(
                    old(self)@,
                    v,
                    now as int,
                ),
    {
        let ghost s_old = self@;
        let mut kept: Vec<TokenEntry> = Vec::new();
        let n = self.entries.len();
        let mut i: usize = 0;
        while i < n
            invariant
                n == self.entries@.len(),
                self@ =~= s_old,
                wf_token_seq(s_old),
                i <= n,
                forall|k: int| 0 <= k < kept@.len() ==> (#[trigger] kept@[k]).expires_at > now
                    && exists|j: int|
                    0 <= j < i && s_old[j] == (kept@[k].value@, kept@[k].expires_at as int),
                forall|j: int| 0 <= j < i && (#[trigger] s_old[j]).1 > now ==> exists|k: int|
                    0 <= k < kept@.len() && (kept@[k].value@, kept@[k].expires_at as int)
                        == s_old[j],
                forall|k: int, l: int| 0 <= k < l < kept@.len() ==> (#[trigger] kept@[k]).value@
                    != (#[trigger] kept@[l]).value@,
            decreases n - i,
        {
            let ghost kept_pre = kept@;
            if self.entries[i].expires_at > now {
                let e = TokenEntry {
                    value: self.entries[i].value.clone(),
                    expires_at: self.entries[i].expires_at,
                };
                assert(s_old[i as int] == (e.value@, e.expires_at as int));
                proof {
                    assert forall|k: int| 0 <= k < kept@.len() implies (#[trigger] kept@[k]).value@
                        != e.value@ by {
                        let j = choose|j: int|
                            0 <= j < i && s_old[j] == (kept@[k].value@, kept@[k].expires_at as int);
                        assert(s_old[j].0 != s_old[i as int].0);
                    }
                }
                kept.push(e);
                proof {
                    assert forall|k: int| 0 <= k < kept@.len() implies (#[trigger] kept@[k]).expires_at
                        > now && exists|j: int|
                        0 <= j < i + 1 && s_old[j] == (
                            kept@[k].value@,
                            kept@[k].expires_at as int,
                        ) by {
                        if k < kept_pre.len() {
                            assert(kept@[k] == kept_pre[k]);
                            let j = choose|j: int|
                                0 <= j < i && s_old[j] == (
                                    kept_pre[k].value@,
                                    kept_pre[k].expires_at as int,
                                );
                            assert(0 <= j < i + 1 && s_old[j] == (
                                kept@[k].value@,
                                kept@[k].expires_at as int,
                            ));
                        } else {
                            assert(kept@[k] == e);
                            assert(s_old[i as int] == (kept@[k].value@, kept@[k].expires_at as int));
                        }
                    }
                    assert forall|j: int| 0 <= j < i + 1 && (#[trigger] s_old[j]).1
                        > now implies exists|k: int|
                        0 <= k < kept@.len() && (kept@[k].value@, kept@[k].expires_at as int)
                            == s_old[j] by {
                        if j < i {
                            let k = choose|k: int|
                                0 <= k < kept_pre.len() && (
                                    kept_pre[k].value@,
                                    kept_pre[k].expires_at as int,
                                ) == s_old[j];
                            assert(kept@[k] == kept_pre[k]);
                            assert((kept@[k].value@, kept@[k].expires_at as int) == s_old[j]);
                        } else {
                            let k = kept@.len() - 1;
                            assert((kept@[k].value@, kept@[k].expires_at as int) == s_old[j]);
                        }
                    }
                }
            } else {
                proof {
                    assert(s_old[i as int] == (
                        self.entries@[i as int].value@,
                        self.entries@[i as int].expires_at as int,
                    ));
                    assert(s_old[i as int].1 <= now);
                }
            }
            i = i + 1;
        }
        let ghost kv = kept@;
        self.entries = kept;
        proof {
            let s_new = self@;
            assert(s_new.len() == kv.len());
            assert(forall|k: int| 0 <= k < kv.len() ==> #[trigger] s_new[k] == (
                kv[k].value@,
                kv[k].expires_at as int,
            ));
            assert(final(self).wf());
            assert forall|k: int| 0 <= k < s_new.len() implies (#[trigger] s_new[k]).1 > now
                && in_store(s_old, s_new[k].0, s_new[k].1) by {
                assert(kv[k].expires_at > now);
                let j = choose|j: int|
                    0 <= j < s_old.len() && s_old[j] == (kv[k].value@, kv[k].expires_at as int);
                assert(0 <= j < s_old.len() && s_old[j] == (s_new[k].0, s_new[k].1));
            }
            assert forall|j: int| 0 <= j < s_old.len() && (#[trigger] s_old[j]).1
                > now implies in_store(s_new, s_old[j].0, s_old[j].1) by {
                let k = choose|k: int|
                    0 <= k < kv.len() && (kv[k].value@, kv[k].expires_at as int) == s_old[j];
                assert(0 <= k < s_new.len() && s_new[k] == (s_old[j].0, s_old[j].1));
            }
            assert forall|v: Seq<char>|
                spec_token_valid(s_new, v, now as int) == spec_token_valid(
                    s_old,
                    v,
                    now as int,
                ) by {
                if spec_token_valid(s_new, v, now as int) {
                    let k = choose|k: int|
                        0 <= k < s_new.len() && s_new[k].0 == v && s_new[k].1 > now;
                    assert(in_store(s_old, s_new[k].0, s_new[k].1));
                    let j = choose|j: int|
                        0 <= j < s_old.len() && s_old[j] == (s_new[k].0, s_new[k].1);
                    assert(s_old[j].0 == v && s_old[j].1 > now);
                }
                if spec_token_valid(s_old, v, now as int) {
                    let j = choose|j: int|
                        0 <= j < s_old.len() && s_old[j].0 == v && s_old[j].1 > now;
                    assert(in_store(s_new, s_old[j].0, s_old[j].1));
                    let k = choose|k: int|
                        0 <= k < s_new.len() && s_new[k] == (s_old[j].0, s_old[j].1);
                    assert(s_new[k].0 == v && s_new[k].1 > now);
                }
            }
        }
    }

    /// Stores `value` with expiry `expires_at`, replacing any entry that
    /// already carries the same value.
    #[verifier::rlimit(50)]
    fn upsert(&mut self, value: String, expires_at: i64)
        requires
            old(self).wf(),
        ensures
            final(self).wf(),
            in_store(final(self)@, value@, expires_at as int),
            forall|v: Seq<char>, x: int|
                v != value@ ==> (in_store(final(self)@, v, x) == in_store(old(self)@, v, x)),
    {
        let ghost s_old = self@;
        let mut kept: Vec<TokenEntry> = Vec::new();
        let n = self.entries.len();
        let mut i: usize = 0;
        while i < n
            invariant
                n == self.entries@.len(),
                self@ =~= s_old,
                wf_token_seq(s_old),
                i <= n,
                forall|k: int| 0 <= k < kept@.len() ==> (#[trigger] kept@[k]).value@ != value@
                    && exists|j: int|
                    0 <= j < i && s_old[j] == (kept@[k].value@, kept@[k].expires_at as int),
                forall|j: int| 0 <= j < i && (#[trigger] s_old[j]).0 != value@ ==> exists|k: int|
                    0 <= k < kept@.len() && (kept@[k].value@, kept@[k].expires_at as int)
                        == s_old[j],
                forall|k: int, l: int| 0 <= k < l < kept@.len() ==> (#[trigger] kept@[k]).value@
                    != (#[trigger] kept@[l]).value@,
            decreases n - i,
        {
            let ghost kept_pre = kept@;
            proof {
                assert(s_old[i as int] == (
                    self.entries@[i as int].value@,
                    self.entries@[i as int].expires_at as int,
                ));
            }
            if !str_eq(self.entries[i].value.as_str(), value.as_str()) {
                let e = TokenEntry {
                    value: self.entries[i].value.clone(),
                    expires_at: self.entries[i].expires_at,
                };
                assert(s_old[i as int] == (e.value@, e.expires_at as int));
                proof {
                    assert forall|k: int| 0 <= k < kept@.len() implies (#[trigger] kept@[k]).value@
                        != e.value@ by {
                        let j = choose|j: int|
                            0 <= j < i && s_old[j] == (kept@[k].value@, kept@[k].expires_at as int);
                        assert(s_old[j].0 != s_old[i as int].0);
                    }
                }
                kept.push(e);
                proof {
                    assert forall|k: int| 0 <= k < kept@.len() implies (#[trigger] kept@[k]).value@
                        != value@ && exists|j: int|
                        0 <= j < i + 1 && s_old[j] == (
                            kept@[k].value@,
                            kept@[k].expires_at as int,
                        ) by {
                        if k < kept_pre.len() {
                            assert(kept@[k] == kept_pre[k]);
                            let j = choose|j: int|
                                0 <= j < i && s_old[j] == (
                                    kept_pre[k].value@,
                                    kept_pre[k].expires_at as int,
                                );
                            assert(0 <= j < i + 1 && s_old[j] == (
                                kept@[k].value@,
                                kept@[k].expires_at as int,
                            ));
                        } else {
                            assert(kept@[k] == e);
                            assert(s_old[i as int] == (kept@[k].value@, kept@[k].expires_at as int));
                        }
                    }
                    assert forall|j: int| 0 <= j < i + 1 && (#[trigger] s_old[j]).0
                        != value@ implies exists|k: int|
                        0 <= k < kept@.len() && (kept@[k].value@, kept@[k].expires_at as int)
                            == s_old[j] by {
                        if j < i {
                            let k = choose|k: int|
                                0 <= k < kept_pre.len() && (
                                    kept_pre[k].value@,
                                    kept_pre[k].expires_at as int,
                                ) == s_old[j];
                            assert(kept@[k] == kept_pre[k]);
                            assert((kept@[k].value@, kept@[k].expires_at as int) == s_old[j]);
                        } else {
                            let k = kept@.len() - 1;
                            assert((kept@[k].value@, kept@[k].expires_at as int) == s_old[j]);
                        }
                    }
                }
            }
            i = i + 1;
        }
        let ghost kp = kept@;
        kept.push(TokenEntry { value, expires_at });
        let ghost kv = kept@;
        self.entries = kept;
        proof {
            let s_new = self@;
            let last = kv.len() - 1;
            assert(s_new.len() == kv.len());
            assert(forall|k: int| 0 <= k < kv.len() ==> #[trigger] s_new[k] == (
                kv[k].value@,
                kv[k].expires_at as int,
            ));
            assert(forall|k: int| 0 <= k < kp.len() ==> #[trigger] kv[k] == kp[k]);
            assert(s_new[last] == (value@, expires_at as int));
            assert(in_store(s_new, value@, expires_at as int));
            assert(final(self).wf());
            assert forall|v: Seq<char>, x: int| v != value@ implies (in_store(s_new, v, x)
                == in_store(s_old, v, x)) by {
                if in_store(s_new, v, x) {
                    let k = choose|k: int| 0 <= k < s_new.len() && s_new[k] == (v, x);
                    assert(k < last);
                    assert(kv[k] == kp[k]);
                    let j = choose|j: int|
                        0 <= j < s_old.len() && s_old[j] == (kp[k].value@, kp[k].expires_at as int);
                    assert(s_old[j] == (v, x));
                }
                if in_store(s_old, v, x) {
                    let j = choose|j: int| 0 <= j < s_old.len() && s_old[j] == (v, x);
                    assert(s_old[j].0 != value@);
                    let k = choose|k: int|
                        0 <= k < kp.len() && (kp[k].value@, kp[k].expires_at as int) == s_old[j];
                    assert(kv[k] == kp[k]);
                    assert(s_new[k] == (v, x));
                }
            }
        }
    }

    /// Issues a fresh bearer token that expires `ttl` milliseconds after
    /// `now`; every other entry of the store is untouched.
    pub fn issue(&mut self, now: i64, ttl: i64) -> (r: PhoneTokenResponse)
        requires
            old(self).wf(),
            0 <= ttl,
            now + ttl <= i64::MAX,
        ensures
            final(self).wf(),
            r.expires_at == now + ttl,
            r.token@.len() == 36,
            in_store(final(self)@, r.token@, r.expires_at as int),
            forall|v: Seq<char>, x: int|
                v != r.token@ ==> (in_store(final(self)@, v, x) == in_store(old(self)@, v, x)),
    {
        let token = new_id();
        let expires_at = now + ttl;
        self.upsert(token.clone(), expires_at);
        PhoneTokenResponse { token, expires_at }
    }

    /// Whether `token` is outstanding and unexpired at `now`; entries whose
    /// expiry has passed are removed.
    pub fn validate(&mut self, token: &str, now: i64) -> (r: bool)
        requires
            old(self).wf(),
        ensures
            final(self).wf(),
            r == spec_token_valid(old(self)@, token@, now as int),
            pruned_of(old(self)@, final(self)@, now as int),
    {
        self.prune(now);
        let ghost s = self@;
        let n = self.entries.len();
        let mut i: usize = 0;
        while i < n
            invariant
                n == self.entries@.len(),
                self@ =~= s,
                self.wf(),
                pruned_of(old(self)@, self@, now as int),
                spec_token_valid(self@, token@, now as int) == spec_token_valid(
                    old(self)@,
                    token@,
                    now as int,
                ),
                i <= n,
                forall|j: int| 0 <= j < i ==> (#[trigger] s[j]).0 != token@,
                forall|k: int| 0 <= k < s.len() ==> (#[trigger] s[k]).1 > now,
            decreases n - i,
        {
            proof {
                assert(s[i as int] == (
                    self.entries@[i as int].value@,
                    self.entries@[i as int].expires_at as int,
                ));
            }
            if str_eq(self.entries[i].value.as_str(), token) {
                assert(s[i as int].0 == token@ && s[i as int].1 > now);
                assert(spec_token_valid(s, token@, now as int));
                return true;
            }
            i = i + 1;
        }
        assert(!spec_token_valid(s, token@, now as int));
        false
    }
}

} // verus!
