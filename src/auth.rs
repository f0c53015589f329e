use vstd::prelude::*;

use rand::Rng;

use crate::error::Erro;
use crate::text::str_eq;

verus! {

/// Length of an issued bearer token.
pub const TOKEN_LEN: usize = 16;

pub open spec fn is_alphanumeric(c: char) -> bool {
    ('a' <= c && c <= 'z') || ('A' <= c && c <= 'Z') || ('0' <= c && c <= '9')
}

/// Relies on rand's `Alphanumeric` distribution sampled from `thread_rng`:
/// `len` characters, each drawn from `A-Z`, `a-z` and `0-9`.
#[verifier::external_body]
fn random_alphanumeric(len: usize) -> (r: String)
    ensures
        r@.len() == len,
        forall|i: int| 0 <= i < r@.len() ==> is_alphanumeric(#[trigger] r@[i]),
{
    rand::thread_rng().sample_iter(rand::distributions::Alphanumeric).take(len).map(char::from).collect()
}

/// One issued token, bound to the credential that was given for it and to
/// the time (in seconds) at which it was issued.
pub struct Auth {
    token: String,
    username: String,
    password: String,
    date: u64,
}

impl Auth {
    pub closed spec fn token_view(&self) -> Seq<char> {
        self.token@
    }

    pub closed spec fn username_view(&self) -> Seq<char> {
        self.username@
    }

    pub closed spec fn password_view(&self) -> Seq<char> {
        self.password@
    }

    pub closed spec fn date_view(&self) -> u64 {
        self.date
    }

    /// Expired once `now` reaches the issue time plus `duration`.
    pub fn expired(&self, duration: u64, now: u64) -> (r: bool)
        ensures
            r == (now as int >= self.date_view() as int + duration as int),
    {
        now >= self.date && now - self.date >= duration
    }

    pub fn username(&self) -> (r: &str)
        ensures
            r@ == self.username_view(),
    {
        self.username.as_str()
    }

    pub fn password(&self) -> (r: &str)
        ensures
            r@ == self.password_view(),
    {
        self.password.as_str()
    }

    pub fn token(&self) -> (r: &str)
        ensures
            r@ == self.token_view(),
    {
        self.token.as_str()
    }
}

/// The index of the first record that holds `token`.
pub open spec fn token_index(auths: Seq<Auth>, token: Seq<char>) -> Option<int>
    decreases auths.len(),
{
    if auths.len() == 0 {
        None
    } else if auths.last().token_view() == token {
        match token_index(auths.drop_last(), token) {
            Some(i) => Some(i),
            None => Some(auths.len() - 1),
        }
    } else {
        token_index(auths.drop_last(), token)
    }
}

/// The index of the record of `username`.
pub open spec fn user_index(auths: Seq<Auth>, username: Seq<char>) -> Option<int> {
    if exists|i: int| 0 <= i < auths.len() && auths[i].username_view() == username {
        Some(choose|i: int| 0 <= i < auths.len() && auths[i].username_view() == username)
    } else {
        None
    }
}

/// `after` is `before` with the record of `username` replaced (or, if there
/// was none, appended) by one that holds `token`, `password` and `now`.
pub open spec fn issued(
    before: Seq<Auth>,
    after: Seq<Auth>,
    username: Seq<char>,
    password: Seq<char>,
    now: u64,
    token: Seq<char>,
) -> bool {
    let k = match user_index(before, username) {
        Some(i) => i,
        None => before.len() as int,
    };
    &&& after.len() as int == (if k == before.len() {
        before.len() + 1 as int
    } else {
        before.len() as int
    })
    &&& forall|j: int| 0 <= j < before.len() && j != k ==> after[j] == before[j]
    &&& after[k].token_view() == token
    &&& after[k].username_view() == username
    &&& after[k].password_view() == password
    &&& after[k].date_view() == now
}

/// What a lookup of `token` at time `now` yields: the index of the record,
/// or why there is none.
pub open spec fn lookup(auths: Seq<Auth>, ttl: u64, token: Seq<char>, now: u64) -> Result<
    int,
    Erro,
> {
    match token_index(auths, token) {
        None => Err(Erro::AuthNotFound),
        Some(i) => if now as int >= auths[i].date_view() as int + ttl as int {
            Err(Erro::AuthTokenExpired)
        } else {
            Ok(i)
        },
    }
}

pub open spec fn keeps_token(token: Seq<char>) -> spec_fn(Auth) -> bool {
    |a: Auth| a.token_view() != token
}

/// Issues, rotates, resolves and revokes bearer tokens.
pub struct AuthController {
    auths: Vec<Auth>,
    duration: u64,
}

impl AuthController {
    /// At most one record per username.
    pub closed spec fn wf(&self) -> bool {
        forall|i: int, j: int|
            #![trigger self.auths@[i], self.auths@[j]]
            0 <= i < j < self.auths@.len() ==> self.auths@[i].username@ != self.auths@[j].username@
    }

    pub closed spec fn records(&self) -> Seq<Auth> {
        self.auths@
    }

    pub closed spec fn ttl(&self) -> u64 {
        self.duration
    }

    /// An empty controller whose tokens live `duration` seconds.
    pub fn new(duration: u64) -> (r: AuthController)
        ensures
            r.wf(),
            r.records().len() == 0,
            r.ttl() == duration,
    {
        AuthController { auths: Vec::new(), duration }
    }

    /// Issues a fresh token for `username`, replacing the record of that user
    /// if there is one, and stamps it with `now`.
    pub fn insert_or_replace(&mut self, username: String, password: String, now: u64) -> (r:
        String)
        requires
            old(self).wf(),
        ensures
            final(self).wf(),
            final(self).ttl() == old(self).ttl(),
            r@.len() == TOKEN_LEN,
            forall|i: int| 0 <= i < r@.len() ==> is_alphanumeric(#[trigger] r@[i]),
            issued(old(self).records(), final(self).records(), username@, password@, now, r@),
    {
        let token = random_alphanumeric(TOKEN_LEN);
        let mut i: usize = 0;
        while i < self.auths.len()
            invariant
                self.wf(),
                self.auths@ == old(self).auths@,
                self.duration == old(self).duration,
                token@.len() == TOKEN_LEN,
                forall|j: int| 0 <= j < token@.len() ==> is_alphanumeric(#[trigger] token@[j]),
                i <= self.auths@.len(),
                forall|j: int| 0 <= j < i ==> self.auths@[j].username@ != username@,
            decreases self.auths@.len() - i,
        {
            if str_eq(self.auths[i].username.as_str(), username.as_str()) {
                let ghost before = self.auths@;
                let fresh = Auth { token: token.clone(), username, password, date: now };
                self.auths.set(i, fresh);
                proof {
                    assert(user_index(before, username@) == Some(i as int)) by {
                        let c = choose|c: int|
                            0 <= c < before.len() && before[c].username@ == username@;
                        if c != i {
                            if c < i {
                            } else {
                                assert(before[i as int].username@ != before[c].username@);
                            }
                        }
                    }
                    assert forall|a: int, b: int|
                        #![trigger self.auths@[a], self.auths@[b]]
                        0 <= a < b < self.auths@.len() implies self.auths@[a].username@
                        != self.auths@[b].username@ by {
                        if a == i {
                            assert(before[a].username@ != before[b].username@);
                        } else if b == i {
                            assert(before[a].username@ != before[b].username@);
                        }
                    }
                }
                return token;
            }
            i = i + 1;
        }
        let ghost before = self.auths@;
        self.auths.push(Auth { token: token.clone(), username, password, date: now });
        proof {
            assert(user_index(before, username@) is None);
            assert forall|a: int, b: int|
                #![trigger self.auths@[a], self.auths@[b]]
                0 <= a < b < self.auths@.len() implies self.auths@[a].username@
                != self.auths@[b].username@ by {
                if b == before.len() {
                } else {
                    assert(before[a].username@ != before[b].username@);
                }
            }
        }
        token
    }

    /// Resolves `token` to its record, if it is there and not expired at `now`.
    pub fn get(&self, token: &str, now: u64) -> (r: Result<&Auth, Erro>)
        ensures
            match lookup(self.records(), self.ttl(), token@, now) {
                Ok(i) => r == Ok::<&Auth, Erro>(&self.records()[i]),
                Err(e) => r == Err::<&Auth, Erro>(e),
            },
    {
        let mut i: usize = 0;
        while i < self.auths.len()
            invariant
                i <= self.auths@.len(),
                forall|j: int| 0 <= j < i ==> self.auths@[j].token@ != token@,
            decreases self.auths@.len() - i,
        {
            if str_eq(self.auths[i].token.as_str(), token) {
                proof {
                    lemma_token_index(self.auths@, token@);
                }
                let a = &self.auths[i];
                if a.expired(self.duration, now) {
                    return Err(Erro::AuthTokenExpired);
                }
                return Ok(a);
            }
            i = i + 1;
        }
        proof {
            lemma_token_index(self.auths@, token@);
        }
        Err(Erro::AuthNotFound)
    }

    /// Removes every record that holds `token`; true iff one was removed.
    pub fn delete(&mut self, token: &str) -> (r: bool)
        requires
            old(self).wf(),
        ensures
            final(self).wf(),
            final(self).ttl() == old(self).ttl(),
            final(self).records() == old(self).records().filter(keeps_token(token@)),
            r == (token_index(old(self).records(), token@) is Some),
    {
        let mut rest: Vec<Auth> = Vec::new();
        std::mem::swap(&mut rest, &mut self.auths);
        let ghost orig = rest@;
        let n = rest.len();
        let mut removed = false;
        let mut k: usize = 0;
        proof {
            reveal(Seq::filter);
            assert(orig.subrange(0, 0).filter(keeps_token(token@)) == Seq::<Auth>::empty());
        }
        while rest.len() > 0
            invariant
                n == orig.len(),
                k + rest@.len() == orig.len(),
                rest@ == orig.subrange(k as int, orig.len() as int),
                self.auths@ == orig.subrange(0, k as int).filter(keeps_token(token@)),
                self.duration == old(self).duration,
                removed == (exists|j: int| 0 <= j < k && orig[j].token@ == token@),
                orig == old(self).auths@,
                old(self).wf(),
                self.wf(),
                forall|i: int|
                    0 <= i < self.auths@.len() ==> exists|j: int|
                        0 <= j < k && #[trigger] self.auths@[i] == orig[j],
            decreases rest@.len(),
        {
            let a = rest.remove(0);
            proof {
                reveal(Seq::filter);
                assert(orig.subrange(0, k + 1).drop_last() == orig.subrange(0, k as int));
                assert(orig.subrange(0, k + 1).last() == a);
            }
            if str_eq(a.token.as_str(), token) {
                removed = true;
            } else {
                let ghost before = self.auths@;
                self.auths.push(a);
                proof {
                    assert forall|x: int, y: int|
                        #![trigger self.auths@[x], self.auths@[y]]
                        0 <= x < y < self.auths@.len() implies self.auths@[x].username@
                        != self.auths@[y].username@ by {
                        if y == before.len() {
                            let j = choose|j: int| 0 <= j < k && before[x] == orig[j];
                            assert(orig[j].username@ != orig[k as int].username@);
                        } else {
                            assert(before[x].username@ != before[y].username@);
                        }
                    }
                    assert forall|i: int|
                        0 <= i < self.auths@.len() implies exists|j: int|
                        0 <= j < k + 1 && #[trigger] self.auths@[i] == orig[j] by {
                        if i == before.len() {
                            assert(self.auths@[i] == orig[k as int]);
                        } else {
                            let j = choose|j: int| 0 <= j < k && before[i] == orig[j];
                            assert(self.auths@[i] == orig[j]);
                        }
                    }
                }
            }
            k = k + 1;
        }
        proof {
            assert(orig.subrange(0, orig.len() as int) == orig);
            lemma_token_index(orig, token@);
        }
        removed
    }
}

/// A token issued at `now` resolves to its record while the clock is below
/// `now + ttl` and is reported expired from then on (given that no earlier
/// record happened to hold the same random token).
pub proof fn lemma_issued_token_lifetime(
    before: Seq<Auth>,
    after: Seq<Auth>,
    username: Seq<char>,
    password: Seq<char>,
    now: u64,
    token: Seq<char>,
    ttl: u64,
    at: u64,
)
    requires
        issued(before, after, username, password, now, token),
        forall|j: int| 0 <= j < before.len() ==> before[j].token_view() != token,
    ensures
        ({
            let k = match user_index(before, username) {
                Some(i) => i,
                None => before.len() as int,
            };
            lookup(after, ttl, token, at) == if at as int >= now as int + ttl as int {
                Err::<int, Erro>(Erro::AuthTokenExpired)
            } else {
                Ok::<int, Erro>(k)
            }
        }),
{
    let k = match user_index(before, username) {
        Some(i) => i,
        None => before.len() as int,
    };
    if user_index(before, username) is Some {
        let i = choose|i: int| 0 <= i < before.len() && before[i].username_view() == username;
        assert(0 <= i < before.len());
    }
    lemma_token_index(after, token);
    assert(after[k].token_view() == token);
}

/// Re-issuing for a username forgets the token it held before: a lookup of
/// the old token finds nothing (it is not merely expired), given that the
/// new token differs from it and no other record held it.
pub proof fn lemma_rotation_forgets_old_token(
    before: Seq<Auth>,
    after: Seq<Auth>,
    username: Seq<char>,
    password: Seq<char>,
    now: u64,
    token: Seq<char>,
    old_token: Seq<char>,
    ttl: u64,
    at: u64,
)
    requires
        issued(before, after, username, password, now, token),
        user_index(before, username) matches Some(i) && before[i].token_view() == old_token && (
        forall|j: int| 0 <= j < before.len() && j != i ==> before[j].token_view() != old_token),
        token != old_token,
    ensures
        lookup(after, ttl, old_token, at) == Err::<int, Erro>(Erro::AuthNotFound),
{
    let i = choose|i: int| 0 <= i < before.len() && before[i].username_view() == username;
    lemma_token_index(after, old_token);
    if token_index(after, old_token) is Some {
        let m = token_index(after, old_token)->0;
        assert(after[m].token_view() == old_token);
    }
}

/// Revoking a token twice: the second revocation finds nothing and leaves
/// the records as the first left them.
pub proof fn lemma_delete_idempotent(auths: Seq<Auth>, token: Seq<char>)
    ensures
        auths.filter(keeps_token(token)).filter(keeps_token(token)) == auths.filter(
            keeps_token(token),
        ),
        token_index(auths.filter(keeps_token(token)), token) is None,
{
    let f = auths.filter(keeps_token(token));
    broadcast use vstd::seq_lib::group_filter_ensures;

    lemma_filter_all_kept(f, keeps_token(token));
    lemma_token_index(f, token);
    if token_index(f, token) is Some {
        let m = token_index(f, token)->0;
        assert(keeps_token(token)(f[m]));
    }
}

proof fn lemma_filter_all_kept(s: Seq<Auth>, pred: spec_fn(Auth) -> bool)
    requires
        forall|i: int| 0 <= i < s.len() ==> pred(#[trigger] s[i]),
    ensures
        s.filter(pred) == s,
    decreases s.len(),
{
    reveal(Seq::filter);
    if s.len() > 0 {
        let init = s.drop_last();
        assert forall|i: int| 0 <= i < init.len() implies pred(#[trigger] init[i]) by {
            assert(init[i] == s[i]);
        }
        lemma_filter_all_kept(init, pred);
        assert(pred(s[s.len() - 1]));
        assert(init.push(s.last()) == s);
    }
}

proof fn lemma_token_index(auths: Seq<Auth>, token: Seq<char>)
    ensures
        token_index(auths, token) matches Some(i) ==> 0 <= i < auths.len() && auths[i].token@
            == token && forall|j: int| 0 <= j < i ==> auths[j].token@ != token,
        token_index(auths, token) is None ==> forall|j: int|
            0 <= j < auths.len() ==> auths[j].token@ != token,
    decreases auths.len(),
{
    if auths.len() > 0 {
        let init = auths.drop_last();
        lemma_token_index(init, token);
        assert forall|j: int| 0 <= j < init.len() implies init[j] == auths[j] by {}
    }
}

} // verus!
