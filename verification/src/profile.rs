//! The account entity and its session records.
//!
//! A profile holds one ordered sequence of session records, each carrying
//! the token hash, the originating IP and the session's capability
//! context.  Keeping the three values in one record makes misalignment of
//! the token, IP and context sequences unrepresentable: any insertion or
//! removal acts on all three at the same index by construction.

use vstd::prelude::*;
use crate::token::TokenContext;

verus! {

/// One active session of a profile.
#[derive(Debug)]
pub struct SessionRecord {
    /// Hash of the session token presented by the client.
    pub token: String,
    /// IP the session was created from; empty when not recorded.
    pub ip: String,
    /// The capability tier this session is restricted to.
    pub context: TokenContext,
}

/// Mathematical value of a session record.
#[verifier::ext_equal]
pub struct SessionView {
    pub token: Seq<char>,
    pub ip: Seq<char>,
    pub context: TokenContext,
}

impl View for SessionRecord {
    type V = SessionView;

    open spec fn view(&self) -> SessionView {
        SessionView { token: self.token@, ip: self.ip@, context: self.context }
    }
}

impl SessionRecord {
    /// A copy of the record with the same mathematical value.
    pub fn duplicate(&self) -> (r: SessionRecord)
        ensures
            r@ == self@,
    {
        SessionRecord { token: self.token.clone(), ip: self.ip.clone(), context: self.context }
    }
}

/// The sessions whose token is in `kept`, in their original order.
pub open spec fn retained(sessions: Seq<SessionView>, kept: Seq<Seq<char>>) -> Seq<SessionView> {
    sessions.filter(|s: SessionView| kept.contains(s.token))
}

/// The context of the first session carrying `token`, if any session does.
pub open spec fn first_context(sessions: Seq<SessionView>, token: Seq<char>) -> Option<
    TokenContext,
>
    decreases sessions.len(),
{
    if sessions.len() == 0 {
        None
    } else if sessions[0].token == token {
        Some(sessions[0].context)
    } else {
        first_context(sessions.drop_first(), token)
    }
}

/// The account entity: identity, group reference, and the ordered sequence
/// of active sessions.
#[derive(Debug)]
pub struct Profile {
    /// Unique account id.
    pub id: String,
    /// Unique account name.
    pub username: String,
    /// Integer reference to the account's group; the reserved id `-1`
    /// marks a banned account.
    pub group: i32,
    /// Active sessions, oldest first.
    pub sessions: Vec<SessionRecord>,
}

impl Profile {
    /// The sessions as a sequence of mathematical values.
    pub open spec fn sessions_view(self) -> Seq<SessionView> {
        self.sessions@.map_values(|r: SessionRecord| r@)
    }

    /// The session token hashes, index-aligned with `ips` and `contexts`.
    pub open spec fn tokens(self) -> Seq<Seq<char>> {
        self.sessions_view().map_values(|s: SessionView| s.token)
    }

    /// The session origin IPs, index-aligned with `tokens`.
    pub open spec fn ips(self) -> Seq<Seq<char>> {
        self.sessions_view().map_values(|s: SessionView| s.ip)
    }

    /// The session capability contexts, index-aligned with `tokens`.
    pub open spec fn contexts(self) -> Seq<TokenContext> {
        self.sessions_view().map_values(|s: SessionView| s.context)
    }

    /// Appends one session record; the alignment of tokens, IPs and
    /// contexts is preserved by construction.
    pub fn add_session(&mut self, token: String, ip: String, context: TokenContext)
        ensures
            final(self).sessions_view() == old(self).sessions_view().push(
                SessionView { token: token@, ip: ip@, context },
            ),
            final(self).id == old(self).id,
            final(self).username == old(self).username,
            final(self).group == old(self).group,
    {
        self.sessions.push(SessionRecord { token, ip, context });
        proof {
            assert(self.sessions_view() =~= old(self).sessions_view().push(
                SessionView { token: token@, ip: ip@, context },
            ));
        }
    }

    /// Removes every session whose token is not in `kept`, preserving the
    /// relative order of the remaining records.  Each removal drops the
    /// token, IP and context at one index atomically.  Keeping every
    /// current token makes this a no-op; keeping none leaves the profile
    /// unauthenticatable until a new session is created.
    pub fn revoke_sessions_not_in(&mut self, kept: &Vec<String>)
        ensures
            final(self).sessions_view() == retained(old(self).sessions_view(), kept.deep_view()),
            final(self).id == old(self).id,
            final(self).username == old(self).username,
            final(self).group == old(self).group,
    {
        broadcast use vstd::seq_lib::group_filter_ensures;

        let ghost full = self.sessions_view();
        let mut out: Vec<SessionRecord> = Vec::new();
        let n = self.sessions.len();
        let mut i: usize = 0;
        while i < n
            invariant
                n == self.sessions@.len(),
                i <= n,
                full == self.sessions_view(),
                out@.map_values(|r: SessionRecord| r@) == retained(
                    full.take(i as int),
                    kept.deep_view(),
                ),
            decreases n - i,
        {
            let ghost prefix = full.take(i as int);
            let r = &self.sessions[i];
            if contains_string(kept, &r.token) {
                out.push(r.duplicate());
            }
            proof {
                let pred = |s: SessionView| kept.deep_view().contains(s.token);
                assert(full.take(i + 1 as int) =~= prefix.push(full[i as int]));
                prefix.lemma_filter_push(full[i as int], pred);
                if pred(full[i as int]) {
                    assert(out@.map_values(|r: SessionRecord| r@) =~= retained(
                        prefix,
                        kept.deep_view(),
                    ).push(full[i as int]));
                }
            }
            i = i + 1;
        }
        proof {
            assert(full.take(n as int) =~= full);
        }
        self.sessions = out;
    }

    /// Resolves the capability context of the session whose token hash
    /// matches the presented one exactly; `None` means no session matches
    /// and the request is unauthenticated.  The profile is not mutated.
    pub fn token_context_from_token(&self, token: &String) -> (r: Option<TokenContext>)
        ensures
            r == first_context(self.sessions_view(), token@),
    {
        let ghost full = self.sessions_view();
        proof {
            assert(full.skip(0) =~= full);
        }
        let n = self.sessions.len();
        let mut i: usize = 0;
        while i < n
            invariant
                n == self.sessions@.len(),
                i <= n,
                full == self.sessions_view(),
                first_context(full, token@) == first_context(full.skip(i as int), token@),
            decreases n - i,
        {
            if self.sessions[i].token == *token {
                proof {
                    assert(full.skip(i as int)[0] == full[i as int]);
                }
                return Some(self.sessions[i].context);
            }
            proof {
                assert(full.skip(i as int).drop_first() =~= full.skip(i + 1 as int));
                assert(full.skip(i as int)[0] == full[i as int]);
            }
            i = i + 1;
        }
        proof {
            assert(full.skip(n as int) =~= Seq::<SessionView>::empty());
        }
        None
    }
}

/// True iff some element of `v` has the same characters as `s`.
pub fn contains_string(v: &Vec<String>, s: &String) -> (r: bool)
    ensures
        r == v.deep_view().contains(s@),
{
    let n = v.len();
    let mut i: usize = 0;
    while i < n
        invariant
            n == v@.len(),
            i <= n,
            forall|j: int| 0 <= j < i ==> v.deep_view()[j] != s@,
        decreases n - i,
    {
        if v[i] == *s {
            assert(v.deep_view()[i as int] == s@);
            return true;
        }
        i = i + 1;
    }
    assert(forall|j: int| 0 <= j < v.deep_view().len() ==> v.deep_view()[j] != s@);
    false
}

/// The three session-aligned sequences always have equal length: they are
/// projections of the one sequence of session records, so no mutation can
/// misalign them.
pub proof fn lemma_session_alignment(p: Profile)
    ensures
        p.tokens().len() == p.ips().len(),
        p.ips().len() == p.contexts().len(),
        p.tokens().len() == p.sessions_view().len(),
{
}

} // verus!
