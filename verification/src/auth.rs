//! Where `gd` keeps its tokens: the interface of a credential store, the
//! keyring service each host's token is filed under, and a store held in
//! memory.
use vstd::prelude::*;
use crate::error::GdError;
use crate::scan::sview;
use crate::text::{append_str, from_chars, to_chars};

verus! {

/// The keyring service that holds the token for `hostname`.
pub open spec fn service_name_spec(hostname: Seq<char>) -> Seq<char> {
    "gd.gitcode."@ + hostname
}

/// The keyring service that holds the token for `hostname`.
pub fn service_name(hostname: &str) -> (r: String)
    ensures
        r@ == service_name_spec(hostname@),
{
    let mut v = to_chars("gd.gitcode.");
    append_str(&mut v, hostname);
    from_chars(&v)
}

/// A place that keeps one token per host.
pub trait CredentialStore {
    /// The token kept for `hostname`, if any.
    fn get_token(&self, hostname: &str) -> Result<Option<String>, GdError>;

    /// Keeps `token` for `hostname`.
    fn set_token(&mut self, hostname: &str, token: &str) -> Result<(), GdError>;

    /// Forgets the token of `hostname`.
    fn delete_token(&mut self, hostname: &str) -> Result<(), GdError>;
}

/// The token kept for `host` among `tokens`: the first pair for that host.
pub open spec fn token_for(tokens: Seq<(Seq<char>, Seq<char>)>, host: Seq<char>) -> Option<Seq<char>>
    decreases tokens.len(),
{
    if tokens.len() == 0 {
        None
    } else if tokens[0].0 == host {
        Some(tokens[0].1)
    } else {
        token_for(tokens.drop_first(), host)
    }
}

/// A credential store held in memory, one `(host, token)` pair per host.
#[derive(Debug, Clone, PartialEq, Eq)]
pub struct MemoryCredentialStore {
    tokens: Vec<(String, String)>,
}

impl MemoryCredentialStore {
    /// The pairs kept, as values.
    pub closed spec fn pairs(&self) -> Seq<(Seq<char>, Seq<char>)> {
        self.tokens.deep_view()
    }

    /// The token kept for `host`.
    pub open spec fn token(&self, host: Seq<char>) -> Option<Seq<char>> {
        token_for(self.pairs(), host)
    }

    /// An empty store.
    pub fn new() -> (r: MemoryCredentialStore)
        ensures
            forall|h: Seq<char>| r.token(h) is None,
    {
        let r = MemoryCredentialStore { tokens: Vec::new() };
        assert(r.pairs() =~= Seq::<(Seq<char>, Seq<char>)>::empty());
        r
    }
}

proof fn lemma_token_prefix(tokens: Seq<(Seq<char>, Seq<char>)>, host: Seq<char>, i: int)
    requires
        0 <= i <= tokens.len(),
        forall|j: int| 0 <= j < i ==> tokens[j].0 != host,
    ensures
        token_for(tokens, host) == token_for(tokens.skip(i), host),
    decreases i,
{
    if i > 0 {
        assert(tokens[0].0 != host);
        assert(tokens.drop_first().skip(i - 1) =~= tokens.skip(i));
        lemma_token_prefix(tokens.drop_first(), host, i - 1);
    } else {
        assert(tokens.skip(0) =~= tokens);
    }
}

/// The index of the pair for `host`, if any.
fn index_of(tokens: &Vec<(String, String)>, host: &str) -> (r: Option<usize>)
    ensures
        match r {
            Some(i) => i < tokens@.len() && tokens.deep_view()[i as int].0 == host@ && forall|j: int|
                0 <= j < i ==> tokens.deep_view()[j].0 != host@,
            None => forall|j: int| 0 <= j < tokens@.len() ==> tokens.deep_view()[j].0 != host@,
        },
{
    let hc = to_chars(host);
    let mut i: usize = 0;
    while i < tokens.len()
        invariant
            i <= tokens@.len(),
            hc@ == host@,
            forall|j: int| 0 <= j < i ==> tokens.deep_view()[j].0 != host@,
        decreases tokens@.len() - i,
    {
        if crate::text::chars_eq_str(&hc, tokens[i].0.as_str()) {
            return Some(i);
        }
        i = i + 1;
    }
    None
}

impl CredentialStore for MemoryCredentialStore {
    fn get_token(&self, hostname: &str) -> (r: Result<Option<String>, GdError>)
        ensures
            r matches Ok(t) && sview(t) == self.token(hostname@),
    {
        match index_of(&self.tokens, hostname) {
            Some(i) => {
                proof {
                    lemma_token_prefix(self.tokens.deep_view(), hostname@, i as int);
                    assert(self.tokens.deep_view().skip(i as int)[0] == self.tokens.deep_view()[i as int]);
                }
                Ok(Some(from_chars(&to_chars(self.tokens[i].1.as_str()))))
            },
            None => {
                proof {
                    lemma_token_prefix(
                        self.tokens.deep_view(),
                        hostname@,
                        self.tokens@.len() as int,
                    );
                }
                Ok(None)
            },
        }
    }

    fn set_token(&mut self, hostname: &str, token: &str) -> (r: Result<(), GdError>)
        ensures
            r is Ok,
            final(self).token(hostname@) == Some(token@),
            forall|h: Seq<char>| h != hostname@ ==> final(self).token(h) == old(self).token(h),
    {
        let ghost before = self.tokens.deep_view();
        match index_of(&self.tokens, hostname) {
            Some(i) => {
                let pair = (from_chars(&to_chars(hostname)), from_chars(&to_chars(token)));
                self.tokens.set(i, pair);
                let ghost after = self.tokens.deep_view();
                assert(after =~= before.update(i as int, (hostname@, token@)));
                proof {
                    lemma_token_prefix(after, hostname@, i as int);
                    assert(after.skip(i as int)[0] == after[i as int]);
                    assert forall|h: Seq<char>| h != hostname@ implies token_for(after, h)
                        == token_for(before, h) by {
                        lemma_update_other(before, i as int, (hostname@, token@), h);
                    }
                }
            },
            None => {
                let pair = (from_chars(&to_chars(hostname)), from_chars(&to_chars(token)));
                self.tokens.push(pair);
                let ghost after = self.tokens.deep_view();
                assert(after =~= before.push((hostname@, token@)));
                proof {
                    lemma_token_prefix(after, hostname@, before.len() as int);
                    assert(after.skip(before.len() as int)[0] == after[before.len() as int]);
                    assert forall|h: Seq<char>| h != hostname@ implies token_for(after, h)
                        == token_for(before, h) by {
                        lemma_push_token(before, (hostname@, token@), h);
                    }
                }
            },
        }
        Ok(())
    }

    fn delete_token(&mut self, hostname: &str) -> (r: Result<(), GdError>)
        ensures
            r is Ok,
            final(self).token(hostname@) is None,
            forall|h: Seq<char>| h != hostname@ ==> final(self).token(h) == old(self).token(h),
    {
        let ghost before = self.tokens.deep_view();
        let hc = to_chars(hostname);
        let mut kept: Vec<(String, String)> = Vec::new();
        let mut i: usize = 0;
        assert(before.take(0) =~= Seq::<(Seq<char>, Seq<char>)>::empty());
        assert(kept.deep_view() =~= Seq::<(Seq<char>, Seq<char>)>::empty());
        while i < self.tokens.len()
            invariant
                i <= self.tokens@.len(),
                before == self.tokens.deep_view(),
                hc@ == hostname@,
                kept.deep_view() == without(before.take(i as int), hostname@),
            decreases self.tokens@.len() - i,
        {
            assert(before.take(i + 1).drop_last() =~= before.take(i as int));
            assert(before.take(i + 1).last() == before[i as int]);
            if !crate::text::chars_eq_str(&hc, self.tokens[i].0.as_str()) {
                let ghost k0 = kept.deep_view();
                let a = from_chars(&to_chars(self.tokens[i].0.as_str()));
                let b = from_chars(&to_chars(self.tokens[i].1.as_str()));
                let ghost pair = (a@, b@);
                kept.push((a, b));
                assert(kept.deep_view() =~= k0.push(pair));
            }
            i = i + 1;
        }
        assert(before.take(before.len() as int) =~= before);
        self.tokens = kept;
        proof {
            lemma_without(before, hostname@);
        }
        Ok(())
    }
}

/// `t` without the pairs for `host`.
pub open spec fn without(t: Seq<(Seq<char>, Seq<char>)>, host: Seq<char>) -> Seq<(Seq<char>, Seq<char>)>
    decreases t.len(),
{
    if t.len() == 0 {
        seq![]
    } else if t.last().0 == host {
        without(t.drop_last(), host)
    } else {
        without(t.drop_last(), host).push(t.last())
    }
}

proof fn lemma_push_token(s: Seq<(Seq<char>, Seq<char>)>, p: (Seq<char>, Seq<char>), h: Seq<char>)
    ensures
        token_for(s.push(p), h) == (match token_for(s, h) {
            Some(t) => Some(t),
            None => if p.0 == h {
                Some(p.1)
            } else {
                None
            },
        }),
    decreases s.len(),
{
    if s.len() > 0 {
        assert(s.push(p)[0] == s[0]);
        assert(s.push(p).drop_first() =~= s.drop_first().push(p));
        lemma_push_token(s.drop_first(), p, h);
    } else {
        assert(s.push(p)[0] == p);
        assert(s.push(p).drop_first() =~= Seq::<(Seq<char>, Seq<char>)>::empty());
        reveal_with_fuel(token_for, 2);
    }
}

proof fn lemma_without(t: Seq<(Seq<char>, Seq<char>)>, host: Seq<char>)
    ensures
        token_for(without(t, host), host) is None,
        forall|h: Seq<char>| h != host ==> token_for(without(t, host), h) == token_for(t, h),
    decreases t.len(),
{
    if t.len() > 0 {
        let r = t.drop_last();
        lemma_without(r, host);
        assert(t == r.push(t.last()));
        assert forall|h: Seq<char>| h != host implies token_for(without(t, host), h) == token_for(
            t,
            h,
        ) by {
            lemma_push_token(r, t.last(), h);
            if t.last().0 != host {
                lemma_push_token(without(r, host), t.last(), h);
            }
        }
        if t.last().0 != host {
            lemma_push_token(without(r, host), t.last(), host);
        }
    }
}

proof fn lemma_update_other(
    t: Seq<(Seq<char>, Seq<char>)>,
    i: int,
    p: (Seq<char>, Seq<char>),
    h: Seq<char>,
)
    requires
        0 <= i < t.len(),
        t[i].0 == p.0,
        h != p.0,
    ensures
        token_for(t.update(i, p), h) == token_for(t, h),
    decreases t.len(),
{
    if i > 0 {
        assert(t.update(i, p).drop_first() =~= t.drop_first().update(i - 1, p));
        lemma_update_other(t.drop_first(), i - 1, p, h);
    } else {
        assert(t.update(0, p).drop_first() =~= t.drop_first());
    }
}

/// The token used for `hostname`: the value of the first of `GD_TOKEN`,
/// `GITCODE_TOKEN` that is set and not blank, else the stored one.
pub fn effective_token(env_choice: Option<(String, String)>, stored: Option<String>) -> (r: Option<
    String,
>)
    ensures
        match env_choice {
            Some((_, value)) => r matches Some(t) && t@ == value@,
            None => sview(r) == sview(stored),
        },
{
    match env_choice {
        Some((_, value)) => Some(value),
        None => stored,
    }
}

} // verus!
