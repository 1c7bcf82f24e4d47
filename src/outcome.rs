use vstd::prelude::*;

use crate::method::{is_weak, AuthMethod};

verus! {

/// A set of weak authentication methods, one flag per weak mechanism.
/// Public-key authentication is never a member.
#[derive(Clone, Copy, Debug, PartialEq, Eq, Structural, Hash)]
pub struct WeakMethods {
    pub anonymous: bool,
    pub password: bool,
    pub host_based: bool,
    pub keyboard_interactive: bool,
}

/// The single terminal classification of one probe run.
#[derive(Clone, Copy, Debug, PartialEq, Eq, Structural, Hash)]
pub enum ProbeOutcome {
    /// The server offers nothing weaker than public-key authentication.
    Compliant,
    /// The server offers these weak methods.
    Finding(WeakMethods),
    /// The server granted a session without any credential.
    UnexpectedGrant,
    /// The server began a keyboard-interactive challenge.
    ChallengeAccepted,
    /// The transport could not be established (refused, unreachable, handshake
    /// failure or inactivity timeout).
    ConnectionError,
}

/// The weak methods in the canonical order in which they are reported.
pub open spec fn weak_order() -> Seq<AuthMethod> {
    seq![
        AuthMethod::Anonymous,
        AuthMethod::Password,
        AuthMethod::HostBased,
        AuthMethod::KeyboardInteractive,
    ]
}

impl WeakMethods {
    /// The empty set.
    pub fn empty() -> (r: WeakMethods)
        ensures
            r == (WeakMethods {
                anonymous: false,
                password: false,
                host_based: false,
                keyboard_interactive: false,
            }),
            forall|m: AuthMethod| !r.has(m),
    {
        WeakMethods { anonymous: false, password: false, host_based: false, keyboard_interactive: false }
    }

    /// Membership of a method in the set.
    pub open spec fn has(self, m: AuthMethod) -> bool {
        match m {
            AuthMethod::Anonymous => self.anonymous,
            AuthMethod::Password => self.password,
            AuthMethod::PublicKey => false,
            AuthMethod::HostBased => self.host_based,
            AuthMethod::KeyboardInteractive => self.keyboard_interactive,
        }
    }

    /// The members in canonical order, each once.
    pub open spec fn listed(self) -> Seq<AuthMethod> {
        weak_order().filter(|m: AuthMethod| self.has(m))
    }

    /// Whether `m` is in the set.
    pub fn contains(&self, m: AuthMethod) -> (r: bool)
        ensures
            r == self.has(m),
    {
        match m {
            AuthMethod::Anonymous => self.anonymous,
            AuthMethod::Password => self.password,
            AuthMethod::PublicKey => false,
            AuthMethod::HostBased => self.host_based,
            AuthMethod::KeyboardInteractive => self.keyboard_interactive,
        }
    }

    /// Whether the set has no member.
    pub fn is_empty(&self) -> (r: bool)
        ensures
            r <==> forall|m: AuthMethod| !self.has(m),
    {
        let r = !self.anonymous && !self.password && !self.host_based && !self.keyboard_interactive;
        proof {
            if !r {
                if self.anonymous {
                    assert(self.has(AuthMethod::Anonymous));
                } else if self.password {
                    assert(self.has(AuthMethod::Password));
                } else if self.host_based {
                    assert(self.has(AuthMethod::HostBased));
                } else {
                    assert(self.has(AuthMethod::KeyboardInteractive));
                }
            }
        }
        r
    }

    /// The members in canonical order (`None`, `Password`, `HostBased`,
    /// `KeyboardInteractive`), each once: the methods an operator must
    /// remediate.
    pub fn methods(&self) -> (r: Vec<AuthMethod>)
        ensures
            r@ == self.listed(),
    {
        let mut r: Vec<AuthMethod> = Vec::new();
        if self.anonymous {
            r.push(AuthMethod::Anonymous);
        }
        if self.password {
            r.push(AuthMethod::Password);
        }
        if self.host_based {
            r.push(AuthMethod::HostBased);
        }
        if self.keyboard_interactive {
            r.push(AuthMethod::KeyboardInteractive);
        }
        proof {
            let f = |m: AuthMethod| self.has(m);
            reveal_with_fuel(Seq::filter, 5);
            assert(weak_order().drop_last() =~= weak_order().take(3));
            assert(weak_order().take(3).drop_last() =~= weak_order().take(2));
            assert(weak_order().take(2).drop_last() =~= weak_order().take(1));
            assert(weak_order().take(1).drop_last() =~= weak_order().take(0));
            assert(r@ =~= weak_order().filter(f));
        }
        r
    }
}

/// The weak methods that occur in a remaining-method sequence.
pub open spec fn weak_methods_in(ms: Seq<AuthMethod>) -> WeakMethods {
    WeakMethods {
        anonymous: ms.contains(AuthMethod::Anonymous),
        password: ms.contains(AuthMethod::Password),
        host_based: ms.contains(AuthMethod::HostBased),
        keyboard_interactive: ms.contains(AuthMethod::KeyboardInteractive),
    }
}

/// The classification of a remaining-method sequence: compliant when it holds
/// no weak method, otherwise a finding of exactly the weak methods it holds.
pub open spec fn classification(ms: Seq<AuthMethod>) -> ProbeOutcome {
    let w = weak_methods_in(ms);
    if w.anonymous || w.password || w.host_based || w.keyboard_interactive {
        ProbeOutcome::Finding(w)
    } else {
        ProbeOutcome::Compliant
    }
}

/// Classifies the methods a server still offers after declining an attempt.
/// Each method is judged on its own; order and repetition do not matter.
pub fn classify(remaining_methods: &Vec<AuthMethod>) -> (r: ProbeOutcome)
    ensures
        r == classification(remaining_methods@),
{
    let mut w = WeakMethods::empty();
    let mut i: usize = 0;
    proof {
        assert(remaining_methods@.take(0) =~= Seq::<AuthMethod>::empty());
        broadcast use vstd::seq_lib::lemma_seq_empty_contains_nothing;
    }
    while i < remaining_methods.len()
        invariant
            i <= remaining_methods@.len(),
            w == weak_methods_in(remaining_methods@.take(i as int)),
        decreases remaining_methods@.len() - i,
    {
        let m = remaining_methods[i];
        match m {
            AuthMethod::Anonymous => w.anonymous = true,
            AuthMethod::Password => w.password = true,
            AuthMethod::PublicKey => {},
            AuthMethod::HostBased => w.host_based = true,
            AuthMethod::KeyboardInteractive => w.keyboard_interactive = true,
        }
        proof {
            let s = remaining_methods@.take(i as int);
            assert(remaining_methods@.take(i + 1) =~= s.push(m));
            broadcast use vstd::seq_lib::lemma_seq_contains_after_push;
        }
        i = i + 1;
    }
    assert(remaining_methods@.take(i as int) =~= remaining_methods@);
    if !w.anonymous && !w.password && !w.host_based && !w.keyboard_interactive {
        ProbeOutcome::Compliant
    } else {
        ProbeOutcome::Finding(w)
    }
}

/// Two sequences that hold the same weak methods classify alike.
proof fn lemma_same_weak_members_same_outcome(a: Seq<AuthMethod>, b: Seq<AuthMethod>)
    requires
        forall|m: AuthMethod| is_weak(m) ==> (a.contains(m) <==> b.contains(m)),
    ensures
        classification(a) == classification(b),
{
    assert(is_weak(AuthMethod::Anonymous));
    assert(is_weak(AuthMethod::Password));
    assert(is_weak(AuthMethod::HostBased));
    assert(is_weak(AuthMethod::KeyboardInteractive));
}

/// A remaining-method sequence of public-key entries only, the empty one
/// included, classifies as compliant.
pub proof fn lemma_public_key_only_is_compliant(ms: Seq<AuthMethod>)
    requires
        forall|i: int| 0 <= i < ms.len() ==> ms[i] == AuthMethod::PublicKey,
    ensures
        classification(ms) == ProbeOutcome::Compliant,
{
    assert forall|m: AuthMethod| is_weak(m) implies !ms.contains(m) by {
        if ms.contains(m) {
            let k = choose|k: int| 0 <= k < ms.len() && ms[k] == m;
            assert(ms[k] == AuthMethod::PublicKey);
        }
    }
    lemma_same_weak_members_same_outcome(ms, Seq::empty());
}

/// When a remaining-method sequence holds a weak method, the outcome is a
/// finding whose members are exactly the weak methods that occur in it.
pub proof fn lemma_finding_is_exactly_the_weak_methods(ms: Seq<AuthMethod>)
    requires
        exists|i: int| 0 <= i < ms.len() && is_weak(ms[i]),
    ensures
        classification(ms) matches ProbeOutcome::Finding(w) && forall|m: AuthMethod|
            w.has(m) <==> (is_weak(m) && ms.contains(m)),
{
    let i = choose|i: int| 0 <= i < ms.len() && is_weak(ms[i]);
    assert(ms.contains(ms[i]));
}

/// Inserting a public-key entry anywhere in a remaining-method sequence
/// neither adds nor removes a finding.
pub proof fn lemma_public_key_never_changes_outcome(ms: Seq<AuthMethod>, pos: int)
    requires
        0 <= pos <= ms.len(),
    ensures
        classification(ms.insert(pos, AuthMethod::PublicKey)) == classification(ms),
{
    let t = ms.insert(pos, AuthMethod::PublicKey);
    ms.insert_ensures(pos, AuthMethod::PublicKey);
    assert forall|m: AuthMethod| is_weak(m) implies (t.contains(m) <==> ms.contains(m)) by {
        if t.contains(m) {
            let k = choose|k: int| 0 <= k < t.len() && t[k] == m;
            if k < pos {
                assert(ms[k] == m);
            } else {
                assert(ms[k - 1] == m);
            }
        }
        if ms.contains(m) {
            let j = choose|j: int| 0 <= j < ms.len() && ms[j] == m;
            if j < pos {
                assert(t[j] == m);
            } else {
                assert(t[j + 1] == m);
            }
        }
    }
    lemma_same_weak_members_same_outcome(t, ms);
}

/// Classification does not depend on order: any permutation of a
/// remaining-method sequence yields the same outcome.
pub proof fn lemma_classification_ignores_order(a: Seq<AuthMethod>, b: Seq<AuthMethod>)
    requires
        a.to_multiset() == b.to_multiset(),
    ensures
        classification(a) == classification(b),
{
    a.to_multiset_ensures();
    b.to_multiset_ensures();
    assert forall|m: AuthMethod| is_weak(m) implies (a.contains(m) <==> b.contains(m)) by {
        assert(a.contains(m) <==> a.to_multiset().count(m) > 0);
        assert(b.contains(m) <==> b.to_multiset().count(m) > 0);
    }
    lemma_same_weak_members_same_outcome(a, b);
}

/// Classification is a function of the remaining-method sequence alone:
/// classifying equal sequences, or one sequence twice, gives equal outcomes.
pub proof fn lemma_classification_is_deterministic(a: Seq<AuthMethod>, b: Seq<AuthMethod>)
    requires
        a == b,
    ensures
        classification(a) == classification(b),
{
}

/// The process exit status for an outcome: zero only when compliant.
pub fn exit_code(outcome: ProbeOutcome) -> (r: u8)
    ensures
        r == (if outcome is Compliant { 0u8 } else { 1u8 }),
{
    match outcome {
        ProbeOutcome::Compliant => 0,
        _ => 1,
    }
}

} // verus!
