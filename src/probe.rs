use vstd::prelude::*;
use crate::ipv4::{Ipv4Address, ipv4_of, parse_ipv4_chars};
use crate::text::{chars_of, is_trim_of, trim_spaces};

verus! {

/// What one probe round-trip amounted to.
#[derive(Clone, Copy, Debug, PartialEq, Eq, Structural)]
pub enum ProbeOutcome {
    /// The body was not an address; the last observation is kept.
    Unreadable,
    /// First address seen: recorded, not sent on.
    Recorded(Ipv4Address),
    /// Same address as last time: nothing to send.
    Unchanged(Ipv4Address),
    /// A new address: send it to the update worker.
    Changed(Ipv4Address),
}

/// Change detection of the IP probe. It remembers the last address it
/// observed; the first observation is recorded without being sent on.
#[derive(Clone, Copy, Debug, PartialEq, Eq, Structural)]
pub struct Probe {
    pub last: Option<Ipv4Address>,
}

pub open spec fn outcome_of(last: Option<Ipv4Address>, seen: Option<Ipv4Address>) -> ProbeOutcome {
    match seen {
        None => ProbeOutcome::Unreadable,
        Some(x) => match last {
            None => ProbeOutcome::Recorded(x),
            Some(l) => if l == x {
                ProbeOutcome::Unchanged(x)
            } else {
                ProbeOutcome::Changed(x)
            },
        },
    }
}

pub open spec fn last_after(last: Option<Ipv4Address>, seen: Option<Ipv4Address>) -> Option<
    Ipv4Address,
> {
    match seen {
        None => last,
        Some(x) => Some(x),
    }
}

/// What a probe that starts with no observation remembers after `obs`.
pub open spec fn last_after_all(obs: Seq<Option<Ipv4Address>>) -> Option<Ipv4Address>
    decreases obs.len(),
{
    if obs.len() == 0 {
        None
    } else {
        last_after(last_after_all(obs.drop_last()), obs.last())
    }
}

/// The addresses that a probe starting with no observation sends on, in
/// order, when its round-trips yield `obs` (`None` for an unreadable body).
pub open spec fn emitted(obs: Seq<Option<Ipv4Address>>) -> Seq<Ipv4Address>
    decreases obs.len(),
{
    if obs.len() == 0 {
        Seq::empty()
    } else {
        let before = emitted(obs.drop_last());
        match outcome_of(last_after_all(obs.drop_last()), obs.last()) {
            ProbeOutcome::Changed(x) => before.push(x),
            _ => before,
        }
    }
}

proof fn lemma_emitted_last(obs: Seq<Option<Ipv4Address>>)
    ensures
        emitted(obs).len() > 0 ==> last_after_all(obs) == Some(emitted(obs).last()),
    decreases obs.len(),
{
    if obs.len() > 0 {
        lemma_emitted_last(obs.drop_last());
    }
}

/// The change channel never carries the same address twice in a row: each
/// address sent differs from the one sent before it.
pub proof fn lemma_emitted_never_repeats(obs: Seq<Option<Ipv4Address>>)
    ensures
        forall|i: int|
            0 < i < emitted(obs).len() ==> #[trigger] emitted(obs)[i] != emitted(obs)[i - 1],
    decreases obs.len(),
{
    if obs.len() > 0 {
        let prev = obs.drop_last();
        lemma_emitted_never_repeats(prev);
        lemma_emitted_last(prev);
        let e = emitted(obs);
        let before = emitted(prev);
        assert forall|i: int| 0 < i < e.len() implies #[trigger] e[i] != e[i - 1] by {
            if i < before.len() {
                assert(e[i] == before[i] && e[i - 1] == before[i - 1]);
            }
        }
    }
}

impl Probe {
    pub fn new() -> (r: Probe)
        ensures
            r.last is None,
    {
        Probe { last: None }
    }

    /// Takes the result of one round-trip (`None` when it failed or its body
    /// was not an address) and says whether to send the address on.
    pub fn observe(&mut self, seen: Option<Ipv4Address>) -> (r: ProbeOutcome)
        ensures
            r == outcome_of(old(self).last, seen),
            final(self).last == last_after(old(self).last, seen),
    {
        let r = match seen {
            None => ProbeOutcome::Unreadable,
            Some(x) => match self.last {
                None => ProbeOutcome::Recorded(x),
                Some(l) => if l == x {
                    ProbeOutcome::Unchanged(x)
                } else {
                    ProbeOutcome::Changed(x)
                },
            },
        };
        if let Some(x) = seen {
            self.last = Some(x);
        }
        r
    }

    /// Reads a response body of the address endpoint, without its
    /// surrounding whitespace, and observes the address it holds.
    pub fn observe_body(&mut self, body: &str) -> (r: ProbeOutcome)
        ensures
            exists|t: Seq<char>|
                {
                    &&& is_trim_of(t, body@)
                    &&& r == outcome_of(old(self).last, ipv4_of(t))
                    &&& final(self).last == last_after(old(self).last, ipv4_of(t))
                },
    {
        let chars = chars_of(body);
        let t = trim_spaces(&chars);
        let seen = parse_ipv4_chars(&t);
        self.observe(seen)
    }
}

} // verus!
