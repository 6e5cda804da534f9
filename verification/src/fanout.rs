//! Who is queried through which proxy: the proxies are handed out in turn,
//! one per address, before any query starts.

use vstd::prelude::*;

verus! {

/// The proxy that draw number `draw`, counted from zero, takes from a cycle
/// over `proxies`: the proxies in order, again from the first after the
/// last, and none at all where there is no proxy.
pub open spec fn proxy_at(proxies: Seq<Seq<char>>, draw: nat) -> Option<Seq<char>> {
    if proxies.len() == 0 {
        None
    } else {
        Some(proxies[(draw % proxies.len()) as int])
    }
}

/// A round goes through the proxies in order and starts again after the
/// last: the first draws take the proxies one by one, and every draw takes
/// what the draw one round earlier took.
pub proof fn proxy_round_repeats(proxies: Seq<Seq<char>>, draw: nat)
    ensures
        draw < proxies.len() ==> proxy_at(proxies, draw) == Some(proxies[draw as int]),
        proxy_at(proxies, draw + proxies.len()) == proxy_at(proxies, draw),
{
    let len = proxies.len();
    if len > 0 {
        assert(draw < len ==> draw % len == draw) by (nonlinear_arith)
            requires
                len > 0,
        ;
        assert((draw + len) % len == draw % len) by (nonlinear_arith)
            requires
                len > 0,
        ;
    }
}

/// Where a round stands: the index of the proxy that is next, and the draws
/// made so far.
struct Turn {
    position: usize,
    drawn: Ghost<nat>,
}

/// An endless round over a list of proxies.
pub struct ProxyCycle {
    proxies: Vec<String>,
    turn: Turn,
}

/// A [`ProxyCycle`] as plain values.
pub struct ProxyCycleView {
    /// The proxies, in the order in which they are handed out.
    pub proxies: Seq<Seq<char>>,
    /// The draws made so far.
    pub drawn: nat,
}

impl View for ProxyCycle {
    type V = ProxyCycleView;

    closed spec fn view(&self) -> ProxyCycleView {
        ProxyCycleView { proxies: self.proxies.deep_view(), drawn: self.turn.drawn@ }
    }
}

proof fn position_after_draw(drawn: nat, len: nat)
    requires
        len > 0,
    ensures
        0nat % len == 0,
        (drawn + 1) % len == if drawn % len + 1 == len {
            0
        } else {
            drawn % len + 1
        },
{
    assert(0nat % len == 0 && (drawn + 1) % len == if drawn % len + 1 == len {
        0
    } else {
        drawn % len + 1
    }) by (nonlinear_arith)
        requires
            len > 0,
    ;
}

impl ProxyCycle {
    #[verifier::type_invariant]
    spec fn in_step(&self) -> bool {
        if self.proxies.len() == 0 {
            self.turn.position == 0
        } else {
            self.turn.position == self.turn.drawn@ % (self.proxies.len() as nat)
        }
    }

    /// A round over `proxies` that starts at the first of them.
    pub fn new(proxies: Vec<String>) -> (cycle: ProxyCycle)
        ensures
            cycle@ == (ProxyCycleView { proxies: proxies.deep_view(), drawn: 0 }),
    {
        proof {
            if proxies.len() > 0 {
                position_after_draw(0, proxies.len() as nat);
            }
        }
        ProxyCycle { proxies, turn: Turn { position: 0, drawn: Ghost(0) } }
    }

    /// The next proxy of the round, or `None` where there are no proxies.
    pub fn next(&mut self) -> (proxy: Option<String>)
        ensures
            proxy.deep_view() == proxy_at(old(self)@.proxies, old(self)@.drawn),
            final(self)@ == (ProxyCycleView {
                proxies: old(self)@.proxies,
                drawn: old(self)@.drawn + 1,
            }),
    {
        proof {
            use_type_invariant(&*self);
        }
        let ghost drawn = self.turn.drawn@;
        if self.proxies.len() == 0 {
            self.turn = Turn { position: 0, drawn: Ghost(drawn + 1) };
            None
        } else {
            let position = self.turn.position;
            let proxy = self.proxies[position].clone();
            proof {
                position_after_draw(drawn, self.proxies.len() as nat);
            }
            let following: usize = if position + 1 == self.proxies.len() {
                0
            } else {
                position + 1
            };
            self.turn = Turn { position: following, drawn: Ghost(drawn + 1) };
            Some(proxy)
        }
    }
}

/// One address with the proxy that its queries go through.
#[derive(Debug, PartialEq, Eq)]
pub struct Assignment {
    /// The address to query.
    pub address: String,
    /// The proxy for every attempt on this address, or `None` for none.
    pub proxy: Option<String>,
}

/// The proxies to hand out, given what loading the proxy list came to: the
/// list where it was loaded, and no proxy at all where loading failed.
pub fn usable_proxies<E>(loaded: Result<Vec<String>, E>) -> (proxies: Vec<String>)
    ensures
        match loaded {
            Ok(list) => proxies == list,
            Err(_) => proxies@.len() == 0,
        },
{
    match loaded {
        Ok(list) => list,
        Err(_) => Vec::new(),
    }
}

/// Pairs each address with its proxy: the address at index `i` gets the proxy
/// at index `i` modulo the number of proxies, and no address gets a proxy
/// where there is none.
pub fn assign(addresses: &Vec<String>, proxies: Vec<String>) -> (plan: Vec<Assignment>)
    ensures
        plan.len() == addresses.len(),
        forall|i: int|
            0 <= i < plan.len() ==> (#[trigger] plan[i]).address@ == addresses[i]@
                && plan[i].proxy.deep_view() == proxy_at(proxies.deep_view(), i as nat),
{
    let mut cycle = ProxyCycle::new(proxies);
    let mut plan: Vec<Assignment> = Vec::new();
    let mut at: usize = 0;
    while at < addresses.len()
        invariant
            at <= addresses.len(),
            plan.len() == at,
            cycle@ == (ProxyCycleView { proxies: proxies.deep_view(), drawn: at as nat }),
            forall|i: int|
                0 <= i < plan.len() ==> (#[trigger] plan[i]).address@ == addresses[i]@
                    && plan[i].proxy.deep_view() == proxy_at(proxies.deep_view(), i as nat),
        decreases addresses.len() - at,
    {
        let proxy = cycle.next();
        let address = addresses[at].clone();
        plan.push(Assignment { address, proxy });
        at = at + 1;
    }
    plan
}

} // verus!
