//! The registry of system tokens: which tokens pay fees that vote, at which
//! exchange rate, and under which local names other chains know them.
use crate::origin::{ensure_root, RawOrigin};
use crate::types::token::{AssetId, ParaId, SystemTokenId};
use crate::types::vote::VoteWeight;
use vstd::prelude::*;

verus! {

/// How many units of vote weight one unit of a system token is worth.
pub type ExchangeRate = u32;

/// The name of a system token on another chain: the chain and the asset
/// there.
pub type AssetLink = (ParaId, AssetId);

/// What the registry knows of one system token.
pub ghost struct SystemToken {
    /// The token.
    pub id: SystemTokenId,
    /// Its exchange rate.
    pub exchange_rate: ExchangeRate,
    /// Its names on other chains.
    pub links: Seq<AssetLink>,
}

/// Why the registry refused an operation.
#[derive(Clone, Copy, Debug, PartialEq, Eq, Structural)]
pub enum Error {
    /// The caller is not the root origin.
    BadOrigin,
    /// The token, or one of the links given for it, is registered already.
    AlreadyRegistered,
    /// The token is not registered.
    NotRegistered,
    /// More links were given than a token may have.
    CapacityExceeded,
}

/// Entry `i` of `s` is the entry of `token`.
pub open spec fn is_record_of(s: Seq<SystemToken>, token: SystemTokenId, i: int) -> bool {
    0 <= i < s.len() && s[i].id == token
}

/// `token` is registered in `s`.
pub open spec fn is_registered(s: Seq<SystemToken>, token: SystemTokenId) -> bool {
    exists|i: int| is_record_of(s, token, i)
}

/// Where the entry of `token` stands in `s`.
pub open spec fn record_index(s: Seq<SystemToken>, token: SystemTokenId) -> int {
    choose|i: int| is_record_of(s, token, i)
}

/// Entry `i` of `s` holds `link`.
pub open spec fn is_owner_of(s: Seq<SystemToken>, link: AssetLink, i: int) -> bool {
    0 <= i < s.len() && s[i].links.contains(link)
}

/// Some token of `s` is known under `link`.
pub open spec fn is_linked(s: Seq<SystemToken>, link: AssetLink) -> bool {
    exists|i: int| is_owner_of(s, link, i)
}

/// One of `links` names a token of `s` already.
pub open spec fn any_linked(s: Seq<SystemToken>, links: Seq<AssetLink>) -> bool {
    exists|k: int| 0 <= k < links.len() && is_linked(s, #[trigger] links[k])
}

/// The exchange rate of `token`, if it is registered.
pub open spec fn rate_of(s: Seq<SystemToken>, token: SystemTokenId) -> Option<ExchangeRate> {
    if is_registered(s, token) {
        Some(s[record_index(s, token)].exchange_rate)
    } else {
        None
    }
}

/// The links of `token`, if it is registered.
pub open spec fn links_of(s: Seq<SystemToken>, token: SystemTokenId) -> Option<Seq<AssetLink>> {
    if is_registered(s, token) {
        Some(s[record_index(s, token)].links)
    } else {
        None
    }
}

/// The token that is known under `link`, if there is one.
pub open spec fn token_of_link(s: Seq<SystemToken>, link: AssetLink) -> Option<SystemTokenId> {
    if is_linked(s, link) {
        Some(s[choose|i: int| is_owner_of(s, link, i)].id)
    } else {
        None
    }
}

/// `raw * rate`, clamped at the largest weight.
pub open spec fn saturating_product(raw: int, rate: int) -> int {
    if raw * rate > u128::MAX {
        u128::MAX as int
    } else {
        raw * rate
    }
}

/// The weight that `raw_weight` paid in `token` counts for: multiplied,
/// saturating, by the token's rate; unchanged where the token is not
/// registered.
pub open spec fn adjusted(s: Seq<SystemToken>, token: SystemTokenId, raw_weight: VoteWeight) -> VoteWeight {
    match rate_of(s, token) {
        Some(rate) => saturating_product(raw_weight as int, rate as int) as u128,
        None => raw_weight,
    }
}

/// Each token has one entry, and each link names one token.
pub open spec fn consistent(s: Seq<SystemToken>) -> bool {
    &&& forall|i: int, j: int| 0 <= i < j < s.len() ==> (#[trigger] s[i]).id != (#[trigger] s[j]).id
    &&& forall|i: int, j: int, link: AssetLink|
        0 <= i < s.len() && 0 <= j < s.len() && (#[trigger] s[i].links.contains(link))
            && #[trigger] s[j].links.contains(link) ==> i == j
}

/// One system token as the registry stores it.
#[derive(Debug)]
struct TokenRecord {
    id: SystemTokenId,
    exchange_rate: ExchangeRate,
    links: Vec<AssetLink>,
}

impl View for TokenRecord {
    type V = SystemToken;

    closed spec fn view(&self) -> SystemToken {
        SystemToken { id: self.id, exchange_rate: self.exchange_rate, links: self.links@ }
    }
}

/// The registry of system tokens.
#[derive(Debug)]
pub struct Pallet {
    tokens: Vec<TokenRecord>,
    max_parachain_length: u32,
}

impl View for Pallet {
    type V = Seq<SystemToken>;

    closed spec fn view(&self) -> Seq<SystemToken> {
        self.tokens@.map_values(|r: TokenRecord| r@)
    }
}

impl Pallet {
    /// The number of links a token may have.
    pub closed spec fn capacity(&self) -> nat {
        self.max_parachain_length as nat
    }

    /// The registry is consistent and no token has more links than it may.
    pub closed spec fn wf(&self) -> bool {
        &&& consistent(self@)
        &&& forall|i: int| 0 <= i < self@.len() ==> (#[trigger] self@[i]).links.len() <= self.capacity()
    }

    /// A well-formed registry is consistent, and its tokens keep to the
    /// bound on links.
    pub proof fn lemma_wf(&self)
        requires
            self.wf(),
        ensures
            consistent(self@),
            forall|i: int| 0 <= i < self@.len() ==> (#[trigger] self@[i]).links.len() <= self.capacity(),
    {
    }

    /// The empty registry, in which a token may have `max_parachain_length`
    /// links.
    pub fn new(max_parachain_length: u32) -> (registry: Self)
        ensures
            registry.wf(),
            registry@ == Seq::<SystemToken>::empty(),
            registry.capacity() == max_parachain_length,
    {
        let registry = Self { tokens: Vec::new(), max_parachain_length };
        assert(registry@ =~= Seq::<SystemToken>::empty());
        registry
    }

    /// The number of links a token may have.
    pub fn max_parachain_length(&self) -> (n: u32)
        ensures
            n == self.capacity(),
    {
        self.max_parachain_length
    }

    /// Where the entry of `token` stands.
    fn find(&self, token: SystemTokenId) -> (found: Option<usize>)
        requires
            self.wf(),
        ensures
            found is Some <==> is_registered(self@, token),
            found matches Some(i) ==> i == record_index(self@, token) && is_record_of(
                self@,
                token,
                i as int,
            ),
    {
        let n = self.tokens.len();
        let mut i: usize = 0;
        while i < n
            invariant
                i <= n,
                n == self.tokens@.len(),
                self.wf(),
                forall|j: int| 0 <= j < i ==> !is_record_of(self@, token, j),
            decreases n - i,
        {
            if self.tokens[i].id == token {
                proof {
                    assert(is_record_of(self@, token, i as int));
                    let c = record_index(self@, token);
                    assert(is_record_of(self@, token, c));
                    if i < c {
                        assert(self@[i as int].id != self@[c].id);
                    }
                }
                return Some(i);
            }
            i = i + 1;
        }
        None
    }

    /// The entry that holds `link`.
    fn find_link(&self, link: AssetLink) -> (found: Option<usize>)
        requires
            self.wf(),
        ensures
            found is Some <==> is_linked(self@, link),
            found matches Some(i) ==> is_owner_of(self@, link, i as int) && token_of_link(self@, link)
                == Some(self@[i as int].id),
    {
        let n = self.tokens.len();
        let mut i: usize = 0;
        while i < n
            invariant
                i <= n,
                n == self.tokens@.len(),
                self.wf(),
                forall|j: int| 0 <= j < i ==> !is_owner_of(self@, link, j),
            decreases n - i,
        {
            let links = &self.tokens[i].links;
            let m = links.len();
            let mut k: usize = 0;
            while k < m
                invariant
                    k <= m,
                    m == links@.len(),
                    i < n,
                    n == self.tokens@.len(),
                    *links == self.tokens@[i as int].links,
                    self.wf(),
                    forall|l: int| 0 <= l < k ==> links@[l] != link,
                decreases m - k,
            {
                let candidate = links[k];
                if candidate.0 == link.0 && candidate.1 == link.1 {
                    proof {
                        assert(links@[k as int] == link);
                        assert(self@[i as int].links == links@);
                        assert(is_owner_of(self@, link, i as int));
                        let c = choose|c: int| is_owner_of(self@, link, c);
                        assert(is_owner_of(self@, link, c));
                        assert(c == i);
                    }
                    return Some(i);
                }
                k = k + 1;
            }
            assert(self@[i as int].links == links@);
            assert(!links@.contains(link));
            i = i + 1;
        }
        None
    }

    /// Whether one of `links` names a registered token.
    fn any_link_taken(&self, links: &Vec<AssetLink>) -> (taken: bool)
        requires
            self.wf(),
        ensures
            taken == any_linked(self@, links@),
    {
        let n = links.len();
        let mut k: usize = 0;
        while k < n
            invariant
                k <= n,
                n == links@.len(),
                self.wf(),
                forall|l: int| 0 <= l < k ==> !is_linked(self@, #[trigger] links@[l]),
            decreases n - k,
        {
            if self.find_link(links[k]).is_some() {
                return true;
            }
            k = k + 1;
        }
        false
    }

    /// Registers `system_token_id` with its links and its exchange rate.
    ///
    /// Only the root origin may do so. The token must be new, and so must
    /// each of the links; there may be no more links than a token may have.
    /// On an error nothing changes.
    pub fn register_system_token(
        &mut self,
        origin: RawOrigin,
        system_token_id: SystemTokenId,
        links: Vec<AssetLink>,
        exchange_rate: ExchangeRate,
    ) -> (outcome: Result<(), Error>)
        requires
            old(self).wf(),
        ensures
            final(self).wf(),
            final(self).capacity() == old(self).capacity(),
            outcome == register_outcome(old(self)@, old(self).capacity(), origin, system_token_id, links@),
            outcome is Ok ==> final(self)@ == old(self)@.push(
                SystemToken { id: system_token_id, exchange_rate, links: links@ },
            ),
            outcome is Err ==> final(self)@ == old(self)@,
    {
        if ensure_root(&origin).is_err() {
            return Err(Error::BadOrigin);
        }
        if self.find(system_token_id).is_some() || self.any_link_taken(&links) {
            return Err(Error::AlreadyRegistered);
        }
        if links.len() > self.max_parachain_length as usize {
            return Err(Error::CapacityExceeded);
        }
        let ghost before = self@;
        let ghost added = SystemToken { id: system_token_id, exchange_rate, links: links@ };
        self.tokens.push(TokenRecord { id: system_token_id, exchange_rate, links });
        proof {
            assert(self@ =~= before.push(added));
            assert forall|i: int, j: int| 0 <= i < j < self@.len() implies (#[trigger] self@[i]).id != (
            #[trigger] self@[j]).id by {
                if j == before.len() {
                    assert(!is_record_of(before, system_token_id, i));
                }
            }
            assert forall|i: int, j: int, link: AssetLink|
                0 <= i < self@.len() && 0 <= j < self@.len() && (#[trigger] self@[i].links.contains(
                    link,
                )) && #[trigger] self@[j].links.contains(link) implies i == j by {
                if i != j && (i == before.len() || j == before.len()) {
                    let o = if i == before.len() { j } else { i };
                    assert(is_owner_of(before, link, o));
                    assert(is_linked(before, link));
                    let k = added.links.index_of(link);
                    assert(added.links[k] == link);
                    assert(any_linked(before, added.links));
                }
            }
        }
        Ok(())
    }

    /// Removes `system_token_id` with its exchange rate and all its links.
    ///
    /// Only the root origin may do so, and the token must be registered. On
    /// an error nothing changes.
    pub fn remove_system_token(
        &mut self,
        origin: RawOrigin,
        system_token_id: SystemTokenId,
    ) -> (outcome: Result<(), Error>)
        requires
            old(self).wf(),
        ensures
            final(self).wf(),
            final(self).capacity() == old(self).capacity(),
            outcome == remove_outcome(old(self)@, origin, system_token_id),
            outcome is Ok ==> final(self)@ == old(self)@.remove(
                record_index(old(self)@, system_token_id),
            ),
            outcome is Err ==> final(self)@ == old(self)@,
    {
        if ensure_root(&origin).is_err() {
            return Err(Error::BadOrigin);
        }
        match self.find(system_token_id) {
            None => Err(Error::NotRegistered),
            Some(i) => {
                let ghost before = self@;
                self.tokens.remove(i);
                proof {
                    assert(self@ =~= before.remove(i as int));
                    lemma_remove_keeps_consistent(before, i as int);
                }
                Ok(())
            },
        }
    }

    /// Whether `system_token` is registered.
    pub fn is_system_token(&self, system_token: SystemTokenId) -> (registered: bool)
        requires
            self.wf(),
        ensures
            registered == is_registered(self@, system_token),
    {
        self.find(system_token).is_some()
    }

    /// The system token that chain `para_id` knows as its asset `asset_id`,
    /// if there is one.
    pub fn convert_to_original_system_token(
        &self,
        para_id: ParaId,
        asset_id: AssetId,
    ) -> (token: Option<SystemTokenId>)
        requires
            self.wf(),
        ensures
            token == token_of_link(self@, (para_id, asset_id)),
    {
        match self.find_link((para_id, asset_id)) {
            Some(i) => Some(self.tokens[i].id),
            None => None,
        }
    }

    /// The vote weight that `vote_weight` paid in `system_token` counts for:
    /// multiplied, saturating, by the token's exchange rate. An amount in a
    /// token that is not registered counts as it is.
    pub fn adjusted_weight(
        &self,
        system_token: SystemTokenId,
        vote_weight: VoteWeight,
    ) -> (weight: VoteWeight)
        requires
            self.wf(),
        ensures
            weight == adjusted(self@, system_token, vote_weight),
    {
        match self.get_exchange_rate(system_token) {
            Some(rate) => {
                let exchange_rate: u128 = rate as u128;
                match vote_weight.checked_mul(exchange_rate) {
                    Some(product) => product,
                    None => u128::MAX,
                }
            },
            None => vote_weight,
        }
    }

    /// The names of `system_token` on other chains, if it is registered.
    pub fn get_links(&self, system_token: SystemTokenId) -> (links: Option<Vec<AssetLink>>)
        requires
            self.wf(),
        ensures
            links is Some <==> is_registered(self@, system_token),
            links matches Some(l) ==> Some(l@) == links_of(self@, system_token),
    {
        match self.find(system_token) {
            Some(i) => {
                let stored = &self.tokens[i].links;
                let n = stored.len();
                let mut links: Vec<AssetLink> = Vec::new();
                let mut k: usize = 0;
                while k < n
                    invariant
                        k <= n,
                        n == stored@.len(),
                        links@ == stored@.take(k as int),
                    decreases n - k,
                {
                    links.push(stored[k]);
                    assert(stored@.take(k + 1) =~= stored@.take(k as int).push(stored@[k as int]));
                    k = k + 1;
                }
                assert(stored@.take(n as int) =~= stored@);
                Some(links)
            },
            None => None,
        }
    }

    /// The exchange rate of `system_token`, if it is registered.
    pub fn get_exchange_rate(&self, system_token: SystemTokenId) -> (rate: Option<ExchangeRate>)
        requires
            self.wf(),
        ensures
            rate == rate_of(self@, system_token),
    {
        match self.find(system_token) {
            Some(i) => Some(self.tokens[i].exchange_rate),
            None => None,
        }
    }
}

/// What registering `token` with `links` comes to, for a registry with the
/// entries `s` in which a token may have `capacity` links.
pub open spec fn register_outcome(
    s: Seq<SystemToken>,
    capacity: nat,
    origin: RawOrigin,
    token: SystemTokenId,
    links: Seq<AssetLink>,
) -> Result<(), Error> {
    if !(origin is Root) {
        Err(Error::BadOrigin)
    } else if is_registered(s, token) || any_linked(s, links) {
        Err(Error::AlreadyRegistered)
    } else if links.len() > capacity {
        Err(Error::CapacityExceeded)
    } else {
        Ok(())
    }
}

/// What removing `token` comes to, for a registry with the entries `s`.
pub open spec fn remove_outcome(s: Seq<SystemToken>, origin: RawOrigin, token: SystemTokenId) -> Result<
    (),
    Error,
> {
    if !(origin is Root) {
        Err(Error::BadOrigin)
    } else if !is_registered(s, token) {
        Err(Error::NotRegistered)
    } else {
        Ok(())
    }
}

/// Taking an entry out of a consistent list of tokens leaves it consistent.
pub proof fn lemma_remove_keeps_consistent(s: Seq<SystemToken>, at: int)
    requires
        consistent(s),
        0 <= at < s.len(),
    ensures
        consistent(s.remove(at)),
{
    let r = s.remove(at);
    assert forall|i: int, j: int| 0 <= i < j < r.len() implies (#[trigger] r[i]).id != (#[trigger] r[j]).id by {
        let a = if i < at { i } else { i + 1 };
        let b = if j < at { j } else { j + 1 };
        assert(r[i] == s[a] && r[j] == s[b]);
    }
    assert forall|i: int, j: int, link: AssetLink|
        0 <= i < r.len() && 0 <= j < r.len() && (#[trigger] r[i].links.contains(link))
            && #[trigger] r[j].links.contains(link) implies i == j by {
        let a = if i < at { i } else { i + 1 };
        let b = if j < at { j } else { j + 1 };
        assert(r[i] == s[a] && r[j] == s[b]);
        assert(s[a].links.contains(link) && s[b].links.contains(link));
    }
}

/// A heavier payment in a token never counts for less than a lighter one.
pub proof fn lemma_adjusted_monotonic(
    s: Seq<SystemToken>,
    token: SystemTokenId,
    lighter: VoteWeight,
    heavier: VoteWeight,
)
    requires
        lighter <= heavier,
    ensures
        adjusted(s, token, lighter) <= adjusted(s, token, heavier),
{
    match rate_of(s, token) {
        Some(rate) => {
            assert(lighter * rate <= heavier * rate) by (nonlinear_arith)
                requires
                    lighter <= heavier,
                    rate >= 0,
            ;
        },
        None => {},
    }
}

/// A payment in a token that is not registered counts as it is.
pub proof fn lemma_adjusted_unregistered(
    s: Seq<SystemToken>,
    token: SystemTokenId,
    raw_weight: VoteWeight,
)
    requires
        !is_registered(s, token),
    ensures
        adjusted(s, token, raw_weight) == raw_weight,
{
}

/// Registering a token that can be registered and then removing it gives
/// back the registry as it was: the entries that were there, their rates and
/// their links, and no link of the token that came and went.
pub proof fn lemma_register_then_remove(
    s: Seq<SystemToken>,
    capacity: nat,
    token: SystemTokenId,
    links: Seq<AssetLink>,
    exchange_rate: ExchangeRate,
)
    requires
        consistent(s),
        register_outcome(s, capacity, RawOrigin::Root, token, links) is Ok,
    ensures
        ({
            let registered = s.push(SystemToken { id: token, exchange_rate, links });
            &&& remove_outcome(registered, RawOrigin::Root, token) is Ok
            &&& registered.remove(record_index(registered, token)) == s
            &&& forall|k: int| 0 <= k < links.len() ==> !is_linked(s, #[trigger] links[k])
        }),
{
    let registered = s.push(SystemToken { id: token, exchange_rate, links });
    assert(is_record_of(registered, token, s.len() as int));
    let at = record_index(registered, token);
    assert(is_record_of(registered, token, at));
    if at < s.len() {
        assert(is_record_of(s, token, at));
    }
    assert(registered.remove(at) =~= s);
}

} // verus!
