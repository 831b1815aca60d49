//! The allow-list: the owner allows and denies addresses, or replaces the
//! whole list; an address is allowed exactly when the list holds it. The
//! owner also keeps the zkMe KYC settings. The list is kept in ascending
//! order of the addresses, which is the order it is listed in.
use vstd::prelude::*;
use crate::address::{AddressInput, OwnershipError, assert_owner};
use crate::versioning::{MigrateError, migrate_version, semver_precedes, version_precedes};

verus! {

// ------------------------------------------------------------------------------------------------
// The order of addresses
// ------------------------------------------------------------------------------------------------

/// `a` comes before `b` in the lexicographic order of their characters
/// (which is the order of their UTF-8 bytes).
pub open spec fn str_lt(a: Seq<char>, b: Seq<char>) -> bool
    decreases a.len(),
{
    if a.len() == 0 {
        b.len() > 0
    } else if b.len() == 0 {
        false
    } else if a[0] != b[0] {
        (a[0] as int) < (b[0] as int)
    } else {
        str_lt(a.drop_first(), b.drop_first())
    }
}

/// Nothing comes before itself.
pub proof fn lemma_str_lt_irreflexive(a: Seq<char>)
    ensures
        !str_lt(a, a),
    decreases a.len(),
{
    if a.len() > 0 {
        lemma_str_lt_irreflexive(a.drop_first());
    }
}

/// Of two different strings one comes first, and not both.
pub proof fn lemma_str_lt_total(a: Seq<char>, b: Seq<char>)
    ensures
        a != b ==> str_lt(a, b) || str_lt(b, a),
        !(str_lt(a, b) && str_lt(b, a)),
    decreases a.len(),
{
    if a.len() > 0 && b.len() > 0 && a[0] == b[0] {
        lemma_str_lt_total(a.drop_first(), b.drop_first());
        if a != b {
            assert(a.drop_first() != b.drop_first()) by {
                if a.drop_first() == b.drop_first() {
                    assert(a =~= seq![a[0]] + a.drop_first());
                    assert(b =~= seq![b[0]] + b.drop_first());
                }
            }
        }
    } else if a.len() == 0 && b.len() == 0 {
        assert(a =~= b);
    } else if a.len() > 0 && b.len() > 0 {
        assert(a[0] as int != b[0] as int);
    }
}

/// The order is transitive.
pub proof fn lemma_str_lt_transitive(a: Seq<char>, b: Seq<char>, c: Seq<char>)
    requires
        str_lt(a, b),
        str_lt(b, c),
    ensures
        str_lt(a, c),
    decreases a.len(),
{
    if a.len() > 0 && b.len() > 0 && c.len() > 0 && a[0] == b[0] && b[0] == c[0] {
        lemma_str_lt_transitive(a.drop_first(), b.drop_first(), c.drop_first());
    }
}

proof fn lemma_str_lt_step(a: Seq<char>, b: Seq<char>, i: int)
    requires
        0 <= i < a.len(),
        i < b.len(),
        a[i] == b[i],
    ensures
        str_lt(a.skip(i), b.skip(i)) == str_lt(a.skip(i + 1), b.skip(i + 1)),
{
    assert(a.skip(i).drop_first() =~= a.skip(i + 1));
    assert(b.skip(i).drop_first() =~= b.skip(i + 1));
}

/// Whether `a` comes before `b`.
pub fn address_lt(a: &String, b: &String) -> (r: bool)
    ensures
        r == str_lt(a@, b@),
{
    let la = a.as_str().unicode_len();
    let lb = b.as_str().unicode_len();
    let mut i: usize = 0;
    assert(a@.skip(0) =~= a@);
    assert(b@.skip(0) =~= b@);
    while i < la && i < lb
        invariant
            la == a@.len(),
            lb == b@.len(),
            i <= la,
            i <= lb,
            str_lt(a@, b@) == str_lt(a@.skip(i as int), b@.skip(i as int)),
        decreases la - i,
    {
        let ca = a.as_str().get_char(i);
        let cb = b.as_str().get_char(i);
        if ca != cb {
            proof {
                assert(a@.skip(i as int)[0] == ca);
                assert(b@.skip(i as int)[0] == cb);
            }
            return (ca as u32) < (cb as u32);
        }
        proof {
            lemma_str_lt_step(a@, b@, i as int);
        }
        i = i + 1;
    }
    proof {
        assert(a@.skip(i as int).len() == la - i);
    }
    i == la && i < lb
}

// ------------------------------------------------------------------------------------------------
// The list
// ------------------------------------------------------------------------------------------------

/// The allowed addresses, held in ascending order without repetition.
#[derive(Clone, Debug)]
pub struct AllowList {
    addrs: Vec<String>,
}

impl AllowList {
    /// The addresses in ascending order.
    pub closed spec fn seq(&self) -> Seq<Seq<char>> {
        self.addrs@.map_values(|s: String| s@)
    }

    /// The addresses are ascending, hence distinct.
    pub closed spec fn wf(&self) -> bool {
        forall|i: int, j: int| 0 <= i < j < self.addrs@.len() ==> str_lt(self.addrs@[i]@, self.addrs@[j]@)
    }

    /// The set of allowed addresses.
    pub open spec fn view(&self) -> Set<Seq<char>> {
        Set::new(|x: Seq<char>| self.seq().contains(x))
    }

    /// The empty list.
    pub fn new() -> (l: AllowList)
        ensures
            l.wf(),
            l@ == Set::<Seq<char>>::empty(),
            l.seq().len() == 0,
    {
        let l = AllowList { addrs: Vec::new() };
        assert(l.seq() =~= Seq::<Seq<char>>::empty());
        assert(l@ =~= Set::<Seq<char>>::empty());
        l
    }

    /// The list holding `addrs`, which must be ascending.
    pub fn from_sorted(addrs: Vec<String>) -> (r: Option<AllowList>)
        ensures
            r is Some <==> forall|i: int, j: int| 0 <= i < j < addrs@.len() ==> str_lt(addrs@[i]@, addrs@[j]@),
            r is Some ==> r->Some_0.wf() && r->Some_0.seq() == addrs@.map_values(|s: String| s@),
    {
        let mut i: usize = 1;
        if addrs.len() == 0 {
            return Some(AllowList { addrs });
        }
        while i < addrs.len()
            invariant
                1 <= i <= addrs@.len(),
                forall|k: int| 0 <= k < i - 1 ==> str_lt(#[trigger] addrs@[k]@, addrs@[k + 1]@),
            decreases addrs@.len() - i,
        {
            if !address_lt(&addrs[i - 1], &addrs[i]) {
                proof {
                    assert(!str_lt(addrs@[i - 1]@, addrs@[i as int]@));
                }
                return None;
            }
            i = i + 1;
        }
        proof {
            assert forall|a: int, b: int| 0 <= a < b < addrs@.len() implies str_lt(addrs@[a]@, addrs@[b]@) by {
                lemma_chain(addrs@.map_values(|s: String| s@), a, b);
            }
        }
        Some(AllowList { addrs })
    }

    /// The number of allowed addresses.
    pub fn len(&self) -> (n: usize)
        ensures
            n == self.seq().len(),
    {
        self.addrs.len()
    }

    /// Whether `addr` is allowed.
    pub fn contains(&self, addr: &String) -> (b: bool)
        requires
            self.wf(),
        ensures
            b == self@.contains(addr@),
    {
        let k = self.position(addr);
        let r = k < self.addrs.len() && self.addrs[k].eq(addr);
        proof {
            if !r {
                assert forall|i: int| 0 <= i < self.seq().len() implies self.seq()[i] != addr@ by {
                    if i < k {
                        lemma_str_lt_total(self.addrs@[i]@, addr@);
                    } else {
                        if i > k {
                            lemma_str_lt_irreflexive(addr@);
                            if self.addrs@[i]@ == addr@ {
                                lemma_str_lt_transitive(addr@, self.addrs@[k as int]@, addr@);
                            }
                        }
                    }
                }
            } else {
                assert(self.seq()[k as int] == addr@);
            }
        }
        r
    }

    /// The first index whose address does not come before `addr`.
    fn position(&self, addr: &String) -> (k: usize)
        requires
            self.wf(),
        ensures
            k <= self.addrs@.len(),
            forall|i: int| 0 <= i < k ==> str_lt(#[trigger] self.addrs@[i]@, addr@),
            k < self.addrs@.len() ==> !str_lt(self.addrs@[k as int]@, addr@),
            forall|i: int| k < i < self.addrs@.len() ==> str_lt(addr@, #[trigger] self.addrs@[i]@)
                || self.addrs@[k as int]@ == addr@ && str_lt(self.addrs@[k as int]@, self.addrs@[i]@),
    {
        let mut k: usize = 0;
        while k < self.addrs.len() && address_lt(&self.addrs[k], addr)
            invariant
                k <= self.addrs@.len(),
                forall|i: int| 0 <= i < k ==> str_lt(#[trigger] self.addrs@[i]@, addr@),
            decreases self.addrs@.len() - k,
        {
            k = k + 1;
        }
        proof {
            if k < self.addrs@.len() {
                lemma_str_lt_total(self.addrs@[k as int]@, addr@);
                assert forall|i: int| k < i < self.addrs@.len() implies str_lt(addr@, #[trigger] self.addrs@[i]@)
                    || self.addrs@[k as int]@ == addr@ && str_lt(self.addrs@[k as int]@, self.addrs@[i]@) by {
                    if self.addrs@[k as int]@ != addr@ {
                        lemma_str_lt_transitive(addr@, self.addrs@[k as int]@, self.addrs@[i]@);
                    }
                }
            }
        }
        k
    }
}

impl AllowList {
    /// Allows `addr`.
    pub fn allow(&mut self, addr: String)
        requires
            old(self).wf(),
        ensures
            final(self).wf(),
            final(self)@ == old(self)@.insert(addr@),
    {
        let k = self.position(&addr);
        if k < self.addrs.len() && self.addrs[k].eq(&addr) {
            proof {
                assert(self@ =~= old(self)@.insert(addr@)) by {
                    assert(self.seq()[k as int] == addr@);
                }
            }
            return;
        }
        let ghost old_addrs = self.addrs@;
        let ghost a = addr@;
        proof {
            if k < old_addrs.len() {
                lemma_str_lt_total(old_addrs[k as int]@, a);
            }
        }
        self.addrs.insert(k, addr);
        proof {
            assert(self.addrs@ == old_addrs.insert(k as int, self.addrs@[k as int]));
            assert forall|i: int, j: int| 0 <= i < j < self.addrs@.len() implies str_lt(self.addrs@[i]@, self.addrs@[j]@) by {
                if i < k && j == k {
                } else if i < k && j > k {
                    assert(self.addrs@[j] == old_addrs[j - 1]);
                } else if i == k && j > k {
                    assert(self.addrs@[j] == old_addrs[j - 1]);
                    if j - 1 > k {
                        lemma_str_lt_transitive(a, old_addrs[k as int]@, old_addrs[j - 1]@);
                    }
                } else if i > k {
                    assert(self.addrs@[i] == old_addrs[i - 1]);
                    assert(self.addrs@[j] == old_addrs[j - 1]);
                } else {
                    assert(self.addrs@[i] == old_addrs[i]);
                    assert(self.addrs@[j] == old_addrs[j]);
                }
            }
            assert forall|x: Seq<char>| #[trigger] self@.contains(x) == old(self)@.insert(a).contains(x) by {
                if self.seq().contains(x) {
                    let i = choose|i: int| 0 <= i < self.seq().len() && self.seq()[i] == x;
                    if i < k {
                        assert(old(self).seq()[i] == x);
                    } else if i > k {
                        assert(old(self).seq()[i - 1] == x);
                    }
                }
                if old(self).seq().contains(x) {
                    let i = choose|i: int| 0 <= i < old(self).seq().len() && old(self).seq()[i] == x;
                    if i < k {
                        assert(self.seq()[i] == x);
                    } else {
                        assert(self.seq()[i + 1] == x);
                    }
                }
                if x == a {
                    assert(self.seq()[k as int] == x);
                }
            }
            assert(self@ =~= old(self)@.insert(a));
        }
    }

    /// Denies `addr`.
    pub fn deny(&mut self, addr: &String)
        requires
            old(self).wf(),
        ensures
            final(self).wf(),
            final(self)@ == old(self)@.remove(addr@),
    {
        let k = self.position(addr);
        let ghost old_addrs = self.addrs@;
        let ghost a = addr@;
        if k < self.addrs.len() && self.addrs[k].eq(addr) {
            self.addrs.remove(k);
            proof {
                assert forall|i: int, j: int| 0 <= i < j < self.addrs@.len() implies str_lt(self.addrs@[i]@, self.addrs@[j]@) by {
                    if i < k && j >= k {
                        assert(self.addrs@[j] == old_addrs[j + 1]);
                    } else if i >= k {
                        assert(self.addrs@[i] == old_addrs[i + 1]);
                        assert(self.addrs@[j] == old_addrs[j + 1]);
                    }
                }
                assert forall|x: Seq<char>| #[trigger] self@.contains(x) == old(self)@.remove(a).contains(x) by {
                    if self.seq().contains(x) {
                        let i = choose|i: int| 0 <= i < self.seq().len() && self.seq()[i] == x;
                        if i < k {
                            assert(old(self).seq()[i] == x);
                            lemma_str_lt_irreflexive(a);
                        } else {
                            assert(old(self).seq()[i + 1] == x);
                            lemma_str_lt_irreflexive(a);
                        }
                    }
                    if old(self).seq().contains(x) && x != a {
                        let i = choose|i: int| 0 <= i < old(self).seq().len() && old(self).seq()[i] == x;
                        if i < k {
                            assert(self.seq()[i] == x);
                        } else {
                            assert(i != k);
                            assert(self.seq()[i - 1] == x);
                        }
                    }
                }
                assert(self@ =~= old(self)@.remove(a));
            }
        } else {
            proof {
                assert forall|x: Seq<char>| #[trigger] self@.contains(x) == old(self)@.remove(a).contains(x) by {
                    if self.seq().contains(x) {
                        let i = choose|i: int| 0 <= i < self.seq().len() && self.seq()[i] == x;
                        if x == a {
                            if i < k {
                                lemma_str_lt_irreflexive(a);
                            } else if i == k {
                            } else {
                                lemma_str_lt_irreflexive(a);
                                if k < self.addrs@.len() && self.addrs@[k as int]@ != a {
                                    lemma_str_lt_transitive(a, self.addrs@[k as int]@, a);
                                }
                            }
                        }
                    }
                }
                assert(self@ =~= old(self)@.remove(a));
            }
        }
    }

    /// One page of the list: the addresses after `start_after`, ascending,
    /// at most `n` of them.
    pub fn page(&self, start_after: Option<&String>, n: usize) -> (page: Vec<String>)
        requires
            self.wf(),
        ensures
            exists|k: int|
                #![trigger self.seq().subrange(k, self.seq().len() as int)]
                0 <= k <= self.seq().len() && (forall|i: int| 0 <= i < k ==> !after_addr(start_after, #[trigger] self.seq()[i]))
                    && (forall|i: int| k <= i < self.seq().len() ==> after_addr(start_after, #[trigger] self.seq()[i]))
                    && page@.map_values(|s: String| s@) == self.seq().subrange(k, self.seq().len() as int).take(
                    if self.seq().len() - k < n { self.seq().len() - k } else { n as int },
                ),
    {
        let mut k: usize = 0;
        while k < self.addrs.len() && !addr_after(start_after, &self.addrs[k])
            invariant
                self.wf(),
                k <= self.addrs@.len(),
                forall|i: int| 0 <= i < k ==> !after_addr(start_after, #[trigger] self.seq()[i]),
            decreases self.addrs@.len() - k,
        {
            k = k + 1;
        }
        proof {
            assert forall|i: int| k <= i < self.seq().len() implies after_addr(start_after, #[trigger] self.seq()[i]) by {
                if i > k {
                    match start_after {
                        Some(s) => lemma_str_lt_transitive(s@, self.seq()[k as int], self.seq()[i]),
                        None => {},
                    }
                }
            }
        }
        let mut page: Vec<String> = Vec::new();
        let mut j: usize = k;
        while j < self.addrs.len() && j - k < n
            invariant
                k <= j <= self.addrs@.len(),
                j - k <= n,
                page@.map_values(|s: String| s@) == self.seq().subrange(k as int, j as int),
            decreases self.addrs@.len() - j,
        {
            let c = self.addrs[j].clone();
            let ghost before = page@;
            page.push(c);
            proof {
                assert(c@ == self.seq()[j as int]);
                assert(page@ == before.push(c));
                assert(page@.map_values(|s: String| s@) =~= before.map_values(|s: String| s@).push(c@));
                assert(self.seq().subrange(k as int, j as int + 1) =~= self.seq().subrange(k as int, j as int).push(
                    self.seq()[j as int],
                ));
            }
            j = j + 1;
        }
        proof {
            let rest = self.seq().subrange(k as int, self.seq().len() as int);
            assert(page@.map_values(|s: String| s@) =~= rest.take((j - k) as int));
        }
        page
    }
}

/// Whether an address comes after the bound of a listing.
pub open spec fn after_addr(start_after: Option<&String>, a: Seq<char>) -> bool {
    match start_after {
        Some(s) => str_lt(s@, a),
        None => true,
    }
}

fn addr_after(start_after: Option<&String>, a: &String) -> (b: bool)
    ensures
        b == after_addr(start_after, a@),
{
    match start_after {
        Some(s) => address_lt(s, a),
        None => true,
    }
}

proof fn lemma_chain(s: Seq<Seq<char>>, a: int, b: int)
    requires
        0 <= a < b < s.len(),
        forall|k: int| 0 <= k < b ==> str_lt(#[trigger] s[k], s[k + 1]),
    ensures
        str_lt(s[a], s[b]),
    decreases b - a,
{
    if b > a + 1 {
        lemma_chain(s, a, b - 1);
        lemma_str_lt_transitive(s[a], s[b - 1], s[b]);
    }
}

// ------------------------------------------------------------------------------------------------
// Handlers
// ------------------------------------------------------------------------------------------------

/// The zkMe KYC contract and the cooperator whose approvals count.
#[derive(Clone, Debug, PartialEq, Eq)]
pub struct ZkMeSettings {
    pub contract: String,
    pub cooperator: String,
}

/// The errors of the allow-list.
#[derive(Clone, Debug, PartialEq, Eq)]
pub enum ContractError {
    Ownership(OwnershipError),
    /// An address that the chain does not accept.
    InvalidAddress,
    Migrate(MigrateError),
}

/// Queries the allow-list answers.
#[derive(Clone, Debug, PartialEq, Eq)]
pub enum QueryMsg {
    Ownership,
    /// A page of the allowed addresses.
    AllowList { limit: Option<u32>, start_after: Option<String> },
    IsAddressAllowed { address: String },
}

/// The addresses of a message, as the chain accepted them.
pub open spec fn input_addresses(addrs: Seq<AddressInput>) -> Seq<Seq<char>> {
    addrs.map_values(|a: AddressInput| a.address@)
}

/// Every address of a message is valid.
pub open spec fn inputs_valid(addrs: Seq<AddressInput>) -> bool {
    forall|i: int| 0 <= i < addrs.len() ==> #[trigger] addrs[i].valid
}

/// The owner's check, then every address must be valid.
pub open spec fn list_update_error(owner: Option<String>, sender: Seq<char>, addrs: Seq<AddressInput>) -> Option<ContractError> {
    if owner is None {
        Some(ContractError::Ownership(OwnershipError::NoOwner))
    } else if owner.unwrap()@ != sender {
        Some(ContractError::Ownership(OwnershipError::NotOwner))
    } else if !inputs_valid(addrs) {
        Some(ContractError::InvalidAddress)
    } else {
        None
    }
}

fn check_list_update(owner: &Option<String>, sender: &String, addresses: &Vec<AddressInput>) -> (r: Result<(), ContractError>)
    ensures
        match list_update_error(*owner, sender@, addresses@) {
            Some(e) => r == Err::<(), ContractError>(e),
            None => r is Ok,
        },
{
    match assert_owner(owner, sender) {
        Ok(()) => {},
        Err(e) => return Err(ContractError::Ownership(e)),
    }
    let mut i: usize = 0;
    while i < addresses.len()
        invariant
            i <= addresses@.len(),
            owner is Some && owner.unwrap()@ == sender@,
            forall|j: int| 0 <= j < i ==> #[trigger] addresses@[j].valid,
        decreases addresses@.len() - i,
    {
        if !addresses[i].valid {
            assert(!addresses@[i as int].valid);
            return Err(ContractError::InvalidAddress);
        }
        i = i + 1;
    }
    Ok(())
}

/// The owner allows `addresses`: refused to anyone but the owner and for an
/// invalid address, leaving the list as it was; else every address is
/// allowed and they are returned in order.
pub fn execute_allow(list: &mut AllowList, owner: &Option<String>, sender: &String, addresses: &Vec<AddressInput>) -> (r: Result<Vec<String>, ContractError>)
    requires
        old(list).wf(),
    ensures
        final(list).wf(),
        match list_update_error(*owner, sender@, addresses@) {
            Some(e) => r == Err::<Vec<String>, ContractError>(e) && final(list)@ == old(list)@,
            None => r is Ok && r->Ok_0@.map_values(|s: String| s@) == input_addresses(addresses@)
                && final(list)@ == old(list)@.union(input_addresses(addresses@).to_set()),
        },
{
    match check_list_update(owner, sender, addresses) {
        Ok(()) => {},
        Err(e) => return Err(e),
    }
    let mut out: Vec<String> = Vec::new();
    let mut i: usize = 0;
    while i < addresses.len()
        invariant
            i <= addresses@.len(),
            list.wf(),
            out@.map_values(|s: String| s@) == input_addresses(addresses@).take(i as int),
            list@ == old(list)@.union(input_addresses(addresses@).take(i as int).to_set()),
        decreases addresses@.len() - i,
    {
        let a = addresses[i].address.clone();
        let ghost before = list@;
        let ghost out_before = out@;
        list.allow(a.clone());
        out.push(a);
        proof {
            let t = input_addresses(addresses@).take(i as int + 1);
            assert(t =~= input_addresses(addresses@).take(i as int).push(a@));
            assert(t.to_set() =~= input_addresses(addresses@).take(i as int).to_set().insert(a@)) by {
                broadcast use vstd::seq_lib::group_seq_properties;
            }
            assert(list@ =~= old(list)@.union(t.to_set()));
            assert(out@.map_values(|s: String| s@) =~= out_before.map_values(|s: String| s@).push(a@));
        }
        i = i + 1;
    }
    proof {
        assert(input_addresses(addresses@).take(i as int) =~= input_addresses(addresses@));
    }
    Ok(out)
}

/// The owner denies `addresses`: refused to anyone but the owner and for an
/// invalid address, leaving the list as it was; else no address of them is
/// allowed any more, and they are returned in order.
pub fn execute_deny(list: &mut AllowList, owner: &Option<String>, sender: &String, addresses: &Vec<AddressInput>) -> (r: Result<Vec<String>, ContractError>)
    requires
        old(list).wf(),
    ensures
        final(list).wf(),
        match list_update_error(*owner, sender@, addresses@) {
            Some(e) => r == Err::<Vec<String>, ContractError>(e) && final(list)@ == old(list)@,
            None => r is Ok && r->Ok_0@.map_values(|s: String| s@) == input_addresses(addresses@)
                && final(list)@ == old(list)@.difference(input_addresses(addresses@).to_set()),
        },
{
    match check_list_update(owner, sender, addresses) {
        Ok(()) => {},
        Err(e) => return Err(e),
    }
    let mut out: Vec<String> = Vec::new();
    let mut i: usize = 0;
    while i < addresses.len()
        invariant
            i <= addresses@.len(),
            list.wf(),
            out@.map_values(|s: String| s@) == input_addresses(addresses@).take(i as int),
            list@ == old(list)@.difference(input_addresses(addresses@).take(i as int).to_set()),
        decreases addresses@.len() - i,
    {
        let a = addresses[i].address.clone();
        let ghost out_before = out@;
        list.deny(&a);
        out.push(a);
        proof {
            let t = input_addresses(addresses@).take(i as int + 1);
            assert(t =~= input_addresses(addresses@).take(i as int).push(a@));
            assert(t.to_set() =~= input_addresses(addresses@).take(i as int).to_set().insert(a@)) by {
                broadcast use vstd::seq_lib::group_seq_properties;
            }
            assert(list@ =~= old(list)@.difference(t.to_set()));
            assert(out@.map_values(|s: String| s@) =~= out_before.map_values(|s: String| s@).push(a@));
        }
        i = i + 1;
    }
    proof {
        assert(input_addresses(addresses@).take(i as int) =~= input_addresses(addresses@));
    }
    Ok(out)
}

/// The owner replaces the whole list with `addresses`: refused to anyone
/// but the owner and for an invalid address, leaving the list as it was;
/// else the list holds exactly those addresses.
pub fn execute_update_allow_list(list: &mut AllowList, owner: &Option<String>, sender: &String, addresses: &Vec<AddressInput>) -> (r: Result<(), ContractError>)
    requires
        old(list).wf(),
    ensures
        final(list).wf(),
        match list_update_error(*owner, sender@, addresses@) {
            Some(e) => r == Err::<(), ContractError>(e) && final(list)@ == old(list)@,
            None => r is Ok && final(list)@ == input_addresses(addresses@).to_set(),
        },
{
    match check_list_update(owner, sender, addresses) {
        Ok(()) => {},
        Err(e) => return Err(e),
    }
    *list = AllowList::new();
    let mut i: usize = 0;
    while i < addresses.len()
        invariant
            i <= addresses@.len(),
            list.wf(),
            list@ == input_addresses(addresses@).take(i as int).to_set(),
        decreases addresses@.len() - i,
    {
        let a = addresses[i].address.clone();
        let ghost before = list@;
        list.allow(a.clone());
        proof {
            let t = input_addresses(addresses@).take(i as int + 1);
            assert(t =~= input_addresses(addresses@).take(i as int).push(a@));
            assert(t.to_set() =~= input_addresses(addresses@).take(i as int).to_set().insert(a@)) by {
                broadcast use vstd::seq_lib::group_seq_properties;
            }
            assert(list@ =~= t.to_set());
        }
        i = i + 1;
    }
    proof {
        assert(input_addresses(addresses@).take(i as int) =~= input_addresses(addresses@));
    }
    Ok(())
}

/// How many addresses one page of the listing holds: the limit asked for
/// (ten by default), at most a hundred.
pub open spec fn page_size(limit: Option<u32>) -> int {
    match limit {
        Some(l) => if l < 100 { l as int } else { 100 },
        None => 10,
    }
}

/// Whether an address comes after the (given) bound of a listing.
pub open spec fn after_input(start_after: Option<AddressInput>, a: Seq<char>) -> bool {
    match start_after {
        Some(s) => str_lt(s.address@, a),
        None => true,
    }
}

/// A page of the allowed addresses after `start_after`: refused for an
/// invalid bound.
pub fn query_allow_list(list: &AllowList, limit: Option<u32>, start_after: &Option<AddressInput>) -> (r: Result<Vec<String>, ContractError>)
    requires
        list.wf(),
    ensures
        start_after is Some && !start_after.unwrap().valid ==> r == Err::<Vec<String>, ContractError>(ContractError::InvalidAddress),
        (start_after is Some ==> start_after.unwrap().valid) ==> r is Ok && exists|k: int|
            #![trigger list.seq().subrange(k, list.seq().len() as int)]
            0 <= k <= list.seq().len() && (forall|i: int| 0 <= i < k ==> !after_input(*start_after, #[trigger] list.seq()[i]))
                && (forall|i: int| k <= i < list.seq().len() ==> after_input(*start_after, #[trigger] list.seq()[i]))
                && r->Ok_0@.map_values(|s: String| s@) == list.seq().subrange(k, list.seq().len() as int).take(
                if list.seq().len() - k < page_size(limit) { list.seq().len() - k } else { page_size(limit) },
            ),
{
    let n: usize = match limit {
        Some(l) => if l < 100 { l as usize } else { 100 },
        None => 10,
    };
    match start_after {
        Some(s) => {
            if !s.valid {
                return Err(ContractError::InvalidAddress);
            }
            let p = list.page(Some(&s.address), n);
            proof {
                let k = choose|k: int|
                    #![trigger list.seq().subrange(k, list.seq().len() as int)]
                    0 <= k <= list.seq().len() && (forall|i: int| 0 <= i < k ==> !after_addr(Some(&s.address), #[trigger] list.seq()[i]))
                        && (forall|i: int| k <= i < list.seq().len() ==> after_addr(Some(&s.address), #[trigger] list.seq()[i]))
                        && p@.map_values(|s: String| s@) == list.seq().subrange(k, list.seq().len() as int).take(
                        if list.seq().len() - k < n { list.seq().len() - k } else { n as int },
                    );
                assert(forall|i: int| 0 <= i < k ==> !after_input(*start_after, #[trigger] list.seq()[i]));
                assert(forall|i: int| k <= i < list.seq().len() ==> after_input(*start_after, #[trigger] list.seq()[i]));
            }
            Ok(p)
        },
        None => Ok(list.page(None, n)),
    }
}

/// Whether `address` is allowed: refused for an invalid address; allowed
/// exactly when the list holds it.
pub fn is_address_allowed(list: &AllowList, address: &AddressInput) -> (r: Result<bool, ContractError>)
    requires
        list.wf(),
    ensures
        !address.valid ==> r == Err::<bool, ContractError>(ContractError::InvalidAddress),
        address.valid ==> r == Ok::<bool, ContractError>(list@.contains(address.address@)),
{
    if !address.valid {
        return Err(ContractError::InvalidAddress);
    }
    Ok(list.contains(&address.address))
}

/// The owner sets or removes the zkMe settings: refused to anyone but the
/// owner and for an invalid contract or cooperator.
pub fn execute_update_zk_me_settings(owner: &Option<String>, sender: &String, settings: &Option<(AddressInput, AddressInput)>) -> (r: Result<Option<ZkMeSettings>, ContractError>)
    ensures
        owner is None ==> r == Err::<Option<ZkMeSettings>, ContractError>(ContractError::Ownership(OwnershipError::NoOwner)),
        owner is Some && owner.unwrap()@ != sender@ ==> r == Err::<Option<ZkMeSettings>, ContractError>(
            ContractError::Ownership(OwnershipError::NotOwner),
        ),
        owner is Some && owner.unwrap()@ == sender@ ==> match settings {
            None => r == Ok::<Option<ZkMeSettings>, ContractError>(None),
            Some((c, p)) => if c.valid && p.valid {
                r is Ok && r->Ok_0 is Some && r->Ok_0.unwrap().contract@ == c.address@ && r->Ok_0.unwrap().cooperator@
                    == p.address@
            } else {
                r == Err::<Option<ZkMeSettings>, ContractError>(ContractError::InvalidAddress)
            },
        },
{
    match assert_owner(owner, sender) {
        Ok(()) => {},
        Err(e) => return Err(ContractError::Ownership(e)),
    }
    match settings {
        None => Ok(None),
        Some((c, p)) => {
            if !c.valid || !p.valid {
                return Err(ContractError::InvalidAddress);
            }
            Ok(Some(ZkMeSettings { contract: c.address.clone(), cooperator: p.address.clone() }))
        },
    }
}

/// Migrates the allow-list from the stored record: refused as
/// `migrate_version` refuses; a store older than 0.3.0 moves its former
/// list, if any, into the list. Returns whether the new version is recorded.
pub fn migrate(list: &mut AllowList, stored_name: &String, stored_version: &String, contract_name: &String, contract_version: &String, old_list: &Option<Vec<String>>) -> (r: Result<bool, ContractError>)
    requires
        old(list).wf(),
    ensures
        final(list).wf(),
        r is Ok <==> stored_name@ == contract_name@ && semver_precedes(stored_version@, contract_version@) is Some
            && semver_precedes(stored_version@, "0.3.0"@) is Some,
        stored_name@ != contract_name@ ==> r is Err && (r->Err_0 matches ContractError::Migrate(
            MigrateError::MigrationError { storage_contract_name, contract_name: name },
        ) && storage_contract_name@ == stored_name@ && name@ == contract_name@),
        stored_name@ == contract_name@ && (semver_precedes(stored_version@, contract_version@) is None
            || semver_precedes(stored_version@, "0.3.0"@) is None) ==> r == Err::<bool, ContractError>(
            ContractError::Migrate(MigrateError::SemVer),
        ),
        r is Err ==> final(list)@ == old(list)@,
        r is Ok ==> stored_name@ == contract_name@ && semver_precedes(stored_version@, contract_version@) == Some(r->Ok_0),
        r is Ok ==> final(list)@ == if semver_precedes(stored_version@, "0.3.0"@) == Some(true) && old_list is Some {
            old(list)@.union(old_list.unwrap()@.map_values(|s: String| s@).to_set())
        } else {
            old(list)@
        },
{
    let record = match migrate_version(stored_name, stored_version, contract_name, contract_version) {
        Ok(b) => b,
        Err(e) => return Err(ContractError::Migrate(e)),
    };
    let before_v3 = match version_precedes(stored_version.as_str(), "0.3.0") {
        Some(b) => b,
        None => return Err(ContractError::Migrate(MigrateError::SemVer)),
    };
    if before_v3 {
        if let Some(v) = old_list {
            let mut i: usize = 0;
            while i < v.len()
                invariant
                    i <= v@.len(),
                    list.wf(),
                    list@ == old(list)@.union(v@.map_values(|s: String| s@).take(i as int).to_set()),
                decreases v@.len() - i,
            {
                list.allow(v[i].clone());
                proof {
                    let t = v@.map_values(|s: String| s@).take(i as int + 1);
                    assert(t =~= v@.map_values(|s: String| s@).take(i as int).push(v@[i as int]@));
                    assert(t.to_set() =~= v@.map_values(|s: String| s@).take(i as int).to_set().insert(v@[i as int]@)) by {
                        broadcast use vstd::seq_lib::group_seq_properties;
                    }
                    assert(list@ =~= old(list)@.union(t.to_set()));
                }
                i = i + 1;
            }
            proof {
                assert(v@.map_values(|s: String| s@).take(i as int) =~= v@.map_values(|s: String| s@));
            }
        }
    }
    Ok(record)
}

} // verus!
