use vstd::prelude::*;

verus! {

use crate::campaign::Campaign;
use crate::campaign::Identity;

/// Whether record `c` sits at the address `(admin, name)`.
pub open spec fn matches_addr(c: Campaign, admin: Identity, name: Seq<char>) -> bool {
    c.admin == admin && c.name@ == name
}

/// Whether some record in `cs` sits at the address `(admin, name)`.
pub open spec fn contains_addr(cs: Seq<Campaign>, admin: Identity, name: Seq<char>) -> bool {
    exists|i: int| 0 <= i < cs.len() && matches_addr(cs[i], admin, name)
}

/// The index of the record at `(admin, name)`; meaningful only when
/// `contains_addr` holds and the addresses in `cs` are unique.
pub open spec fn index_of_addr(cs: Seq<Campaign>, admin: Identity, name: Seq<char>) -> int {
    choose|i: int| 0 <= i < cs.len() && matches_addr(cs[i], admin, name)
}

/// The record at `(admin, name)`, if any.
pub open spec fn get_addr(cs: Seq<Campaign>, admin: Identity, name: Seq<char>) -> Option<Campaign> {
    if contains_addr(cs, admin, name) {
        Some(cs[index_of_addr(cs, admin, name)])
    } else {
        None
    }
}

/// No two records share an address.
pub open spec fn addrs_unique(cs: Seq<Campaign>) -> bool {
    forall|i: int, j: int|
        0 <= i < cs.len() && 0 <= j < cs.len() && i != j ==> !matches_addr(
            #[trigger] cs[i],
            (#[trigger] cs[j]).admin,
            cs[j].name@,
        )
}

/// Under unique addresses, at most one index matches a given address.
pub proof fn lemma_matching_index_unique(
    cs: Seq<Campaign>,
    i: int,
    j: int,
    admin: Identity,
    name: Seq<char>,
)
    requires
        addrs_unique(cs),
        0 <= i < cs.len(),
        0 <= j < cs.len(),
        matches_addr(cs[i], admin, name),
        matches_addr(cs[j], admin, name),
    ensures
        i == j,
{
    if i != j {
        assert(!matches_addr(cs[i], cs[j].admin, cs[j].name@));
    }
}

/// Replacing a record with one at the same address keeps addresses unique,
/// stores the new record at that address, and leaves every other address
/// untouched.
pub proof fn lemma_get_addr_update(cs: Seq<Campaign>, i: int, c: Campaign)
    requires
        addrs_unique(cs),
        0 <= i < cs.len(),
        c.admin == cs[i].admin,
        c.name@ == cs[i].name@,
    ensures
        addrs_unique(cs.update(i, c)),
        get_addr(cs.update(i, c), c.admin, c.name@) == Some(c),
        forall|a2: Identity, n2: Seq<char>|
            !(a2 == c.admin && n2 == c.name@) ==> #[trigger] get_addr(cs.update(i, c), a2, n2)
                == get_addr(cs, a2, n2),
{
    let cs2 = cs.update(i, c);
    assert forall|p: int, q: int|
        0 <= p < cs2.len() && 0 <= q < cs2.len() && p != q implies !matches_addr(
        cs2[p],
        cs2[q].admin,
        cs2[q].name@,
    ) by {
        assert(cs2[p].admin == cs[p].admin && cs2[p].name@ == cs[p].name@);
        assert(cs2[q].admin == cs[q].admin && cs2[q].name@ == cs[q].name@);
        assert(!matches_addr(cs[p], cs[q].admin, cs[q].name@));
    }
    assert(matches_addr(cs2[i], c.admin, c.name@));
    assert(contains_addr(cs2, c.admin, c.name@));
    lemma_matching_index_unique(cs2, index_of_addr(cs2, c.admin, c.name@), i, c.admin, c.name@);
    assert forall|a2: Identity, n2: Seq<char>|
        !(a2 == c.admin && n2 == c.name@) implies #[trigger] get_addr(cs2, a2, n2) == get_addr(
        cs,
        a2,
        n2,
    ) by {
        if contains_addr(cs2, a2, n2) {
            let j2 = index_of_addr(cs2, a2, n2);
            assert(0 <= j2 < cs2.len() && matches_addr(cs2[j2], a2, n2));
            assert(j2 != i);
            assert(matches_addr(cs[j2], a2, n2));
            assert(contains_addr(cs, a2, n2));
            lemma_matching_index_unique(cs, index_of_addr(cs, a2, n2), j2, a2, n2);
        } else if contains_addr(cs, a2, n2) {
            let j = index_of_addr(cs, a2, n2);
            assert(0 <= j < cs.len() && matches_addr(cs[j], a2, n2));
            assert(j != i);
            assert(matches_addr(cs2[j], a2, n2));
            assert(false);
        }
    }
}

/// Appending a record at a fresh address keeps addresses unique, stores it
/// at that address, and leaves every other address untouched.
pub proof fn lemma_get_addr_push(cs: Seq<Campaign>, c: Campaign)
    requires
        addrs_unique(cs),
        !contains_addr(cs, c.admin, c.name@),
    ensures
        addrs_unique(cs.push(c)),
        get_addr(cs.push(c), c.admin, c.name@) == Some(c),
        forall|a2: Identity, n2: Seq<char>|
            !(a2 == c.admin && n2 == c.name@) ==> #[trigger] get_addr(cs.push(c), a2, n2)
                == get_addr(cs, a2, n2),
{
    let cs2 = cs.push(c);
    let last = cs.len() as int;
    assert forall|p: int, q: int|
        0 <= p < cs2.len() && 0 <= q < cs2.len() && p != q implies !matches_addr(
        cs2[p],
        cs2[q].admin,
        cs2[q].name@,
    ) by {
        if p < last && q < last {
            assert(!matches_addr(cs[p], cs[q].admin, cs[q].name@));
        } else if p == last {
            if matches_addr(cs2[p], cs2[q].admin, cs2[q].name@) {
                assert(matches_addr(cs[q], c.admin, c.name@));
            }
        } else {
            if matches_addr(cs2[p], cs2[q].admin, cs2[q].name@) {
                assert(matches_addr(cs[p], c.admin, c.name@));
            }
        }
    }
    assert(matches_addr(cs2[last], c.admin, c.name@));
    assert(contains_addr(cs2, c.admin, c.name@));
    lemma_matching_index_unique(cs2, index_of_addr(cs2, c.admin, c.name@), last, c.admin, c.name@);
    assert forall|a2: Identity, n2: Seq<char>|
        !(a2 == c.admin && n2 == c.name@) implies #[trigger] get_addr(cs2, a2, n2) == get_addr(
        cs,
        a2,
        n2,
    ) by {
        if contains_addr(cs2, a2, n2) {
            let j2 = index_of_addr(cs2, a2, n2);
            assert(0 <= j2 < cs2.len() && matches_addr(cs2[j2], a2, n2));
            assert(j2 != last);
            assert(matches_addr(cs[j2], a2, n2));
            assert(contains_addr(cs, a2, n2));
            lemma_matching_index_unique(cs, index_of_addr(cs, a2, n2), j2, a2, n2);
        } else if contains_addr(cs, a2, n2) {
            let j = index_of_addr(cs, a2, n2);
            assert(0 <= j < cs.len() && matches_addr(cs[j], a2, n2));
            assert(matches_addr(cs2[j], a2, n2));
            assert(false);
        }
    }
}

/// Removing a record frees its address — nothing remains there — keeps the
/// other addresses unique, and leaves them untouched.
pub proof fn lemma_get_addr_remove(cs: Seq<Campaign>, i: int)
    requires
        addrs_unique(cs),
        0 <= i < cs.len(),
    ensures
        addrs_unique(cs.remove(i)),
        !contains_addr(cs.remove(i), cs[i].admin, cs[i].name@),
        forall|a2: Identity, n2: Seq<char>|
            !(a2 == cs[i].admin && n2 == cs[i].name@) ==> #[trigger] get_addr(cs.remove(i), a2, n2)
                == get_addr(cs, a2, n2),
{
    let cs2 = cs.remove(i);
    cs.remove_ensures(i);
    assert forall|p: int, q: int|
        0 <= p < cs2.len() && 0 <= q < cs2.len() && p != q implies !matches_addr(
        cs2[p],
        cs2[q].admin,
        cs2[q].name@,
    ) by {
        let p2 = if p < i { p } else { p + 1 };
        let q2 = if q < i { q } else { q + 1 };
        assert(cs2[p] == cs[p2]);
        assert(cs2[q] == cs[q2]);
        assert(!matches_addr(cs[p2], cs[q2].admin, cs[q2].name@));
    }
    if contains_addr(cs2, cs[i].admin, cs[i].name@) {
        let k = index_of_addr(cs2, cs[i].admin, cs[i].name@);
        assert(0 <= k < cs2.len() && matches_addr(cs2[k], cs[i].admin, cs[i].name@));
        let k2 = if k < i { k } else { k + 1 };
        assert(cs2[k] == cs[k2]);
        assert(matches_addr(cs[k2], cs[i].admin, cs[i].name@));
        lemma_matching_index_unique(cs, k2, i, cs[i].admin, cs[i].name@);
        assert(false);
    }
    assert forall|a2: Identity, n2: Seq<char>|
        !(a2 == cs[i].admin && n2 == cs[i].name@) implies #[trigger] get_addr(cs2, a2, n2)
        == get_addr(cs, a2, n2) by {
        if contains_addr(cs2, a2, n2) {
            let j2 = index_of_addr(cs2, a2, n2);
            assert(0 <= j2 < cs2.len() && matches_addr(cs2[j2], a2, n2));
            let j2o = if j2 < i { j2 } else { j2 + 1 };
            assert(cs2[j2] == cs[j2o]);
            assert(matches_addr(cs[j2o], a2, n2));
            assert(contains_addr(cs, a2, n2));
            lemma_matching_index_unique(cs, index_of_addr(cs, a2, n2), j2o, a2, n2);
        } else if contains_addr(cs, a2, n2) {
            let j = index_of_addr(cs, a2, n2);
            assert(0 <= j < cs.len() && matches_addr(cs[j], a2, n2));
            assert(j != i);
            let jn = if j < i { j } else { j - 1 };
            assert(cs2[jn] == cs[j]);
            assert(matches_addr(cs2[jn], a2, n2));
            assert(false);
        }
    }
}

/// The persistent record store: at most one campaign per `(admin, name)`
/// address, every record well-formed.
pub struct CampaignStore {
    pub campaigns: Vec<Campaign>,
}

impl CampaignStore {
    /// Store well-formedness: addresses are unique and each record keeps
    /// its own invariant.
    pub open spec fn wf(self) -> bool {
        &&& addrs_unique(self.campaigns@)
        &&& forall|i: int| 0 <= i < self.campaigns@.len() ==> (#[trigger] self.campaigns@[i]).wf()
    }

    /// An empty store.
    pub fn new() -> (s: CampaignStore)
        ensures
            s.wf(),
            s.campaigns@.len() == 0,
    {
        CampaignStore { campaigns: Vec::new() }
    }

    /// Finds the index of the record at `(admin, name)`, if any.
    pub(crate) fn find_campaign(&self, admin: &Identity, name: &String) -> (r: Option<usize>)
        ensures
            match r {
                Some(i) => i < self.campaigns@.len() && matches_addr(
                    self.campaigns@[i as int],
                    *admin,
                    name@,
                ),
                None => !contains_addr(self.campaigns@, *admin, name@),
            },
    {
        let n = self.campaigns.len();
        let mut k: usize = 0;
        while k < n
            invariant
                n == self.campaigns@.len(),
                k <= n,
                forall|j: int| 0 <= j < k ==> !matches_addr(#[trigger] self.campaigns@[j], *admin, name@),
            decreases n - k,
        {
            let c = &self.campaigns[k];
            if c.admin == *admin && c.name == *name {
                return Some(k);
            }
            k += 1;
        }
        None
    }

    /// The record at `(admin, name)`, if any, for observers.
    pub fn get_campaign(&self, admin: &Identity, name: &String) -> (r: Option<&Campaign>)
        requires
            self.wf(),
        ensures
            match r {
                Some(c) => get_addr(self.campaigns@, *admin, name@) == Some(*c),
                None => get_addr(self.campaigns@, *admin, name@) is None,
            },
    {
        match self.find_campaign(admin, name) {
            Some(i) => {
                proof {
                    assert(contains_addr(self.campaigns@, *admin, name@));
                    lemma_matching_index_unique(
                        self.campaigns@,
                        i as int,
                        index_of_addr(self.campaigns@, *admin, name@),
                        *admin,
                        name@,
                    );
                }
                Some(&self.campaigns[i])
            },
            None => None,
        }
    }
}

} // verus!
