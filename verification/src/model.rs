//! The mathematical model of a group's membership roster, and the verified
//! roster arithmetic that commits are applied with.
//!
//! A roster is an ordered list of members, each holding an application-level
//! identity, a leaf index in the group's ratchet tree, and a public signature
//! key. Leaf indices are pairwise distinct. A commit removes the members whose
//! leaf indices it names and then seats each new member at the leftmost free
//! leaf index, as the group protocol prescribes.

use vstd::prelude::*;
use vstd::seq_lib::seq_to_set_is_finite;
use vstd::set_lib::lemma_int_range;
use vstd::set_lib::lemma_len_subset;
use vstd::set_lib::set_int_range;

verus! {

/// One member of a group, as reported to callers: identity bytes, leaf index,
/// public signature key bytes.
#[derive(Debug)]
pub struct GroupMember {
    pub identity: Vec<u8>,
    pub index: u32,
    pub signature_key: Vec<u8>,
}

/// A member-to-be taken from a commit: identity and signature key, with no
/// leaf index yet (the roster arithmetic assigns one).
#[derive(Debug)]
pub struct AddedMember {
    pub identity: Vec<u8>,
    pub signature_key: Vec<u8>,
}

impl Clone for GroupMember {
    fn clone(&self) -> (r: Self)
        ensures
            r@ == self@,
    {
        let identity = self.identity.clone();
        let signature_key = self.signature_key.clone();
        proof {
            assert(identity@ =~= self.identity@);
            assert(signature_key@ =~= self.signature_key@);
        }
        GroupMember { identity, index: self.index, signature_key }
    }
}

impl Clone for AddedMember {
    fn clone(&self) -> (r: Self)
        ensures
            r@ == self@,
    {
        let identity = self.identity.clone();
        let signature_key = self.signature_key.clone();
        proof {
            assert(identity@ =~= self.identity@);
            assert(signature_key@ =~= self.signature_key@);
        }
        AddedMember { identity, signature_key }
    }
}

/// The mathematical value of one roster entry.
pub ghost struct MemberModel {
    pub identity: Seq<u8>,
    pub index: int,
    pub signature_key: Seq<u8>,
}

/// The mathematical value of a member-to-be.
pub ghost struct AddedModel {
    pub identity: Seq<u8>,
    pub signature_key: Seq<u8>,
}

impl View for GroupMember {
    type V = MemberModel;

    open spec fn view(&self) -> MemberModel {
        MemberModel {
            identity: self.identity@,
            index: self.index as int,
            signature_key: self.signature_key@,
        }
    }
}

impl View for AddedMember {
    type V = AddedModel;

    open spec fn view(&self) -> AddedModel {
        AddedModel { identity: self.identity@, signature_key: self.signature_key@ }
    }
}

/// The model of a vector of roster entries.
pub open spec fn member_views(ms: Seq<GroupMember>) -> Seq<MemberModel> {
    ms.map_values(|m: GroupMember| m@)
}

/// The model of a vector of members-to-be.
pub open spec fn added_views(ms: Seq<AddedMember>) -> Seq<AddedModel> {
    ms.map_values(|m: AddedMember| m@)
}

/// Leaf index `k` is occupied in the roster.
pub open spec fn index_used(members: Seq<MemberModel>, k: int) -> bool {
    exists|i: int| 0 <= i < members.len() && members[i].index == k
}

/// All leaf indices in the roster are pairwise distinct.
pub open spec fn distinct_indices(members: Seq<MemberModel>) -> bool {
    forall|i: int, j: int|
        0 <= i < j < members.len() ==> members[i].index != members[j].index
}

/// The list of removed leaf indices names `k`.
pub open spec fn removed_contains(removed: Seq<u32>, k: int) -> bool {
    exists|i: int| 0 <= i < removed.len() && removed[i] as int == k
}

/// The first free leaf index at or after `k`, sought with bounded fuel.
pub open spec fn min_free_from(members: Seq<MemberModel>, k: int, fuel: nat) -> int
    decreases fuel,
{
    if fuel == 0 {
        k
    } else if !index_used(members, k) {
        k
    } else {
        min_free_from(members, k + 1, (fuel - 1) as nat)
    }
}

/// The leftmost free leaf index of the roster. With pairwise distinct
/// indices, a fuel of one more than the roster length always suffices.
pub open spec fn min_free_index(members: Seq<MemberModel>) -> int {
    min_free_from(members, 0, (members.len() + 1) as nat)
}

/// The roster with every member whose leaf index is named in `removed` taken
/// out, order otherwise kept.
pub open spec fn roster_without(members: Seq<MemberModel>, removed: Seq<u32>) -> Seq<MemberModel>
    decreases members.len(),
{
    if members.len() == 0 {
        Seq::empty()
    } else {
        let rest = roster_without(members.drop_last(), removed);
        if removed_contains(removed, members.last().index) {
            rest
        } else {
            rest.push(members.last())
        }
    }
}

/// The entry a member-to-be is seated with: the leftmost free leaf index of
/// the roster it joins.
pub open spec fn added_entry(members: Seq<MemberModel>, a: AddedModel) -> MemberModel {
    MemberModel { identity: a.identity, index: min_free_index(members), signature_key: a.signature_key }
}

/// The roster after seating each member-to-be in order, each at the leftmost
/// leaf index free at its turn.
pub open spec fn roster_after_adds(members: Seq<MemberModel>, adds: Seq<AddedModel>) -> Seq<MemberModel>
    decreases adds.len(),
{
    if adds.len() == 0 {
        members
    } else {
        roster_after_adds(members.push(added_entry(members, adds[0])), adds.skip(1))
    }
}

/// The roster after one committed epoch transition: the named removals are
/// applied first, then the adds, then the external committer if the commit
/// was one by which an outsider joins. Surviving members keep their places;
/// each newly seated member is appended, so a roster that has lived through
/// commits lists members in seating order, not necessarily leaf-index
/// order.
pub open spec fn roster_after_commit(
    members: Seq<MemberModel>,
    removed: Seq<u32>,
    adds: Seq<AddedModel>,
    committer: Option<AddedModel>,
) -> Seq<MemberModel> {
    let with_adds = roster_after_adds(roster_without(members, removed), adds);
    match committer {
        Some(c) => with_adds.push(added_entry(with_adds, c)),
        None => with_adds,
    }
}

/// If every leaf index below `n` is occupied and indices are pairwise
/// distinct, the roster has at least `n` members.
pub proof fn lemma_occupied_prefix_bound(members: Seq<MemberModel>, n: int)
    requires
        0 <= n,
        distinct_indices(members),
        forall|k: int| 0 <= k < n ==> index_used(members, k),
    ensures
        n <= members.len(),
{
    let idxs = members.map_values(|m: MemberModel| m.index);
    assert(idxs.no_duplicates()) by {
        assert forall|i: int, j: int| 0 <= i < idxs.len() && 0 <= j < idxs.len() && i != j
            implies idxs[i] != idxs[j] by {
            if i < j {
                assert(members[i].index != members[j].index);
            } else {
                assert(members[j].index != members[i].index);
            }
        }
    }
    idxs.unique_seq_to_set();
    broadcast use seq_to_set_is_finite;

    assert(set_int_range(0, n).subset_of(idxs.to_set())) by {
        assert forall|k: int| set_int_range(0, n).contains(k) implies idxs.to_set().contains(k) by {
            assert(index_used(members, k));
            let i = choose|i: int| 0 <= i < members.len() && #[trigger] members[i].index == k;
            assert(idxs[i] == members[i].index);
            assert(idxs.contains(k));
        }
    }
    lemma_int_range(0, n);
    lemma_len_subset(set_int_range(0, n), idxs.to_set());
}

/// If every index in `[base, k)` is occupied, `k` is free, and the fuel
/// reaches past `k`, the bounded search from `base` finds exactly `k`.
pub proof fn lemma_min_free_from_finds(members: Seq<MemberModel>, base: int, k: int, fuel: nat)
    requires
        0 <= base <= k,
        !index_used(members, k),
        forall|j: int| base <= j < k ==> index_used(members, j),
        fuel > k - base,
    ensures
        min_free_from(members, base, fuel) == k,
    decreases fuel,
{
    if base < k {
        lemma_min_free_from_finds(members, base + 1, k, (fuel - 1) as nat);
    }
}

proof fn lemma_min_free_from_props(members: Seq<MemberModel>, base: int, fuel: nat)
    requires
        distinct_indices(members),
        0 <= base,
        forall|j: int| 0 <= j < base ==> index_used(members, j),
        base + fuel >= members.len() + 1,
    ensures
        !index_used(members, min_free_from(members, base, fuel)),
        forall|j: int| 0 <= j < min_free_from(members, base, fuel) ==> index_used(members, j),
        base <= min_free_from(members, base, fuel) <= members.len(),
    decreases fuel,
{
    lemma_occupied_prefix_bound(members, base);
    if index_used(members, base) {
        lemma_min_free_from_props(members, base + 1, (fuel - 1) as nat);
    }
}

/// The leftmost free leaf index of a roster with pairwise distinct indices
/// is itself free, every index below it is occupied, and it does not exceed
/// the roster length.
pub proof fn lemma_min_free_props(members: Seq<MemberModel>)
    requires
        distinct_indices(members),
    ensures
        !index_used(members, min_free_index(members)),
        forall|j: int| 0 <= j < min_free_index(members) ==> index_used(members, j),
        0 <= min_free_index(members) <= members.len(),
{
    lemma_min_free_from_props(members, 0, (members.len() + 1) as nat);
}

/// Applying removals keeps indices distinct, keeps every member whose index
/// is not named, introduces no index, and never grows the roster.
pub proof fn lemma_roster_without_props(members: Seq<MemberModel>, removed: Seq<u32>)
    requires
        distinct_indices(members),
    ensures
        distinct_indices(roster_without(members, removed)),
        forall|k: int|
            index_used(roster_without(members, removed), k) ==> index_used(members, k)
                && !removed_contains(removed, k),
        forall|k: int|
            index_used(members, k) && !removed_contains(removed, k) ==> index_used(
                roster_without(members, removed),
                k,
            ),
        roster_without(members, removed).len() <= members.len(),
    decreases members.len(),
{
    if members.len() > 0 {
        let dl = members.drop_last();
        assert(distinct_indices(dl));
        lemma_roster_without_props(dl, removed);
        let rest = roster_without(dl, removed);
        let last = members.last();
        assert(forall|k: int| index_used(dl, k) ==> index_used(members, k));
        if !removed_contains(removed, last.index) {
            let r = rest.push(last);
            assert(!index_used(dl, last.index));
            assert(!index_used(rest, last.index));
            assert(distinct_indices(r)) by {
                assert(forall|i: int| 0 <= i < rest.len() ==> r[i] == rest[i]);
            }
            assert forall|k: int| index_used(r, k) implies index_used(members, k)
                && !removed_contains(removed, k) by {
                let i = choose|i: int| 0 <= i < r.len() && #[trigger] r[i].index == k;
                if i < rest.len() {
                    assert(index_used(rest, k));
                } else {
                    assert(r[i] == last);
                    assert(members[members.len() - 1].index == k);
                }
            }
            assert forall|k: int|
                index_used(members, k) && !removed_contains(removed, k) implies index_used(r, k) by {
                let i = choose|i: int| 0 <= i < members.len() && #[trigger] members[i].index == k;
                if i < members.len() - 1 {
                    assert(dl[i].index == k);
                    assert(index_used(rest, k));
                    let j = choose|j: int| 0 <= j < rest.len() && #[trigger] rest[j].index == k;
                    assert(r[j].index == k);
                } else {
                    assert(r[r.len() - 1].index == k);
                }
            }
        } else {
            assert forall|k: int|
                index_used(members, k) && !removed_contains(removed, k) implies index_used(
                rest,
                k,
            ) by {
                let i = choose|i: int| 0 <= i < members.len() && #[trigger] members[i].index == k;
                assert(i < members.len() - 1);
                assert(dl[i].index == k);
            }
        }
    }
}

/// Seating members-to-be keeps indices distinct, keeps every occupied index
/// occupied, and grows the roster by exactly one entry per member seated.
pub proof fn lemma_roster_after_adds_props(members: Seq<MemberModel>, adds: Seq<AddedModel>)
    requires
        distinct_indices(members),
    ensures
        distinct_indices(roster_after_adds(members, adds)),
        forall|k: int|
            index_used(members, k) ==> index_used(roster_after_adds(members, adds), k),
        roster_after_adds(members, adds).len() == members.len() + adds.len(),
    decreases adds.len(),
{
    if adds.len() > 0 {
        let e = added_entry(members, adds[0]);
        let grown = members.push(e);
        lemma_min_free_props(members);
        assert(distinct_indices(grown)) by {
            assert(forall|i: int| 0 <= i < members.len() ==> grown[i] == members[i]);
            assert(!index_used(members, e.index));
        }
        lemma_roster_after_adds_props(grown, adds.skip(1));
        assert forall|k: int| index_used(members, k) implies index_used(grown, k) by {
            let i = choose|i: int| 0 <= i < members.len() && #[trigger] members[i].index == k;
            assert(grown[i].index == k);
        }
    }
}

/// Seating the members-to-be one more at a time: folding from the left agrees
/// with appending the last seat.
pub proof fn lemma_roster_after_adds_snoc(
    members: Seq<MemberModel>,
    adds: Seq<AddedModel>,
    a: AddedModel,
)
    ensures
        roster_after_adds(members, adds.push(a)) == roster_after_adds(members, adds).push(
            added_entry(roster_after_adds(members, adds), a),
        ),
    decreases adds.len(),
{
    if adds.len() == 0 {
        assert(adds.push(a).skip(1) =~= Seq::<AddedModel>::empty());
        assert(adds.push(a)[0] == a);
        assert(roster_after_adds(members, adds.push(a)) == roster_after_adds(
            members.push(added_entry(members, a)),
            Seq::<AddedModel>::empty(),
        ));
    } else {
        assert(adds.push(a)[0] == adds[0]);
        assert(adds.push(a).skip(1) =~= adds.skip(1).push(a));
        lemma_roster_after_adds_snoc(members.push(added_entry(members, adds[0])), adds.skip(1), a);
    }
}

/// A committed epoch transition keeps the leaf index of every member it does
/// not remove, and keeps leaf indices pairwise distinct.
pub proof fn lemma_commit_keeps_index(
    members: Seq<MemberModel>,
    removed: Seq<u32>,
    adds: Seq<AddedModel>,
    committer: Option<AddedModel>,
    k: int,
)
    requires
        distinct_indices(members),
        index_used(members, k),
        !removed_contains(removed, k),
    ensures
        index_used(roster_after_commit(members, removed, adds, committer), k),
        distinct_indices(roster_after_commit(members, removed, adds, committer)),
{
    lemma_roster_without_props(members, removed);
    let kept = roster_without(members, removed);
    lemma_roster_after_adds_props(kept, adds);
    let with_adds = roster_after_adds(kept, adds);
    match committer {
        Some(c) => {
            lemma_min_free_props(with_adds);
            let e = added_entry(with_adds, c);
            let r = with_adds.push(e);
            assert(distinct_indices(r)) by {
                assert(forall|i: int| 0 <= i < with_adds.len() ==> r[i] == with_adds[i]);
                assert(!index_used(with_adds, e.index));
            }
            let i = choose|i: int| 0 <= i < with_adds.len() && #[trigger] with_adds[i].index == k;
            assert(r[i].index == k);
        },
        None => {},
    }
}

/// Law of admission: seating one new member grows the roster by exactly one
/// entry, and the new member is listed, last, with the identity and
/// signature key it was admitted with.
pub proof fn lemma_add_grows(members: Seq<MemberModel>, e: MemberModel)
    ensures
        members.push(e).len() == members.len() + 1,
        members.push(e)[members.len() as int] == e,
        forall|i: int| 0 <= i < members.len() ==> members.push(e)[i] == members[i],
{
}

/// Law of departure: merging a commit that removes exactly one occupied leaf
/// index, and seats nobody, shrinks the roster by exactly one member.
pub proof fn lemma_self_removal_shrinks(members: Seq<MemberModel>, own: u32)
    requires
        distinct_indices(members),
        index_used(members, own as int),
    ensures
        roster_after_commit(members, seq![own], Seq::empty(), None).len() == members.len() - 1,
{
    lemma_remove_single_len(members, own);
}

proof fn lemma_remove_single_len(members: Seq<MemberModel>, own: u32)
    requires
        distinct_indices(members),
    ensures
        roster_without(members, seq![own]).len() == members.len() - (if index_used(
            members,
            own as int,
        ) {
            1int
        } else {
            0int
        }),
    decreases members.len(),
{
    assert(forall|k: int| removed_contains(seq![own], k) <==> k == own as int) by {
        assert(seq![own][0] == own);
    }
    if members.len() > 0 {
        let dl = members.drop_last();
        assert(distinct_indices(dl));
        lemma_remove_single_len(dl, own);
        let last = members.last();
        if last.index == own as int {
            assert(!index_used(dl, own as int));
            assert(index_used(members, own as int)) by {
                assert(members[members.len() - 1].index == own as int);
            }
        } else {
            assert(index_used(members, own as int) <==> index_used(dl, own as int)) by {
                if index_used(members, own as int) {
                    let i = choose|i: int|
                        0 <= i < members.len() && #[trigger] members[i].index == own as int;
                    assert(i < members.len() - 1);
                    assert(dl[i].index == own as int);
                }
                if index_used(dl, own as int) {
                    let i = choose|i: int| 0 <= i < dl.len() && #[trigger] dl[i].index == own as int;
                    assert(members[i].index == own as int);
                }
            }
        }
    }
}

/// True when some roster entry occupies leaf index `k`.
pub fn roster_index_used(members: &Vec<GroupMember>, k: u32) -> (b: bool)
    ensures
        b == index_used(member_views(members@), k as int),
{
    let ghost m = member_views(members@);
    let mut i: usize = 0;
    while i < members.len()
        invariant
            0 <= i <= members@.len(),
            m == member_views(members@),
            forall|j: int| 0 <= j < i ==> m[j].index != k as int,
        decreases members@.len() - i,
    {
        if members[i].index == k {
            assert(m[i as int].index == k as int);
            return true;
        }
        i += 1;
    }
    false
}

/// True when the list of removed leaf indices names `k`.
pub fn removed_names(removed: &Vec<u32>, k: u32) -> (b: bool)
    ensures
        b == removed_contains(removed@, k as int),
{
    let mut i: usize = 0;
    while i < removed.len()
        invariant
            0 <= i <= removed@.len(),
            forall|j: int| 0 <= j < i ==> removed@[j] as int != k as int,
        decreases removed@.len() - i,
    {
        if removed[i] == k {
            return true;
        }
        i += 1;
    }
    false
}

/// The leftmost leaf index not occupied by any roster entry.
pub fn leftmost_free_index(members: &Vec<GroupMember>) -> (r: u32)
    requires
        distinct_indices(member_views(members@)),
        members@.len() + 1 <= u32::MAX,
    ensures
        r as int == min_free_index(member_views(members@)),
        !index_used(member_views(members@), r as int),
        forall|j: int| 0 <= j < r ==> index_used(member_views(members@), j),
{
    let ghost m = member_views(members@);
    let mut k: u32 = 0;
    loop
        invariant
            m == member_views(members@),
            distinct_indices(m),
            m.len() + 1 <= u32::MAX,
            0 <= k as int <= m.len(),
            forall|j: int| 0 <= j < k ==> index_used(m, j),
        decreases m.len() - k as int,
    {
        if !roster_index_used(members, k) {
            proof {
                lemma_min_free_from_finds(m, 0, k as int, (m.len() + 1) as nat);
            }
            return k;
        }
        proof {
            lemma_occupied_prefix_bound(m, k as int + 1);
        }
        k = k + 1;
    }
}

/// The roster with every member whose leaf index is named in `removed` taken
/// out, order otherwise kept.
pub fn roster_remove(members: &Vec<GroupMember>, removed: &Vec<u32>) -> (r: Vec<GroupMember>)
    ensures
        member_views(r@) == roster_without(member_views(members@), removed@),
        r@.len() <= members@.len(),
{
    let ghost m = member_views(members@);
    let mut out: Vec<GroupMember> = Vec::new();
    let mut i: usize = 0;
    assert(m.take(0) =~= Seq::<MemberModel>::empty());
    assert(member_views(out@) =~= Seq::<MemberModel>::empty());
    while i < members.len()
        invariant
            0 <= i <= members@.len(),
            m == member_views(members@),
            member_views(out@) == roster_without(m.take(i as int), removed@),
            out@.len() <= i,
        decreases members@.len() - i,
    {
        let ghost prev = member_views(out@);
        let entry = &members[i];
        proof {
            assert(m.take(i + 1).drop_last() =~= m.take(i as int));
            assert(m.take(i + 1).last() == m[i as int]);
            assert(m[i as int] == entry@);
        }
        if !removed_names(removed, entry.index) {
            let copied = entry.clone();
            out.push(copied);
            proof {
                assert(member_views(out@) =~= prev.push(entry@));
            }
        }
        i += 1;
    }
    proof {
        assert(m.take(members@.len() as int) =~= m);
    }
    out
}

/// The roster after one committed epoch transition, computed as
/// [`roster_after_commit`] prescribes: removals first, then the adds, then
/// the external committer, each new member at the leftmost free leaf.
pub fn apply_commit_roster(
    members: &Vec<GroupMember>,
    removed: &Vec<u32>,
    adds: &Vec<AddedMember>,
    committer: &Option<AddedMember>,
) -> (r: Vec<GroupMember>)
    requires
        distinct_indices(member_views(members@)),
        members@.len() + adds@.len() + 2 <= u32::MAX,
    ensures
        member_views(r@) == roster_after_commit(
            member_views(members@),
            removed@,
            added_views(adds@),
            match committer {
                Some(c) => Some(c@),
                None => None,
            },
        ),
        distinct_indices(member_views(r@)),
{
    let ghost m = member_views(members@);
    let mut out = roster_remove(members, removed);
    let ghost kept = roster_without(m, removed@);
    proof {
        lemma_roster_without_props(m, removed@);
    }
    let mut i: usize = 0;
    assert(added_views(adds@).take(0) =~= Seq::<AddedModel>::empty());
    while i < adds.len()
        invariant
            0 <= i <= adds@.len(),
            m == member_views(members@),
            kept == roster_without(m, removed@),
            distinct_indices(kept),
            kept.len() <= m.len(),
            m.len() + adds@.len() + 2 <= u32::MAX,
            member_views(out@) == roster_after_adds(kept, added_views(adds@).take(i as int)),
            out@.len() == kept.len() + i,
        decreases adds@.len() - i,
    {
        let ghost sofar = added_views(adds@).take(i as int);
        proof {
            lemma_roster_after_adds_props(kept, sofar);
        }
        let idx = leftmost_free_index(&out);
        let add = &adds[i];
        let entry = GroupMember {
            identity: add.identity.clone(),
            index: idx,
            signature_key: add.signature_key.clone(),
        };
        proof {
            assert(entry.identity@ =~= add.identity@);
            assert(entry.signature_key@ =~= add.signature_key@);
            assert(entry@ == added_entry(member_views(out@), add@));
        }
        let ghost prev = member_views(out@);
        out.push(entry);
        proof {
            assert(member_views(out@) =~= prev.push(added_entry(prev, add@)));
            assert(sofar.push(add@) =~= added_views(adds@).take(i + 1));
            lemma_roster_after_adds_snoc(kept, sofar, add@);
        }
        i += 1;
    }
    proof {
        assert(added_views(adds@).take(adds@.len() as int) =~= added_views(adds@));
        lemma_roster_after_adds_props(kept, added_views(adds@));
    }
    match committer {
        Some(c) => {
            let idx = leftmost_free_index(&out);
            let entry = GroupMember {
                identity: c.identity.clone(),
                index: idx,
                signature_key: c.signature_key.clone(),
            };
            proof {
                assert(entry.identity@ =~= c.identity@);
                assert(entry.signature_key@ =~= c.signature_key@);
                assert(entry@ == added_entry(member_views(out@), c@));
            }
            let ghost prev = member_views(out@);
            out.push(entry);
            proof {
                assert(member_views(out@) =~= prev.push(added_entry(prev, c@)));
                lemma_min_free_props(prev);
                assert(distinct_indices(member_views(out@))) by {
                    let r = member_views(out@);
                    assert(forall|j: int| 0 <= j < prev.len() ==> r[j] == prev[j]);
                    assert(!index_used(prev, added_entry(prev, c@).index));
                }
            }
        },
        None => {},
    }
    out
}

} // verus!
