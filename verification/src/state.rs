use vstd::prelude::*;
use crate::identity::Identity;

verus! {

/// The singleton record that binds the administrator to the deployment.
#[derive(Debug)]
pub struct AchievemintAuthority {
    pub authority: Identity,
    pub bump: u8,
}

/// One minted badge. Only `owner` ever changes after the mint.
#[derive(Debug)]
pub struct NFTAccount {
    pub owner: Identity,
    pub name: String,
    pub description: String,
    pub rarity: String,
    pub unlock_percentage: u8,
    pub achievement_id: String,
    pub mint_timestamp: i64,
    pub bump: u8,
}

/// A stored record under its type tag. The tag says which shape the rest
/// has, and is looked at before the rest is read.
#[derive(Debug)]
pub enum Record {
    Authority(AchievemintAuthority),
    Badge(NFTAccount),
}

/// The badge `badge` in the hands of `owner`: nothing else differs.
pub open spec fn with_owner(badge: NFTAccount, owner: Identity) -> NFTAccount {
    NFTAccount { owner, ..badge }
}

/// A record together with the address it lives at.
#[derive(Debug)]
struct Slot {
    address: Identity,
    record: Record,
}

/// Whether some slot lives at `address`.
spec fn holds(slots: Seq<Slot>, address: Identity) -> bool {
    exists|i: int| 0 <= i < slots.len() && (#[trigger] slots[i]).address == address
}

/// The position of the slot that lives at `address`.
spec fn slot_of(slots: Seq<Slot>, address: Identity) -> int {
    choose|i: int| 0 <= i < slots.len() && (#[trigger] slots[i]).address == address
}

/// No two slots share an address.
spec fn distinct(slots: Seq<Slot>) -> bool {
    forall|i: int, j: int|
        0 <= i < slots.len() && 0 <= j < slots.len() && i != j ==> (#[trigger] slots[i]).address
            != (#[trigger] slots[j]).address
}

/// The slots as a map from address to record.
spec fn records(slots: Seq<Slot>) -> Map<Identity, Record> {
    Map::new(|a: Identity| holds(slots, a), |a: Identity| slots[slot_of(slots, a)].record)
}

proof fn lemma_slot(slots: Seq<Slot>, i: int)
    requires
        distinct(slots),
        0 <= i < slots.len(),
    ensures
        holds(slots, slots[i].address),
        slot_of(slots, slots[i].address) == i,
        records(slots).contains_key(slots[i].address),
        records(slots)[slots[i].address] == slots[i].record,
{
    assert(holds(slots, slots[i].address));
}

proof fn lemma_push(slots: Seq<Slot>, slot: Slot)
    requires
        distinct(slots),
        !holds(slots, slot.address),
    ensures
        distinct(slots.push(slot)),
        records(slots.push(slot)) == records(slots).insert(slot.address, slot.record),
{
    let after = slots.push(slot);
    assert forall|i: int, j: int| 0 <= i < after.len() && 0 <= j < after.len() && i != j implies (
    #[trigger] after[i]).address != (#[trigger] after[j]).address by {
        if i < slots.len() && j < slots.len() {
            assert(after[i] == slots[i] && after[j] == slots[j]);
        } else if i < slots.len() {
            assert(after[i] == slots[i]);
        } else {
            assert(after[j] == slots[j]);
        }
    }
    assert forall|a: Identity| #[trigger] holds(after, a) <==> (holds(slots, a) || a == slot.address) by {
        if holds(after, a) {
            let i = slot_of(after, a);
            if i < slots.len() {
                assert(slots[i] == after[i]);
            }
        }
        if holds(slots, a) {
            let i = slot_of(slots, a);
            assert(after[i] == slots[i]);
        }
        if a == slot.address {
            assert(after[slots.len() as int] == slot);
        }
    }
    assert forall|a: Identity| holds(after, a) implies #[trigger] records(after)[a] == records(
        slots,
    ).insert(slot.address, slot.record)[a] by {
        let i = slot_of(after, a);
        lemma_slot(after, i);
        if i < slots.len() {
            assert(slots[i] == after[i]);
            lemma_slot(slots, i);
        }
    }
    assert(records(after) =~= records(slots).insert(slot.address, slot.record));
}

proof fn lemma_remove(slots: Seq<Slot>, at: int)
    requires
        distinct(slots),
        0 <= at < slots.len(),
    ensures
        distinct(slots.remove(at)),
        records(slots.remove(at)) == records(slots).remove(slots[at].address),
{
    let after = slots.remove(at);
    let gone = slots[at].address;
    assert forall|i: int| 0 <= i < after.len() implies #[trigger] after[i] == slots[if i < at {
        i
    } else {
        i + 1
    }] by {}
    assert forall|a: Identity| #[trigger] holds(after, a) <==> (holds(slots, a) && a != gone) by {
        if holds(after, a) {
            let i = slot_of(after, a);
            let k = if i < at { i } else { i + 1 };
            assert(after[i] == slots[k]);
        }
        if holds(slots, a) && a != gone {
            let k = slot_of(slots, a);
            let i = if k < at { k } else { k - 1 };
            assert(after[i] == slots[k]);
        }
    }
    assert forall|a: Identity| holds(after, a) implies #[trigger] records(after)[a] == records(
        slots,
    )[a] by {
        let i = slot_of(after, a);
        let k = if i < at { i } else { i + 1 };
        assert(after[i] == slots[k]);
        lemma_slot(after, i);
        lemma_slot(slots, k);
    }
    assert(records(after) =~= records(slots).remove(gone));
}

/// The records of one deployment, each at its own address.
#[derive(Debug)]
pub struct Ledger {
    program: Identity,
    slots: Vec<Slot>,
}

impl View for Ledger {
    type V = Map<Identity, Record>;

    closed spec fn view(&self) -> Map<Identity, Record> {
        records(self.slots@)
    }
}

impl Ledger {
    /// No address is held twice.
    pub closed spec fn wf(&self) -> bool {
        distinct(self.slots@)
    }

    /// The program under which every address of this ledger is derived.
    pub closed spec fn program_id(&self) -> Identity {
        self.program
    }

    /// An empty ledger for the deployment of `program`.
    pub fn new(program: Identity) -> (ledger: Ledger)
        ensures
            ledger.wf(),
            ledger@ == Map::<Identity, Record>::empty(),
            ledger.program_id() == program,
    {
        let ledger = Ledger { program, slots: Vec::new() };
        assert(ledger@ =~= Map::<Identity, Record>::empty());
        ledger
    }

    pub fn program(&self) -> (program: Identity)
        ensures
            program == self.program_id(),
    {
        self.program
    }

    fn find(&self, address: &Identity) -> (at: Option<usize>)
        ensures
            match at {
                Some(i) => i < self.slots@.len() && self.slots@[i as int].address == *address,
                None => !holds(self.slots@, *address),
            },
    {
        let mut i: usize = 0;
        while i < self.slots.len()
            invariant
                i <= self.slots@.len(),
                forall|k: int| 0 <= k < i ==> (#[trigger] self.slots@[k]).address != *address,
            decreases self.slots@.len() - i,
        {
            if self.slots[i].address.same(address) {
                return Some(i);
            }
            i += 1;
        }
        None
    }

    /// The record that lives at `address`, if there is one.
    pub fn get(&self, address: &Identity) -> (found: Option<&Record>)
        requires
            self.wf(),
        ensures
            match found {
                Some(record) => self@.contains_key(*address) && *record == self@[*address],
                None => !self@.contains_key(*address),
            },
    {
        match self.find(address) {
            Some(i) => {
                proof {
                    lemma_slot(self.slots@, i as int);
                }
                Some(&self.slots[i].record)
            },
            None => None,
        }
    }

    /// Puts `record` at `address`, in place of what was there.
    pub fn put(&mut self, address: Identity, record: Record)
        requires
            old(self).wf(),
        ensures
            final(self).wf(),
            final(self).program_id() == old(self).program_id(),
            final(self)@ == old(self)@.insert(address, record),
    {
        match self.find(&address) {
            Some(i) => {
                proof {
                    lemma_remove(self.slots@, i as int);
                }
                self.slots.remove(i);
            },
            None => {
                assert(records(self.slots@) =~= records(self.slots@).remove(address));
            },
        }
        proof {
            assert(!holds(self.slots@, address));
            lemma_push(self.slots@, Slot { address, record });
            assert(old(self)@.remove(address).insert(address, record) =~= old(self)@.insert(
                address,
                record,
            ));
        }
        self.slots.push(Slot { address, record });
    }

    /// Takes the record at `address` out of the ledger.
    pub fn take(&mut self, address: &Identity) -> (taken: Option<Record>)
        requires
            old(self).wf(),
        ensures
            final(self).wf(),
            final(self).program_id() == old(self).program_id(),
            final(self)@ == old(self)@.remove(*address),
            match taken {
                Some(record) => old(self)@.contains_key(*address) && record == old(self)@[*address],
                None => !old(self)@.contains_key(*address),
            },
    {
        match self.find(address) {
            Some(i) => {
                proof {
                    lemma_remove(self.slots@, i as int);
                    lemma_slot(self.slots@, i as int);
                }
                let slot = self.slots.remove(i);
                Some(slot.record)
            },
            None => {
                assert(records(self.slots@) =~= records(self.slots@).remove(*address));
                None
            },
        }
    }

    /// Hands the badge at `address` to `new_owner`. Says whether a badge
    /// lives there; where none does, nothing changes.
    pub fn set_owner(&mut self, address: &Identity, new_owner: Identity) -> (done: bool)
        requires
            old(self).wf(),
        ensures
            final(self).wf(),
            final(self).program_id() == old(self).program_id(),
            done == (old(self)@.contains_key(*address) && old(self)@[*address] is Badge),
            done ==> final(self)@ == old(self)@.insert(
                *address,
                Record::Badge(with_owner(old(self)@[*address]->Badge_0, new_owner)),
            ),
            !done ==> final(self)@ == old(self)@,
    {
        let at = match self.find(address) {
            None => {
                return false;
            },
            Some(i) => i,
        };
        proof {
            lemma_slot(self.slots@, at as int);
        }
        match &self.slots[at].record {
            Record::Authority(_) => {
                return false;
            },
            Record::Badge(_) => {},
        }
        proof {
            lemma_remove(self.slots@, at as int);
        }
        let slot = self.slots.remove(at);
        let ghost before = slot.record;
        let record = match slot.record {
            Record::Badge(mut badge) => {
                badge.owner = new_owner;
                Record::Badge(badge)
            },
            Record::Authority(authority) => Record::Authority(authority),
        };
        proof {
            assert(record == Record::Badge(with_owner(before->Badge_0, new_owner)));
            assert(!holds(self.slots@, slot.address));
            lemma_push(self.slots@, Slot { address: slot.address, record });
            assert(old(self)@.remove(*address).insert(*address, record) =~= old(self)@.insert(
                *address,
                record,
            ));
        }
        self.slots.push(Slot { address: slot.address, record });
        true
    }
}

} // verus!
