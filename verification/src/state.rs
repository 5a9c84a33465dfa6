//! What one deployment of the program holds: its authority record and one
//! vault record for each mint that has received a deposit.

use crate::accounts::{AuthorityRecord, VaultRecord};
use crate::address::{
    authority_address, find_authority_address, vault_address, Address, ProgramAddress,
};
use vstd::prelude::*;

verus! {

/// The records of a deployment, as a mathematical value: the vaults are a
/// map from each mint to its one record.
pub struct ManagerState {
    pub program_id: Address,
    pub authority: AuthorityRecord,
    pub vaults: Map<Address, VaultRecord>,
}

impl ManagerState {
    /// The deployment of `program_id` before anything was created; `place`
    /// is where its authority record will live.
    pub open spec fn fresh(program_id: Address, place: ProgramAddress) -> ManagerState {
        ManagerState {
            program_id,
            authority: AuthorityRecord { address: place.address, bump: place.bump, exists: false },
            vaults: Map::empty(),
        }
    }

    /// Whether the vault record of `mint` has been created.
    pub open spec fn has_vault(self, mint: Address) -> bool {
        self.vaults.dom().contains(mint)
    }

    /// The vault record of `mint`, if it has been created.
    pub open spec fn vault(self, mint: Address) -> Option<VaultRecord> {
        if self.has_vault(mint) {
            Some(self.vaults[mint])
        } else {
            None
        }
    }

    /// What the vault of `mint` holds; nothing where there is no vault yet.
    pub open spec fn balance(self, mint: Address) -> nat {
        if self.has_vault(mint) {
            self.vaults[mint].amount as nat
        } else {
            0
        }
    }

    /// This deployment once its authority record has been created.
    pub open spec fn initialized(self) -> ManagerState {
        ManagerState { authority: AuthorityRecord { exists: true, ..self.authority }, ..self }
    }

    /// This deployment after `amount` has reached the vault of `mint`,
    /// which lives at `place`: the vault is created where there was none.
    pub open spec fn credited(self, mint: Address, place: ProgramAddress, amount: u64) -> ManagerState {
        let before = match self.vault(mint) {
            Some(record) => record,
            None => VaultRecord::opened(place, mint, self.authority.address),
        };
        ManagerState { vaults: self.vaults.insert(mint, before.credited(amount)), ..self }
    }

    /// Every record is where its seeds put it, each mint's record is that
    /// mint's, and the one authority record controls every vault.
    pub open spec fn valid(self) -> bool {
        &&& authority_address(self.program_id) == Some(
            ProgramAddress { address: self.authority.address, bump: self.authority.bump },
        )
        &&& self.vaults.dom().finite()
        &&& forall|mint: Address| #[trigger]
            self.has_vault(mint) ==> {
                &&& self.vaults[mint].mint == mint
                &&& self.vaults[mint].authority == self.authority.address
                &&& vault_address(self.program_id, mint) == Some(
                    ProgramAddress {
                        address: self.vaults[mint].address,
                        bump: self.vaults[mint].bump,
                    },
                )
            }
    }
}

spec fn holds(records: Seq<VaultRecord>, mint: Address) -> bool {
    exists|i: int| 0 <= i < records.len() && #[trigger] records[i].mint == mint
}

spec fn position(records: Seq<VaultRecord>, mint: Address) -> int {
    choose|i: int| 0 <= i < records.len() && #[trigger] records[i].mint == mint
}

spec fn distinct_mints(records: Seq<VaultRecord>) -> bool {
    forall|i: int, j: int|
        0 <= i < j < records.len() ==> #[trigger] records[i].mint != #[trigger] records[j].mint
}

spec fn records_map(records: Seq<VaultRecord>) -> Map<Address, VaultRecord> {
    Map::new(|mint: Address| holds(records, mint), |mint: Address| records[position(records, mint)])
}

proof fn lemma_records_at(records: Seq<VaultRecord>, i: int)
    requires
        distinct_mints(records),
        0 <= i < records.len(),
    ensures
        holds(records, records[i].mint),
        position(records, records[i].mint) == i,
        records_map(records).dom().contains(records[i].mint),
        records_map(records)[records[i].mint] == records[i],
{
    let mint = records[i].mint;
    assert(holds(records, mint));
    let j = position(records, mint);
    assert(0 <= j < records.len() && records[j].mint == mint);
    if j < i {
        assert(records[j].mint != records[i].mint);
    }
    if i < j {
        assert(records[i].mint != records[j].mint);
    }
}

proof fn lemma_records_push(records: Seq<VaultRecord>, record: VaultRecord)
    requires
        distinct_mints(records),
        !holds(records, record.mint),
    ensures
        distinct_mints(records.push(record)),
        records_map(records.push(record)) == records_map(records).insert(record.mint, record),
{
    let longer = records.push(record);
    let n = records.len() as int;
    assert forall|i: int, j: int| 0 <= i < j < longer.len() implies #[trigger] longer[i].mint
        != #[trigger] longer[j].mint by {
        if j == n {
            assert(records[i].mint != record.mint);
        } else {
            assert(records[i].mint != records[j].mint);
        }
    }
    assert(longer[n] == record);
    lemma_records_at(longer, n);
    assert forall|mint: Address| #[trigger]
        records_map(longer).dom().contains(mint) <==> records_map(records).insert(
            record.mint,
            record,
        ).dom().contains(mint) by {
        if holds(longer, mint) {
            let i = position(longer, mint);
            if i < n {
                assert(records[i].mint == mint);
            }
        }
        if holds(records, mint) {
            let i = position(records, mint);
            assert(longer[i].mint == mint);
        }
    }
    assert forall|mint: Address| #[trigger]
        records_map(longer).dom().contains(mint) implies records_map(longer)[mint]
        == records_map(records).insert(record.mint, record)[mint] by {
        if mint != record.mint {
            let i = position(longer, mint);
            assert(i < n);
            assert(records[i].mint == mint);
            lemma_records_at(records, i);
        }
    }
    assert(records_map(longer) =~= records_map(records).insert(record.mint, record));
}

proof fn lemma_records_update(records: Seq<VaultRecord>, i: int, record: VaultRecord)
    requires
        distinct_mints(records),
        0 <= i < records.len(),
        record.mint == records[i].mint,
    ensures
        distinct_mints(records.update(i, record)),
        records_map(records.update(i, record)) == records_map(records).insert(record.mint, record),
{
    let changed = records.update(i, record);
    assert forall|a: int, b: int| 0 <= a < b < changed.len() implies #[trigger] changed[a].mint
        != #[trigger] changed[b].mint by {
        assert(records[a].mint != records[b].mint);
    }
    lemma_records_at(changed, i);
    assert forall|mint: Address| #[trigger]
        records_map(changed).dom().contains(mint) <==> records_map(records).insert(
            record.mint,
            record,
        ).dom().contains(mint) by {
        if holds(changed, mint) {
            let k = position(changed, mint);
            assert(records[k].mint == mint);
        }
        if holds(records, mint) {
            let k = position(records, mint);
            assert(changed[k].mint == mint);
        }
    }
    assert forall|mint: Address| #[trigger]
        records_map(changed).dom().contains(mint) implies records_map(changed)[mint]
        == records_map(records).insert(record.mint, record)[mint] by {
        if mint != record.mint {
            let k = position(changed, mint);
            assert(k != i);
            assert(records[k] == changed[k]);
            lemma_records_at(records, k);
        }
    }
    assert(records_map(changed) =~= records_map(records).insert(record.mint, record));
}

proof fn lemma_records_count(records: Seq<VaultRecord>)
    requires
        distinct_mints(records),
    ensures
        records_map(records).dom().finite(),
        records_map(records).dom().len() == records.len(),
    decreases records.len(),
{
    if records.len() == 0 {
        assert(records_map(records).dom() =~= Set::empty());
    } else {
        let front = records.drop_last();
        let last = records.last();
        assert(records =~= front.push(last));
        assert forall|i: int, j: int| 0 <= i < j < front.len() implies #[trigger] front[i].mint
            != #[trigger] front[j].mint by {
            assert(records[i].mint != records[j].mint);
        }
        if holds(front, last.mint) {
            let i = position(front, last.mint);
            assert(records[i].mint != records[records.len() - 1].mint);
        }
        lemma_records_push(front, last);
        lemma_records_count(front);
        assert(records_map(records).dom() =~= records_map(front).dom().insert(last.mint));
    }
}

/// The records of one deployment. They are valid (`ManagerState::valid`)
/// whatever was done to the deployment, and every accessor says so.
#[derive(Debug)]
pub struct VaultManager {
    program_id: Address,
    authority: AuthorityRecord,
    vaults: Vec<VaultRecord>,
}

impl View for VaultManager {
    type V = ManagerState;

    closed spec fn view(&self) -> ManagerState {
        ManagerState {
            program_id: self.program_id,
            authority: self.authority,
            vaults: records_map(self.vaults@),
        }
    }
}

impl VaultManager {
    #[verifier::type_invariant]
    spec fn well_formed(self) -> bool {
        &&& authority_address(self.program_id) == Some(
            ProgramAddress { address: self.authority.address, bump: self.authority.bump },
        )
        &&& distinct_mints(self.vaults@)
        &&& forall|i: int|
            0 <= i < self.vaults.len() ==> {
                &&& (#[trigger] self.vaults[i]).authority == self.authority.address
                &&& vault_address(self.program_id, self.vaults[i].mint) == Some(
                    ProgramAddress { address: self.vaults[i].address, bump: self.vaults[i].bump },
                )
            }
    }

    proof fn lemma_valid(self)
        requires
            self.well_formed(),
        ensures
            self@.valid(),
            self@.vaults.dom().len() == self.vaults.len(),
    {
        lemma_records_count(self.vaults@);
        assert forall|mint: Address| #[trigger] self@.has_vault(mint) implies {
            &&& self@.vaults[mint].mint == mint
            &&& self@.vaults[mint].authority == self@.authority.address
            &&& vault_address(self@.program_id, mint) == Some(
                ProgramAddress {
                    address: self@.vaults[mint].address,
                    bump: self@.vaults[mint].bump,
                },
            )
        } by {
            let i = position(self.vaults@, mint);
            assert(self.vaults[i].mint == mint);
        }
    }

    /// The deployment of the program `program_id`, with nothing created yet.
    /// There is none where the program has no authority address.
    pub fn new(program_id: Address) -> (r: Option<VaultManager>)
        ensures
            match r {
                Some(manager) => authority_address(program_id) matches Some(place) && manager@
                    == ManagerState::fresh(program_id, place),
                None => authority_address(program_id) is None,
            },
            r matches Some(manager) ==> manager@.valid(),
    {
        match find_authority_address(&program_id) {
            Some(place) => {
                let manager = VaultManager {
                    program_id,
                    authority: AuthorityRecord {
                        address: place.address,
                        bump: place.bump,
                        exists: false,
                    },
                    vaults: Vec::new(),
                };
                proof {
                    assert(manager@.vaults =~= Map::empty());
                    manager.lemma_valid();
                }
                Some(manager)
            },
            None => None,
        }
    }

    /// The program whose deployment this is.
    pub fn program_id(&self) -> (r: Address)
        ensures
            r == self@.program_id,
            self@.valid(),
    {
        proof {
            use_type_invariant(self);
            self.lemma_valid();
        }
        self.program_id
    }

    /// The authority record, created or not.
    pub fn authority(&self) -> (r: AuthorityRecord)
        ensures
            r == self@.authority,
            self@.valid(),
    {
        proof {
            use_type_invariant(self);
            self.lemma_valid();
        }
        self.authority
    }

    fn find(&self, mint: &Address) -> (r: Option<usize>)
        ensures
            match r {
                Some(i) => i < self.vaults.len() && self.vaults[i as int].mint == *mint,
                None => !holds(self.vaults@, *mint),
            },
    {
        let mut i: usize = 0;
        while i < self.vaults.len()
            invariant
                i <= self.vaults.len(),
                forall|j: int| 0 <= j < i ==> (#[trigger] self.vaults[j]).mint != *mint,
            decreases self.vaults.len() - i,
        {
            if self.vaults[i].mint == *mint {
                return Some(i);
            }
            i = i + 1;
        }
        None
    }

    /// The vault record of `mint`, if it has been created.
    pub fn vault(&self, mint: &Address) -> (r: Option<VaultRecord>)
        ensures
            r == self@.vault(*mint),
            self@.valid(),
    {
        proof {
            use_type_invariant(self);
            self.lemma_valid();
        }
        match self.find(mint) {
            Some(i) => {
                proof {
                    lemma_records_at(self.vaults@, i as int);
                }
                Some(self.vaults[i])
            },
            None => None,
        }
    }

    /// What the vault of `mint` holds; nothing where there is no vault yet.
    pub fn balance(&self, mint: &Address) -> (r: u64)
        ensures
            r == self@.balance(*mint),
            self@.valid(),
    {
        match self.vault(mint) {
            Some(record) => record.amount,
            None => 0,
        }
    }

    /// How many vault records there are.
    pub fn vault_count(&self) -> (r: usize)
        ensures
            r == self@.vaults.dom().len(),
            self@.valid(),
    {
        proof {
            use_type_invariant(self);
            self.lemma_valid();
        }
        self.vaults.len()
    }

    /// Marks the authority record as created.
    pub(crate) fn create_authority(&mut self)
        ensures
            final(self)@ == old(self)@.initialized(),
            final(self)@.valid(),
    {
        proof {
            use_type_invariant(&*self);
        }
        self.authority = AuthorityRecord { exists: true, ..self.authority };
        proof {
            self.lemma_valid();
        }
    }

    /// Adds `amount` to the vault of `mint`, which lives at `place`; the
    /// vault is created first where there is none.
    pub(crate) fn credit(&mut self, mint: Address, place: ProgramAddress, amount: u64)
        requires
            vault_address(old(self)@.program_id, mint) == Some(place),
            old(self)@.balance(mint) + amount <= u64::MAX,
        ensures
            final(self)@ == old(self)@.credited(mint, place, amount),
            final(self)@.valid(),
    {
        proof {
            use_type_invariant(&*self);
        }
        let found = self.find(&mint);
        let mut vaults: Vec<VaultRecord> = Vec::new();
        std::mem::swap(&mut vaults, &mut self.vaults);
        match found {
            Some(i) => {
                let record = vaults[i];
                proof {
                    lemma_records_at(vaults@, i as int);
                }
                let updated = VaultRecord { amount: record.amount + amount, ..record };
                proof {
                    lemma_records_update(vaults@, i as int, updated);
                }
                vaults.set(i, updated);
            },
            None => {
                let record = VaultRecord {
                    address: place.address,
                    bump: place.bump,
                    mint,
                    authority: self.authority.address,
                    amount,
                };
                proof {
                    lemma_records_push(vaults@, record);
                }
                vaults.push(record);
            },
        }
        self.vaults = vaults;
        proof {
            self.lemma_valid();
        }
    }
}

} // verus!
