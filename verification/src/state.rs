//! A point-in-time view of account state, and the read-only accessor that
//! the validator consults.
//!
//! The state engine owns the accounts and is the only writer. A validation
//! reads one snapshot and never changes it.

use crate::address::Address;
use vstd::prelude::*;

verus! {

/// What the state engine tracks for one account.
#[derive(Clone, Copy, Debug)]
pub struct AccountAuthState {
    /// The account.
    pub address: Address,
    /// The sequence number that the account's next transaction must carry.
    pub sequence_number: u64,
}

/// Whether an account that the snapshot does not hold may still transact.
#[derive(Clone, Copy, Debug, PartialEq, Eq, Structural)]
pub enum AccountPolicy {
    /// An account must be in the snapshot before it can transact.
    RequireRegistered,
    /// An account that is not in the snapshot is created by its first valid
    /// transaction, which must carry sequence number 0.
    CreateOnFirstUse,
}

/// Why no sequence number was found for an address.
#[derive(Clone, Copy, Debug, PartialEq, Eq, Structural)]
pub enum LookupError {
    /// The snapshot holds no account at the address, and the policy requires
    /// one.
    UnknownAccount,
}

/// The sequence number that a new account starts from.
pub const INITIAL_SEQUENCE_NUMBER: u64 = 0;

/// The sequence number of the first record for `address`, if there is one.
pub open spec fn spec_find(accounts: Seq<AccountAuthState>, address: Seq<u8>) -> Option<u64>
    decreases accounts.len(),
{
    if accounts.len() == 0 {
        None
    } else if accounts[0].address@ == address {
        Some(accounts[0].sequence_number)
    } else {
        spec_find(accounts.drop_first(), address)
    }
}

/// The sequence number that a transaction of `address` is expected to carry
/// under `policy`, given the accounts of a snapshot.
pub open spec fn spec_current_sequence_number(
    accounts: Map<Seq<u8>, u64>,
    address: Seq<u8>,
    policy: AccountPolicy,
) -> Result<u64, LookupError> {
    if accounts.contains_key(address) {
        Ok(accounts[address])
    } else if policy == AccountPolicy::CreateOnFirstUse {
        Ok(INITIAL_SEQUENCE_NUMBER)
    } else {
        Err(LookupError::UnknownAccount)
    }
}

/// The map from address to sequence number that a list of records stands
/// for. Where two records have one address, the first one counts.
pub open spec fn spec_accounts_map(accounts: Seq<AccountAuthState>) -> Map<Seq<u8>, u64> {
    Map::new(
        |address: Seq<u8>| spec_find(accounts, address) is Some,
        |address: Seq<u8>| spec_find(accounts, address)->0,
    )
}

/// Whether no two records have the same address.
pub open spec fn spec_distinct_addresses(accounts: Seq<AccountAuthState>) -> bool {
    forall|i: int, j: int|
        0 <= i < j < accounts.len() ==> accounts[i].address@ != accounts[j].address@
}

/// The accounts of the chain at one point in time: a map from address to
/// expected sequence number.
#[derive(Debug)]
pub struct StateSnapshot {
    accounts: Vec<AccountAuthState>,
}

impl View for StateSnapshot {
    type V = Map<Seq<u8>, u64>;

    closed spec fn view(&self) -> Map<Seq<u8>, u64> {
        spec_accounts_map(self.accounts@)
    }
}

/// A record that is appended is found only where nothing was found before.
proof fn lemma_find_push(accounts: Seq<AccountAuthState>, record: AccountAuthState, address: Seq<u8>)
    ensures
        spec_find(accounts.push(record), address) == match spec_find(accounts, address) {
            Some(n) => Some(n),
            None => if record.address@ == address {
                Some(record.sequence_number)
            } else {
                None
            },
        },
    decreases accounts.len(),
{
    if accounts.len() == 0 {
        assert(accounts.push(record).drop_first() =~= accounts);
    } else {
        assert(accounts.push(record).drop_first() =~= accounts.drop_first().push(record));
        lemma_find_push(accounts.drop_first(), record, address);
    }
}

/// Replacing the first record of an address changes what is found for that
/// address and for no other.
proof fn lemma_find_update(
    accounts: Seq<AccountAuthState>,
    at: int,
    record: AccountAuthState,
    address: Seq<u8>,
)
    requires
        0 <= at < accounts.len(),
        accounts[at].address@ == record.address@,
        forall|j: int| 0 <= j < at ==> accounts[j].address@ != record.address@,
    ensures
        spec_find(accounts.update(at, record), address) == if address == record.address@ {
            Some(record.sequence_number)
        } else {
            spec_find(accounts, address)
        },
    decreases accounts.len(),
{
    if at == 0 {
        assert(accounts.update(at, record).drop_first() =~= accounts.drop_first());
    } else {
        assert(accounts.update(at, record).drop_first() =~= accounts.drop_first().update(
            at - 1,
            record,
        ));
        assert forall|j: int| 0 <= j < at - 1 implies accounts.drop_first()[j].address@
            != record.address@ by {
            assert(accounts.drop_first()[j] == accounts[j + 1]);
        }
        lemma_find_update(accounts.drop_first(), at - 1, record, address);
    }
}

/// Nothing is found for an address before the first record that has it.
proof fn lemma_find_skip(accounts: Seq<AccountAuthState>, upto: int, address: Seq<u8>)
    requires
        0 <= upto <= accounts.len(),
        forall|j: int| 0 <= j < upto ==> accounts[j].address@ != address,
    ensures
        spec_find(accounts, address) == spec_find(accounts.skip(upto), address),
    decreases upto,
{
    if upto == 0 {
        assert(accounts.skip(0) =~= accounts);
    } else {
        assert forall|j: int| 0 <= j < upto - 1 implies accounts.drop_first()[j].address@
            != address by {
            assert(accounts.drop_first()[j] == accounts[j + 1]);
        }
        lemma_find_skip(accounts.drop_first(), upto - 1, address);
        assert(accounts.drop_first().skip(upto - 1) =~= accounts.skip(upto));
    }
}

/// The index of the first record for `address`, or the number of records
/// where there is none.
fn first_position(accounts: &[AccountAuthState], address: &Address) -> (at: usize)
    ensures
        at <= accounts@.len(),
        forall|j: int| 0 <= j < at ==> accounts@[j].address@ != address@,
        at < accounts@.len() ==> accounts@[at as int].address@ == address@,
{
    let mut at: usize = 0;
    while at < accounts.len()
        invariant
            at <= accounts@.len(),
            forall|j: int| 0 <= j < at ==> accounts@[j].address@ != address@,
        decreases accounts@.len() - at,
    {
        if accounts[at].address.equals(address) {
            return at;
        }
        at += 1;
    }
    at
}

impl Clone for StateSnapshot {
    /// A snapshot of the same accounts.
    fn clone(&self) -> (copy: StateSnapshot)
        ensures
            copy@ == self@,
    {
        proof {
            use_type_invariant(self);
        }
        StateSnapshot { accounts: self.copy_records() }
    }
}

impl StateSnapshot {
    /// Each account is recorded once.
    #[verifier::type_invariant]
    spec fn recorded_once(&self) -> bool {
        spec_distinct_addresses(self.accounts@)
    }

    /// A snapshot without accounts.
    pub fn new() -> (snapshot: StateSnapshot)
        ensures
            snapshot@ == Map::<Seq<u8>, u64>::empty(),
    {
        let snapshot = StateSnapshot { accounts: Vec::new() };
        assert(snapshot@ =~= Map::<Seq<u8>, u64>::empty());
        snapshot
    }

    /// The snapshot that a list of records stands for, where each account is
    /// recorded once; `None` where two records have the same address.
    pub fn from_records(records: &[AccountAuthState]) -> (out: Option<StateSnapshot>)
        ensures
            out is Some <==> spec_distinct_addresses(records@),
            out matches Some(snapshot) ==> snapshot@ == spec_accounts_map(records@),
    {
        let mut accounts: Vec<AccountAuthState> = Vec::new();
        let mut i: usize = 0;
        while i < records.len()
            invariant
                i <= records@.len(),
                accounts@ == records@.subrange(0, i as int),
                spec_distinct_addresses(accounts@),
            decreases records@.len() - i,
        {
            let at = first_position(accounts.as_slice(), &records[i].address);
            if at < accounts.len() {
                assert(records@[at as int].address@ == records@[i as int].address@);
                return None;
            }
            accounts.push(records[i]);
            i += 1;
            assert(accounts@ =~= records@.subrange(0, i as int));
        }
        assert(accounts@ =~= records@);
        Some(StateSnapshot { accounts })
    }

    /// The index of the first record for `address`, or the number of records
    /// where there is none.
    fn position(&self, address: &Address) -> (at: usize)
        ensures
            at <= self.accounts@.len(),
            forall|j: int| 0 <= j < at ==> self.accounts@[j].address@ != address@,
            at < self.accounts@.len() ==> self.accounts@[at as int].address@ == address@,
    {
        first_position(self.accounts.as_slice(), address)
    }

    /// Reads the sequence number recorded for `address`; `None` where the
    /// snapshot holds no account at that address.
    pub fn read_sequence_number(&self, address: &Address) -> (found: Option<u64>)
        ensures
            found == if self@.contains_key(address@) {
                Some(self@[address@])
            } else {
                None
            },
    {
        let at = self.position(address);
        proof {
            lemma_find_skip(self.accounts@, at as int, address@);
        }
        if at < self.accounts.len() {
            Some(self.accounts[at].sequence_number)
        } else {
            None
        }
    }

    /// The sequence number that the next transaction of `address` is
    /// expected to carry: the recorded one; for an account that the snapshot
    /// does not hold, 0 where accounts are created on first use and
    /// `UnknownAccount` where they must be registered.
    pub fn current_sequence_number(&self, address: &Address, policy: AccountPolicy) -> (out: Result<
        u64,
        LookupError,
    >)
        ensures
            out == spec_current_sequence_number(self@, address@, policy),
    {
        match self.read_sequence_number(address) {
            Some(sequence_number) => Ok(sequence_number),
            None => match policy {
                AccountPolicy::CreateOnFirstUse => Ok(INITIAL_SEQUENCE_NUMBER),
                AccountPolicy::RequireRegistered => Err(LookupError::UnknownAccount),
            },
        }
    }

    /// Records the state of one account, in place of what was recorded for
    /// its address before. This is how the owner of the state builds the
    /// snapshot that it hands to a validation.
    pub fn record(&mut self, account: AccountAuthState)
        ensures
            final(self)@ == old(self)@.insert(account.address@, account.sequence_number),
    {
        let at = self.position(&account.address);
        proof {
            use_type_invariant(&*self);
        }
        let mut accounts = self.copy_records();
        if at < accounts.len() {
            proof {
                assert forall|address: Seq<u8>|
                    spec_find(self.accounts@.update(at as int, account), address) == if address
                        == account.address@ {
                        Some(account.sequence_number)
                    } else {
                        spec_find(self.accounts@, address)
                    } by {
                    lemma_find_update(self.accounts@, at as int, account, address);
                }
            }
            accounts[at] = account;
        } else {
            proof {
                assert forall|address: Seq<u8>|
                    spec_find(self.accounts@.push(account), address) == match spec_find(
                        self.accounts@,
                        address,
                    ) {
                        Some(n) => Some(n),
                        None => if account.address@ == address {
                            Some(account.sequence_number)
                        } else {
                            None
                        },
                    } by {
                    lemma_find_push(self.accounts@, account, address);
                }
                lemma_find_skip(self.accounts@, at as int, account.address@);
            }
            accounts.push(account);
        }
        self.accounts = accounts;
        assert(self@ =~= old(self)@.insert(account.address@, account.sequence_number));
    }

    /// A copy of the records.
    fn copy_records(&self) -> (records: Vec<AccountAuthState>)
        ensures
            records@ == self.accounts@,
    {
        let mut records: Vec<AccountAuthState> = Vec::new();
        let mut i: usize = 0;
        while i < self.accounts.len()
            invariant
                i <= self.accounts@.len(),
                records@ == self.accounts@.subrange(0, i as int),
            decreases self.accounts@.len() - i,
        {
            records.push(self.accounts[i]);
            i += 1;
            assert(records@ =~= self.accounts@.subrange(0, i as int));
        }
        assert(records@ =~= self.accounts@);
        records
    }

    /// The records of the snapshot, one for each account: what an export
    /// writes out.
    pub fn accounts(&self) -> (records: Vec<AccountAuthState>)
        ensures
            spec_accounts_map(records@) == self@,
            spec_distinct_addresses(records@),
    {
        proof {
            use_type_invariant(self);
        }
        self.copy_records()
    }
}

} // verus!
