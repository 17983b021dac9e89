use vstd::prelude::*;
use crate::state::{CredentialAsset, CredentialView, MintPermit, PermitView, VaultAccount, VaultView};

verus! {

/// What one account on the ledger stores besides its balance.
pub enum Record {
    /// A plain balance-holding account.
    Wallet,
    /// A vault record of the vault service.
    Vault(VaultAccount),
    /// A mint permit record of the issuer service.
    Permit(MintPermit),
    /// An issued credential.
    Credential(CredentialAsset),
}

/// The mathematical content of a record.
pub ghost enum RecordView {
    Wallet,
    Vault(VaultView),
    Permit(PermitView),
    Credential(CredentialView),
}

impl View for Record {
    type V = RecordView;

    open spec fn view(&self) -> RecordView {
        match self {
            Record::Wallet => RecordView::Wallet,
            Record::Vault(v) => RecordView::Vault(v@),
            Record::Permit(p) => RecordView::Permit(p@),
            Record::Credential(c) => RecordView::Credential(c@),
        }
    }
}

/// One account of the ledger: its address, its balance in lamports, and
/// its record.
pub struct LedgerEntry {
    pub address: [u8; 32],
    pub lamports: u64,
    pub record: Record,
}

/// The mathematical content of an account: its balance and its record.
/// The address is the key under which the account is found.
pub ghost struct EntryView {
    pub lamports: u64,
    pub record: RecordView,
}

impl View for LedgerEntry {
    type V = EntryView;

    open spec fn view(&self) -> EntryView {
        EntryView { lamports: self.lamports, record: self.record@ }
    }
}

/// No two entries share an address.
pub open spec fn distinct_addresses(s: Seq<LedgerEntry>) -> bool {
    forall|i: int, j: int| 0 <= i < j < s.len() ==> s[i].address@ != s[j].address@
}

/// The content stored under address `a` in the entry list `s`, if any.
pub open spec fn entry_of(s: Seq<LedgerEntry>, a: Seq<u8>) -> Option<EntryView>
    decreases s.len(),
{
    if s.len() == 0 {
        None
    } else if s[0].address@ == a {
        Some(s[0]@)
    } else {
        entry_of(s.skip(1), a)
    }
}

proof fn lemma_entry_of_some_iff_exists(s: Seq<LedgerEntry>, a: Seq<u8>)
    ensures
        (entry_of(s, a) is Some) <==> exists|j: int| 0 <= j < s.len() && s[j].address@ == a,
    decreases s.len(),
{
    if s.len() == 0 {
    } else if s[0].address@ == a {
        assert(s[0].address@ == a);
    } else {
        lemma_entry_of_some_iff_exists(s.skip(1), a);
        if entry_of(s, a) is Some {
            let j = choose|j: int| 0 <= j < s.skip(1).len() && s.skip(1)[j].address@ == a;
            assert(s[j + 1].address@ == a);
        }
        if exists|j: int| 0 <= j < s.len() && s[j].address@ == a {
            let j = choose|j: int| 0 <= j < s.len() && s[j].address@ == a;
            assert(s.skip(1)[j - 1].address@ == a);
        }
    }
}

proof fn lemma_distinct_skip(s: Seq<LedgerEntry>)
    requires
        distinct_addresses(s),
        s.len() > 0,
    ensures
        distinct_addresses(s.skip(1)),
{
    assert forall|i: int, j: int| 0 <= i < j < s.skip(1).len()
        implies s.skip(1)[i].address@ != s.skip(1)[j].address@ by {
        assert(s.skip(1)[i] == s[i + 1]);
        assert(s.skip(1)[j] == s[j + 1]);
    }
}

proof fn lemma_entry_of_index(s: Seq<LedgerEntry>, i: int, a: Seq<u8>)
    requires
        distinct_addresses(s),
        0 <= i < s.len(),
        s[i].address@ == a,
    ensures
        entry_of(s, a) == Some(s[i]@),
    decreases s.len(),
{
    if i == 0 {
    } else {
        assert(s[0].address@ != a);
        lemma_distinct_skip(s);
        assert(s.skip(1)[i - 1] == s[i]);
        lemma_entry_of_index(s.skip(1), i - 1, a);
    }
}

proof fn lemma_entry_of_remove(s: Seq<LedgerEntry>, i: int, a: Seq<u8>)
    requires
        distinct_addresses(s),
        0 <= i < s.len(),
    ensures
        entry_of(s.remove(i), a) == if s[i].address@ == a {
            None::<EntryView>
        } else {
            entry_of(s, a)
        },
    decreases s.len(),
{
    s.remove_ensures(i);
    if i == 0 {
        assert(s.remove(0) =~= s.skip(1));
        if s[0].address@ == a {
            lemma_distinct_skip(s);
            lemma_entry_of_some_iff_exists(s.skip(1), a);
            if entry_of(s.skip(1), a) is Some {
                let j = choose|j: int| 0 <= j < s.skip(1).len() && s.skip(1)[j].address@ == a;
                assert(s.skip(1)[j] == s[j + 1]);
                assert(false);
            }
        }
    } else {
        assert(s.remove(i)[0] == s[0]);
        if s[0].address@ == a {
        } else {
            lemma_distinct_skip(s);
            assert(s.remove(i).skip(1) =~= s.skip(1).remove(i - 1));
            lemma_entry_of_remove(s.skip(1), i - 1, a);
            assert(s.skip(1)[i - 1] == s[i]);
        }
    }
}

proof fn lemma_distinct_remove(s: Seq<LedgerEntry>, i: int)
    requires
        distinct_addresses(s),
        0 <= i < s.len(),
    ensures
        distinct_addresses(s.remove(i)),
{
    s.remove_ensures(i);
    assert forall|x: int, y: int| 0 <= x < y < s.remove(i).len()
        implies s.remove(i)[x].address@ != s.remove(i)[y].address@ by {
        let x0 = if x < i { x } else { x + 1 };
        let y0 = if y < i { y } else { y + 1 };
        assert(s.remove(i)[x] == s[x0]);
        assert(s.remove(i)[y] == s[y0]);
    }
}

proof fn lemma_entry_of_push(s: Seq<LedgerEntry>, e: LedgerEntry, a: Seq<u8>)
    ensures
        entry_of(s.push(e), a) == if entry_of(s, a) is Some {
            entry_of(s, a)
        } else if e.address@ == a {
            Some(e@)
        } else {
            None::<EntryView>
        },
    decreases s.len(),
{
    if s.len() == 0 {
        assert(s.push(e)[0] == e);
        if e.address@ == a {
            assert(entry_of(s.push(e), a) == Some(e@));
        } else {
            assert(s.push(e).skip(1) =~= Seq::<LedgerEntry>::empty());
            assert(entry_of(Seq::<LedgerEntry>::empty(), a) is None);
            assert(entry_of(s.push(e), a) is None);
        }
    } else {
        assert(s.push(e)[0] == s[0]);
        if s[0].address@ == a {
            assert(entry_of(s.push(e), a) == Some(s[0]@));
            assert(entry_of(s, a) == Some(s[0]@));
        } else {
            assert(s.push(e).skip(1) =~= s.skip(1).push(e));
            lemma_entry_of_push(s.skip(1), e, a);
            assert(entry_of(s.push(e), a) == entry_of(s.skip(1).push(e), a));
            assert(entry_of(s, a) == entry_of(s.skip(1), a));
        }
    }
}

proof fn lemma_distinct_push(s: Seq<LedgerEntry>, e: LedgerEntry)
    requires
        distinct_addresses(s),
        entry_of(s, e.address@) is None,
    ensures
        distinct_addresses(s.push(e)),
{
    lemma_entry_of_some_iff_exists(s, e.address@);
    assert forall|x: int, y: int| 0 <= x < y < s.push(e).len()
        implies s.push(e)[x].address@ != s.push(e)[y].address@ by {
        if y == s.len() {
            assert(s.push(e)[x] == s[x]);
            assert(s.push(e)[y] == e);
        } else {
            assert(s.push(e)[x] == s[x]);
            assert(s.push(e)[y] == s[y]);
        }
    }
}

/// The ledger: every account either service can read or mutate, keyed by
/// address. It stands for the per-account storage of the hosting
/// environment; each invocation either commits all of its changes to it
/// or none of them.
pub struct Ledger {
    entries: Vec<LedgerEntry>,
}

impl Ledger {
    /// No two entries of the ledger share an address.
    pub closed spec fn wf(&self) -> bool {
        distinct_addresses(self.entries@)
    }

    /// The content stored under address `a`, if any.
    pub closed spec fn spec_entry(&self, a: Seq<u8>) -> Option<EntryView> {
        entry_of(self.entries@, a)
    }

    /// Whether an account lives at address `a`.
    pub open spec fn contains_account(&self, a: Seq<u8>) -> bool {
        self.spec_entry(a) is Some
    }

    /// An empty ledger.
    pub fn new() -> (l: Ledger)
        ensures
            l.wf(),
            forall|a: Seq<u8>| l.spec_entry(a) is None,
    {
        Ledger { entries: Vec::new() }
    }

    fn find_index(&self, address: &[u8; 32]) -> (r: Option<usize>)
        requires
            self.wf(),
        ensures
            match r {
                Some(i) => i < self.entries@.len() && self.entries@[i as int].address@ == address@
                    && self.spec_entry(address@) == Some(self.entries@[i as int]@),
                None => self.spec_entry(address@) is None,
            },
    {
        let n = self.entries.len();
        let mut i: usize = 0;
        while i < n
            invariant
                n == self.entries@.len(),
                i <= n,
                self.wf(),
                forall|j: int| 0 <= j < i ==> self.entries@[j].address@ != address@,
            decreases n - i,
        {
            if crate::key_eq(&self.entries[i].address, address) {
                proof {
                    lemma_entry_of_index(self.entries@, i as int, address@);
                }
                return Some(i);
            }
            i += 1;
        }
        proof {
            lemma_entry_of_some_iff_exists(self.entries@, address@);
        }
        None
    }

    /// Reads the account at `address` without changing anything.
    pub fn read_entry(&self, address: &[u8; 32]) -> (r: Option<&LedgerEntry>)
        requires
            self.wf(),
        ensures
            match r {
                Some(e) => self.spec_entry(address@) == Some(e@) && e.address@ == address@,
                None => self.spec_entry(address@) is None,
            },
    {
        match self.find_index(address) {
            Some(i) => Some(&self.entries[i]),
            None => None,
        }
    }

    /// Takes the account at `address` off the ledger and hands it out, or
    /// returns `None`, leaving the ledger unchanged, when no account lives
    /// there. No other account is affected.
    pub fn remove_entry(&mut self, address: &[u8; 32]) -> (r: Option<LedgerEntry>)
        requires
            old(self).wf(),
        ensures
            final(self).wf(),
            final(self).spec_entry(address@) is None,
            forall|a: Seq<u8>| a != address@
                ==> final(self).spec_entry(a) == old(self).spec_entry(a),
            match r {
                Some(e) => old(self).spec_entry(address@) == Some(e@)
                    && e.address@ == address@,
                None => old(self).spec_entry(address@) is None
                    && *final(self) == *old(self),
            },
    {
        match self.find_index(address) {
            Some(i) => {
                let ghost s = self.entries@;
                let e = self.entries.remove(i);
                proof {
                    assert(self.entries@ =~= s.remove(i as int));
                    lemma_distinct_remove(s, i as int);
                    lemma_entry_of_remove(s, i as int, address@);
                    assert forall|a: Seq<u8>| a != address@
                        implies entry_of(self.entries@, a) == entry_of(s, a) by {
                        lemma_entry_of_remove(s, i as int, a);
                    }
                }
                Some(e)
            },
            None => None,
        }
    }

    /// Creates the account `e` on the ledger. The address must be free;
    /// no other account is affected.
    pub fn insert_entry(&mut self, e: LedgerEntry)
        requires
            old(self).wf(),
            old(self).spec_entry(e.address@) is None,
        ensures
            final(self).wf(),
            final(self).spec_entry(e.address@) == Some(e@),
            forall|a: Seq<u8>| a != e.address@
                ==> final(self).spec_entry(a) == old(self).spec_entry(a),
    {
        let ghost s = self.entries@;
        self.entries.push(e);
        proof {
            lemma_distinct_push(s, e);
            lemma_entry_of_push(s, e, e.address@);
            assert forall|a: Seq<u8>| a != e.address@
                implies entry_of(self.entries@, a) == entry_of(s, a) by {
                lemma_entry_of_push(s, e, a);
            }
        }
    }
}

} // verus!
