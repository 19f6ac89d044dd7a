use vstd::prelude::*;

use crate::address::{derived, find_item_metadata_address, ITEM_METADATA_SEED};
use crate::error::{ProgramError, ACCOUNT_ALREADY_IN_USE, INSUFFICIENT_FUNDS};
use crate::instruction::Args;
use crate::processor::{buy_plan_of, custody_authority, custody_holds, sell_error, AccountView, BuyPlan, SellPlan, TokenTransfer};
use crate::Key;

verus! {

/// The token ledger's code for accounts of two different assets.
pub const MINT_MISMATCH: u32 = 3;

/// The token ledger's code for a transfer not signed by the source's owner.
pub const OWNER_MISMATCH: u32 = 4;

/// The token ledger's code for a balance that would overflow.
pub const OVERFLOW: u32 = 14;

/// The system allocator's code for a payer short of the deposit.
pub const RESULT_WITH_NEGATIVE_LAMPORTS: u32 = 1;

/// A balance of one asset held for one owner.
#[derive(Clone, Copy, Debug)]
pub struct Balance {
    pub key: Key,
    pub mint: Key,
    pub owner: Key,
    pub amount: u64,
}

/// An allocated account: its owner program, deposit and data.
#[derive(Clone, Debug)]
pub struct Storage {
    pub key: Key,
    pub owner: Key,
    pub lamports: u64,
    pub data: Vec<u8>,
}

/// The host's accounts, on which whole transitions are committed or refused.
pub struct Ledger {
    pub balances: Vec<Balance>,
    pub storage: Vec<Storage>,
}

pub open spec fn unique_balances(s: Seq<Balance>) -> bool {
    forall|i: int, j: int| 0 <= i < s.len() && 0 <= j < s.len() && i != j ==> s[i].key@ != s[j].key@
}

pub open spec fn unique_storage(s: Seq<Storage>) -> bool {
    forall|i: int, j: int| 0 <= i < s.len() && 0 <= j < s.len() && i != j ==> s[i].key@ != s[j].key@
}

pub open spec fn has_balance(s: Seq<Balance>, k: Seq<u8>) -> bool {
    exists|i: int| 0 <= i < s.len() && s[i].key@ == k
}

/// The balance account at `k`.
pub open spec fn balance_of(s: Seq<Balance>, k: Seq<u8>) -> Balance {
    s[choose|i: int| 0 <= i < s.len() && s[i].key@ == k]
}

pub open spec fn amount_of(s: Seq<Balance>, k: Seq<u8>) -> u64 {
    balance_of(s, k).amount
}

pub open spec fn has_storage(s: Seq<Storage>, k: Seq<u8>) -> bool {
    exists|i: int| 0 <= i < s.len() && s[i].key@ == k
}

/// The allocated account at `k`.
pub open spec fn storage_of(s: Seq<Storage>, k: Seq<u8>) -> Storage {
    s[choose|i: int| 0 <= i < s.len() && s[i].key@ == k]
}

/// What a transfer adds to the balance at `k`.
pub open spec fn transfer_delta(t: TokenTransfer, k: Seq<u8>) -> int {
    (if k == t.destination@ { t.amount as int } else { 0 }) - (if k == t.source@ { t.amount as int } else { 0 })
}

/// The first check a transfer fails on the ledger, if any.
pub open spec fn transfer_error(s: Seq<Balance>, t: TokenTransfer) -> Option<ProgramError> {
    if !has_balance(s, t.source@) || !has_balance(s, t.destination@) {
        Some(ProgramError::UninitializedAccount)
    } else if amount_of(s, t.source@) < t.amount {
        Some(ProgramError::Custom(INSUFFICIENT_FUNDS))
    } else if balance_of(s, t.source@).mint@ != balance_of(s, t.destination@).mint@ {
        Some(ProgramError::Custom(MINT_MISMATCH))
    } else if balance_of(s, t.source@).owner@ != t.authority@ {
        Some(ProgramError::Custom(OWNER_MISMATCH))
    } else if t.source@ != t.destination@ && amount_of(s, t.destination@) + t.amount > u64::MAX {
        Some(ProgramError::Custom(OVERFLOW))
    } else {
        None
    }
}

/// `s` with the amounts of a transfer moved.
pub open spec fn moved(s: Seq<Balance>, t: TokenTransfer) -> Seq<Balance> {
    Seq::new(s.len(), |i: int| Balance { amount: (s[i].amount + transfer_delta(t, s[i].key@)) as u64, ..s[i] })
}

pub proof fn lemma_balance_at(s: Seq<Balance>, i: int)
    requires
        unique_balances(s),
        0 <= i < s.len(),
    ensures
        has_balance(s, s[i].key@),
        balance_of(s, s[i].key@) == s[i],
{
    let k = s[i].key@;
    assert(0 <= i < s.len() && s[i].key@ == k);
    let j = choose|j: int| 0 <= j < s.len() && s[j].key@ == k;
    assert(j == i);
}

pub proof fn lemma_storage_at(s: Seq<Storage>, i: int)
    requires
        unique_storage(s),
        0 <= i < s.len(),
    ensures
        has_storage(s, s[i].key@),
        storage_of(s, s[i].key@) == s[i],
{
    let k = s[i].key@;
    assert(0 <= i < s.len() && s[i].key@ == k);
    let j = choose|j: int| 0 <= j < s.len() && s[j].key@ == k;
    assert(j == i);
}

fn find_balance(s: &Vec<Balance>, k: &Key) -> (r: Option<usize>)
    ensures
        match r {
            Some(i) => i < s@.len() && s@[i as int].key@ == k@,
            None => !has_balance(s@, k@),
        },
{
    let mut i: usize = 0;
    while i < s.len()
        invariant
            0 <= i <= s@.len(),
            forall|j: int| 0 <= j < i ==> s@[j].key@ != k@,
        decreases s@.len() - i,
    {
        if s[i].key.same(k) {
            return Some(i);
        }
        i = i + 1;
    }
    None
}

fn find_storage(s: &Vec<Storage>, k: &Key) -> (r: Option<usize>)
    ensures
        match r {
            Some(i) => i < s@.len() && s@[i as int].key@ == k@,
            None => !has_storage(s@, k@),
        },
{
    let mut i: usize = 0;
    while i < s.len()
        invariant
            0 <= i <= s@.len(),
            forall|j: int| 0 <= j < i ==> s@[j].key@ != k@,
        decreases s@.len() - i,
    {
        if s[i].key.same(k) {
            return Some(i);
        }
        i = i + 1;
    }
    None
}

/// Moves `t.amount` units from `t.source` to `t.destination`, or changes nothing.
pub fn transfer(balances: &mut Vec<Balance>, t: &TokenTransfer) -> (r: Result<(), ProgramError>)
    requires
        unique_balances(old(balances)@),
    ensures
        match r {
            Ok(()) => transfer_error(old(balances)@, *t) is None && final(balances)@ == moved(old(balances)@, *t),
            Err(e) => transfer_error(old(balances)@, *t) == Some(e) && final(balances)@ == old(balances)@,
        },
{
    let ghost s = balances@;
    let i = match find_balance(balances, &t.source) {
        Some(i) => i,
        None => return Err(ProgramError::UninitializedAccount),
    };
    let j = match find_balance(balances, &t.destination) {
        Some(j) => j,
        None => return Err(ProgramError::UninitializedAccount),
    };
    proof {
        lemma_balance_at(s, i as int);
        lemma_balance_at(s, j as int);
    }
    let src = balances[i];
    let dst = balances[j];
    if src.amount < t.amount {
        return Err(ProgramError::Custom(INSUFFICIENT_FUNDS));
    }
    if !src.mint.same(&dst.mint) {
        return Err(ProgramError::Custom(MINT_MISMATCH));
    }
    if !src.owner.same(&t.authority) {
        return Err(ProgramError::Custom(OWNER_MISMATCH));
    }
    if i == j {
        assert(balances@ =~= moved(s, *t));
        return Ok(());
    }
    if dst.amount > u64::MAX - t.amount {
        return Err(ProgramError::Custom(OVERFLOW));
    }
    balances.set(i, Balance { amount: src.amount - t.amount, ..src });
    balances.set(j, Balance { amount: dst.amount + t.amount, ..dst });
    proof {
        assert forall|a: int| 0 <= a < s.len() implies #[trigger] balances@[a] == moved(s, *t)[a] by {
            if a != i && a != j {
                assert(s[a].key@ != t.source@);
                assert(s[a].key@ != t.destination@);
            }
        }
        assert(balances@ =~= moved(s, *t));
    }
    Ok(())
}

fn copy_balances(s: &Vec<Balance>) -> (r: Vec<Balance>)
    ensures
        r@ == s@,
{
    let mut r: Vec<Balance> = Vec::new();
    let mut i: usize = 0;
    while i < s.len()
        invariant
            0 <= i <= s@.len(),
            r@ == s@.subrange(0, i as int),
        decreases s@.len() - i,
    {
        r.push(s[i]);
        i = i + 1;
        assert(r@ =~= s@.subrange(0, i as int));
    }
    assert(s@.subrange(0, s@.len() as int) =~= s@);
    r
}

/// The first reason the host refuses to allocate a sale record, if any.
pub open spec fn sell_commit_error(st: Seq<Storage>, p: SellPlan) -> Option<ProgramError> {
    if derived(ITEM_METADATA_SEED@, p.mint@) != Some((p.record@, p.bump)) {
        Some(ProgramError::MissingRequiredSignature)
    } else if has_storage(st, p.record@) {
        Some(ProgramError::Custom(ACCOUNT_ALREADY_IN_USE))
    } else if !has_storage(st, p.payer@) || storage_of(st, p.payer@).lamports < p.rent_lamports {
        Some(ProgramError::Custom(RESULT_WITH_NEGATIVE_LAMPORTS))
    } else {
        None
    }
}

/// The first reason the host refuses a purchase, if any.
pub open spec fn buy_commit_error(b: Seq<Balance>, st: Seq<Storage>, p: BuyPlan) -> Option<ProgramError> {
    if transfer_error(b, p.payment) is Some {
        transfer_error(b, p.payment)
    } else if transfer_error(moved(b, p.payment), p.item) is Some {
        transfer_error(moved(b, p.payment), p.item)
    } else if !has_storage(st, p.record@) || !has_storage(st, p.buyer@) {
        Some(ProgramError::UninitializedAccount)
    } else if p.record@ == p.buyer@ {
        Some(ProgramError::InvalidArgument)
    } else if storage_of(st, p.buyer@).lamports + storage_of(st, p.record@).lamports > u64::MAX {
        Some(ProgramError::ArithmeticOverflow)
    } else {
        None
    }
}

impl Ledger {
    pub open spec fn wf(&self) -> bool {
        unique_balances(self.balances@) && unique_storage(self.storage@)
    }

    /// Allocates the sale record that `p` describes, funded by its payer, or changes nothing.
    pub fn apply_sell(&mut self, p: SellPlan) -> (r: Result<(), ProgramError>)
        requires
            old(self).wf(),
        ensures
            final(self).wf(),
            final(self).balances@ == old(self).balances@,
            match r {
                Ok(()) => {
                    let (o, n) = (old(self).storage@, final(self).storage@);
                    &&& sell_commit_error(o, p) is None
                    &&& has_storage(n, p.record@)
                    &&& storage_of(n, p.record@) == (Storage {
                        key: p.record,
                        owner: p.owner,
                        lamports: p.rent_lamports,
                        data: p.data,
                    })
                    &&& storage_of(n, p.payer@) == (Storage {
                        lamports: (storage_of(o, p.payer@).lamports - p.rent_lamports) as u64,
                        ..storage_of(o, p.payer@)
                    })
                    &&& forall|k: Seq<u8>| #[trigger] has_storage(n, k) == (has_storage(o, k) || k == p.record@)
                    &&& forall|k: Seq<u8>| k != p.record@ && k != p.payer@ && #[trigger] has_storage(o, k)
                        ==> storage_of(n, k) == storage_of(o, k)
                },
                Err(e) => sell_commit_error(old(self).storage@, p) == Some(e) && final(self).storage@
                    == old(self).storage@,
            },
    {
        let ghost o = self.storage@;
        match find_item_metadata_address(&p.mint) {
            Some((addr, bump)) => {
                if !addr.same(&p.record) || bump != p.bump {
                    return Err(ProgramError::MissingRequiredSignature);
                }
            },
            None => return Err(ProgramError::MissingRequiredSignature),
        }
        if find_storage(&self.storage, &p.record).is_some() {
            return Err(ProgramError::Custom(ACCOUNT_ALREADY_IN_USE));
        }
        let pi = match find_storage(&self.storage, &p.payer) {
            Some(i) => i,
            None => return Err(ProgramError::Custom(RESULT_WITH_NEGATIVE_LAMPORTS)),
        };
        proof {
            lemma_storage_at(o, pi as int);
        }
        if self.storage[pi].lamports < p.rent_lamports {
            return Err(ProgramError::Custom(RESULT_WITH_NEGATIVE_LAMPORTS));
        }
        let mut payer = self.storage.remove(pi);
        payer.lamports = payer.lamports - p.rent_lamports;
        self.storage.insert(pi, payer);
        let record = Storage { key: p.record, owner: p.owner, lamports: p.rent_lamports, data: p.data };
        self.storage.push(record);
        proof {
            let n = self.storage@;
            let last = o.len() as int;
            assert(n.len() == o.len() + 1);
            assert forall|a: int| 0 <= a < o.len() && a != pi implies #[trigger] n[a] == o[a] by {}
            assert(n[last] == record);
            assert(unique_storage(n)) by {
                assert forall|a: int, c: int| 0 <= a < n.len() && 0 <= c < n.len() && a != c
                    implies n[a].key@ != n[c].key@ by {
                    if a == last {
                        assert(o[c].key@ != p.record@);
                    } else if c == last {
                        assert(o[a].key@ != p.record@);
                    }
                }
            }
            lemma_storage_at(n, last);
            lemma_storage_at(n, pi as int);
            assert forall|k: Seq<u8>| #[trigger] has_storage(n, k) == (has_storage(o, k) || k == p.record@) by {
                if has_storage(o, k) {
                    let a = choose|a: int| 0 <= a < o.len() && o[a].key@ == k;
                    assert(n[a].key@ == k);
                }
                if has_storage(n, k) && k != p.record@ {
                    let a = choose|a: int| 0 <= a < n.len() && n[a].key@ == k;
                    assert(o[a].key@ == k);
                }
            }
            assert forall|k: Seq<u8>| k != p.record@ && k != p.payer@ && #[trigger] has_storage(o, k)
                implies storage_of(n, k) == storage_of(o, k) by {
                let a = choose|a: int| 0 <= a < o.len() && o[a].key@ == k;
                lemma_storage_at(o, a);
                lemma_storage_at(n, a);
            }
        }
        Ok(())
    }

    /// Commits the two transfers of a purchase and destroys its record, moving the record's
    /// deposit to the buyer; or, where any step fails, changes nothing.
    pub fn apply_buy(&mut self, p: &BuyPlan) -> (r: Result<(), ProgramError>)
        requires
            old(self).wf(),
        ensures
            final(self).wf(),
            match r {
                Ok(()) => {
                    let (o, n) = (old(self).storage@, final(self).storage@);
                    &&& buy_commit_error(old(self).balances@, o, *p) is None
                    &&& final(self).balances@ == moved(moved(old(self).balances@, p.payment), p.item)
                    &&& !has_storage(n, p.record@)
                    &&& storage_of(n, p.buyer@) == (Storage {
                        lamports: (storage_of(o, p.buyer@).lamports + storage_of(o, p.record@).lamports) as u64,
                        ..storage_of(o, p.buyer@)
                    })
                    &&& forall|k: Seq<u8>| #[trigger] has_storage(n, k) == (has_storage(o, k) && k != p.record@)
                    &&& forall|k: Seq<u8>| k != p.record@ && k != p.buyer@ && #[trigger] has_storage(o, k)
                        ==> storage_of(n, k) == storage_of(o, k)
                },
                Err(e) => buy_commit_error(old(self).balances@, old(self).storage@, *p) == Some(e)
                    && final(self).balances@ == old(self).balances@ && final(self).storage@ == old(self).storage@,
            },
    {
        let ghost ob = self.balances@;
        let ghost o = self.storage@;
        let mut b = copy_balances(&self.balances);
        transfer(&mut b, &p.payment)?;
        proof {
            assert(unique_balances(b@));
        }
        transfer(&mut b, &p.item)?;
        let ri = match find_storage(&self.storage, &p.record) {
            Some(i) => i,
            None => return Err(ProgramError::UninitializedAccount),
        };
        let bi = match find_storage(&self.storage, &p.buyer) {
            Some(i) => i,
            None => return Err(ProgramError::UninitializedAccount),
        };
        if ri == bi {
            return Err(ProgramError::InvalidArgument);
        }
        proof {
            lemma_storage_at(o, ri as int);
            lemma_storage_at(o, bi as int);
        }
        let deposit = self.storage[ri].lamports;
        if self.storage[bi].lamports > u64::MAX - deposit {
            return Err(ProgramError::ArithmeticOverflow);
        }
        let mut buyer = self.storage.remove(bi);
        buyer.lamports = buyer.lamports + deposit;
        self.storage.insert(bi, buyer);
        let ghost mid = self.storage@;
        assert(mid == o.update(bi as int, mid[bi as int]));
        self.storage.remove(ri);
        self.balances = b;
        proof {
            let n = self.storage@;
            assert(n == mid.remove(ri as int));
            assert forall|a: int| 0 <= a < n.len() implies #[trigger] n[a] == (if a < ri { mid[a] } else { mid[a + 1] }) by {}
            assert(unique_storage(n)) by {
                assert forall|a: int, c: int| 0 <= a < n.len() && 0 <= c < n.len() && a != c
                    implies n[a].key@ != n[c].key@ by {
                    let a2 = if a < ri { a } else { a + 1 };
                    let c2 = if c < ri { c } else { c + 1 };
                    assert(n[a] == mid[a2] && n[c] == mid[c2]);
                    assert(mid[a2].key == o[a2].key && mid[c2].key == o[c2].key);
                }
            }
            assert forall|k: Seq<u8>| #[trigger] has_storage(n, k) == (has_storage(o, k) && k != p.record@) by {
                if has_storage(o, k) && k != p.record@ {
                    let a = choose|a: int| 0 <= a < o.len() && o[a].key@ == k;
                    assert(a != ri);
                    let a2 = if a < ri { a } else { a - 1 };
                    assert(n[a2] == mid[a]);
                    assert(n[a2].key@ == k);
                }
                if has_storage(n, k) {
                    let a = choose|a: int| 0 <= a < n.len() && n[a].key@ == k;
                    let a2 = if a < ri { a } else { a + 1 };
                    assert(o[a2].key@ == k);
                    assert(a2 != ri);
                }
            }
            let bn = if bi < ri { bi as int } else { bi - 1 };
            assert(n[bn] == mid[bi as int]);
            lemma_storage_at(n, bn);
            assert forall|k: Seq<u8>| k != p.record@ && k != p.buyer@ && #[trigger] has_storage(o, k)
                implies storage_of(n, k) == storage_of(o, k) by {
                let a = choose|a: int| 0 <= a < o.len() && o[a].key@ == k;
                lemma_storage_at(o, a);
                let a2 = if a < ri { a } else { a - 1 };
                assert(a != ri && a != bi);
                assert(n[a2] == o[a]);
                lemma_storage_at(n, a2);
            }
        }
        Ok(())
    }
}

pub proof fn lemma_moved_amount(s: Seq<Balance>, t: TokenTransfer, k: Seq<u8>)
    requires
        unique_balances(s),
        has_balance(s, k),
        transfer_error(s, t) is None,
    ensures
        unique_balances(moved(s, t)),
        has_balance(moved(s, t), k),
        amount_of(moved(s, t), k) == amount_of(s, k) + transfer_delta(t, k),
{
    let n = moved(s, t);
    let a = choose|a: int| 0 <= a < s.len() && s[a].key@ == k;
    lemma_balance_at(s, a);
    let i = choose|i: int| 0 <= i < s.len() && s[i].key@ == t.source@;
    let j = choose|j: int| 0 <= j < s.len() && s[j].key@ == t.destination@;
    lemma_balance_at(s, i);
    lemma_balance_at(s, j);
    assert(unique_balances(n)) by {
        assert forall|i: int, j: int| 0 <= i < n.len() && 0 <= j < n.len() && i != j
            implies n[i].key@ != n[j].key@ by {
            assert(n[i].key == s[i].key && n[j].key == s[j].key);
        }
    }
    lemma_balance_at(n, a);
}

/// Once a record is allocated for an asset, a second well-formed listing of the same asset
/// is refused because the record's address is in use.
pub proof fn lemma_no_double_listing(o: Seq<Storage>, n: Seq<Storage>, first: SellPlan, second: SellPlan)
    requires
        sell_commit_error(o, first) is None,
        has_storage(n, first.record@),
        second.mint@ == first.mint@,
        derived(ITEM_METADATA_SEED@, second.mint@) == Some((second.record@, second.bump)),
    ensures
        sell_commit_error(n, second) == Some(ProgramError::Custom(ACCOUNT_ALREADY_IN_USE)),
{
}

/// A committed purchase planned from a request's accounts takes exactly the record's price from
/// the buyer's payment balance to the record's payment account, and exactly one unit from the
/// record's custodial account to the buyer's asset account.
pub proof fn lemma_purchase_moves(accounts: Seq<AccountView>, p: BuyPlan, b: Seq<Balance>, st: Seq<Storage>)
    requires
        buy_plan_of(accounts, p),
        unique_balances(b),
        buy_commit_error(b, st, p) is None,
        accounts[1].key@ != p.metadata.payment@,
        p.metadata.item@ != accounts[2].key@,
        accounts[1].key@ != p.metadata.item@,
        accounts[1].key@ != accounts[2].key@,
        p.metadata.payment@ != p.metadata.item@,
        p.metadata.payment@ != accounts[2].key@,
    ensures
        ({
            let n = moved(moved(b, p.payment), p.item);
            let price = p.metadata.lamports;
            &&& amount_of(n, accounts[1].key@) == amount_of(b, accounts[1].key@) - price
            &&& amount_of(n, p.metadata.payment@) == amount_of(b, p.metadata.payment@) + price
            &&& amount_of(n, accounts[2].key@) == amount_of(b, accounts[2].key@) + 1
            &&& amount_of(n, p.metadata.item@) == amount_of(b, p.metadata.item@) - 1
        }),
{
    let m = moved(b, p.payment);
    lemma_moved_amount(b, p.payment, p.payment.source@);
    lemma_moved_amount(m, p.item, p.item.source@);
    lemma_moved_amount(b, p.payment, p.payment.destination@);
    lemma_moved_amount(b, p.payment, p.item.source@);
    lemma_moved_amount(b, p.payment, p.item.destination@);
    lemma_moved_amount(m, p.item, p.payment.source@);
    lemma_moved_amount(m, p.item, p.payment.destination@);
    lemma_moved_amount(m, p.item, p.item.destination@);
}

/// A purchase whose buyer holds less than the price is refused for insufficient funds;
/// `apply_buy` then changes nothing.
pub proof fn lemma_insufficient_funds(b: Seq<Balance>, st: Seq<Storage>, p: BuyPlan)
    requires
        has_balance(b, p.payment.source@),
        has_balance(b, p.payment.destination@),
        amount_of(b, p.payment.source@) < p.payment.amount,
    ensures
        buy_commit_error(b, st, p) == Some(ProgramError::Custom(INSUFFICIENT_FUNDS)),
{
}

/// A listing is accepted only while the custodial account holds exactly one unit of the asset
/// for the derived custodial authority, and a committed listing leaves a record at the asset's
/// derived record address; a committed purchase of a custodial account that held one unit
/// leaves no record and an empty custody.
pub proof fn lemma_listing_lifecycle(
    accounts: Seq<AccountView>,
    args: Args,
    o: Seq<Storage>,
    sold: SellPlan,
    b: Seq<Balance>,
    st: Seq<Storage>,
    n: Seq<Storage>,
    bought: BuyPlan,
)
    requires
        sell_error(accounts, args) is None,
        sell_commit_error(o, sold) is None,
        unique_balances(b),
        buy_commit_error(b, st, bought) is None,
        bought.item.amount == 1,
        bought.item.source@ != bought.item.destination@,
        bought.payment.source@ != bought.item.source@,
        bought.payment.destination@ != bought.item.source@,
        amount_of(b, bought.item.source@) == 1,
        forall|k: Seq<u8>| #[trigger] has_storage(n, k) == (has_storage(st, k) && k != bought.record@),
    ensures
        custody_holds(accounts[1].data@, custody_authority(accounts[2].key@), accounts[2].key@),
        derived(ITEM_METADATA_SEED@, sold.mint@) == Some((sold.record@, sold.bump)),
        !has_storage(n, bought.record@),
        amount_of(moved(moved(b, bought.payment), bought.item), bought.item.source@) == 0,
{
    let m = moved(b, bought.payment);
    lemma_moved_amount(b, bought.payment, bought.item.source@);
    lemma_moved_amount(m, bought.item, bought.item.source@);
}

} // verus!
