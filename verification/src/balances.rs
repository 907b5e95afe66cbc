use crate::identity::{Id, Identity};
use crate::table::{
    distinct_keys, keyed_at, lemma_row_changed, lemma_row_found, lemma_row_missing,
    lemma_row_pushed, lemma_row_removed, lemma_rows_none, rows_map, Row,
};
use crate::totals::value_or_zero;
use vstd::prelude::*;

verus! {

/// A holder with an amount: a row of the balance table, an initial balance
/// at creation, or a line of a snapshot.
#[derive(Debug, PartialEq, Eq)]
pub struct Account {
    pub holder: Identity,
    pub amount: u128,
}

impl Clone for Account {
    fn clone(&self) -> (copy: Self)
        ensures
            copy == *self,
    {
        Account { holder: self.holder.clone(), amount: self.amount }
    }
}

impl Row for Account {
    type Key = Id;

    type Value = nat;

    open spec fn key(&self) -> Id {
        self.holder@
    }

    open spec fn value(&self) -> nat {
        self.amount as nat
    }
}

/// The holders and amounts of a list of accounts, in order.
pub open spec fn rows_pairs(rows: Seq<Account>) -> Seq<(Id, nat)> {
    Seq::new(rows.len(), |i: int| (rows[i].key(), rows[i].value()))
}

/// The balance table: one row for each holder that owns something.
#[derive(Debug)]
pub struct BalanceTable {
    rows: Vec<Account>,
}

impl View for BalanceTable {
    type V = Map<Id, nat>;

    closed spec fn view(&self) -> Map<Id, nat> {
        rows_map(self.rows@)
    }
}

impl BalanceTable {
    /// No holder has two rows.
    pub closed spec fn wf(&self) -> bool {
        distinct_keys(self.rows@)
    }

    /// The table without any holder.
    pub fn new() -> (table: BalanceTable)
        ensures
            table.wf(),
            table@ == Map::<Id, nat>::empty(),
    {
        let table = BalanceTable { rows: Vec::new() };
        proof {
            lemma_rows_none(table.rows@);
        }
        table
    }

    fn find(&self, who: &Identity) -> (at: Option<usize>)
        ensures
            match at {
                Some(i) => keyed_at(self.rows@, who@, i as int),
                None => forall|i: int| !keyed_at(self.rows@, who@, i),
            },
    {
        let mut i: usize = 0;
        while i < self.rows.len()
            invariant
                i <= self.rows.len(),
                forall|j: int| 0 <= j < i ==> !keyed_at(self.rows@, who@, j),
            decreases self.rows.len() - i,
        {
            if self.rows[i].holder.same(who) {
                return Some(i);
            }
            i += 1;
        }
        None
    }

    /// What `who` owns; zero without a row.
    pub fn get(&self, who: &Identity) -> (amount: u128)
        requires
            self.wf(),
        ensures
            amount == value_or_zero(self@, who@),
    {
        match self.find(who) {
            Some(i) => {
                proof {
                    lemma_row_found(self.rows@, who@, i as int);
                }
                self.rows[i].amount
            },
            None => {
                proof {
                    lemma_row_missing(self.rows@, who@);
                }
                0
            },
        }
    }

    /// Makes `who` own exactly `amount`. A zero amount removes the row.
    pub fn set(&mut self, who: &Identity, amount: u128)
        requires
            old(self).wf(),
        ensures
            final(self).wf(),
            final(self)@ == if amount == 0 {
                old(self)@.remove(who@)
            } else {
                old(self)@.insert(who@, amount as nat)
            },
    {
        match self.find(who) {
            Some(i) => {
                if amount == 0 {
                    proof {
                        lemma_row_removed(self.rows@, i as int);
                    }
                    self.rows.swap_remove(i);
                } else {
                    let row = Account { holder: who.clone(), amount };
                    proof {
                        lemma_row_changed(self.rows@, i as int, row);
                    }
                    self.rows[i] = row;
                }
            },
            None => {
                proof {
                    lemma_row_missing(self.rows@, who@);
                }
                if amount != 0 {
                    let row = Account { holder: who.clone(), amount };
                    proof {
                        lemma_row_pushed(self.rows@, row);
                    }
                    self.rows.push(row);
                }
            },
        }
    }

    /// Every holder with what it owns, each holder once.
    pub fn accounts(&self) -> (list: Vec<Account>)
        requires
            self.wf(),
        ensures
            distinct_keys(list@),
            rows_map(list@) == self@,
    {
        let mut list: Vec<Account> = Vec::new();
        let mut i: usize = 0;
        while i < self.rows.len()
            invariant
                i <= self.rows.len(),
                list@ == self.rows@.take(i as int),
            decreases self.rows.len() - i,
        {
            list.push(self.rows[i].clone());
            assert(list@ =~= self.rows@.take(i + 1));
            i += 1;
        }
        assert(list@ =~= self.rows@);
        list
    }
}

} // verus!
