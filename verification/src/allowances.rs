use crate::expiration::Expiration;
use crate::identity::{Id, Identity};
use crate::model::Allowance;
use crate::table::{
    distinct_keys, keyed_at, lemma_row_changed, lemma_row_found, lemma_row_missing,
    lemma_row_pushed, lemma_row_removed, lemma_rows_none, rows_map, Row,
};
use vstd::prelude::*;

verus! {

/// What an owner lets a spender move: a row of the allowance table, or a
/// line of a snapshot.
#[derive(Debug, PartialEq, Eq)]
pub struct Grant {
    pub owner: Identity,
    pub spender: Identity,
    pub amount: u128,
    pub expires: Expiration,
}

impl Clone for Grant {
    fn clone(&self) -> (copy: Self)
        ensures
            copy == *self,
    {
        Grant {
            owner: self.owner.clone(),
            spender: self.spender.clone(),
            amount: self.amount,
            expires: self.expires,
        }
    }
}

impl Row for Grant {
    type Key = (Id, Id);

    type Value = Allowance;

    /// The owner and the spender, in this order.
    open spec fn key(&self) -> (Id, Id) {
        (self.owner@, self.spender@)
    }

    open spec fn value(&self) -> Allowance {
        Allowance { amount: self.amount as nat, expires: self.expires }
    }
}

/// The allowance table: one row for each pair of owner and spender that
/// has a record.
#[derive(Debug)]
pub struct AllowanceTable {
    rows: Vec<Grant>,
}

impl View for AllowanceTable {
    type V = Map<(Id, Id), Allowance>;

    closed spec fn view(&self) -> Map<(Id, Id), Allowance> {
        rows_map(self.rows@)
    }
}

impl AllowanceTable {
    /// No pair has two rows.
    pub closed spec fn wf(&self) -> bool {
        distinct_keys(self.rows@)
    }

    /// The table without any record.
    pub fn new() -> (table: AllowanceTable)
        ensures
            table.wf(),
            table@ == Map::<(Id, Id), Allowance>::empty(),
    {
        let table = AllowanceTable { rows: Vec::new() };
        proof {
            lemma_rows_none(table.rows@);
        }
        table
    }

    fn find(&self, owner: &Identity, spender: &Identity) -> (at: Option<usize>)
        ensures
            match at {
                Some(i) => keyed_at(self.rows@, (owner@, spender@), i as int),
                None => forall|i: int| !keyed_at(self.rows@, (owner@, spender@), i),
            },
    {
        let mut i: usize = 0;
        while i < self.rows.len()
            invariant
                i <= self.rows.len(),
                forall|j: int| 0 <= j < i ==> !keyed_at(self.rows@, (owner@, spender@), j),
            decreases self.rows.len() - i,
        {
            if self.rows[i].owner.same(owner) && self.rows[i].spender.same(spender) {
                return Some(i);
            }
            i += 1;
        }
        None
    }

    /// The record of the pair, if it has one: its amount and expiration.
    pub fn get(&self, owner: &Identity, spender: &Identity) -> (found: Option<(u128, Expiration)>)
        requires
            self.wf(),
        ensures
            found is Some <==> self@.dom().contains((owner@, spender@)),
            found matches Some(record) ==> self@[(owner@, spender@)] == (Allowance {
                amount: record.0 as nat,
                expires: record.1,
            }),
    {
        match self.find(owner, spender) {
            Some(i) => {
                proof {
                    lemma_row_found(self.rows@, (owner@, spender@), i as int);
                }
                Some((self.rows[i].amount, self.rows[i].expires))
            },
            None => {
                proof {
                    lemma_row_missing(self.rows@, (owner@, spender@));
                }
                None
            },
        }
    }

    /// Writes the record of the pair, creating it if there is none.
    pub fn put(&mut self, owner: &Identity, spender: &Identity, amount: u128, expires: Expiration)
        requires
            old(self).wf(),
        ensures
            final(self).wf(),
            final(self)@ == old(self)@.insert(
                (owner@, spender@),
                Allowance { amount: amount as nat, expires },
            ),
    {
        let row = Grant { owner: owner.clone(), spender: spender.clone(), amount, expires };
        match self.find(owner, spender) {
            Some(i) => {
                proof {
                    lemma_row_changed(self.rows@, i as int, row);
                }
                self.rows[i] = row;
            },
            None => {
                proof {
                    lemma_row_missing(self.rows@, (owner@, spender@));
                    lemma_row_pushed(self.rows@, row);
                }
                self.rows.push(row);
            },
        }
    }

    /// Removes the record of the pair, if it has one.
    pub fn remove(&mut self, owner: &Identity, spender: &Identity)
        requires
            old(self).wf(),
        ensures
            final(self).wf(),
            final(self)@ == old(self)@.remove((owner@, spender@)),
    {
        match self.find(owner, spender) {
            Some(i) => {
                proof {
                    lemma_row_removed(self.rows@, i as int);
                }
                self.rows.swap_remove(i);
            },
            None => {
                proof {
                    lemma_row_missing(self.rows@, (owner@, spender@));
                }
            },
        }
    }

    /// Every record with its pair, each pair once.
    pub fn grants(&self) -> (list: Vec<Grant>)
        requires
            self.wf(),
        ensures
            distinct_keys(list@),
            rows_map(list@) == self@,
    {
        let mut list: Vec<Grant> = Vec::new();
        let mut i: usize = 0;
        while i < self.rows.len()
            invariant
                i <= self.rows.len(),
                list@ == self.rows@.take(i as int),
            decreases self.rows.len() - i,
        {
            list.push(self.rows[i].clone());
            assert(list@ =~= self.rows@.take(i + 1));
            i += 1;
        }
        assert(list@ =~= self.rows@);
        list
    }
}

} // verus!
