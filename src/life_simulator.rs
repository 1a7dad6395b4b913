use std::collections::HashMap;
use vstd::prelude::*;

use crate::expense::{yearly_total_at, Expense, Income};
use crate::person::{Person, PersonView};

verus! {

broadcast use vstd::std_specs::hash::group_hash_axioms;

/// Projects the balance of the person it owns, memoizing every balance it
/// computes in the person's history.
pub struct LifeSimulator {
    person: Person,
}

impl View for LifeSimulator {
    type V = PersonView;

    closed spec fn view(&self) -> PersonView {
        self.person@
    }
}

impl LifeSimulator {
    pub fn new(person: Person) -> (s: LifeSimulator)
        ensures
            s@ == person@,
    {
        LifeSimulator { person }
    }

    /// Appends an expense. Balances already memoized are not recomputed: a
    /// memoization cache that the new item makes stale is kept as it is.
    pub fn add_expense(&mut self, expense: Expense)
        ensures
            final(self)@ == old(self)@.with_expense(expense),
    {
        self.person.add_expense(expense);
    }

    /// Appends an income. Balances already memoized are not recomputed: a
    /// memoization cache that the new item makes stale is kept as it is.
    pub fn add_income(&mut self, income: Income)
        ensures
            final(self)@ == old(self)@.with_income(income),
    {
        self.person.add_income(income);
    }

    /// Balance at `target_age`: the current balance at the reference age, a
    /// memoized balance, a forward walk from the reference age that memoizes
    /// every age it passes, or, before the reference age with nothing
    /// memoized, the current balance as an approximation. A balance once
    /// memoized is never altered.
    pub fn calculate_balance_at_age(&mut self, target_age: u32) -> (balance: i64)
        requires
            old(self)@.projection_in_range(target_age),
        ensures
            balance == old(self)@.balance_at(target_age),
            final(self)@ == old(self)@.after_balance_at(target_age),
            forall|k: u32| #[trigger]
                old(self)@.balance_history.contains_key(k) ==> {
                    let h = final(self)@.balance_history;
                    h.contains_key(k) && h[k] == old(self)@.balance_history[k]
                },
            old(self)@.walks_to(target_age) && old(self)@.balance_history.contains_key(
                old(self)@.age,
            ) ==> final(self)@.gap_free_to(target_age),
    {
        if target_age == self.person.age {
            return self.person.get_current_balance();
        }
        if let Some(cached_balance) = self.person.balance_history.get(&target_age) {
            return *cached_balance;
        }
        let balance = self.calculate_balance_progression(target_age);
        proof {
            let before = old(self)@;
            let after = self@;
            if before.walks_to(target_age) && before.balance_history.contains_key(before.age) {
                assert forall|j: u32| before.age <= j <= target_age implies
                    #[trigger] after.balance_history.contains_key(j) by {
                    if j > before.age {
                        assert(before.walk_entries(target_age as int).contains_key(j));
                    }
                }
            }
        }
        balance
    }

    /// Whether every balance that `calculate_balance_at_age(target_age)` would
    /// compute fits in an `i64`.
    pub fn projection_in_range(&self, target_age: u32) -> (r: bool)
        ensures
            r == self@.projection_in_range(target_age),
    {
        if target_age <= self.person.age || self.person.balance_history.contains_key(&target_age) {
            return true;
        }
        let mut current_age = self.person.age;
        let mut current_balance = self.person.get_current_balance();
        while current_age < target_age
            invariant
                self@.walks_to(target_age),
                self@.age <= current_age <= target_age,
                current_balance == self@.walk_balance(current_age as int),
                forall|a: int|
                    self@.age < a <= current_age ==> i64::MIN <= #[trigger] self@.walk_balance(a)
                        <= i64::MAX,
            decreases target_age - current_age,
        {
            let next_age = current_age + 1;
            match self.person.balance_history.get(&next_age) {
                Some(b) => {
                    assert(self@.walk_balance(next_age as int) == *b);
                    current_balance = *b;
                },
                None => {
                    let next = self.calculate_balance_for_year(current_age, current_balance);
                    assert(next == self@.walk_balance(next_age as int));
                    if next < i64::MIN as i128 || next > i64::MAX as i128 {
                        return false;
                    }
                    current_balance = next as i64;
                },
            }
            current_age = next_age;
        }
        true
    }

    /// For a target after the reference age, walks forward from the reference
    /// age, taking the memoized balance at each age that has one and computing
    /// and memoizing the others. For any other target there is no walk back:
    /// the memoized balance there, or else the current balance, with nothing
    /// changed.
    fn calculate_balance_progression(&mut self, target_age: u32) -> (balance: i64)
        requires
            target_age > old(self)@.age ==> old(self)@.walk_in_range(target_age),
        ensures
            target_age > old(self)@.age ==> {
                &&& balance == old(self)@.walk_balance(target_age as int)
                &&& final(self)@ == old(self)@.after_walk(target_age)
            },
            target_age <= old(self)@.age ==> {
                &&& balance == if old(self)@.balance_history.contains_key(target_age) {
                    old(self)@.balance_history[target_age]
                } else {
                    old(self)@.current_balance()
                }
                &&& final(self)@ == old(self)@
            },
    {
        let ghost before = self@;
        if target_age <= self.person.age {
            return match self.person.balance_history.get(&target_age) {
                Some(b) => *b,
                None => self.person.get_current_balance(),
            };
        }
        let mut current_age = self.person.age;
        let mut current_balance = self.person.get_current_balance();
        assert(self@.balance_history =~= before.walk_entries(current_age as int).union_prefer_right(
            before.balance_history,
        ));
        while current_age < target_age
            invariant
                before == old(self)@,
                target_age > before.age,
                before.walk_in_range(target_age),
                before.age <= current_age <= target_age,
                self@.name == before.name,
                self@.age == before.age,
                self@.capital == before.capital,
                self@.expenses == before.expenses,
                self@.incomes == before.incomes,
                current_balance == before.walk_balance(current_age as int),
                self@.balance_history == before.walk_entries(current_age as int).union_prefer_right(
                    before.balance_history,
                ),
            decreases target_age - current_age,
        {
            let next_age = current_age + 1;
            match self.person.balance_history.get(&next_age) {
                Some(b) => {
                    assert(before.balance_history.contains_key(next_age));
                    current_balance = *b;
                },
                None => {
                    let next = self.calculate_balance_for_year(current_age, current_balance);
                    assert(next == before.walk_balance(next_age as int));
                    assert(i64::MIN <= before.walk_balance(next_age as int) <= i64::MAX);
                    current_balance = next as i64;
                    self.person.balance_history.insert(next_age, current_balance);
                },
            }
            current_age = next_age;
            assert(self@.balance_history =~= before.walk_entries(
                current_age as int,
            ).union_prefer_right(before.balance_history));
        }
        assert(self@ =~= before.after_walk(target_age));
        current_balance
    }

    /// Balance one year after `current_age`: the yearly incomes active at
    /// `current_age` added and the yearly expenses active at it taken off.
    pub fn calculate_balance_for_year(&self, current_age: u32, current_balance: i64) -> (r: i128)
        ensures
            r == current_balance + self@.net_change_at(current_age as int),
    {
        let yearly_expenses = yearly_total_at(&self.person.expenses, current_age);
        let yearly_incomes = yearly_total_at(&self.person.incomes, current_age);
        current_balance as i128 - yearly_expenses as i128 + yearly_incomes as i128
    }

    pub fn get_person(&self) -> (r: &Person)
        ensures
            r@ == self@,
    {
        &self.person
    }

    pub fn get_person_mut(&mut self) -> (r: &mut Person)
        ensures
            r@ == old(self)@,
            final(self)@ == final(r)@,
    {
        &mut self.person
    }

    pub fn get_balance_history(&self) -> (r: &HashMap<u32, i64>)
        ensures
            r@ == self@.balance_history,
    {
        &self.person.balance_history
    }

    pub fn get_current_age(&self) -> (r: u32)
        ensures
            r == self@.age,
    {
        self.person.age
    }

    /// Moves the reference age. The memoized balances are kept.
    pub fn set_current_age(&mut self, age: u32)
        ensures
            final(self)@ == (PersonView { age, ..old(self)@ }),
    {
        self.person.age = age;
    }
}

} // verus!
