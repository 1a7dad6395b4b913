use std::collections::HashMap;
use vstd::prelude::*;

use crate::expense::{yearly_total, Expense, Income, RecurringItem};

verus! {

broadcast use vstd::std_specs::hash::group_hash_axioms;

/// Mathematical model of a [`Person`].
pub struct PersonView {
    pub name: Seq<char>,
    pub age: u32,
    pub capital: i64,
    pub expenses: Seq<RecurringItem>,
    pub incomes: Seq<RecurringItem>,
    /// Memoized balances: age to balance.
    pub balance_history: Map<u32, i64>,
}

impl PersonView {
    /// Balance recorded at the reference age, or 0 when none is recorded.
    pub open spec fn current_balance(self) -> i64 {
        if self.balance_history.contains_key(self.age) {
            self.balance_history[self.age]
        } else {
            0
        }
    }

    /// Change of the balance over the year that starts at `age`.
    pub open spec fn net_change_at(self, age: int) -> int {
        yearly_total(self.incomes, age) - yearly_total(self.expenses, age)
    }

    /// Balance at `target` projected from the current balance at the reference
    /// age, one year at a time, ignoring what is memoized after it.
    pub open spec fn projected_balance(self, target: int) -> int
        decreases target - self.age,
    {
        if target <= self.age {
            self.current_balance() as int
        } else {
            self.projected_balance(target - 1) + self.net_change_at(target - 1)
        }
    }

    /// Balance at `a` on a walk forward from the reference age that takes the
    /// memoized balance at each age that has one, and otherwise adds the net
    /// change of the year before to the balance a year earlier.
    pub open spec fn walk_balance(self, a: int) -> int
        decreases a - self.age,
    {
        if a <= self.age {
            self.current_balance() as int
        } else if self.balance_history.contains_key(a as u32) {
            self.balance_history[a as u32] as int
        } else {
            self.walk_balance(a - 1) + self.net_change_at(a - 1)
        }
    }

    /// A query for `target` has to walk forward: it lies after the reference
    /// age and has no memoized balance.
    pub open spec fn walks_to(self, target: u32) -> bool {
        target > self.age && !self.balance_history.contains_key(target)
    }

    /// Every balance on the walk to `target` fits in an `i64`.
    pub open spec fn walk_in_range(self, target: u32) -> bool {
        forall|a: int|
            self.age < a <= target ==> i64::MIN <= #[trigger] self.walk_balance(a) <= i64::MAX
    }

    /// Every balance that a query for `target` computes fits in an `i64`.
    pub open spec fn projection_in_range(self, target: u32) -> bool {
        self.walks_to(target) ==> self.walk_in_range(target)
    }

    /// The balances on the walk for each age after the reference age, up to
    /// `upto`.
    pub open spec fn walk_entries(self, upto: int) -> Map<u32, i64> {
        Map::new(|k: u32| self.age < k <= upto, |k: u32| self.walk_balance(k as int) as i64)
    }

    /// State after a walk to `target`: every age after the reference age up to
    /// `target` that had no memoized balance gets the one the walk computes;
    /// the memoized balances stay.
    pub open spec fn after_walk(self, target: u32) -> PersonView {
        PersonView {
            balance_history: self.walk_entries(target as int).union_prefer_right(
                self.balance_history,
            ),
            ..self
        }
    }

    /// Balance returned by a query for `target`.
    pub open spec fn balance_at(self, target: u32) -> i64 {
        if target == self.age {
            self.current_balance()
        } else if self.balance_history.contains_key(target) {
            self.balance_history[target]
        } else if target > self.age {
            self.walk_balance(target as int) as i64
        } else {
            self.current_balance()
        }
    }

    /// State after a query for `target`: a query that has to walk memoizes
    /// every balance it computes; any other query changes nothing.
    pub open spec fn after_balance_at(self, target: u32) -> PersonView {
        if self.walks_to(target) {
            self.after_walk(target)
        } else {
            self
        }
    }

    /// Every age from the reference age up to `target` has a memoized balance.
    pub open spec fn gap_free_to(self, target: u32) -> bool {
        forall|j: u32| self.age <= j <= target ==> #[trigger] self.balance_history.contains_key(j)
    }

    pub open spec fn with_expense(self, expense: RecurringItem) -> PersonView {
        PersonView { expenses: self.expenses.push(expense), ..self }
    }

    pub open spec fn with_income(self, income: RecurringItem) -> PersonView {
        PersonView { incomes: self.incomes.push(income), ..self }
    }

    /// The memoized ages form a run without gaps from the reference age up to
    /// each memoized age above it.
    pub open spec fn history_contiguous(self) -> bool {
        &&& self.balance_history.contains_key(self.age)
        &&& forall|k: u32, j: u32|
            #![trigger self.balance_history.contains_key(k), self.balance_history.contains_key(j)]
            self.balance_history.contains_key(k) && self.age <= j <= k
                ==> self.balance_history.contains_key(j)
    }

    /// Every memoized balance after the reference age is the one projected
    /// from the current balance.
    pub open spec fn history_consistent(self) -> bool {
        forall|k: u32|
            #![trigger self.balance_history.contains_key(k)]
            self.balance_history.contains_key(k) && self.age < k ==> self.balance_history[k]
                == self.projected_balance(k as int)
    }
}

/// A person whose balance is projected: the reference age and the capital held
/// at it, the recurring expenses and incomes, and the memoized balances.
#[derive(Debug, Clone)]
pub struct Person {
    pub name: String,
    pub age: u32,
    pub capital: i64,
    pub expenses: Vec<Expense>,
    pub incomes: Vec<Income>,
    pub balance_history: HashMap<u32, i64>,
}

impl View for Person {
    type V = PersonView;

    open spec fn view(&self) -> PersonView {
        PersonView {
            name: self.name@,
            age: self.age,
            capital: self.capital,
            expenses: self.expenses@,
            incomes: self.incomes@,
            balance_history: self.balance_history@,
        }
    }
}

impl Person {
    /// A person with no items, whose balance at `age` is `capital`.
    pub fn new(name: String, age: u32, capital: i64) -> (p: Person)
        ensures
            p@ == (PersonView {
                name: name@,
                age,
                capital,
                expenses: Seq::empty(),
                incomes: Seq::empty(),
                balance_history: map![age => capital],
            }),
            p@.history_contiguous(),
            p@.history_consistent(),
    {
        let mut balance_history: HashMap<u32, i64> = HashMap::new();
        balance_history.insert(age, capital);
        let p = Person {
            name,
            age,
            capital,
            expenses: Vec::new(),
            incomes: Vec::new(),
            balance_history,
        };
        assert(p@.balance_history =~= map![age => capital]);
        p
    }

    pub fn add_expense(&mut self, expense: Expense)
        ensures
            final(self)@ == old(self)@.with_expense(expense),
    {
        self.expenses.push(expense);
    }

    pub fn add_income(&mut self, income: Income)
        ensures
            final(self)@ == old(self)@.with_income(income),
    {
        self.incomes.push(income);
    }

    /// Balance recorded at the reference age, or 0 when none is recorded.
    pub fn get_current_balance(&self) -> (r: i64)
        ensures
            r == self@.current_balance(),
    {
        match self.balance_history.get(&self.age) {
            Some(b) => *b,
            None => 0,
        }
    }
}

} // verus!
