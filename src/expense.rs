use vstd::prelude::*;

verus! {

/// How often a recurring item is billed.
#[derive(Debug, Clone, Copy, PartialEq, Eq, Structural)]
pub enum Frequency {
    Yearly,
    Monthly,
    Daily,
}

/// [`Frequency`] under the name used where expenses are entered.
pub type ExpenseFrequency = Frequency;

impl Frequency {
    /// Number of billing periods in one year: a fixed 1, 12 or 365.
    pub open spec fn periods_per_year(self) -> int {
        match self {
            Frequency::Yearly => 1,
            Frequency::Monthly => 12,
            Frequency::Daily => 365,
        }
    }

    /// Factor that turns an amount per period into an amount per year.
    pub fn multiplier(&self) -> (r: u32)
        ensures
            r == self.periods_per_year(),
    {
        match self {
            Frequency::Yearly => 1,
            Frequency::Monthly => 12,
            Frequency::Daily => 365,
        }
    }

    /// Frequency picked from the text menu: 2 is monthly, 3 is daily, anything
    /// else yearly.
    pub fn from_menu_choice(choice: u32) -> (r: Frequency)
        ensures
            r == if choice == 2 {
                Frequency::Monthly
            } else if choice == 3 {
                Frequency::Daily
            } else {
                Frequency::Yearly
            },
    {
        match choice {
            2 => Frequency::Monthly,
            3 => Frequency::Daily,
            _ => Frequency::Yearly,
        }
    }
}

impl Default for Frequency {
    fn default() -> (r: Frequency)
        ensures
            r == Frequency::Yearly,
    {
        Frequency::Yearly
    }
}

/// A named cash flow (an expense or an income) billed at a frequency while the
/// owner's age lies in `[start_age, end_age)`; without `end_age` it never ends.
#[derive(Debug, Clone)]
pub struct RecurringItem {
    pub name: String,
    /// Amount per billing period, in whole currency units.
    pub amount: u32,
    pub frequency: Frequency,
    pub start_age: u32,
    pub end_age: Option<u32>,
}

/// An item that reduces the balance.
pub type Expense = RecurringItem;

/// An item that increases the balance.
pub type Income = RecurringItem;

/// Largest amount one item can contribute in a year.
pub const MAX_YEARLY_AMOUNT: u64 = 1_567_663_062_675;

impl RecurringItem {
    /// The item is active at `age`: `start_age <= age` and, when an end is
    /// given, `age < end_age`.
    pub open spec fn active_at(self, age: int) -> bool {
        &&& self.start_age <= age
        &&& match self.end_age {
            Some(end) => age < end,
            None => true,
        }
    }

    /// The amount this item costs or yields over one year.
    pub open spec fn yearly_amount(self) -> int {
        self.amount * self.frequency.periods_per_year()
    }

    /// What the item adds to the yearly total at `age`.
    pub open spec fn contribution_at(self, age: int) -> int {
        if self.active_at(age) {
            self.yearly_amount()
        } else {
            0
        }
    }

    pub fn new(
        name: String,
        amount: u32,
        frequency: Frequency,
        start_age: u32,
        end_age: Option<u32>,
    ) -> (r: RecurringItem)
        ensures
            r.name@ == name@,
            r.amount == amount,
            r.frequency == frequency,
            r.start_age == start_age,
            r.end_age == end_age,
    {
        RecurringItem { name, amount, frequency, start_age, end_age }
    }

    pub fn is_active_at(&self, age: u32) -> (r: bool)
        ensures
            r == self.active_at(age as int),
    {
        self.start_age <= age && match self.end_age {
            Some(end) => age < end,
            None => true,
        }
    }

    /// The amount per period times the periods in a year.
    pub fn annual_amount(&self) -> (r: u64)
        ensures
            r == self.yearly_amount(),
            r <= MAX_YEARLY_AMOUNT,
    {
        let m = self.frequency.multiplier();
        assert(self.amount * m <= MAX_YEARLY_AMOUNT) by (nonlinear_arith)
            requires
                self.amount <= u32::MAX,
                m <= 365,
        ;
        self.amount as u64 * m as u64
    }
}

/// Sum of the contributions at `age` of all the items, the last one added last.
pub open spec fn yearly_total(items: Seq<RecurringItem>, age: int) -> int
    decreases items.len(),
{
    if items.len() == 0 {
        0
    } else {
        yearly_total(items.drop_last(), age) + items.last().contribution_at(age)
    }
}

/// Sum at `age` of the yearly amounts of the active items.
pub fn yearly_total_at(items: &Vec<RecurringItem>, age: u32) -> (r: u128)
    ensures
        r == yearly_total(items@, age as int),
        r <= usize::MAX * MAX_YEARLY_AMOUNT,
{
    let mut total: u128 = 0;
    let mut i: usize = 0;
    while i < items.len()
        invariant
            i <= items@.len(),
            total == yearly_total(items@.take(i as int), age as int),
            total <= i * MAX_YEARLY_AMOUNT,
        decreases items@.len() - i,
    {
        let item = &items[i];
        assert(items@.take(i as int) =~= items@.take(i + 1).drop_last());
        if item.is_active_at(age) {
            total = total + item.annual_amount() as u128;
        }
        i = i + 1;
    }
    assert(items@.take(i as int) =~= items@);
    total
}

} // verus!
