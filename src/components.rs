use vstd::prelude::*;

use std::collections::HashMap;

use crate::expense::{yearly_total, yearly_total_at, Frequency, RecurringItem};
use crate::life_simulator::LifeSimulator;
use crate::parse::{parse_i64, parse_i64_spec, parse_u32, parse_u32_spec};
use crate::person::{Person, PersonView};

verus! {

broadcast use vstd::std_specs::hash::group_hash_axioms;

/// Tab shown by the desktop interface.
#[derive(Debug, Clone, Copy, PartialEq, Eq, Structural)]
pub enum AppTab {
    Setup,
    Expenses,
    Incomes,
    Simulation,
}

impl Default for AppTab {
    fn default() -> (r: AppTab)
        ensures
            r == AppTab::Setup,
    {
        AppTab::Setup
    }
}

/// Interface scale, in percent, that the interface starts with.
pub const DEFAULT_SCALE_PERCENT: u32 = 100;

/// Age to which the simulation tab projects the balance.
pub const SIMULATION_TARGET_AGE: u32 = 100;

/// State shared by the tabs: the simulator once a person is created, the
/// selected tab and the interface scale in percent.
pub struct SharedState {
    pub simulator: Option<LifeSimulator>,
    pub current_tab: AppTab,
    pub current_scale: u32,
}

impl SharedState {
    pub fn new() -> (s: SharedState)
        ensures
            s.simulator is None,
            s.current_tab == AppTab::Setup,
            s.current_scale == DEFAULT_SCALE_PERCENT,
    {
        SharedState { simulator: None, current_tab: AppTab::Setup, current_scale: DEFAULT_SCALE_PERCENT }
    }
}

/// End age typed in a form: empty, or not a number, means no end.
pub open spec fn form_end_age(text: Seq<char>) -> Option<u32> {
    if text.len() == 0 {
        None
    } else {
        parse_u32_spec(text)
    }
}

/// A form can be submitted when its amount and start age read as numbers.
pub open spec fn form_complete(amount: Seq<char>, start_age: Seq<char>) -> bool {
    parse_u32_spec(amount) is Some && parse_u32_spec(start_age) is Some
}

/// `item` is the one that a form with these fields describes.
pub open spec fn form_describes(
    item: RecurringItem,
    name: Seq<char>,
    amount: Seq<char>,
    frequency: Frequency,
    start_age: Seq<char>,
    end_age: Seq<char>,
) -> bool {
    &&& item.name@ == name
    &&& parse_u32_spec(amount) == Some(item.amount)
    &&& item.frequency == frequency
    &&& parse_u32_spec(start_age) == Some(item.start_age)
    &&& item.end_age == form_end_age(end_age)
}

/// Builds the item that a form describes, or `None` when it is incomplete.
fn item_from_form(
    name: &String,
    amount: &String,
    frequency: Frequency,
    start_age: &String,
    end_age: &String,
) -> (r: Option<RecurringItem>)
    ensures
        match r {
            Some(item) => form_describes(item, name@, amount@, frequency, start_age@, end_age@),
            None => !form_complete(amount@, start_age@),
        },
{
    match (parse_u32(amount.as_str()), parse_u32(start_age.as_str())) {
        (Some(amount_val), Some(start_age_val)) => {
            let end = if end_age.as_str().is_empty() {
                None
            } else {
                parse_u32(end_age.as_str())
            };
            Some(RecurringItem::new(name.clone(), amount_val, frequency, start_age_val, end))
        },
        _ => None,
    }
}

/// Person setup form: name, age and starting capital as typed.
pub struct SetupComponent {
    pub name: String,
    pub age: String,
    pub start_capital: String,
}

impl SetupComponent {
    pub fn new() -> (c: SetupComponent)
        ensures
            c.name@.len() == 0,
            c.age@.len() == 0,
            c.start_capital@.len() == 0,
    {
        SetupComponent { name: String::new(), age: String::new(), start_capital: String::new() }
    }

    /// Replaces the simulator with one for the person in the form, when the
    /// age and the capital read as numbers; otherwise changes nothing.
    pub fn create_person(&mut self, state: &mut SharedState)
        ensures
            *final(self) == *old(self),
            final(state).current_tab == old(state).current_tab,
            final(state).current_scale == old(state).current_scale,
            match (parse_u32_spec(old(self).age@), parse_i64_spec(old(self).start_capital@)) {
                (Some(age), Some(capital)) => final(state).simulator matches Some(s) && s@ == (
                PersonView {
                    name: old(self).name@,
                    age,
                    capital,
                    expenses: Seq::empty(),
                    incomes: Seq::empty(),
                    balance_history: map![age => capital],
                }),
                _ => *final(state) == *old(state),
            },
    {
        match (parse_u32(self.age.as_str()), parse_i64(self.start_capital.as_str())) {
            (Some(age_val), Some(capital_val)) => {
                let person = Person::new(self.name.clone(), age_val, capital_val);
                state.simulator = Some(LifeSimulator::new(person));
            },
            _ => {},
        }
    }
}

/// Expense form: the fields as typed and the selected frequency.
pub struct ExpensesComponent {
    pub expense_name: String,
    pub expense_amount: String,
    pub expense_frequency: Frequency,
    pub expense_start_age: String,
    pub expense_end_age: String,
}

impl ExpensesComponent {
    pub fn new() -> (c: ExpensesComponent)
        ensures
            c.expense_name@.len() == 0,
            c.expense_amount@.len() == 0,
            c.expense_frequency == Frequency::Yearly,
            c.expense_start_age@.len() == 0,
            c.expense_end_age@.len() == 0,
    {
        ExpensesComponent {
            expense_name: String::new(),
            expense_amount: String::new(),
            expense_frequency: Frequency::Yearly,
            expense_start_age: String::new(),
            expense_end_age: String::new(),
        }
    }

    /// Adds the expense that the form describes and clears its text fields,
    /// when there is a simulator and the form is complete; otherwise changes
    /// nothing.
    pub fn add_expense(&mut self, state: &mut SharedState)
        ensures
            final(state).current_tab == old(state).current_tab,
            final(state).current_scale == old(state).current_scale,
            final(self).expense_frequency == old(self).expense_frequency,
            ({
                let f = *old(self);
                if old(state).simulator is Some && form_complete(
                    f.expense_amount@,
                    f.expense_start_age@,
                ) {
                    &&& final(state).simulator matches Some(s) && {
                        let item = s@.expenses.last();
                        &&& s@ == old(state).simulator->0@.with_expense(item)
                        &&& form_describes(
                            item,
                            f.expense_name@,
                            f.expense_amount@,
                            f.expense_frequency,
                            f.expense_start_age@,
                            f.expense_end_age@,
                        )
                    }
                    &&& final(self).expense_name@.len() == 0
                    &&& final(self).expense_amount@.len() == 0
                    &&& final(self).expense_start_age@.len() == 0
                    &&& final(self).expense_end_age@.len() == 0
                } else {
                    &&& *final(state) == *old(state)
                    &&& *final(self) == *old(self)
                }
            }),
    {
        match &mut state.simulator {
            Some(simulator) => {
                match item_from_form(
                    &self.expense_name,
                    &self.expense_amount,
                    self.expense_frequency,
                    &self.expense_start_age,
                    &self.expense_end_age,
                ) {
                    Some(expense) => {
                        simulator.add_expense(expense);
                        self.expense_name = String::new();
                        self.expense_amount = String::new();
                        self.expense_start_age = String::new();
                        self.expense_end_age = String::new();
                    },
                    None => {},
                }
            },
            None => {},
        }
    }
}

/// Income form: the fields as typed and the selected frequency.
pub struct IncomesComponent {
    pub income_name: String,
    pub income_amount: String,
    pub income_frequency: Frequency,
    pub income_start_age: String,
    pub income_end_age: String,
}

impl IncomesComponent {
    pub fn new() -> (c: IncomesComponent)
        ensures
            c.income_name@.len() == 0,
            c.income_amount@.len() == 0,
            c.income_frequency == Frequency::Yearly,
            c.income_start_age@.len() == 0,
            c.income_end_age@.len() == 0,
    {
        IncomesComponent {
            income_name: String::new(),
            income_amount: String::new(),
            income_frequency: Frequency::Yearly,
            income_start_age: String::new(),
            income_end_age: String::new(),
        }
    }

    /// Adds the income that the form describes and clears its text fields,
    /// when there is a simulator and the form is complete; otherwise changes
    /// nothing.
    pub fn add_income(&mut self, state: &mut SharedState)
        ensures
            final(state).current_tab == old(state).current_tab,
            final(state).current_scale == old(state).current_scale,
            final(self).income_frequency == old(self).income_frequency,
            ({
                let f = *old(self);
                if old(state).simulator is Some && form_complete(
                    f.income_amount@,
                    f.income_start_age@,
                ) {
                    &&& final(state).simulator matches Some(s) && {
                        let item = s@.incomes.last();
                        &&& s@ == old(state).simulator->0@.with_income(item)
                        &&& form_describes(
                            item,
                            f.income_name@,
                            f.income_amount@,
                            f.income_frequency,
                            f.income_start_age@,
                            f.income_end_age@,
                        )
                    }
                    &&& final(self).income_name@.len() == 0
                    &&& final(self).income_amount@.len() == 0
                    &&& final(self).income_start_age@.len() == 0
                    &&& final(self).income_end_age@.len() == 0
                } else {
                    &&& *final(state) == *old(state)
                    &&& *final(self) == *old(self)
                }
            }),
    {
        match &mut state.simulator {
            Some(simulator) => {
                match item_from_form(
                    &self.income_name,
                    &self.income_amount,
                    self.income_frequency,
                    &self.income_start_age,
                    &self.income_end_age,
                ) {
                    Some(income) => {
                        simulator.add_income(income);
                        self.income_name = String::new();
                        self.income_amount = String::new();
                        self.income_start_age = String::new();
                        self.income_end_age = String::new();
                    },
                    None => {},
                }
            },
            None => {},
        }
    }
}

/// Simulation tab.
pub struct SimulationComponent;

impl SimulationComponent {
    pub fn new() -> (c: SimulationComponent) {
        SimulationComponent
    }

    /// Projects the balance to [`SIMULATION_TARGET_AGE`]. `None` when there is
    /// no simulator, or when a balance on the way does not fit in an `i64`;
    /// then nothing changes.
    pub fn calculate_balance(&mut self, state: &mut SharedState) -> (r: Option<i64>)
        ensures
            final(state).current_tab == old(state).current_tab,
            final(state).current_scale == old(state).current_scale,
            match old(state).simulator {
                Some(s) => if s@.projection_in_range(SIMULATION_TARGET_AGE) {
                    &&& r == Some(s@.balance_at(SIMULATION_TARGET_AGE))
                    &&& final(state).simulator matches Some(t) && t@ == s@.after_balance_at(
                        SIMULATION_TARGET_AGE,
                    )
                } else {
                    r is None && *final(state) == *old(state)
                },
                None => r is None && *final(state) == *old(state),
            },
    {
        match &mut state.simulator {
            Some(simulator) => {
                if simulator.projection_in_range(SIMULATION_TARGET_AGE) {
                    Some(simulator.calculate_balance_at_age(SIMULATION_TARGET_AGE))
                } else {
                    None
                }
            },
            None => None,
        }
    }
}

/// Analytics tab.
pub struct AnalyticsComponent;

/// One line of the analytics table.
#[derive(Debug, Clone, Copy, PartialEq, Eq)]
pub struct AnalyticsRow {
    pub age: u32,
    pub balance: i64,
    pub total_expenses: u128,
    pub total_incomes: u128,
    pub net_change: i128,
}

/// Balance that the analytics table compares the one at `age` with: the one
/// memoized a year earlier, 0 when there is none, and the capital at age 0.
pub open spec fn previous_balance(p: PersonView, age: u32) -> i64 {
    if age > 0 {
        if p.balance_history.contains_key((age - 1) as u32) {
            p.balance_history[(age - 1) as u32]
        } else {
            0
        }
    } else {
        p.capital
    }
}

impl AnalyticsComponent {
    pub fn new() -> (c: AnalyticsComponent) {
        AnalyticsComponent
    }

    /// Table line for a memoized `age`: its balance, the yearly totals of the
    /// items active at it, and the change from the previous balance; `None`
    /// when no balance is memoized at `age`.
    pub fn row(&self, simulator: &LifeSimulator, age: u32) -> (r: Option<AnalyticsRow>)
        ensures
            match r {
                Some(row) => {
                    let p = simulator@;
                    &&& p.balance_history.contains_key(age)
                    &&& row.age == age
                    &&& row.balance == p.balance_history[age]
                    &&& row.total_expenses == yearly_total(p.expenses, age as int)
                    &&& row.total_incomes == yearly_total(p.incomes, age as int)
                    &&& row.net_change == p.balance_history[age] - previous_balance(p, age)
                },
                None => !simulator@.balance_history.contains_key(age),
            },
    {
        let person = simulator.get_person();
        let history: &HashMap<u32, i64> = &person.balance_history;
        match history.get(&age) {
            Some(balance) => {
                let previous = if age > 0 {
                    match history.get(&(age - 1)) {
                        Some(b) => *b,
                        None => 0,
                    }
                } else {
                    person.capital
                };
                Some(
                    AnalyticsRow {
                        age,
                        balance: *balance,
                        total_expenses: yearly_total_at(&person.expenses, age),
                        total_incomes: yearly_total_at(&person.incomes, age),
                        net_change: *balance as i128 - previous as i128,
                    },
                )
            },
            None => None,
        }
    }
}

/// Settings popup: the interface scale in percent, and whether it is open.
pub struct SettingsComponent {
    pub current_scale: u32,
    pub is_open: bool,
}

impl SettingsComponent {
    pub fn new() -> (c: SettingsComponent)
        ensures
            c.current_scale == DEFAULT_SCALE_PERCENT,
            !c.is_open,
    {
        SettingsComponent { current_scale: DEFAULT_SCALE_PERCENT, is_open: false }
    }

    pub fn get_scale(&self) -> (r: u32)
        ensures
            r == self.current_scale,
    {
        self.current_scale
    }

    pub fn set_scale(&mut self, scale: u32)
        ensures
            final(self).current_scale == scale,
            final(self).is_open == old(self).is_open,
    {
        self.current_scale = scale;
    }
}

} // verus!
