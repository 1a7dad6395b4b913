//! Projects a person's balance forward across ages from a starting capital and
//! recurring expenses and incomes, memoizing every projected balance.

pub mod components;
pub mod expense;
pub mod lemmas;
pub mod life_simulator;
pub mod parse;
pub mod person;

pub use components::{
    AnalyticsComponent, AnalyticsRow, AppTab, ExpensesComponent, IncomesComponent, SettingsComponent,
    SetupComponent, SharedState, SimulationComponent,
};
pub use expense::{yearly_total_at, Expense, ExpenseFrequency, Frequency, Income, RecurringItem};
pub use life_simulator::LifeSimulator;
pub use parse::{parse_i64, parse_u32};
pub use person::{Person, PersonView};
