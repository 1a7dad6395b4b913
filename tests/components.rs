use life_simulator::components::{DEFAULT_SCALE_PERCENT, SIMULATION_TARGET_AGE};
use life_simulator::{
    parse_i64, parse_u32, AnalyticsComponent, AppTab, ExpensesComponent, Frequency,
    IncomesComponent, LifeSimulator, Person, SettingsComponent, SetupComponent, SharedState,
    SimulationComponent,
};

const SAMPLES: [&str; 24] = [
    "", "0", "42", "+7", "+", "-", "-1", "-0", "--1", "+-1", "-+1", " 1", "1 ", "1a", "00012",
    "4294967295", "4294967296", "9223372036854775807", "9223372036854775808",
    "-9223372036854775808", "-9223372036854775809", "99999999999999999999999", "\u{0663}", "1_000",
];

#[test]
fn parse_u32_agrees_with_std() {
    for s in SAMPLES {
        assert_eq!(parse_u32(s), s.parse::<u32>().ok(), "input {:?}", s);
    }
    assert_eq!(parse_u32("4294967295"), Some(u32::MAX));
    assert_eq!(parse_u32("+7"), Some(7));
    assert_eq!(parse_u32("-1"), None);
}

#[test]
fn parse_i64_agrees_with_std() {
    for s in SAMPLES {
        assert_eq!(parse_i64(s), s.parse::<i64>().ok(), "input {:?}", s);
    }
    assert_eq!(parse_i64("-9223372036854775808"), Some(i64::MIN));
    assert_eq!(parse_i64("-250"), Some(-250));
    assert_eq!(parse_i64("9223372036854775808"), None);
}

fn state_with_person() -> SharedState {
    let mut state = SharedState::new();
    state.simulator = Some(LifeSimulator::new(Person::new("Ann".to_string(), 30, 1000)));
    state
}

#[test]
fn shared_state_and_tabs_start_at_setup() {
    let state = SharedState::new();
    assert!(state.simulator.is_none());
    assert_eq!(state.current_tab, AppTab::Setup);
    assert_eq!(AppTab::default(), AppTab::Setup);
    assert_eq!(state.current_scale, DEFAULT_SCALE_PERCENT);
}

#[test]
fn setup_creates_person_from_form() {
    let mut setup = SetupComponent::new();
    assert!(setup.name.is_empty() && setup.age.is_empty() && setup.start_capital.is_empty());
    let mut state = SharedState::new();
    setup.name = "Bea".to_string();
    setup.age = "31".to_string();
    setup.start_capital = "-500".to_string();
    setup.create_person(&mut state);
    let simulator = state.simulator.as_ref().expect("a person is created");
    let person = simulator.get_person();
    assert_eq!(person.name, "Bea");
    assert_eq!(person.age, 31);
    assert_eq!(person.capital, -500);
    assert_eq!(person.get_current_balance(), -500);
    assert_eq!(setup.name, "Bea");
}

#[test]
fn setup_ignores_invalid_form() {
    let mut setup = SetupComponent::new();
    let mut state = SharedState::new();
    setup.name = "Cal".to_string();
    setup.age = "thirty".to_string();
    setup.start_capital = "100".to_string();
    setup.create_person(&mut state);
    assert!(state.simulator.is_none());
    setup.age = "30".to_string();
    setup.start_capital = "1.5".to_string();
    setup.create_person(&mut state);
    assert!(state.simulator.is_none());
}

#[test]
fn expense_form_adds_item_and_clears_fields() {
    let mut form = ExpensesComponent::new();
    assert_eq!(form.expense_frequency, Frequency::Yearly);
    let mut state = state_with_person();
    form.expense_name = "Rent".to_string();
    form.expense_amount = "800".to_string();
    form.expense_frequency = Frequency::Monthly;
    form.expense_start_age = "30".to_string();
    form.expense_end_age = "40".to_string();
    form.add_expense(&mut state);
    let person = state.simulator.as_ref().unwrap().get_person();
    assert_eq!(person.expenses.len(), 1);
    assert_eq!(person.expenses[0].name, "Rent");
    assert_eq!(person.expenses[0].amount, 800);
    assert_eq!(person.expenses[0].frequency, Frequency::Monthly);
    assert_eq!(person.expenses[0].start_age, 30);
    assert_eq!(person.expenses[0].end_age, Some(40));
    assert!(form.expense_name.is_empty());
    assert!(form.expense_amount.is_empty());
    assert!(form.expense_start_age.is_empty());
    assert!(form.expense_end_age.is_empty());
    assert_eq!(form.expense_frequency, Frequency::Monthly);
}

#[test]
fn expense_form_end_age_that_is_not_a_number_means_no_end() {
    let mut form = ExpensesComponent::new();
    let mut state = state_with_person();
    form.expense_name = "Phone".to_string();
    form.expense_amount = "20".to_string();
    form.expense_start_age = "30".to_string();
    form.expense_end_age = "later".to_string();
    form.add_expense(&mut state);
    let person = state.simulator.as_ref().unwrap().get_person();
    assert_eq!(person.expenses[0].end_age, None);
}

#[test]
fn expense_form_needs_simulator_and_numbers() {
    let mut form = ExpensesComponent::new();
    form.expense_name = "Rent".to_string();
    form.expense_amount = "800".to_string();
    form.expense_start_age = "30".to_string();
    let mut empty = SharedState::new();
    form.add_expense(&mut empty);
    assert!(empty.simulator.is_none());
    assert_eq!(form.expense_amount, "800");

    let mut state = state_with_person();
    form.expense_amount = "-800".to_string();
    form.add_expense(&mut state);
    assert_eq!(state.simulator.as_ref().unwrap().get_person().expenses.len(), 0);
    assert_eq!(form.expense_name, "Rent");
}

#[test]
fn income_form_adds_item_and_clears_fields() {
    let mut form = IncomesComponent::new();
    assert_eq!(form.income_frequency, Frequency::Yearly);
    let mut state = state_with_person();
    form.income_name = "Salary".to_string();
    form.income_amount = "+3000".to_string();
    form.income_frequency = Frequency::Monthly;
    form.income_start_age = "30".to_string();
    form.add_income(&mut state);
    let simulator = state.simulator.as_mut().unwrap();
    assert_eq!(simulator.get_person().incomes.len(), 1);
    assert_eq!(simulator.get_person().incomes[0].amount, 3000);
    assert_eq!(simulator.get_person().incomes[0].end_age, None);
    assert!(form.income_name.is_empty() && form.income_amount.is_empty());
    assert_eq!(simulator.calculate_balance_at_age(31), 1000 + 36000);

    form.income_amount = "5".to_string();
    form.income_start_age = String::new();
    form.add_income(&mut state);
    assert_eq!(state.simulator.as_ref().unwrap().get_person().incomes.len(), 1);
}

#[test]
fn simulation_projects_to_target_age() {
    let mut simulation = SimulationComponent::new();
    let mut empty = SharedState::new();
    assert_eq!(simulation.calculate_balance(&mut empty), None);

    let mut state = state_with_person();
    let mut form = ExpensesComponent::new();
    form.expense_name = "Food".to_string();
    form.expense_amount = "10".to_string();
    form.expense_start_age = "30".to_string();
    form.add_expense(&mut state);
    assert_eq!(simulation.calculate_balance(&mut state), Some(1000 - 70 * 10));
    let history = state.simulator.as_ref().unwrap().get_balance_history();
    assert_eq!(history.len(), (SIMULATION_TARGET_AGE - 30 + 1) as usize);

    let mut overflowing = SharedState::new();
    let mut rich = LifeSimulator::new(Person::new("Rex".to_string(), 99, i64::MAX));
    rich.add_income(life_simulator::Income::new("Gift".to_string(), 1, Frequency::Yearly, 0, None));
    overflowing.simulator = Some(rich);
    assert_eq!(simulation.calculate_balance(&mut overflowing), None);
    assert_eq!(overflowing.simulator.as_ref().unwrap().get_balance_history().len(), 1);
}

#[test]
fn settings_scale() {
    let mut settings = SettingsComponent::new();
    assert_eq!(settings.get_scale(), 100);
    assert!(!settings.is_open);
    settings.set_scale(150);
    assert_eq!(settings.get_scale(), 150);
}

#[test]
fn analytics_rows_follow_history() {
    let analytics = AnalyticsComponent::new();
    let mut simulator = LifeSimulator::new(Person::new("Una".to_string(), 1, 500));
    simulator.add_expense(life_simulator::Expense::new(
        "Toys".to_string(),
        10,
        Frequency::Monthly,
        1,
        Some(3),
    ));
    simulator.add_income(life_simulator::Income::new(
        "Gift".to_string(),
        50,
        Frequency::Yearly,
        2,
        None,
    ));
    assert_eq!(analytics.row(&simulator, 2), None);
    assert_eq!(simulator.calculate_balance_at_age(4), 500 - 120 - 120 + 50 + 50);
    let row = analytics.row(&simulator, 2).unwrap();
    assert_eq!(row.age, 2);
    assert_eq!(row.balance, 380);
    assert_eq!(row.total_expenses, 120);
    assert_eq!(row.total_incomes, 50);
    assert_eq!(row.net_change, -120);
    let first = analytics.row(&simulator, 1).unwrap();
    assert_eq!(first.net_change, 500);
    let last = analytics.row(&simulator, 4).unwrap();
    assert_eq!((last.balance, last.total_expenses, last.total_incomes, last.net_change), (360, 0, 50, 50));

    let mut newborn = LifeSimulator::new(Person::new("Vic".to_string(), 0, 70));
    newborn.calculate_balance_at_age(0);
    assert_eq!(analytics.row(&newborn, 0).unwrap().net_change, 0);
}

#[test]
fn menu_choice_selects_frequency() {
    assert_eq!(Frequency::from_menu_choice(1), Frequency::Yearly);
    assert_eq!(Frequency::from_menu_choice(2), Frequency::Monthly);
    assert_eq!(Frequency::from_menu_choice(3), Frequency::Daily);
    assert_eq!(Frequency::from_menu_choice(0), Frequency::Yearly);
    assert_eq!(Frequency::from_menu_choice(7), Frequency::Yearly);
}
