use vstd::prelude::*;

use crate::expense::{yearly_total, Frequency, RecurringItem};
use crate::person::PersonView;

verus! {

/// With no expenses and no incomes, and every memoized balance equal to the
/// capital, the walk meets the capital at every age.
proof fn lemma_walk_flat(p: PersonView, a: int)
    requires
        p.expenses.len() == 0,
        p.incomes.len() == 0,
        p.balance_history.contains_key(p.age),
        forall|k: u32| #[trigger] p.balance_history.contains_key(k) ==> p.balance_history[k] == p.capital,
    ensures
        p.walk_balance(a) == p.capital,
    decreases a - p.age,
{
    if a > p.age && !p.balance_history.contains_key(a as u32) {
        lemma_walk_flat(p, a - 1);
    }
}

/// With no expenses and no incomes, and every memoized balance equal to the
/// capital (as for a person just constructed), a query for any age from the
/// reference age on returns the capital. Afterwards every age from the
/// reference age to the target holds the capital, unless the target was
/// already memoized above a gap, which a memoized target is returned without
/// filling.
pub proof fn lemma_no_items_keep_capital(p: PersonView, target: u32)
    requires
        p.expenses.len() == 0,
        p.incomes.len() == 0,
        p.balance_history.contains_key(p.age),
        forall|k: u32| #[trigger] p.balance_history.contains_key(k) ==> p.balance_history[k] == p.capital,
        p.age <= target,
    ensures
        p.projection_in_range(target),
        p.balance_at(target) == p.capital,
        !p.balance_history.contains_key(target) || p.gap_free_to(target) ==> forall|a: u32|
            p.age <= a <= target ==> #[trigger] p.after_balance_at(target).balance_history.contains_key(a)
                && p.after_balance_at(target).balance_history[a] == p.capital,
{
    assert forall|a: int| #![trigger p.walk_balance(a)] true implies p.walk_balance(a)
        == p.capital by {
        lemma_walk_flat(p, a);
    }
    let q = p.after_balance_at(target);
    if p.walks_to(target) {
        assert forall|a: u32| p.age <= a <= target implies #[trigger] q.balance_history.contains_key(
            a,
        ) && q.balance_history[a] == p.capital by {
            if !p.balance_history.contains_key(a) {
                assert(p.walk_entries(target as int).contains_key(a));
                assert(p.walk_balance(a as int) == p.capital);
            }
        }
    }
}

/// Asking twice for the same age gives the same balance, and the second query
/// changes nothing.
pub proof fn lemma_repeated_query(p: PersonView, target: u32)
    ensures
        p.after_balance_at(target).projection_in_range(target),
        p.after_balance_at(target).balance_at(target) == p.balance_at(target),
        p.after_balance_at(target).after_balance_at(target) == p.after_balance_at(target),
{
    let q = p.after_balance_at(target);
    if p.walks_to(target) {
        assert(p.walk_entries(target as int).contains_key(target));
        assert(q.balance_history.contains_key(target));
    }
}

/// A query after the reference age, whose balance there is memoized,
/// memoizes every age from the reference age to the target, unless the
/// target was already memoized above a gap, which a memoized target is
/// returned without filling. A query keeps the memoized ages free of gaps.
pub proof fn lemma_query_fills_history(p: PersonView, target: u32)
    requires
        p.balance_history.contains_key(p.age),
        p.age < target,
    ensures
        !p.balance_history.contains_key(target) || p.gap_free_to(target) ==> p.after_balance_at(
            target,
        ).gap_free_to(target),
        p.history_contiguous() ==> p.after_balance_at(target).history_contiguous(),
{
    let q = p.after_balance_at(target);
    if p.walks_to(target) {
        assert forall|j: u32| p.age <= j <= target implies #[trigger] q.balance_history.contains_key(
            j,
        ) by {
            if j > p.age {
                assert(p.walk_entries(target as int).contains_key(j));
            }
        }
        if p.history_contiguous() {
            assert forall|k: u32, j: u32|
                q.balance_history.contains_key(k) && q.age <= j <= k implies q.balance_history.contains_key(
                j,
            ) by {
                if p.balance_history.contains_key(k) {
                    assert(p.balance_history.contains_key(j));
                } else if j > p.age {
                    assert(p.walk_entries(target as int).contains_key(j));
                }
            }
        }
    }
}

/// Adding an expense or an income leaves the memoized ages as they were, so
/// they stay free of gaps.
pub proof fn lemma_items_keep_history_contiguous(p: PersonView, item: RecurringItem)
    requires
        p.history_contiguous(),
    ensures
        p.with_expense(item).history_contiguous(),
        p.with_income(item).history_contiguous(),
{
}

/// A query never alters a memoized balance: it only adds new ones.
pub proof fn lemma_query_keeps_memoized(p: PersonView, target: u32)
    ensures
        forall|k: u32|
            #[trigger] p.balance_history.contains_key(k) ==> p.after_balance_at(
                target,
            ).balance_history.contains_key(k) && p.after_balance_at(target).balance_history[k]
                == p.balance_history[k],
{
}

/// While every memoized balance is the projected one, the walk meets the
/// projected balance at every age.
proof fn lemma_consistent_walk(p: PersonView, a: int)
    requires
        p.history_consistent(),
        a <= u32::MAX,
    ensures
        p.walk_balance(a) == p.projected_balance(a),
    decreases a - p.age,
{
    if a > p.age {
        lemma_consistent_walk(p, a - 1);
        let k = a as u32;
        if p.balance_history.contains_key(k) {
            assert(p.balance_history[k] == p.projected_balance(k as int));
        }
    }
}

/// Two models with the same reference age, current balance and items project
/// the same balances.
proof fn lemma_same_projection(p: PersonView, q: PersonView, a: int)
    requires
        p.age == q.age,
        p.current_balance() == q.current_balance(),
        p.expenses == q.expenses,
        p.incomes == q.incomes,
    ensures
        p.projected_balance(a) == q.projected_balance(a),
    decreases a - p.age,
{
    if a > p.age {
        lemma_same_projection(p, q, a - 1);
    }
}

/// While every memoized balance is the one projected from the current
/// balance, a query from the reference age on returns the projected balance,
/// and the memoized balances stay the projected ones.
pub proof fn lemma_consistent_query_projects(p: PersonView, target: u32)
    requires
        p.history_consistent(),
        p.projection_in_range(target),
        p.age <= target,
    ensures
        p.balance_at(target) == p.projected_balance(target as int),
        p.after_balance_at(target).history_consistent(),
{
    let q = p.after_balance_at(target);
    assert forall|a: int| #![trigger p.walk_balance(a)] a <= u32::MAX implies p.walk_balance(a)
        == p.projected_balance(a) by {
        lemma_consistent_walk(p, a);
    }
    if p.walks_to(target) {
        assert(q.current_balance() == p.current_balance());
        assert forall|k: u32| #[trigger]
            q.balance_history.contains_key(k) && q.age < k implies q.balance_history[k]
            == q.projected_balance(k as int) by {
            lemma_same_projection(p, q, k as int);
            if !p.balance_history.contains_key(k) {
                assert(p.walk_balance(k as int) == p.projected_balance(k as int));
            }
        }
    }
}

/// Over the year starting at `a`, a person whose one item is `item` gains,
/// when it is an income, or loses, when it is an expense, exactly the item's
/// amount times its periods per year if `start_age <= a` and, when it has an
/// end, `a < end_age`; otherwise nothing.
pub proof fn lemma_single_item_year(p: PersonView, item: RecurringItem, a: int)
    ensures
        p.expenses == seq![item] && p.incomes.len() == 0 ==> p.net_change_at(a) == -(
        item.contribution_at(a)),
        p.incomes == seq![item] && p.expenses.len() == 0 ==> p.net_change_at(a)
            == item.contribution_at(a),
        item.contribution_at(a) == if item.start_age <= a && (item.end_age is None || a
            < item.end_age->0) {
            item.amount * item.frequency.periods_per_year()
        } else {
            0
        },
{
    lemma_item_in_yearly_total(Seq::empty(), item, a);
    assert(Seq::<RecurringItem>::empty().push(item) =~= seq![item]);
}

/// A monthly item counts twelve times its amount per year, a daily one 365
/// times, a yearly one once.
pub proof fn lemma_frequency_normalization(item: RecurringItem)
    ensures
        item.frequency == Frequency::Yearly ==> item.yearly_amount() == item.amount,
        item.frequency == Frequency::Monthly ==> item.yearly_amount() == 12 * item.amount,
        item.frequency == Frequency::Daily ==> item.yearly_amount() == 365 * item.amount,
{
}

/// An item counts in the yearly total at age `a` exactly when
/// `start_age <= a` and, if it has an end, `a < end_age`.
pub proof fn lemma_item_in_yearly_total(items: Seq<RecurringItem>, item: RecurringItem, a: int)
    ensures
        yearly_total(items.push(item), a) == yearly_total(items, a) + if item.start_age <= a && (
        item.end_age is None || a < item.end_age->0) {
            item.yearly_amount()
        } else {
            0
        },
{
    assert(items.push(item).drop_last() =~= items);
}

/// Adding an expense lowers the change of the balance over the year starting
/// at `a` by the expense's yearly amount when it is active at `a`, and by
/// nothing otherwise; adding an income raises it in the same way.
pub proof fn lemma_added_item_changes_year(p: PersonView, item: RecurringItem, a: int)
    ensures
        p.with_expense(item).net_change_at(a) == p.net_change_at(a) - item.contribution_at(a),
        p.with_income(item).net_change_at(a) == p.net_change_at(a) + item.contribution_at(a),
        item.contribution_at(a) == if item.start_age <= a && (item.end_age is None || a
            < item.end_age->0) {
            item.amount * item.frequency.periods_per_year()
        } else {
            0
        },
{
    lemma_item_in_yearly_total(p.expenses, item, a);
    lemma_item_in_yearly_total(p.incomes, item, a);
}

} // verus!
