//! Serving: taking the order, bringing the meal, taking the payment.

use crate::back_of_house::add_order_to_waitlist;
use crate::back_of_house::BreakfastView;
use crate::back_of_house::Meal;
use crate::back_of_house::MealView;
use crate::decimal::decimal;
use crate::decimal::decimal_string;
use vstd::prelude::*;

verus! {

/// The line that announces a meal.
pub open spec fn greeting() -> Seq<char> {
    "Here's your meal, dear customer:"@
}

/// The line that describes a breakfast with the given toast. It names the
/// toast and nothing else of the breakfast.
pub open spec fn breakfast_line(toast: Seq<char>) -> Seq<char> {
    "Some "@ + toast + " toast with seasonal fruits"@
}

/// The line that describes a soda of the given brand and size, the size in
/// decimal.
pub open spec fn soda_line(brand: Seq<char>, oz: u8) -> Seq<char> {
    "An ice cold, "@ + decimal(oz as nat) + " ounce of "@ + brand + " soda"@
}

/// The line that describes a meal.
pub open spec fn meal_line(order: MealView) -> Seq<char> {
    match order {
        MealView::Breakfast(breakfast) => breakfast_line(breakfast.toast),
        MealView::Soda { brand, oz } => soda_line(brand, oz),
    }
}

/// What the customer is told when a meal is served: the greeting, then the
/// line that describes the meal.
pub open spec fn service(order: MealView) -> Seq<Seq<char>> {
    seq![greeting(), meal_line(order)]
}

/// The line that thanks the customer.
pub open spec fn thanks() -> Seq<char> {
    "Thank you for your service!"@
}

/// Takes the customer's order and has it cooked and served. Returns the
/// lines of the service.
pub fn take_order() -> (lines: Vec<String>)
    ensures
        lines.deep_view() == seq![
            "Here's your meal, dear customer:"@,
            "Some whole wheat toast with seasonal fruits"@,
        ],
{
    add_order_to_waitlist()
}

/// Serves a meal: returns the greeting and the line that describes the
/// meal, in this order.
pub fn serve_order(order: Meal) -> (lines: Vec<String>)
    ensures
        lines.deep_view() == service(order@),
{
    let mut lines: Vec<String> = Vec::new();
    lines.push(String::from_str("Here's your meal, dear customer:"));

    let line = match order {
        Meal::Breakfast(b) => {
            let mut line = String::from_str("Some ");
            line.append(b.toast());
            line.append(" toast with seasonal fruits");
            line
        },
        Meal::Soda { brand, oz } => {
            let mut line = String::from_str("An ice cold, ");
            line.append(decimal_string(oz).as_str());
            line.append(" ounce of ");
            line.append(brand.as_str());
            line.append(" soda");
            line
        },
    };
    lines.push(line);
    lines
}

/// Takes the payment: returns the line that thanks the customer.
pub fn take_payment() -> (line: String)
    ensures
        line@ == thanks(),
{
    String::from_str("Thank you for your service!")
}

/// The breakfast of the house, with whole wheat toast, is described by one
/// fixed line.
pub proof fn lemma_whole_wheat_line()
    ensures
        breakfast_line("whole wheat"@) == "Some whole wheat toast with seasonal fruits"@,
{
    reveal_strlit("Some ");
    reveal_strlit("whole wheat");
    reveal_strlit(" toast with seasonal fruits");
    reveal_strlit("Some whole wheat toast with seasonal fruits");
}

/// The description of a breakfast depends on its toast alone: the fruit
/// never shows in it.
pub proof fn lemma_breakfast_line_ignores_fruit(a: BreakfastView, b: BreakfastView)
    requires
        a.toast == b.toast,
    ensures
        meal_line(MealView::Breakfast(a)) == meal_line(MealView::Breakfast(b)),
{
}

/// Every meal has a description, and the description is that of its kind:
/// a meal is a breakfast or a soda, and nothing else.
pub proof fn lemma_meal_line_total(order: MealView)
    ensures
        order is Breakfast || order is Soda,
        order matches MealView::Breakfast(breakfast) ==> meal_line(order) == breakfast_line(breakfast.toast),
        order matches MealView::Soda { brand, oz } ==> meal_line(order) == soda_line(brand, oz),
        meal_line(order).len() > 0,
{
    reveal_strlit("Some ");
    reveal_strlit("An ice cold, ");
}

} // verus!
