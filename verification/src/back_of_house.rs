//! The kitchen: what a meal is, and how one is cooked.

use crate::front_of_house::serving::lemma_whole_wheat_line;
use crate::front_of_house::serving::serve_order;
use vstd::prelude::*;

verus! {

/// The time of year, which decides the fruit that comes with a breakfast.
#[derive(Clone, Copy, Debug, PartialEq, Eq)]
pub enum Season {
    Winter,
    Spring,
    Summer,
    Autumn,
}

impl Season {
    /// The fruit that is in season.
    pub open spec fn fruit(self) -> Seq<char> {
        match self {
            Season::Winter => "mandarins"@,
            Season::Spring => "strawberries"@,
            Season::Summer => "cantaloupe"@,
            Season::Autumn => "apples"@,
        }
    }
}

/// Whether `fruit` is one of the four fruits that the kitchen serves.
pub open spec fn is_seasonal_fruit(fruit: Seq<char>) -> bool {
    ||| fruit == "mandarins"@
    ||| fruit == "strawberries"@
    ||| fruit == "cantaloupe"@
    ||| fruit == "apples"@
}

/// A breakfast: toast of the customer's choice, and the fruit of the season.
///
/// The customer picks the toast. The fruit is the kitchen's business: code
/// outside the kitchen can neither set nor read it, and `cook` is the only
/// way to make a breakfast.
#[derive(Debug, PartialEq, Eq)]
pub struct Breakfast {
    pub toast: String,
    seasonal_fruit: String,
}

/// What a breakfast is, as contracts see it: the two texts.
pub struct BreakfastView {
    pub toast: Seq<char>,
    pub seasonal_fruit: Seq<char>,
}

impl View for Breakfast {
    type V = BreakfastView;

    closed spec fn view(&self) -> BreakfastView {
        BreakfastView { toast: self.toast@, seasonal_fruit: self.seasonal_fruit@ }
    }
}

impl Breakfast {
    /// A breakfast is well formed when its fruit is one of the four
    /// seasonal fruits.
    pub open spec fn well_formed(&self) -> bool {
        is_seasonal_fruit(self@.seasonal_fruit)
    }

    /// Cooks a breakfast with the given toast and the fruit of `season`.
    pub fn cook(toast: &str, season: Season) -> (breakfast: Breakfast)
        ensures
            breakfast@.toast == toast@,
            breakfast@.seasonal_fruit == season.fruit(),
            breakfast.well_formed(),
    {
        let seasonal_fruit: String = match season {
            Season::Winter => String::from_str("mandarins"),
            Season::Spring => String::from_str("strawberries"),
            Season::Summer => String::from_str("cantaloupe"),
            Season::Autumn => String::from_str("apples"),
        };

        Breakfast { toast: String::from_str(toast), seasonal_fruit }
    }

    /// The toast of this breakfast.
    pub fn toast(&self) -> (toast: &str)
        ensures
            toast@ == self@.toast,
    {
        self.toast.as_str()
    }
}

/// What a customer can order.
#[derive(Debug, PartialEq, Eq)]
pub enum Meal {
    Breakfast(Breakfast),
    Soda { brand: String, oz: u8 },
}

/// What a meal is, as contracts see it.
pub enum MealView {
    Breakfast(BreakfastView),
    Soda { brand: Seq<char>, oz: u8 },
}

impl View for Meal {
    type V = MealView;

    open spec fn view(&self) -> MealView {
        match *self {
            Meal::Breakfast(breakfast) => MealView::Breakfast(breakfast@),
            Meal::Soda { brand, oz } => MealView::Soda { brand: brand@, oz },
        }
    }
}

/// Every season's fruit is one of the four seasonal fruits, and each of the
/// four is the fruit of some season.
pub proof fn lemma_seasonal_fruits(fruit: Seq<char>)
    ensures
        is_seasonal_fruit(fruit) <==> exists|season: Season| season.fruit() == fruit,
{
    if is_seasonal_fruit(fruit) {
        let season = if fruit == "mandarins"@ {
            Season::Winter
        } else if fruit == "strawberries"@ {
            Season::Spring
        } else if fruit == "cantaloupe"@ {
            Season::Summer
        } else {
            Season::Autumn
        };
        assert(season.fruit() == fruit);
    }
}

/// No two seasons share a fruit.
pub proof fn lemma_fruit_one_to_one(a: Season, b: Season)
    requires
        a.fruit() == b.fruit(),
    ensures
        a == b,
{
    reveal_strlit("mandarins");
    reveal_strlit("strawberries");
    reveal_strlit("cantaloupe");
    reveal_strlit("apples");
    assert("mandarins"@[0] == 'm');
    assert("strawberries"@[0] == 's');
    assert("cantaloupe"@[0] == 'c');
    assert("apples"@[0] == 'a');
}

/// Prepares the meal of the house: a breakfast with whole wheat toast and
/// the fruit of autumn.
pub fn cook_order() -> (meal: Meal)
    ensures
        meal@ matches MealView::Breakfast(breakfast) && {
            &&& breakfast.toast == "whole wheat"@
            &&& breakfast.seasonal_fruit == "apples"@
        },
{
    let breakfast: Breakfast = Breakfast::cook("whole wheat", Season::Autumn);
    Meal::Breakfast(breakfast)
}

/// Has the meal of the house cooked and served. Returns the lines of the
/// service.
pub fn add_order_to_waitlist() -> (lines: Vec<String>)
    ensures
        lines.deep_view() == seq![
            "Here's your meal, dear customer:"@,
            "Some whole wheat toast with seasonal fruits"@,
        ],
{
    proof {
        lemma_whole_wheat_line();
    }
    serve_order(cook_order())
}

/// Makes up for a wrong order: cooks the meal of the house once more and
/// delivers it.
pub fn fix_incorrect_order() {
    cook_order();
    crate::deliver_order();
}

} // verus!
