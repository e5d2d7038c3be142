//! Collecting the recipes of the machine: the accumulator that merges what
//! the machine reports, and the finished list of recipes.

use crate::ecam::hardware_enums::{
    EcamAccessory, EcamBeverageId, EcamBeverageTaste, EcamIngredients, EcamTemperature,
};
use crate::protocol::command::{
    ProfileResponse, ProfileResponseView, RecipeInfo, RecipeMinMaxInfo, Response, ResponseView,
};
use crate::protocol::machine_enum::{all_values, enumerate, MachineEnum, MachineEnumerable};
use std::collections::HashMap;
use vstd::prelude::*;

verus! {

broadcast use vstd::std_specs::hash::group_hash_axioms;

/// What an accumulator holds: the beverages it collects, in order, and for
/// each beverage the value records and the bounds records seen so far.
pub struct RecipeAccumulatorView {
    pub beverages: Seq<EcamBeverageId>,
    pub recipe: Map<EcamBeverageId, Seq<RecipeInfo>>,
    pub recipe_min_max: Map<EcamBeverageId, Seq<RecipeMinMaxInfo>>,
}

impl RecipeAccumulatorView {
    /// An accumulator for `beverages` that has seen nothing yet.
    pub open spec fn fresh(beverages: Seq<EcamBeverageId>) -> Self {
        RecipeAccumulatorView { beverages, recipe: Map::empty(), recipe_min_max: Map::empty() }
    }

    /// True when one of the lists seen for `beverage` is empty: the machine
    /// has no such data for it, and there is nothing to wait for.
    pub open spec fn is_empty(self, beverage: EcamBeverageId) -> bool {
        ||| self.recipe.contains_key(beverage) && self.recipe[beverage].len() == 0
        ||| self.recipe_min_max.contains_key(beverage) && self.recipe_min_max[beverage].len() == 0
    }

    /// True when nothing more is awaited for `beverage`: both lists were
    /// seen, or one that was seen is empty.
    pub open spec fn is_complete(self, beverage: EcamBeverageId) -> bool {
        ||| self.is_empty(beverage)
        ||| self.recipe.contains_key(beverage) && self.recipe_min_max.contains_key(beverage)
    }

    /// The test for a beverage that is not complete yet.
    pub open spec fn pending(self) -> spec_fn(EcamBeverageId) -> bool {
        |beverage: EcamBeverageId| !self.is_complete(beverage)
    }

    /// The beverages that are not complete yet, in the accumulator's order.
    pub open spec fn remaining(self) -> Seq<EcamBeverageId> {
        self.beverages.filter(self.pending())
    }

    /// The accumulator after a response was observed while `expected` was
    /// being asked for. Records for `expected` replace what was held for it;
    /// any other response changes nothing.
    pub open spec fn accumulate(self, expected: EcamBeverageId, packet: ResponseView) -> Self {
        match packet {
            ResponseView::Profile(
                ProfileResponseView::RecipeQuantities(Some((_, beverage, ingredients))),
            ) => if beverage == MachineEnum::Value(expected) {
                RecipeAccumulatorView { recipe: self.recipe.insert(expected, ingredients), ..self }
            } else {
                self
            },
            ResponseView::Profile(ProfileResponseView::RecipeMinMax(beverage, min_max)) => if beverage
                == MachineEnum::Value(expected) {
                RecipeAccumulatorView {
                    recipe_min_max: self.recipe_min_max.insert(expected, min_max),
                    ..self
                }
            } else {
                self
            },
            _ => self,
        }
    }

    /// True when `beverage` goes into the finished list: both of its lists
    /// were seen and neither is empty.
    pub open spec fn harvested(self, beverage: EcamBeverageId) -> bool {
        &&& self.recipe.contains_key(beverage)
        &&& self.recipe_min_max.contains_key(beverage)
        &&& self.recipe[beverage].len() > 0
        &&& self.recipe_min_max[beverage].len() > 0
    }

    /// The entry of `beverage` in the finished list.
    pub open spec fn details(self, beverage: EcamBeverageId) -> RecipeDetailsView {
        RecipeDetailsView {
            beverage,
            recipe: self.recipe[beverage],
            recipe_min_max: self.recipe_min_max[beverage],
        }
    }

    /// The finished list as far as the first `n` beverages decide it: one
    /// entry for each harvested beverage, where it first occurs.
    pub open spec fn taken(self, n: int) -> Seq<RecipeDetailsView>
        decreases n,
    {
        if n <= 0 {
            Seq::empty()
        } else {
            let beverage = self.beverages[n - 1];
            let before = self.taken(n - 1);
            if self.harvested(beverage) && !self.beverages.take(n - 1).contains(beverage) {
                before.push(self.details(beverage))
            } else {
                before
            }
        }
    }

    /// How the records held for `beverage` in `current` relate to those in
    /// `self` once the first `n` beverages were taken out of `current`: both
    /// lists are gone where the beverage was among them and had no empty
    /// list, and nothing has changed otherwise.
    spec fn drained(self, current: Self, n: int, beverage: EcamBeverageId) -> bool {
        if self.beverages.take(n).contains(beverage) && !self.is_empty(beverage) {
            &&& !current.recipe.contains_key(beverage)
            &&& !current.recipe_min_max.contains_key(beverage)
        } else {
            &&& current.recipe.contains_key(beverage) == self.recipe.contains_key(beverage)
            &&& current.recipe_min_max.contains_key(beverage) == self.recipe_min_max.contains_key(
                beverage,
            )
            &&& self.recipe.contains_key(beverage) ==> current.recipe[beverage]
                == self.recipe[beverage]
            &&& self.recipe_min_max.contains_key(beverage) ==> current.recipe_min_max[beverage]
                == self.recipe_min_max[beverage]
        }
    }

    /// The finished list of recipes.
    pub open spec fn take(self) -> Seq<RecipeDetailsView> {
        self.taken(self.beverages.len() as int)
    }
}

/// Collects, beverage by beverage, the value records and the bounds records
/// that the machine reports, until it is turned into a [`RecipeList`].
pub struct RecipeAccumulator {
    recipe: HashMap<u8, Vec<RecipeInfo>>,
    recipe_min_max: HashMap<u8, Vec<RecipeMinMaxInfo>>,
    list: Vec<EcamBeverageId>,
}

impl View for RecipeAccumulator {
    type V = RecipeAccumulatorView;

    closed spec fn view(&self) -> RecipeAccumulatorView {
        RecipeAccumulatorView {
            beverages: self.list@,
            recipe: Map::new(
                |beverage: EcamBeverageId| self.recipe@.contains_key(beverage.code()),
                |beverage: EcamBeverageId| self.recipe@[beverage.code()]@,
            ),
            recipe_min_max: Map::new(
                |beverage: EcamBeverageId| self.recipe_min_max@.contains_key(beverage.code()),
                |beverage: EcamBeverageId| self.recipe_min_max@[beverage.code()]@,
            ),
        }
    }
}

impl RecipeAccumulator {
    /// An accumulator for every beverage of the catalog, in catalog order.
    pub fn new() -> (accumulator: Self)
        ensures
            accumulator@ == RecipeAccumulatorView::fresh(all_values::<EcamBeverageId>()),
    {
        let accumulator = RecipeAccumulator {
            list: enumerate::<EcamBeverageId>(),
            recipe: HashMap::new(),
            recipe_min_max: HashMap::new(),
        };
        proof {
            assert(accumulator@.recipe =~= Map::empty());
            assert(accumulator@.recipe_min_max =~= Map::empty());
        }
        accumulator
    }

    /// An accumulator for the given beverages only, in the given order.
    pub fn limited_to(recipes: Vec<EcamBeverageId>) -> (accumulator: Self)
        ensures
            accumulator@ == RecipeAccumulatorView::fresh(recipes@),
    {
        let accumulator = RecipeAccumulator {
            list: recipes,
            recipe: HashMap::new(),
            recipe_min_max: HashMap::new(),
        };
        proof {
            assert(accumulator@.recipe =~= Map::empty());
            assert(accumulator@.recipe_min_max =~= Map::empty());
        }
        accumulator
    }

    /// The beverages that are not complete yet, in the accumulator's order.
    pub fn get_remaining_beverages(&self) -> (remaining: Vec<EcamBeverageId>)
        ensures
            remaining@ == self@.remaining(),
    {
        let mut remaining: Vec<EcamBeverageId> = Vec::new();
        let mut n: usize = 0;
        proof {
            reveal(Seq::filter);
        }
        while n < self.list.len()
            invariant
                n <= self.list@.len(),
                remaining@ == self.list@.take(n as int).filter(self@.pending()),
            decreases self.list@.len() - n,
        {
            let beverage = self.list[n];
            proof {
                let seen = self.list@.take(n as int);
                assert(self.list@.take(n + 1) == seen.push(beverage));
                seen.lemma_filter_push(beverage, self@.pending());
            }
            if !self.is_complete(beverage) {
                remaining.push(beverage);
            }
            n = n + 1;
        }
        proof {
            assert(self.list@.take(n as int) == self.list@);
        }
        remaining
    }

    /// Whether nothing more is awaited for `beverage`.
    pub fn is_complete(&self, beverage: EcamBeverageId) -> (complete: bool)
        ensures
            complete == self@.is_complete(beverage),
    {
        let code = beverage.to_code();
        let recipe = self.recipe.get(&code);
        let recipe_min_max = self.recipe_min_max.get(&code);
        if let Some(recipe) = recipe {
            if recipe.len() == 0 {
                return true;
            }
        }
        if let Some(recipe_min_max) = recipe_min_max {
            if recipe_min_max.len() == 0 {
                return true;
            }
        }
        recipe.is_some() && recipe_min_max.is_some()
    }

    /// Whether one of the lists seen for `beverage` is empty.
    pub fn is_empty(&self, beverage: EcamBeverageId) -> (empty: bool)
        ensures
            empty == self@.is_empty(beverage),
    {
        let code = beverage.to_code();
        if let Some(recipe) = self.recipe.get(&code) {
            if recipe.len() == 0 {
                return true;
            }
        }
        if let Some(recipe_min_max) = self.recipe_min_max.get(&code) {
            if recipe_min_max.len() == 0 {
                return true;
            }
        }
        false
    }

    /// Merges one observed response into the accumulator. Only records for
    /// `expected_beverage` are taken; they replace what was held for it.
    pub fn accumulate_packet(&mut self, expected_beverage: EcamBeverageId, packet: Response)
        ensures
            final(self)@ == old(self)@.accumulate(expected_beverage, packet@),
    {
        match packet {
            Response::Profile(ProfileResponse::RecipeQuantities(Some((_, beverage, ingredients)))) => {
                if beverage.is_value(&expected_beverage) {
                    self.recipe.insert(expected_beverage.to_code(), ingredients);
                    proof {
                        lemma_codes_differ(expected_beverage);
                        assert(self@.recipe =~= old(self)@.recipe.insert(
                            expected_beverage,
                            ingredients@,
                        ));
                        assert(self@.recipe_min_max =~= old(self)@.recipe_min_max);
                    }
                }
            },
            Response::Profile(ProfileResponse::RecipeMinMax(beverage, min_max)) => {
                if beverage.is_value(&expected_beverage) {
                    self.recipe_min_max.insert(expected_beverage.to_code(), min_max);
                    proof {
                        lemma_codes_differ(expected_beverage);
                        assert(self@.recipe_min_max =~= old(self)@.recipe_min_max.insert(
                            expected_beverage,
                            min_max@,
                        ));
                        assert(self@.recipe =~= old(self)@.recipe);
                    }
                }
            },
            _ => {},
        }
    }

    /// Turns the accumulator into the finished list: one entry for each
    /// beverage of which both lists were seen and neither is empty, in the
    /// accumulator's order, each beverage once. Any other beverage is left
    /// out.
    pub fn take(self) -> (list: RecipeList)
        ensures
            list@ == self@.take(),
    {
        let ghost start = self@;
        let mut accumulator = self;
        let mut recipes: Vec<RecipeDetails> = Vec::new();
        let ghost views = |details: RecipeDetails| details@;
        let mut n: usize = 0;
        proof {
            assert(recipes@.map_values(views) == start.taken(0));
        }
        while n < accumulator.list.len()
            invariant
                n <= accumulator.list@.len(),
                accumulator.list@ == start.beverages,
                views == |details: RecipeDetails| details@,
                recipes@.map_values(views) == start.taken(n as int),
                forall|b: EcamBeverageId| #[trigger] start.drained(accumulator@, n as int, b),
            decreases accumulator.list@.len() - n,
        {
            let beverage = accumulator.list[n];
            let ghost before = accumulator@;
            let ghost seen = start.beverages.take(n as int);
            proof {
                lemma_codes_differ(beverage);
                assert(start.beverages.take(n + 1) == seen.push(beverage));
                assert forall|b: EcamBeverageId|
                    start.beverages.take(n + 1).contains(b) <==> seen.contains(b) || b
                        == beverage by {
                    let next = seen.push(beverage);
                    if seen.contains(b) {
                        let i = choose|i: int| 0 <= i < seen.len() && seen[i] == b;
                        assert(next[i] == b);
                    }
                    if b == beverage {
                        assert(next[n as int] == b);
                    }
                }
                assert(start.drained(before, n as int, beverage));
                assert(before.is_empty(beverage) == start.is_empty(beverage));
            }
            if !accumulator.is_empty(beverage) {
                let code = beverage.to_code();
                let recipe = accumulator.recipe.remove(&code);
                let recipe_min_max = accumulator.recipe_min_max.remove(&code);
                proof {
                    assert(accumulator@.recipe =~= before.recipe.remove(beverage));
                    assert(accumulator@.recipe_min_max =~= before.recipe_min_max.remove(beverage));
                    assert(recipe.is_some() == before.recipe.contains_key(beverage));
                    assert(recipe_min_max.is_some() == before.recipe_min_max.contains_key(
                        beverage,
                    ));
                    assert(start.harvested(beverage) && !seen.contains(beverage) <==> recipe.is_some()
                        && recipe_min_max.is_some());
                }
                match (recipe, recipe_min_max) {
                    (Some(recipe), Some(recipe_min_max)) => {
                        proof {
                            assert(recipe@ == before.recipe[beverage]);
                            assert(recipe_min_max@ == before.recipe_min_max[beverage]);
                        }
                        let details = RecipeDetails { beverage, recipe, recipe_min_max };
                        proof {
                            assert(details@ == start.details(beverage));
                            assert(recipes@.push(details).map_values(views) == recipes@.map_values(
                                views,
                            ).push(details@));
                        }
                        recipes.push(details);
                    },
                    _ => {},
                }
            } else {
                proof {
                    assert(!start.harvested(beverage));
                }
            }
            proof {
                assert forall|b: EcamBeverageId| #[trigger]
                    start.drained(accumulator@, n + 1, b) by {
                    assert(start.drained(before, n as int, b));
                    if b != beverage {
                        assert(b.code() != beverage.code());
                    }
                }
            }
            n = n + 1;
        }
        let list = RecipeList { recipes };
        proof {
            assert(list@ == recipes@.map_values(views));
        }
        list
    }
}

/// No other beverage shares the code of `beverage`.
proof fn lemma_codes_differ(beverage: EcamBeverageId)
    ensures
        forall|other: EcamBeverageId| #[trigger] other.code() == beverage.code() ==> other == beverage,
{
}

/// One finished recipe: a beverage with its value records and its bounds
/// records.
#[derive(Clone, Debug)]
pub struct RecipeDetails {
    pub beverage: EcamBeverageId,
    recipe: Vec<RecipeInfo>,
    recipe_min_max: Vec<RecipeMinMaxInfo>,
}

/// A [`RecipeDetails`] with its records as sequences.
pub struct RecipeDetailsView {
    pub beverage: EcamBeverageId,
    pub recipe: Seq<RecipeInfo>,
    pub recipe_min_max: Seq<RecipeMinMaxInfo>,
}

impl View for RecipeDetails {
    type V = RecipeDetailsView;

    closed spec fn view(&self) -> RecipeDetailsView {
        RecipeDetailsView {
            beverage: self.beverage,
            recipe: self.recipe@,
            recipe_min_max: self.recipe_min_max@,
        }
    }
}

/// The finished recipes, one entry per beverage.
#[derive(Clone, Debug)]
pub struct RecipeList {
    pub recipes: Vec<RecipeDetails>,
}

impl View for RecipeList {
    type V = Seq<RecipeDetailsView>;

    open spec fn view(&self) -> Seq<RecipeDetailsView> {
        self.recipes@.map_values(|details: RecipeDetails| details@)
    }
}

impl RecipeList {
    /// The first entry for `beverage`, if the list has one.
    pub fn find(&self, beverage: EcamBeverageId) -> (found: Option<&RecipeDetails>)
        ensures
            match found {
                Some(details) => exists|i: int|
                    {
                        &&& 0 <= i < self@.len()
                        &&& details@ == #[trigger] self@[i]
                        &&& details@.beverage == beverage
                        &&& forall|j: int| 0 <= j < i ==> self@[j].beverage != beverage
                    },
                None => forall|i: int| 0 <= i < self@.len() ==> self@[i].beverage != beverage,
            },
    {
        let mut n: usize = 0;
        while n < self.recipes.len()
            invariant
                n <= self.recipes@.len(),
                self@.len() == self.recipes@.len(),
                forall|j: int| 0 <= j < n ==> self@[j].beverage != beverage,
            decreases self.recipes@.len() - n,
        {
            assert(self@[n as int] == self.recipes@[n as int]@);
            if self.recipes[n].beverage == beverage {
                return Some(&self.recipes[n]);
            }
            n = n + 1;
        }
        None
    }
}

/// One ingredient of a recipe in typed form.
#[derive(Clone, Copy, Debug, PartialEq, Eq)]
pub enum IngredientInfo {
    /// Coffee quantity: lower bound, value, upper bound.
    Coffee(u16, u16, u16),
    /// Milk quantity: lower bound, value, upper bound.
    Milk(u16, u16, u16),
    /// Hot water quantity: lower bound, value, upper bound.
    HotWater(u16, u16, u16),
    Taste(EcamBeverageTaste),
    Temperature(EcamTemperature),
    Accessory(EcamAccessory),
    /// Whether the order of coffee and milk is inverted, and whether that is
    /// fixed.
    Inversion(bool, bool),
    /// Whether two cups are brewed, and whether that is fixed.
    Brew2(bool, bool),
}

/// The record that a recipe holds for `ingredient`: the last one that names
/// it.
pub open spec fn recipe_entry(recipe: Seq<RecipeInfo>, ingredient: EcamIngredients) -> Option<
    RecipeInfo,
>
    decreases recipe.len(),
{
    if recipe.len() == 0 {
        None
    } else if recipe.last().ingredient == MachineEnum::Value(ingredient) {
        Some(recipe.last())
    } else {
        recipe_entry(recipe.drop_last(), ingredient)
    }
}

/// The bounds that a recipe holds for `ingredient`: the last record that
/// names it.
pub open spec fn min_max_entry(
    recipe_min_max: Seq<RecipeMinMaxInfo>,
    ingredient: EcamIngredients,
) -> Option<RecipeMinMaxInfo>
    decreases recipe_min_max.len(),
{
    if recipe_min_max.len() == 0 {
        None
    } else if recipe_min_max.last().ingredient == MachineEnum::Value(ingredient) {
        Some(recipe_min_max.last())
    } else {
        min_max_entry(recipe_min_max.drop_last(), ingredient)
    }
}

/// The typed form of `ingredient`, given its value record and its bounds
/// record, where it has one.
///
/// The accessory is read from the value record alone: 1 is water, 2 is milk.
/// Every other ingredient needs both records. A quantity carries its bounds
/// and its value; the taste is given only where the bounds are 0 and 5 and
/// the low byte of the value names a taste; the two flags say whether the
/// bounds record holds 1 and whether its bounds coincide. Ingredients that
/// only describe the recipe's layout have no typed form.
pub open spec fn ingredient_info(
    ingredient: EcamIngredients,
    value: Option<RecipeInfo>,
    bounds: Option<RecipeMinMaxInfo>,
) -> Option<IngredientInfo> {
    match ingredient {
        EcamIngredients::Visible | EcamIngredients::IndexLength | EcamIngredients::Programmable => {
            None
        },
        EcamIngredients::Accessorio => match value {
            Some(r1) => if r1.value == 1 {
                Some(IngredientInfo::Accessory(EcamAccessory::Water))
            } else if r1.value == 2 {
                Some(IngredientInfo::Accessory(EcamAccessory::Milk))
            } else {
                None
            },
            None => None,
        },
        _ => match (value, bounds) {
            (Some(r1), Some(r2)) => match ingredient {
                EcamIngredients::Coffee => Some(IngredientInfo::Coffee(r2.min, r1.value, r2.max)),
                EcamIngredients::Milk => Some(IngredientInfo::Milk(r2.min, r1.value, r2.max)),
                EcamIngredients::HotWater => Some(
                    IngredientInfo::HotWater(r2.min, r1.value, r2.max),
                ),
                EcamIngredients::Taste => if r2.min == 0 && r2.max == 5 {
                    match EcamBeverageTaste::of_code((r1.value % 256) as u8) {
                        Some(taste) => Some(IngredientInfo::Taste(taste)),
                        None => None,
                    }
                } else {
                    None
                },
                EcamIngredients::Temp => Some(IngredientInfo::Temperature(EcamTemperature::Low)),
                EcamIngredients::Inversion => Some(
                    IngredientInfo::Inversion(r2.value == 1, r2.min == r2.max),
                ),
                EcamIngredients::DueXPer => Some(
                    IngredientInfo::Brew2(r2.value == 1, r2.min == r2.max),
                ),
                _ => None,
            },
            _ => None,
        },
    }
}

impl RecipeDetailsView {
    /// The typed form of one ingredient of this recipe, where it has one.
    pub open spec fn ingredient(self) -> spec_fn(EcamIngredients) -> Option<IngredientInfo> {
        |ingredient: EcamIngredients|
            ingredient_info(
                ingredient,
                recipe_entry(self.recipe, ingredient),
                min_max_entry(self.recipe_min_max, ingredient),
            )
    }

    /// The typed ingredients of this recipe, in the order in which the
    /// machine numbers its ingredients.
    pub open spec fn fetch_ingredients(self) -> Seq<IngredientInfo> {
        all_values::<EcamIngredients>().filter_map(self.ingredient())
    }
}

/// Finds the record that `recipe` holds for `ingredient`.
fn find_recipe_entry(recipe: &Vec<RecipeInfo>, ingredient: EcamIngredients) -> (found: Option<
    RecipeInfo,
>)
    ensures
        found == recipe_entry(recipe@, ingredient),
{
    let mut found: Option<RecipeInfo> = None;
    let mut n: usize = 0;
    while n < recipe.len()
        invariant
            n <= recipe@.len(),
            found == recipe_entry(recipe@.take(n as int), ingredient),
        decreases recipe@.len() - n,
    {
        proof {
            let next = recipe@.take(n + 1);
            assert(next.drop_last() == recipe@.take(n as int));
            assert(next.last() == recipe@[n as int]);
        }
        if recipe[n].ingredient.is_value(&ingredient) {
            found = Some(recipe[n]);
        }
        n = n + 1;
    }
    proof {
        assert(recipe@.take(n as int) == recipe@);
    }
    found
}

/// Finds the bounds that `recipe_min_max` holds for `ingredient`.
fn find_min_max_entry(recipe_min_max: &Vec<RecipeMinMaxInfo>, ingredient: EcamIngredients) -> (found:
    Option<RecipeMinMaxInfo>)
    ensures
        found == min_max_entry(recipe_min_max@, ingredient),
{
    let mut found: Option<RecipeMinMaxInfo> = None;
    let mut n: usize = 0;
    while n < recipe_min_max.len()
        invariant
            n <= recipe_min_max@.len(),
            found == min_max_entry(recipe_min_max@.take(n as int), ingredient),
        decreases recipe_min_max@.len() - n,
    {
        proof {
            let next = recipe_min_max@.take(n + 1);
            assert(next.drop_last() == recipe_min_max@.take(n as int));
            assert(next.last() == recipe_min_max@[n as int]);
        }
        if recipe_min_max[n].ingredient.is_value(&ingredient) {
            found = Some(recipe_min_max[n]);
        }
        n = n + 1;
    }
    proof {
        assert(recipe_min_max@.take(n as int) == recipe_min_max@);
    }
    found
}

/// Gives `ingredient` its typed form from its value record and its bounds
/// record.
pub fn typed_ingredient(
    ingredient: EcamIngredients,
    value: Option<RecipeInfo>,
    bounds: Option<RecipeMinMaxInfo>,
) -> (info: Option<IngredientInfo>)
    ensures
        info == ingredient_info(ingredient, value, bounds),
{
    match ingredient {
        EcamIngredients::Visible | EcamIngredients::IndexLength | EcamIngredients::Programmable => {
            None
        },
        EcamIngredients::Accessorio => match value {
            Some(r1) => if r1.value == 1 {
                Some(IngredientInfo::Accessory(EcamAccessory::Water))
            } else if r1.value == 2 {
                Some(IngredientInfo::Accessory(EcamAccessory::Milk))
            } else {
                None
            },
            None => None,
        },
        _ => match (value, bounds) {
            (Some(r1), Some(r2)) => match ingredient {
                EcamIngredients::Coffee => Some(IngredientInfo::Coffee(r2.min, r1.value, r2.max)),
                EcamIngredients::Milk => Some(IngredientInfo::Milk(r2.min, r1.value, r2.max)),
                EcamIngredients::HotWater => Some(
                    IngredientInfo::HotWater(r2.min, r1.value, r2.max),
                ),
                EcamIngredients::Taste => if r2.min == 0 && r2.max == 5 {
                    match EcamBeverageTaste::from_code((r1.value % 256) as u8) {
                        Some(taste) => Some(IngredientInfo::Taste(taste)),
                        None => None,
                    }
                } else {
                    None
                },
                EcamIngredients::Temp => Some(IngredientInfo::Temperature(EcamTemperature::Low)),
                EcamIngredients::Inversion => Some(
                    IngredientInfo::Inversion(r2.value == 1, r2.min == r2.max),
                ),
                EcamIngredients::DueXPer => Some(
                    IngredientInfo::Brew2(r2.value == 1, r2.min == r2.max),
                ),
                _ => None,
            },
            _ => None,
        },
    }
}

impl RecipeDetails {
    /// The typed ingredients of this recipe, in the order in which the
    /// machine numbers its ingredients.
    pub fn fetch_ingredients(&self) -> (ingredients: Vec<IngredientInfo>)
        ensures
            ingredients@ == self@.fetch_ingredients(),
    {
        let order = enumerate::<EcamIngredients>();
        let mut ingredients: Vec<IngredientInfo> = Vec::new();
        let mut n: usize = 0;
        while n < order.len()
            invariant
                n <= order@.len(),
                order@ == all_values::<EcamIngredients>(),
                ingredients@ == order@.take(n as int).filter_map(self@.ingredient()),
            decreases order@.len() - n,
        {
            let ingredient = order[n];
            let value = find_recipe_entry(&self.recipe, ingredient);
            let bounds = find_min_max_entry(&self.recipe_min_max, ingredient);
            proof {
                order@.lemma_filter_map_take_succ(self@.ingredient(), n as int);
            }
            match typed_ingredient(ingredient, value, bounds) {
                Some(info) => {
                    ingredients.push(info);
                },
                None => {},
            }
            n = n + 1;
        }
        proof {
            assert(order@.take(n as int) == order@);
        }
        ingredients
    }
}

/// The value records of `beverage` in a response, as the machine reports
/// them for `profile`.
pub open spec fn quantities_response(
    profile: u8,
    beverage: EcamBeverageId,
    ingredients: Seq<RecipeInfo>,
) -> ResponseView {
    ResponseView::Profile(
        ProfileResponseView::RecipeQuantities(
            Some((profile, MachineEnum::Value(beverage), ingredients)),
        ),
    )
}

/// The bounds records of `beverage` in a response.
pub open spec fn min_max_response(
    beverage: EcamBeverageId,
    min_max: Seq<RecipeMinMaxInfo>,
) -> ResponseView {
    ResponseView::Profile(ProfileResponseView::RecipeMinMax(MachineEnum::Value(beverage), min_max))
}

/// The beverages that remain are those of the accumulator that are not
/// complete.
pub proof fn lemma_remaining(state: RecipeAccumulatorView, beverage: EcamBeverageId)
    ensures
        state.remaining().contains(beverage) <==> state.beverages.contains(beverage)
            && !state.is_complete(beverage),
        state.remaining().len() <= state.beverages.len(),
{
    state.beverages.lemma_filter_len(state.pending());
    if state.remaining().contains(beverage) {
        state.beverages.lemma_filter_contains_rev(state.pending(), beverage);
        let i = choose|i: int|
            0 <= i < state.remaining().len() && state.remaining()[i] == beverage;
        state.beverages.lemma_filter_pred(state.pending(), i);
    }
    if state.beverages.contains(beverage) && !state.is_complete(beverage) {
        let i = choose|i: int| 0 <= i < state.beverages.len() && state.beverages[i] == beverage;
        state.beverages.lemma_filter_contains(state.pending(), i);
    }
}

/// A beverage is complete as soon as an empty list of values is observed for
/// it, whether or not its bounds were seen: it no longer remains, and it
/// will have no entry in the finished list.
pub proof fn lemma_empty_recipe_completes(
    state: RecipeAccumulatorView,
    beverage: EcamBeverageId,
    profile: u8,
)
    ensures
        ({
            let after = state.accumulate(
                beverage,
                quantities_response(profile, beverage, Seq::empty()),
            );
            &&& after.is_empty(beverage)
            &&& after.is_complete(beverage)
            &&& !after.remaining().contains(beverage)
            &&& !after.harvested(beverage)
        }),
{
    let after = state.accumulate(beverage, quantities_response(profile, beverage, Seq::empty()));
    lemma_remaining(after, beverage);
}

/// A beverage is complete as soon as an empty list of bounds is observed for
/// it, whether or not its values were seen.
pub proof fn lemma_empty_min_max_completes(state: RecipeAccumulatorView, beverage: EcamBeverageId)
    ensures
        ({
            let after = state.accumulate(beverage, min_max_response(beverage, Seq::empty()));
            &&& after.is_empty(beverage)
            &&& after.is_complete(beverage)
            &&& !after.remaining().contains(beverage)
            &&& !after.harvested(beverage)
        }),
{
    let after = state.accumulate(beverage, min_max_response(beverage, Seq::empty()));
    lemma_remaining(after, beverage);
}

/// A list that is not empty completes a beverage only together with the
/// other list: after the values alone the beverage still remains, and after
/// the bounds as well it is harvested.
pub proof fn lemma_both_lists_complete(
    beverages: Seq<EcamBeverageId>,
    beverage: EcamBeverageId,
    profile: u8,
    ingredients: Seq<RecipeInfo>,
    min_max: Seq<RecipeMinMaxInfo>,
)
    requires
        beverages.contains(beverage),
        ingredients.len() > 0,
        min_max.len() > 0,
    ensures
        ({
            let first = RecipeAccumulatorView::fresh(beverages).accumulate(
                beverage,
                quantities_response(profile, beverage, ingredients),
            );
            let second = first.accumulate(beverage, min_max_response(beverage, min_max));
            &&& !first.is_complete(beverage)
            &&& first.remaining().contains(beverage)
            &&& second.is_complete(beverage)
            &&& second.harvested(beverage)
            &&& second.details(beverage) == RecipeDetailsView {
                beverage,
                recipe: ingredients,
                recipe_min_max: min_max,
            }
        }),
{
    let first = RecipeAccumulatorView::fresh(beverages).accumulate(
        beverage,
        quantities_response(profile, beverage, ingredients),
    );
    lemma_remaining(first, beverage);
}

/// What the first `n` beverages put into the finished list: each entry
/// belongs to a harvested beverage among them, each harvested beverage among
/// them has its entry, and no beverage has two.
pub proof fn lemma_taken(state: RecipeAccumulatorView, n: int)
    requires
        0 <= n <= state.beverages.len(),
    ensures
        forall|i: int|
            0 <= i < state.taken(n).len() ==> {
                let entry = #[trigger] state.taken(n)[i];
                &&& state.beverages.take(n).contains(entry.beverage)
                &&& state.harvested(entry.beverage)
                &&& entry == state.details(entry.beverage)
            },
        forall|beverage: EcamBeverageId|
            state.beverages.take(n).contains(beverage) && state.harvested(beverage)
                ==> state.taken(n).contains(#[trigger] state.details(beverage)),
        forall|i: int, j: int|
            0 <= i < j < state.taken(n).len() ==> (#[trigger] state.taken(n)[i]).beverage != (
            #[trigger] state.taken(n)[j]).beverage,
    decreases n,
{
    if n > 0 {
        lemma_taken(state, n - 1);
        let seen = state.beverages.take(n - 1);
        let now = state.beverages.take(n);
        let last = state.beverages[n - 1];
        let before = state.taken(n - 1);
        let after = state.taken(n);
        assert(now == seen.push(last));
        assert forall|b: EcamBeverageId| now.contains(b) <==> seen.contains(b) || b == last by {
            if seen.contains(b) {
                let i = choose|i: int| 0 <= i < seen.len() && seen[i] == b;
                assert(now[i] == b);
            }
            if b == last {
                assert(now[n - 1] == b);
            }
        }
        assert forall|i: int| 0 <= i < after.len() implies {
            let entry = #[trigger] after[i];
            &&& now.contains(entry.beverage)
            &&& state.harvested(entry.beverage)
            &&& entry == state.details(entry.beverage)
        } by {
            if i < before.len() {
                assert(after[i] == before[i]);
            }
        }
        assert forall|beverage: EcamBeverageId|
            now.contains(beverage) && state.harvested(beverage) implies after.contains(
            #[trigger] state.details(beverage),
        ) by {
            if seen.contains(beverage) {
                let i = choose|i: int|
                    0 <= i < before.len() && before[i] == state.details(beverage);
                assert(after[i] == state.details(beverage));
            } else {
                assert(after[before.len() as int] == state.details(beverage));
            }
        }
        assert forall|i: int, j: int| 0 <= i < j < after.len() implies (#[trigger] after[i]).beverage
            != (#[trigger] after[j]).beverage by {
            assert(after[i] == before[i]);
            if j < before.len() {
                assert(after[j] == before[j]);
            }
        }
    }
}

/// A beverage for which the machine never answered has no entry in the
/// finished list, and every other beverage is taken as if it had not been
/// asked for at all: each harvested beverage has its entry.
pub proof fn lemma_unanswered_beverage_is_left_out(
    state: RecipeAccumulatorView,
    beverage: EcamBeverageId,
)
    requires
        !state.recipe.contains_key(beverage) || !state.recipe_min_max.contains_key(beverage),
    ensures
        forall|i: int| 0 <= i < state.take().len() ==> state.take()[i].beverage != beverage,
        forall|other: EcamBeverageId|
            state.beverages.contains(other) && state.harvested(other) ==> state.take().contains(
                #[trigger] state.details(other),
            ),
{
    lemma_taken(state, state.beverages.len() as int);
    assert(state.beverages.take(state.beverages.len() as int) == state.beverages);
}

} // verus!
