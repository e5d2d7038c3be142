use longshot::ecam::hardware_enums::{
    EcamAccessory, EcamBeverageId, EcamBeverageTaste, EcamIngredients, EcamTemperature,
};
use longshot::operations::recipe_list::{
    typed_ingredient, IngredientInfo, RecipeAccumulator, RecipeDetails, RecipeList,
};
use longshot::protocol::command::{
    MachineState, MonitorState, ProfileResponse, RecipeInfo, RecipeMinMaxInfo, Response,
};
use longshot::protocol::machine_enum::{MachineEnum, MachineEnumerable};

fn value(ingredient: EcamIngredients, value: u16) -> RecipeInfo {
    RecipeInfo {
        ingredient: MachineEnum::Value(ingredient),
        value,
    }
}

fn bounds(ingredient: EcamIngredients, min: u16, value: u16, max: u16) -> RecipeMinMaxInfo {
    RecipeMinMaxInfo {
        ingredient: MachineEnum::Value(ingredient),
        min,
        value,
        max,
    }
}

fn quantities(beverage: EcamBeverageId, records: Vec<RecipeInfo>) -> Response {
    Response::Profile(ProfileResponse::RecipeQuantities(Some((
        1,
        MachineEnum::Value(beverage),
        records,
    ))))
}

fn min_max(beverage: EcamBeverageId, records: Vec<RecipeMinMaxInfo>) -> Response {
    Response::Profile(ProfileResponse::RecipeMinMax(
        MachineEnum::Value(beverage),
        records,
    ))
}

fn details(recipe: Vec<RecipeInfo>, recipe_min_max: Vec<RecipeMinMaxInfo>) -> RecipeDetails {
    let beverage = EcamBeverageId::Cappuccino;
    let mut accumulator = RecipeAccumulator::limited_to(vec![beverage]);
    accumulator.accumulate_packet(beverage, quantities(beverage, recipe));
    accumulator.accumulate_packet(beverage, min_max(beverage, recipe_min_max));
    let mut list = accumulator.take();
    assert_eq!(list.recipes.len(), 1);
    list.recipes.remove(0)
}

fn beverages_of(list: &RecipeList) -> Vec<EcamBeverageId> {
    list.recipes.iter().map(|r| r.beverage).collect()
}

#[test]
fn new_accumulator_waits_for_the_whole_catalog() {
    let accumulator = RecipeAccumulator::new();
    let remaining = accumulator.get_remaining_beverages();
    assert_eq!(remaining.len(), 27);
    assert_eq!(remaining[0], EcamBeverageId::EspressoCoffee);
    assert_eq!(remaining[6], EcamBeverageId::Cappuccino);
    assert_eq!(remaining[26], EcamBeverageId::BrewOverIce);
    let codes: Vec<u8> = remaining.iter().map(|b| b.to_code()).collect();
    assert_eq!(codes, (1..=27u8).collect::<Vec<u8>>());
    assert!(accumulator.take().recipes.is_empty());
}

#[test]
fn limited_accumulator_keeps_the_given_order() {
    let beverages = vec![
        EcamBeverageId::Tea,
        EcamBeverageId::EspressoCoffee,
        EcamBeverageId::HotWater,
    ];
    let accumulator = RecipeAccumulator::limited_to(beverages.clone());
    assert_eq!(accumulator.get_remaining_beverages(), beverages);
    for beverage in beverages {
        assert!(!accumulator.is_complete(beverage));
        assert!(!accumulator.is_empty(beverage));
    }
}

#[test]
fn empty_recipe_list_completes_at_once() {
    let beverage = EcamBeverageId::Steam;
    let mut accumulator =
        RecipeAccumulator::limited_to(vec![EcamBeverageId::Tea, beverage]);
    accumulator.accumulate_packet(beverage, quantities(beverage, vec![]));
    assert!(accumulator.is_empty(beverage));
    assert!(accumulator.is_complete(beverage));
    assert_eq!(
        accumulator.get_remaining_beverages(),
        vec![EcamBeverageId::Tea]
    );
    assert!(accumulator.take().recipes.is_empty());
}

#[test]
fn empty_min_max_list_completes_at_once() {
    let beverage = EcamBeverageId::Steam;
    let mut accumulator = RecipeAccumulator::limited_to(vec![beverage]);
    accumulator.accumulate_packet(beverage, min_max(beverage, vec![]));
    assert!(accumulator.is_empty(beverage));
    assert!(accumulator.is_complete(beverage));
    assert!(accumulator.get_remaining_beverages().is_empty());
}

#[test]
fn one_list_alone_does_not_complete() {
    let beverage = EcamBeverageId::Americano;
    let mut accumulator = RecipeAccumulator::limited_to(vec![beverage]);
    accumulator.accumulate_packet(
        beverage,
        quantities(beverage, vec![value(EcamIngredients::Coffee, 40)]),
    );
    assert!(!accumulator.is_complete(beverage));
    assert!(!accumulator.is_empty(beverage));
    assert_eq!(accumulator.get_remaining_beverages(), vec![beverage]);
    accumulator.accumulate_packet(
        beverage,
        min_max(beverage, vec![bounds(EcamIngredients::Coffee, 20, 40, 180)]),
    );
    assert!(accumulator.is_complete(beverage));
    assert!(!accumulator.is_empty(beverage));
    assert!(accumulator.get_remaining_beverages().is_empty());
}

#[test]
fn records_for_another_beverage_are_ignored() {
    let expected = EcamBeverageId::Americano;
    let other = EcamBeverageId::Tea;
    let mut accumulator = RecipeAccumulator::limited_to(vec![expected, other]);
    accumulator.accumulate_packet(expected, quantities(other, vec![]));
    accumulator.accumulate_packet(expected, min_max(other, vec![]));
    assert!(!accumulator.is_complete(expected));
    assert!(!accumulator.is_complete(other));
    assert_eq!(accumulator.get_remaining_beverages(), vec![expected, other]);
}

#[test]
fn spurious_responses_are_ignored() {
    let beverage = EcamBeverageId::Americano;
    let mut accumulator = RecipeAccumulator::limited_to(vec![beverage]);
    accumulator.accumulate_packet(beverage, Response::Raw);
    accumulator.accumulate_packet(
        beverage,
        Response::Profile(ProfileResponse::RecipeQuantities(None)),
    );
    accumulator.accumulate_packet(
        beverage,
        Response::Profile(ProfileResponse::RecipeQuantities(Some((
            1,
            MachineEnum::Unknown(6),
            vec![],
        )))),
    );
    accumulator.accumulate_packet(
        beverage,
        Response::State(MonitorState {
            state: MachineState::Ready,
            accessory: MachineEnum::Unknown(0),
            progress: 0,
            percentage: 0,
            load0: 0,
            load1: 0,
            raw: vec![],
        }),
    );
    assert!(!accumulator.is_complete(beverage));
    assert!(!accumulator.is_empty(beverage));
    assert_eq!(accumulator.get_remaining_beverages(), vec![beverage]);
}

#[test]
fn later_records_replace_earlier_ones() {
    let beverage = EcamBeverageId::Americano;
    let mut accumulator = RecipeAccumulator::limited_to(vec![beverage]);
    accumulator.accumulate_packet(beverage, quantities(beverage, vec![]));
    assert!(accumulator.is_complete(beverage));
    accumulator.accumulate_packet(
        beverage,
        quantities(beverage, vec![value(EcamIngredients::Coffee, 40)]),
    );
    assert!(!accumulator.is_complete(beverage));
    accumulator.accumulate_packet(
        beverage,
        min_max(beverage, vec![bounds(EcamIngredients::Coffee, 20, 40, 180)]),
    );
    let list = accumulator.take();
    assert_eq!(
        list.recipes[0].fetch_ingredients(),
        vec![IngredientInfo::Coffee(20, 40, 180)]
    );
}

#[test]
fn unanswered_beverage_is_left_out_of_the_list() {
    let answered = EcamBeverageId::Americano;
    let silent = EcamBeverageId::Tea;
    let half = EcamBeverageId::Cortado;
    let mut accumulator = RecipeAccumulator::limited_to(vec![silent, answered, half]);
    accumulator.accumulate_packet(
        answered,
        quantities(answered, vec![value(EcamIngredients::Coffee, 40)]),
    );
    accumulator.accumulate_packet(
        answered,
        min_max(answered, vec![bounds(EcamIngredients::Coffee, 20, 40, 180)]),
    );
    accumulator.accumulate_packet(
        half,
        quantities(half, vec![value(EcamIngredients::Coffee, 40)]),
    );
    assert_eq!(accumulator.get_remaining_beverages(), vec![silent, half]);
    let list = accumulator.take();
    assert_eq!(beverages_of(&list), vec![answered]);
    assert!(list.find(silent).is_none());
    assert!(list.find(half).is_none());
    assert_eq!(list.find(answered).unwrap().beverage, answered);
}

#[test]
fn take_keeps_the_order_of_the_accumulator() {
    let order = vec![
        EcamBeverageId::Tea,
        EcamBeverageId::EspressoCoffee,
        EcamBeverageId::Cortado,
    ];
    let mut accumulator = RecipeAccumulator::limited_to(order.clone());
    for beverage in [
        EcamBeverageId::Cortado,
        EcamBeverageId::Tea,
        EcamBeverageId::EspressoCoffee,
    ] {
        accumulator.accumulate_packet(
            beverage,
            quantities(beverage, vec![value(EcamIngredients::Coffee, 40)]),
        );
        accumulator.accumulate_packet(
            beverage,
            min_max(beverage, vec![bounds(EcamIngredients::Coffee, 20, 40, 180)]),
        );
    }
    assert_eq!(beverages_of(&accumulator.take()), order);
}

#[test]
fn take_gives_each_beverage_once() {
    let beverage = EcamBeverageId::Tea;
    let mut accumulator =
        RecipeAccumulator::limited_to(vec![beverage, EcamBeverageId::Cortado, beverage]);
    accumulator.accumulate_packet(
        beverage,
        quantities(beverage, vec![value(EcamIngredients::HotWater, 150)]),
    );
    accumulator.accumulate_packet(
        beverage,
        min_max(beverage, vec![bounds(EcamIngredients::HotWater, 20, 150, 420)]),
    );
    assert_eq!(beverages_of(&accumulator.take()), vec![beverage]);
}

#[test]
fn take_leaves_out_beverages_with_an_empty_list() {
    let beverage = EcamBeverageId::Tea;
    let mut accumulator = RecipeAccumulator::limited_to(vec![beverage]);
    accumulator.accumulate_packet(
        beverage,
        quantities(beverage, vec![value(EcamIngredients::HotWater, 150)]),
    );
    accumulator.accumulate_packet(beverage, min_max(beverage, vec![]));
    assert!(accumulator.is_complete(beverage));
    assert!(accumulator.take().recipes.is_empty());
}

#[test]
fn find_gives_the_entry_of_a_beverage() {
    let mut accumulator = RecipeAccumulator::new();
    for beverage in [EcamBeverageId::Cortado, EcamBeverageId::Tea] {
        accumulator.accumulate_packet(
            beverage,
            quantities(beverage, vec![value(EcamIngredients::Coffee, beverage.to_code() as u16)]),
        );
        accumulator.accumulate_packet(
            beverage,
            min_max(beverage, vec![bounds(EcamIngredients::Coffee, 1, 2, 300)]),
        );
    }
    let list = accumulator.take();
    assert_eq!(
        beverages_of(&list),
        vec![EcamBeverageId::Tea, EcamBeverageId::Cortado]
    );
    let tea = list.find(EcamBeverageId::Tea).unwrap();
    assert_eq!(tea.beverage, EcamBeverageId::Tea);
    assert_eq!(
        tea.fetch_ingredients(),
        vec![IngredientInfo::Coffee(1, 22, 300)]
    );
    let cortado = list.find(EcamBeverageId::Cortado).unwrap();
    assert_eq!(
        cortado.fetch_ingredients(),
        vec![IngredientInfo::Coffee(1, 24, 300)]
    );
    assert!(list.find(EcamBeverageId::Steam).is_none());
}

#[test]
fn quantities_carry_bounds_and_value() {
    let recipe = details(
        vec![
            value(EcamIngredients::HotWater, 150),
            value(EcamIngredients::Milk, 90),
            value(EcamIngredients::Coffee, 40),
        ],
        vec![
            bounds(EcamIngredients::Coffee, 20, 45, 180),
            bounds(EcamIngredients::Milk, 50, 95, 750),
            bounds(EcamIngredients::HotWater, 30, 155, 420),
        ],
    );
    assert_eq!(
        recipe.fetch_ingredients(),
        vec![
            IngredientInfo::Coffee(20, 40, 180),
            IngredientInfo::Milk(50, 90, 750),
            IngredientInfo::HotWater(30, 150, 420),
        ]
    );
}

#[test]
fn ingredients_come_in_the_machine_order() {
    let recipe = details(
        vec![
            value(EcamIngredients::Accessorio, 2),
            value(EcamIngredients::HotWater, 150),
            value(EcamIngredients::Inversion, 0),
            value(EcamIngredients::Milk, 90),
            value(EcamIngredients::DueXPer, 0),
            value(EcamIngredients::Taste, 3),
            value(EcamIngredients::Coffee, 40),
            value(EcamIngredients::Temp, 2),
            value(EcamIngredients::Visible, 1),
            value(EcamIngredients::IndexLength, 1),
        ],
        vec![
            bounds(EcamIngredients::Temp, 0, 0, 3),
            bounds(EcamIngredients::Coffee, 20, 40, 180),
            bounds(EcamIngredients::Taste, 0, 3, 5),
            bounds(EcamIngredients::DueXPer, 0, 1, 1),
            bounds(EcamIngredients::Milk, 50, 90, 750),
            bounds(EcamIngredients::Inversion, 1, 0, 1),
            bounds(EcamIngredients::HotWater, 30, 150, 420),
            bounds(EcamIngredients::Visible, 0, 1, 1),
            bounds(EcamIngredients::IndexLength, 0, 1, 1),
        ],
    );
    assert_eq!(
        recipe.fetch_ingredients(),
        vec![
            IngredientInfo::Temperature(EcamTemperature::Low),
            IngredientInfo::Coffee(20, 40, 180),
            IngredientInfo::Taste(EcamBeverageTaste::Normal),
            IngredientInfo::Brew2(true, false),
            IngredientInfo::Milk(50, 90, 750),
            IngredientInfo::Inversion(false, true),
            IngredientInfo::HotWater(30, 150, 420),
            IngredientInfo::Accessory(EcamAccessory::Milk),
        ]
    );
}

#[test]
fn ingredient_needs_both_records() {
    let recipe = details(
        vec![
            value(EcamIngredients::Coffee, 40),
            value(EcamIngredients::Milk, 90),
        ],
        vec![
            bounds(EcamIngredients::Coffee, 20, 40, 180),
            bounds(EcamIngredients::HotWater, 30, 150, 420),
        ],
    );
    assert_eq!(
        recipe.fetch_ingredients(),
        vec![IngredientInfo::Coffee(20, 40, 180)]
    );
}

#[test]
fn last_record_of_an_ingredient_counts() {
    let recipe = details(
        vec![
            value(EcamIngredients::Coffee, 40),
            value(EcamIngredients::Coffee, 50),
        ],
        vec![
            bounds(EcamIngredients::Coffee, 20, 40, 180),
            bounds(EcamIngredients::Coffee, 25, 40, 185),
        ],
    );
    assert_eq!(
        recipe.fetch_ingredients(),
        vec![IngredientInfo::Coffee(25, 50, 185)]
    );
}

#[test]
fn unknown_ingredients_are_passed_over() {
    let recipe = details(
        vec![
            RecipeInfo {
                ingredient: MachineEnum::Unknown(1),
                value: 7,
            },
            value(EcamIngredients::Granulometry, 3),
        ],
        vec![
            RecipeMinMaxInfo {
                ingredient: MachineEnum::Unknown(1),
                min: 0,
                value: 7,
                max: 9,
            },
            bounds(EcamIngredients::Granulometry, 0, 3, 9),
        ],
    );
    assert_eq!(recipe.fetch_ingredients(), vec![]);
}

#[test]
fn accessory_is_read_from_the_value_alone() {
    let water = details(
        vec![value(EcamIngredients::Accessorio, 1)],
        vec![bounds(EcamIngredients::Coffee, 0, 0, 0)],
    );
    assert_eq!(
        water.fetch_ingredients(),
        vec![IngredientInfo::Accessory(EcamAccessory::Water)]
    );
    assert_eq!(
        typed_ingredient(
            EcamIngredients::Accessorio,
            Some(value(EcamIngredients::Accessorio, 2)),
            None
        ),
        Some(IngredientInfo::Accessory(EcamAccessory::Milk))
    );
    for other in [0u16, 3, 4, 257] {
        assert_eq!(
            typed_ingredient(
                EcamIngredients::Accessorio,
                Some(value(EcamIngredients::Accessorio, other)),
                Some(bounds(EcamIngredients::Accessorio, 0, 1, 2))
            ),
            None
        );
    }
    assert_eq!(
        typed_ingredient(
            EcamIngredients::Accessorio,
            None,
            Some(bounds(EcamIngredients::Accessorio, 0, 1, 2))
        ),
        None
    );
}

#[test]
fn taste_needs_the_bounds_zero_and_five() {
    let taste = |v: u16, min: u16, max: u16| {
        typed_ingredient(
            EcamIngredients::Taste,
            Some(value(EcamIngredients::Taste, v)),
            Some(bounds(EcamIngredients::Taste, min, 0, max)),
        )
    };
    assert_eq!(
        taste(0, 0, 5),
        Some(IngredientInfo::Taste(EcamBeverageTaste::Preground))
    );
    assert_eq!(
        taste(1, 0, 5),
        Some(IngredientInfo::Taste(EcamBeverageTaste::ExtraMild))
    );
    assert_eq!(
        taste(2, 0, 5),
        Some(IngredientInfo::Taste(EcamBeverageTaste::Mild))
    );
    assert_eq!(
        taste(3, 0, 5),
        Some(IngredientInfo::Taste(EcamBeverageTaste::Normal))
    );
    assert_eq!(
        taste(4, 0, 5),
        Some(IngredientInfo::Taste(EcamBeverageTaste::Strong))
    );
    assert_eq!(
        taste(5, 0, 5),
        Some(IngredientInfo::Taste(EcamBeverageTaste::ExtraStrong))
    );
    assert_eq!(taste(6, 0, 5), None);
    assert_eq!(
        taste(259, 0, 5),
        Some(IngredientInfo::Taste(EcamBeverageTaste::Normal))
    );
    assert_eq!(taste(3, 1, 5), None);
    assert_eq!(taste(3, 0, 4), None);
}

#[test]
fn flags_are_read_from_the_bounds_record() {
    let flag = |ingredient: EcamIngredients, min: u16, v: u16, max: u16| {
        typed_ingredient(
            ingredient,
            Some(value(ingredient, 9)),
            Some(bounds(ingredient, min, v, max)),
        )
    };
    assert_eq!(
        flag(EcamIngredients::Inversion, 0, 1, 1),
        Some(IngredientInfo::Inversion(true, false))
    );
    assert_eq!(
        flag(EcamIngredients::Inversion, 1, 1, 1),
        Some(IngredientInfo::Inversion(true, true))
    );
    assert_eq!(
        flag(EcamIngredients::Inversion, 0, 0, 0),
        Some(IngredientInfo::Inversion(false, true))
    );
    assert_eq!(
        flag(EcamIngredients::Inversion, 0, 2, 1),
        Some(IngredientInfo::Inversion(false, false))
    );
    assert_eq!(
        flag(EcamIngredients::DueXPer, 0, 1, 1),
        Some(IngredientInfo::Brew2(true, false))
    );
    assert_eq!(
        flag(EcamIngredients::DueXPer, 0, 0, 0),
        Some(IngredientInfo::Brew2(false, true))
    );
}

#[test]
fn layout_ingredients_have_no_typed_form() {
    for ingredient in [
        EcamIngredients::Visible,
        EcamIngredients::IndexLength,
        EcamIngredients::Programmable,
        EcamIngredients::Granulometry,
        EcamIngredients::MilkFroth,
    ] {
        assert_eq!(
            typed_ingredient(
                ingredient,
                Some(value(ingredient, 1)),
                Some(bounds(ingredient, 0, 1, 1))
            ),
            None
        );
    }
    assert_eq!(
        typed_ingredient(
            EcamIngredients::Temp,
            Some(value(EcamIngredients::Temp, 3)),
            Some(bounds(EcamIngredients::Temp, 0, 3, 3))
        ),
        Some(IngredientInfo::Temperature(EcamTemperature::Low))
    );
    assert_eq!(
        typed_ingredient(
            EcamIngredients::Coffee,
            Some(value(EcamIngredients::Coffee, 3)),
            None
        ),
        None
    );
    assert_eq!(
        typed_ingredient(
            EcamIngredients::Coffee,
            None,
            Some(bounds(EcamIngredients::Coffee, 0, 3, 3))
        ),
        None
    );
}
