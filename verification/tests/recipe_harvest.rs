use longshot::ecam::hardware_enums::{EcamBeverageId, EcamIngredients};
use longshot::operations::recipe_harvest::{
    request_answered_by, HarvestAction, HarvestEvent, RecipeHarvest, RecipeRequestKind,
    MAX_PASSES, POLL_INTERVAL_MS, POLL_WINDOW_MS,
};
use longshot::operations::recipe_list::{IngredientInfo, RecipeAccumulator};
use longshot::protocol::command::{
    ProfileResponse, RecipeInfo, RecipeMinMaxInfo, Response,
};
use longshot::protocol::machine_enum::MachineEnum;

const MIN_MAX: RecipeRequestKind = RecipeRequestKind::RecipeMinMaxSync;
const QUANTITY: RecipeRequestKind = RecipeRequestKind::RecipeQuantityRead;

fn quantities(beverage: EcamBeverageId, coffee: u16) -> Response {
    Response::Profile(ProfileResponse::RecipeQuantities(Some((
        1,
        MachineEnum::Value(beverage),
        vec![RecipeInfo {
            ingredient: MachineEnum::Value(EcamIngredients::Coffee),
            value: coffee,
        }],
    ))))
}

fn no_quantities(beverage: EcamBeverageId) -> Response {
    Response::Profile(ProfileResponse::RecipeQuantities(Some((
        1,
        MachineEnum::Value(beverage),
        vec![],
    ))))
}

fn min_max(beverage: EcamBeverageId) -> Response {
    Response::Profile(ProfileResponse::RecipeMinMax(
        MachineEnum::Value(beverage),
        vec![RecipeMinMaxInfo {
            ingredient: MachineEnum::Value(EcamIngredients::Coffee),
            min: 20,
            value: 40,
            max: 180,
        }],
    ))
}

fn harvest_of(beverages: Vec<EcamBeverageId>) -> RecipeHarvest {
    RecipeHarvest::new(RecipeAccumulator::limited_to(beverages))
}

fn sent(harvest: &mut RecipeHarvest, kind: RecipeRequestKind, beverage: EcamBeverageId) {
    assert_eq!(harvest.action(), HarvestAction::Send(kind, beverage));
    harvest.handle(HarvestEvent::Sent);
    assert_eq!(harvest.action(), HarvestAction::Poll(POLL_INTERVAL_MS));
}

#[test]
fn harvest_constants() {
    assert_eq!(MAX_PASSES, 3);
    assert_eq!(POLL_WINDOW_MS, 500);
    assert_eq!(POLL_INTERVAL_MS, 50);
}

#[test]
fn nothing_to_harvest_finishes_at_once() {
    let harvest = harvest_of(vec![]);
    assert_eq!(harvest.action(), HarvestAction::Finish);
    assert!(harvest.is_finished());
    assert!(harvest.take().recipes.is_empty());
}

#[test]
fn answered_beverages_are_harvested_in_one_pass() {
    let first = EcamBeverageId::Cappuccino;
    let second = EcamBeverageId::EspressoCoffee;
    let mut harvest = harvest_of(vec![first, second]);
    assert!(!harvest.is_finished());

    sent(&mut harvest, MIN_MAX, first);
    harvest.handle(HarvestEvent::Packet(min_max(first), 10));
    sent(&mut harvest, QUANTITY, first);
    harvest.handle(HarvestEvent::Packet(quantities(first, 40), 20));

    sent(&mut harvest, MIN_MAX, second);
    harvest.handle(HarvestEvent::Packet(min_max(second), 30));
    sent(&mut harvest, QUANTITY, second);
    harvest.handle(HarvestEvent::Packet(quantities(second, 35), 40));

    assert_eq!(harvest.action(), HarvestAction::Finish);
    assert!(harvest.is_finished());
    let list = harvest.take();
    assert_eq!(list.recipes.len(), 2);
    assert_eq!(list.recipes[0].beverage, first);
    assert_eq!(
        list.recipes[0].fetch_ingredients(),
        vec![IngredientInfo::Coffee(20, 40, 180)]
    );
    assert_eq!(list.recipes[1].beverage, second);
    assert_eq!(
        list.recipes[1].fetch_ingredients(),
        vec![IngredientInfo::Coffee(20, 35, 180)]
    );
}

#[test]
fn silent_machine_is_asked_three_times() {
    let first = EcamBeverageId::Cappuccino;
    let second = EcamBeverageId::Tea;
    let mut harvest = harvest_of(vec![first, second]);
    let mut asked = Vec::new();
    let mut reports = 0;
    loop {
        match harvest.action() {
            HarvestAction::Send(kind, beverage) => {
                asked.push((kind, beverage));
                harvest.handle(HarvestEvent::Sent);
            }
            HarvestAction::Poll(wait) => {
                assert_eq!(wait, 50);
                harvest.handle(HarvestEvent::Quiet(500));
            }
            HarvestAction::Finish => break,
        }
        reports += 1;
        assert!(reports <= 24);
    }
    let pass = vec![
        (MIN_MAX, first),
        (QUANTITY, first),
        (MIN_MAX, second),
        (QUANTITY, second),
    ];
    assert_eq!(asked, [pass.clone(), pass.clone(), pass].concat());
    assert_eq!(reports, 24);
    assert!(harvest.take().recipes.is_empty());
}

#[test]
fn unanswered_beverage_does_not_stop_the_others() {
    let silent = EcamBeverageId::Tea;
    let answered = EcamBeverageId::Cappuccino;
    let mut harvest = harvest_of(vec![silent, answered]);
    let mut asked = Vec::new();
    loop {
        match harvest.action() {
            HarvestAction::Send(kind, beverage) => {
                asked.push((kind, beverage));
                harvest.handle(HarvestEvent::Sent);
            }
            HarvestAction::Poll(_) => {
                let event = match asked.last().unwrap() {
                    (RecipeRequestKind::RecipeMinMaxSync, EcamBeverageId::Cappuccino) => {
                        HarvestEvent::Packet(min_max(answered), 5)
                    }
                    (RecipeRequestKind::RecipeQuantityRead, EcamBeverageId::Cappuccino) => {
                        HarvestEvent::Packet(quantities(answered, 60), 5)
                    }
                    _ => HarvestEvent::Quiet(POLL_WINDOW_MS),
                };
                harvest.handle(event);
            }
            HarvestAction::Finish => break,
        }
    }
    assert_eq!(
        asked,
        vec![
            (MIN_MAX, silent),
            (QUANTITY, silent),
            (MIN_MAX, answered),
            (QUANTITY, answered),
            (MIN_MAX, silent),
            (QUANTITY, silent),
            (MIN_MAX, silent),
            (QUANTITY, silent),
        ]
    );
    let list = harvest.take();
    assert_eq!(list.recipes.len(), 1);
    assert_eq!(list.recipes[0].beverage, answered);
    assert!(list.find(silent).is_none());
    assert_eq!(
        list.find(answered).unwrap().fetch_ingredients(),
        vec![IngredientInfo::Coffee(20, 60, 180)]
    );
}

#[test]
fn lost_answer_is_asked_for_again_in_the_next_pass() {
    let beverage = EcamBeverageId::Cappuccino;
    let mut harvest = harvest_of(vec![beverage]);
    sent(&mut harvest, MIN_MAX, beverage);
    harvest.handle(HarvestEvent::Quiet(500));
    sent(&mut harvest, QUANTITY, beverage);
    harvest.handle(HarvestEvent::Packet(quantities(beverage, 40), 100));
    sent(&mut harvest, MIN_MAX, beverage);
    harvest.handle(HarvestEvent::Packet(min_max(beverage), 100));
    assert_eq!(harvest.action(), HarvestAction::Finish);
    assert_eq!(harvest.take().recipes.len(), 1);
}

#[test]
fn wait_lasts_until_the_window_closes() {
    let beverage = EcamBeverageId::Cappuccino;
    let mut harvest = harvest_of(vec![beverage]);
    sent(&mut harvest, MIN_MAX, beverage);
    for elapsed in [0u64, 50, 100, 450, 499] {
        harvest.handle(HarvestEvent::Quiet(elapsed));
        assert_eq!(harvest.action(), HarvestAction::Poll(50));
    }
    harvest.handle(HarvestEvent::Quiet(500));
    assert_eq!(harvest.action(), HarvestAction::Send(QUANTITY, beverage));
    harvest.handle(HarvestEvent::Sent);
    harvest.handle(HarvestEvent::Quiet(10_000));
    assert_eq!(harvest.action(), HarvestAction::Send(MIN_MAX, beverage));
}

#[test]
fn unrelated_packet_keeps_the_wait_open() {
    let beverage = EcamBeverageId::Cappuccino;
    let mut harvest = harvest_of(vec![beverage]);
    sent(&mut harvest, MIN_MAX, beverage);
    harvest.handle(HarvestEvent::Packet(Response::Raw, 100));
    assert_eq!(harvest.action(), HarvestAction::Poll(50));
    harvest.handle(HarvestEvent::Packet(quantities(beverage, 40), 200));
    assert_eq!(harvest.action(), HarvestAction::Poll(50));
    harvest.handle(HarvestEvent::Packet(Response::Raw, 500));
    assert_eq!(harvest.action(), HarvestAction::Send(QUANTITY, beverage));
    sent(&mut harvest, QUANTITY, beverage);
    harvest.handle(HarvestEvent::Packet(min_max(beverage), 0));
    assert_eq!(harvest.action(), HarvestAction::Finish);
    assert_eq!(harvest.take().recipes.len(), 1);
}

#[test]
fn answer_for_another_beverage_ends_the_wait_without_being_kept() {
    let beverage = EcamBeverageId::Cappuccino;
    let other = EcamBeverageId::Tea;
    let mut harvest = harvest_of(vec![beverage]);
    sent(&mut harvest, MIN_MAX, beverage);
    harvest.handle(HarvestEvent::Packet(min_max(other), 10));
    sent(&mut harvest, QUANTITY, beverage);
    harvest.handle(HarvestEvent::Packet(quantities(other, 40), 10));
    sent(&mut harvest, MIN_MAX, beverage);
    harvest.handle(HarvestEvent::Cancelled);
    assert!(harvest.take().recipes.is_empty());
}

#[test]
fn empty_recipe_ends_the_beverage_without_a_second_request() {
    let empty = EcamBeverageId::Steam;
    let next = EcamBeverageId::Tea;
    let mut harvest = harvest_of(vec![empty, next]);
    sent(&mut harvest, MIN_MAX, empty);
    harvest.handle(HarvestEvent::Packet(no_quantities(empty), 10));
    assert_eq!(harvest.action(), HarvestAction::Send(MIN_MAX, next));
    harvest.handle(HarvestEvent::Cancelled);
    assert!(harvest.take().recipes.is_empty());
}

#[test]
fn failed_send_is_passed_over() {
    let beverage = EcamBeverageId::Cappuccino;
    let mut harvest = harvest_of(vec![beverage]);
    let mut asked = Vec::new();
    loop {
        match harvest.action() {
            HarvestAction::Send(kind, beverage) => {
                asked.push((kind, beverage));
                harvest.handle(HarvestEvent::SendFailed);
            }
            HarvestAction::Poll(_) => panic!("nothing was sent"),
            HarvestAction::Finish => break,
        }
    }
    assert_eq!(asked.len(), 6);
    assert_eq!(asked[0], (MIN_MAX, beverage));
    assert_eq!(asked[1], (QUANTITY, beverage));
    assert_eq!(asked[5], (QUANTITY, beverage));
}

#[test]
fn cancelling_finishes_with_what_was_collected() {
    let first = EcamBeverageId::Cappuccino;
    let second = EcamBeverageId::Tea;
    let mut harvest = harvest_of(vec![first, second]);
    sent(&mut harvest, MIN_MAX, first);
    harvest.handle(HarvestEvent::Packet(min_max(first), 10));
    sent(&mut harvest, QUANTITY, first);
    harvest.handle(HarvestEvent::Packet(quantities(first, 40), 20));
    assert_eq!(harvest.action(), HarvestAction::Send(MIN_MAX, second));
    harvest.handle(HarvestEvent::Cancelled);
    assert_eq!(harvest.action(), HarvestAction::Finish);
    assert!(harvest.is_finished());
    let list = harvest.take();
    assert_eq!(list.recipes.len(), 1);
    assert_eq!(list.recipes[0].beverage, first);
}

#[test]
fn reports_out_of_turn_change_nothing() {
    let beverage = EcamBeverageId::Cappuccino;
    let mut harvest = harvest_of(vec![beverage]);
    harvest.handle(HarvestEvent::Quiet(1000));
    harvest.handle(HarvestEvent::Packet(no_quantities(beverage), 1000));
    assert_eq!(harvest.action(), HarvestAction::Send(MIN_MAX, beverage));
    harvest.handle(HarvestEvent::Sent);
    harvest.handle(HarvestEvent::Sent);
    harvest.handle(HarvestEvent::SendFailed);
    assert_eq!(harvest.action(), HarvestAction::Poll(50));
    harvest.handle(HarvestEvent::Cancelled);
    harvest.handle(HarvestEvent::Sent);
    harvest.handle(HarvestEvent::Packet(min_max(beverage), 0));
    harvest.handle(HarvestEvent::Quiet(0));
    assert_eq!(harvest.action(), HarvestAction::Finish);
    assert!(harvest.take().recipes.is_empty());
}

#[test]
fn complete_beverages_are_not_asked_for() {
    let done = EcamBeverageId::Steam;
    let open = EcamBeverageId::Tea;
    let mut accumulator = RecipeAccumulator::limited_to(vec![done, open]);
    accumulator.accumulate_packet(done, no_quantities(done));
    let harvest = RecipeHarvest::new(accumulator);
    assert_eq!(harvest.action(), HarvestAction::Send(MIN_MAX, open));
}

#[test]
fn responses_answer_the_request_of_their_kind() {
    let beverage = EcamBeverageId::Cappuccino;
    assert_eq!(request_answered_by(&min_max(beverage)), Some(MIN_MAX));
    assert_eq!(request_answered_by(&quantities(beverage, 1)), Some(QUANTITY));
    assert_eq!(
        request_answered_by(&Response::Profile(ProfileResponse::RecipeQuantities(None))),
        Some(QUANTITY)
    );
    assert_eq!(request_answered_by(&Response::Raw), None);
}
