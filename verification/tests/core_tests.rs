use oregon_trail::date::Date;
use oregon_trail::mileage::turn_miles;
use oregon_trail::supplies::{BuyError, BuyErrorType, Supplies, UseError};
use oregon_trail::text::decimal_string;
use oregon_trail::trip::{illness_for_rolls, Illness, MealChoice, Trip};

#[test]
fn test_full_outfitting_scenario() {
    let mut supplies = Supplies::new();
    assert_eq!(700, supplies.money_left());
    supplies.buy_oxen(200).unwrap();
    assert_eq!(500, supplies.money_left());
    supplies.buy_food(10).unwrap();
    supplies.buy_ammo(20).unwrap();
    supplies.buy_clothes(30).unwrap();
    supplies.buy_misc(40).unwrap();
    assert_eq!(400, supplies.money_left());
    assert_eq!(200, supplies.oxen_left());
    assert_eq!(10, supplies.food_left());
    assert_eq!(20, supplies.ammo_left());
    assert_eq!(30, supplies.clothes_left());
    assert_eq!(40, supplies.misc_left());
    assert_eq!(
        "\t\x1B[36mFood\x1B[0m\t\x1B[35mAmmo\x1B[0m\t\x1B[34mClothes\x1B[0m\t\x1B[33mMisc\x1B[0m\t\x1B[32mMoney\x1B[0m\n\t10\t20\t30\t40\t400\n",
        supplies.status_line()
    );
}

#[test]
fn test_spend_success_and_failure() {
    let mut supplies = Supplies::new();
    supplies.spend(650).unwrap();
    assert_eq!(50, supplies.money_left());
    let err = supplies.spend(51).unwrap_err();
    assert_eq!(
        BuyError {
            min_required: 20,
            max_allowed: 20,
            requested: 51,
            available: 50,
            reason: BuyErrorType::InsufficientFunds,
        },
        err
    );
    assert_eq!(50, supplies.money_left());
}

#[test]
fn test_use_misc_success_and_failure() {
    let mut supplies = Supplies::new();
    supplies.buy_misc(7).unwrap();
    supplies.use_misc(5).unwrap();
    assert_eq!(2, supplies.misc_left());
    let err = supplies.use_misc(5).unwrap_err();
    assert_eq!(UseError { requested: 5, available: 2 }, err);
    assert_eq!(2, supplies.misc_left());
}

#[test]
fn test_got_sick_without_supplies_propagates() {
    let mut trip = Trip::new();
    trip.travel(200);
    let mut supplies = Supplies::new();
    supplies.buy_misc(1).unwrap();
    let err = trip.got_sick(Illness::Bad, &mut supplies).unwrap_err();
    assert_eq!(UseError { requested: 5, available: 1 }, err);
    assert_eq!(1, supplies.misc_left());
    assert_eq!(699, supplies.money_left());
    assert_eq!("", trip.health_issue());
    assert_eq!(false, trip.need_doctor());
    assert_eq!(200, trip.miles_traveled());
}

#[test]
fn test_visit_doctor_without_money() {
    let mut trip = Trip::new();
    trip.travel(200);
    let mut supplies = Supplies::new();
    supplies.spend(690).unwrap();
    trip.got_sick(Illness::Serious, &mut supplies).unwrap();
    let err = trip.visit_doctor(&mut supplies).unwrap_err();
    assert_eq!(BuyErrorType::InsufficientFunds, err.reason);
    assert_eq!(20, err.requested);
    assert_eq!(10, err.available);
    assert_eq!(true, trip.need_doctor());
    assert_eq!(10, supplies.money_left());
}

#[test]
fn test_buyerror_messages_exact() {
    let too_little = BuyError {
        min_required: 200,
        max_allowed: 300,
        requested: 0,
        available: 700,
        reason: BuyErrorType::TooLittle,
    };
    assert_eq!("\tYou must spend at least $200", too_little.message());
    let too_much = BuyError {
        min_required: 200,
        max_allowed: 300,
        requested: 301,
        available: 700,
        reason: BuyErrorType::TooMuch,
    };
    assert_eq!("\tYou may not spend more than $300", too_much.message());
    let insufficient = BuyError {
        min_required: 0,
        max_allowed: 700,
        requested: 1000,
        available: 700,
        reason: BuyErrorType::InsufficientFunds,
    };
    assert_eq!(
        "\tUnable to spend $1000, you only have $700 available.",
        insufficient.message()
    );
}

#[test]
fn test_decimal_rendering() {
    assert_eq!("0", decimal_string(0));
    assert_eq!("7", decimal_string(7));
    assert_eq!("700", decimal_string(700));
    assert_eq!("1050", decimal_string(1050));
    assert_eq!("4294967295", decimal_string(u32::MAX));
}

#[test]
fn test_premium_rounds_down() {
    let mut supplies = Supplies::new();
    supplies.set_premium(333);
    supplies.buy_food(200).unwrap();
    assert_eq!(133, supplies.food_left());
    assert_eq!(500, supplies.money_left());
}

#[test]
fn test_turn_miles_exact_values() {
    assert_eq!(216, turn_miles(200, 300, 0));
    assert_eq!(205, turn_miles(200, 300, 9));
    assert_eq!(196, turn_miles(200, 200, 0));
    assert_eq!(199, turn_miles(200, 200, 9));
    assert_eq!(156, turn_miles(200, 0, 0));
}

#[test]
fn test_trip_turn_below_oxen_threshold() {
    let mut trip = Trip::new();
    trip.travel(200);
    trip.turn(200);
    assert!(trip.miles_traveled() >= 396);
    assert!(trip.miles_traveled() <= 399);
}

#[test]
fn test_turn_advances_date_two_weeks() {
    let mut trip = Trip::new();
    trip.turn(300);
    assert_eq!(Date { year: 1847, month: 4, day: 12 }, trip.current_date());
    trip.turn(300);
    assert_eq!(Date { year: 1847, month: 4, day: 26 }, trip.current_date());
}

#[test]
fn test_illness_for_rolls_thresholds() {
    assert_eq!(Illness::Mild, illness_for_rolls(MealChoice::Poorly, 9, 0));
    assert_eq!(Illness::Bad, illness_for_rolls(MealChoice::Poorly, 10, 59));
    assert_eq!(Illness::Serious, illness_for_rolls(MealChoice::Poorly, 10, 60));
    assert_eq!(Illness::Mild, illness_for_rolls(MealChoice::Moderately, 44, 0));
    assert_eq!(Illness::Bad, illness_for_rolls(MealChoice::Moderately, 45, 89));
    assert_eq!(Illness::Serious, illness_for_rolls(MealChoice::Moderately, 45, 90));
    assert_eq!(Illness::Mild, illness_for_rolls(MealChoice::Well, 79, 0));
    assert_eq!(Illness::Bad, illness_for_rolls(MealChoice::Well, 80, 97));
    assert_eq!(Illness::Serious, illness_for_rolls(MealChoice::Well, 80, 98));
}

#[test]
fn test_better_diet_never_escalates_samples() {
    for first in 0..100 {
        for second in 0..100 {
            let poor = illness_for_rolls(MealChoice::Poorly, first, second);
            let well = illness_for_rolls(MealChoice::Well, first, second);
            let rank = |i: &Illness| match i {
                Illness::Mild => 0,
                Illness::Bad => 1,
                Illness::Serious => 2,
            };
            assert!(rank(&well) <= rank(&poor));
        }
    }
}
