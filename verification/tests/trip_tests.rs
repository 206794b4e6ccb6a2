use oregon_trail::date::Date;
use oregon_trail::supplies::Supplies;
use oregon_trail::trip::{Illness, MealChoice, Trip};

#[test]
fn test_trip_constructor() {
    let trip = Trip::new();
    assert_eq!(0, trip.miles_traveled());
    assert_eq!(Date { year: 1847, month: 3, day: 29 }, trip.current_date());
    assert_eq!(false, trip.need_doctor());
    assert_eq!("", trip.health_issue());
    assert_eq!(MealChoice::Well, trip.last_meal);
}

#[test]
fn test_trip_travel() {
    let mut trip = Trip::new();
    trip.travel(200);
    assert_eq!(200, trip.miles_traveled());
}

#[test]
fn test_trip_reverse() {
    let mut trip = Trip::new();
    trip.travel(200);
    trip.reverse(100);
    assert_eq!(100, trip.miles_traveled());
}

#[test]
fn test_trip_turn() {
    let mut trip = Trip::new();
    trip.turn(300);
    assert!(trip.miles_traveled() > 190);
    assert!(trip.miles_traveled() < 220);
}

#[test]
fn test_illness_eat_poor() {
    let trip = Trip::new();
    let mut mild = 0;
    let mut bad = 0;
    let mut serious = 0;
    for _ in 0..1000 {
        match trip.get_illness(MealChoice::Poorly) {
            Illness::Mild => mild += 1,
            Illness::Bad => bad += 1,
            Illness::Serious => serious += 1,
        }
    }
    assert_eq!(1000, mild + bad + serious);
    assert!(mild > 50);
    assert!(bad > 10);
    assert!(serious >= 1);
}

#[test]
fn test_illness_eat_moderately() {
    let trip = Trip::new();
    let mut mild = 0;
    let mut bad = 0;
    let mut serious = 0;
    for _ in 0..1000 {
        match trip.get_illness(MealChoice::Moderately) {
            Illness::Mild => mild += 1,
            Illness::Bad => bad += 1,
            Illness::Serious => serious += 1,
        }
    }
    assert_eq!(1000, mild + bad + serious);
    assert!(mild > 50);
    assert!(bad > 10);
}

#[test]
fn test_illness_eat_well() {
    let trip = Trip::new();
    let mut mild = 0;
    let mut bad = 0;
    let mut serious = 0;
    for _ in 0..1000 {
        match trip.get_illness(MealChoice::Well) {
            Illness::Mild => mild += 1,
            Illness::Bad => bad += 1,
            Illness::Serious => serious += 1,
        }
    }
    assert_eq!(1000, mild + bad + serious);
    assert!(mild > 50);
    assert!(bad > 10);
}

#[test]
fn test_got_sick_mild() {
    let mut trip = Trip::new();
    trip.travel(200);
    let mut supplies = Supplies::new();
    supplies.buy_misc(200).unwrap();
    trip.got_sick(Illness::Mild, &mut supplies).unwrap();
    assert_eq!("your illness", trip.health_issue());
    assert_eq!(false, trip.need_doctor());
    assert_eq!(198, supplies.misc_left());
    assert_eq!(195, trip.miles_traveled());
}

#[test]
fn test_got_sick_bad() {
    let mut trip = Trip::new();
    trip.travel(200);
    let mut supplies = Supplies::new();
    supplies.buy_misc(200).unwrap();
    trip.got_sick(Illness::Bad, &mut supplies).unwrap();
    assert_eq!("your illness", trip.health_issue());
    assert_eq!(false, trip.need_doctor());
    assert_eq!(195, supplies.misc_left());
    assert_eq!(195, trip.miles_traveled());
}

#[test]
fn test_got_sick_serious() {
    let mut trip = Trip::new();
    trip.travel(200);
    let mut supplies = Supplies::new();
    trip.got_sick(Illness::Serious, &mut supplies).unwrap();
    assert_eq!(true, trip.need_doctor());
    assert_eq!("your illness", trip.health_issue());
    assert_eq!(190, trip.miles_traveled());
}

#[test]
fn test_visit_doctor() {
    let mut trip = Trip::new();
    trip.travel(200);
    let mut supplies = Supplies::new();
    trip.got_sick(Illness::Serious, &mut supplies).unwrap();
    assert_eq!(true, trip.need_doctor());
    trip.visit_doctor(&mut supplies).unwrap();
    assert_eq!(680, supplies.money_left());
    assert_eq!(false, trip.need_doctor());
}
