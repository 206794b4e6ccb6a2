use oregon_trail::meal::MealChoice;

#[test]
fn meal_u32_poorly() {
    assert_eq!(MealChoice::Poorly, MealChoice::from_u32(1));
}

#[test]
fn meal_poorly_food() {
    assert_eq!(8 + 5, MealChoice::to_food(MealChoice::Poorly));
}

#[test]
fn meal_u32_moderately() {
    assert_eq!(MealChoice::Moderately, MealChoice::from_u32(2));
}

#[test]
fn meal_moderately_food() {
    assert_eq!(8 + 10, MealChoice::to_food(MealChoice::Moderately));
}

#[test]
fn meal_u32_well() {
    assert_eq!(MealChoice::Well, MealChoice::from_u32(3));
}

#[test]
fn meal_well_food() {
    assert_eq!(8 + 15, MealChoice::to_food(MealChoice::Well));
}

#[test]
fn meal_u32_unknown() {
    assert_eq!(MealChoice::Unknown, MealChoice::from_u32(0));
    assert_eq!(MealChoice::Unknown, MealChoice::from_u32(6));
    assert_eq!(MealChoice::Unknown, MealChoice::from_u32(100));
}
