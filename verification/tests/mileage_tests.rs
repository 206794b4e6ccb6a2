use oregon_trail::mileage::Mileage;

#[test]
fn test_mileage_constructor() {
    let mileage = Mileage::new();
    assert_eq!(0, mileage.traveled());
}

#[test]
fn test_mileage_travel() {
    let mut mileage = Mileage::new();
    mileage.travel(200);
    assert_eq!(200, mileage.traveled());
}

#[test]
fn test_mileage_reverse() {
    let mut mileage = Mileage::new();
    mileage.travel(200);
    mileage.reverse(100);
    assert_eq!(100, mileage.traveled());
}

#[test]
fn test_mileage_turn() {
    let mut mileage = Mileage::new();
    mileage.turn(200, 300);
    assert!(mileage.traveled() > 200);
    assert!(mileage.traveled() < 300);
}
