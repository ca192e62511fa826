use restaurant::garden::vegetables::Asparagus;
use restaurant::growing_message;

#[test]
fn growing_message_names_asparagus() {
    let plant = Asparagus {};
    assert_eq!(growing_message(&plant), "I'm growing Asparagus!");
}

#[test]
fn growing_message_matches_debug_form() {
    let plant = Asparagus {};
    assert_eq!(growing_message(&plant), format!("I'm growing {:?}!", plant));
}

#[test]
fn growing_message_is_one_line() {
    let message = growing_message(&Asparagus {});
    assert_eq!(message.lines().count(), 1);
    assert!(!message.contains('\n'));
}

#[test]
fn asparagus_name_is_debug_form() {
    let plant = Asparagus {};
    assert_eq!(plant.name(), "Asparagus");
    assert_eq!(format!("{:?}", plant), plant.name());
}
