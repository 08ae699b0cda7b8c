use workout_tracker::body_part::BodyPart;

#[test]
fn parse_accepts_each_keyword_exactly() {
    assert_eq!(BodyPart::to_enum("chest"), Some(BodyPart::Chest));
    assert_eq!(BodyPart::to_enum("back"), Some(BodyPart::Back));
    assert_eq!(BodyPart::to_enum("shoulders"), Some(BodyPart::Shoulders));
    assert_eq!(BodyPart::to_enum("triceps"), Some(BodyPart::Triceps));
    assert_eq!(BodyPart::to_enum("biceps"), Some(BodyPart::Biceps));
    assert_eq!(BodyPart::to_enum("abs"), Some(BodyPart::Abs));
    assert_eq!(BodyPart::to_enum("legs"), Some(BodyPart::Legs));
    assert_eq!(BodyPart::to_enum("calves"), Some(BodyPart::Calves));
}

#[test]
fn parse_ignores_case_and_surrounding_whitespace() {
    assert_eq!(BodyPart::to_enum(" CHEST "), Some(BodyPart::Chest));
    assert_eq!(BodyPart::to_enum("\tBack\n"), Some(BodyPart::Back));
    assert_eq!(BodyPart::to_enum("ShOuLdErS"), Some(BodyPart::Shoulders));
    assert_eq!(BodyPart::to_enum("  LEGS"), Some(BodyPart::Legs));
    assert_eq!(BodyPart::to_enum("Calves  "), Some(BodyPart::Calves));
}

#[test]
fn parse_rejects_everything_else() {
    assert_eq!(BodyPart::to_enum(""), None);
    assert_eq!(BodyPart::to_enum("   "), None);
    assert_eq!(BodyPart::to_enum("none"), None);
    assert_eq!(BodyPart::to_enum("None"), None);
    assert_eq!(BodyPart::to_enum("pecs"), None);
    assert_eq!(BodyPart::to_enum("chest muscle"), None);
    assert_eq!(BodyPart::to_enum("che st"), None);
    assert_eq!(BodyPart::to_enum("legz"), None);
}

#[test]
fn iteration_yields_the_eight_parts_in_declaration_order() {
    let parts = BodyPart::iterator();
    assert_eq!(parts.len(), 8);
    assert_eq!(parts[0], BodyPart::Chest);
    assert_eq!(parts[1], BodyPart::Back);
    assert_eq!(parts[2], BodyPart::Shoulders);
    assert_eq!(parts[3], BodyPart::Triceps);
    assert_eq!(parts[4], BodyPart::Biceps);
    assert_eq!(parts[5], BodyPart::Abs);
    assert_eq!(parts[6], BodyPart::Legs);
    assert_eq!(parts[7], BodyPart::Calves);
    for p in &parts {
        assert_ne!(*p, BodyPart::Unset);
    }
}

#[test]
fn iteration_is_restartable() {
    assert_eq!(BodyPart::iterator(), BodyPart::iterator());
    assert_eq!(BodyPart::iterator().len(), 8);
}

#[test]
fn names_are_spelled_as_declared() {
    assert_eq!(BodyPart::Chest.name(), "Chest");
    assert_eq!(BodyPart::Back.name(), "Back");
    assert_eq!(BodyPart::Shoulders.name(), "Shoulders");
    assert_eq!(BodyPart::Triceps.name(), "Triceps");
    assert_eq!(BodyPart::Biceps.name(), "Biceps");
    assert_eq!(BodyPart::Abs.name(), "Abs");
    assert_eq!(BodyPart::Legs.name(), "Legs");
    assert_eq!(BodyPart::Calves.name(), "Calves");
    assert_eq!(BodyPart::Unset.name(), "None");
}
