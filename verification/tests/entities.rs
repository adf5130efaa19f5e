use estimates::entity::clock::Timestamp;
use estimates::entity::error::Error;
use estimates::entity::estimate::Estimate;
use estimates::entity::section::Section;
use estimates::entity::traits::Identifiable;

fn at(secs: i64) -> Timestamp {
    Timestamp { secs, nanos: 0 }
}

fn section(id: u128, name: &str, sections: Vec<Section>) -> Section {
    Section {
        id,
        code: "Code".to_string(),
        name: name.to_string(),
        description: "Description".to_string(),
        sections,
        created_at: at(1),
        updated_at: at(2),
        estimate_id: None,
    }
}

#[test]
fn test_valid_name() {
    // Ten characters are fewer than the fifty that a name needs.
    assert!(Estimate::is_valid_name("Valid Name").is_err());

    assert!(Estimate::is_valid_name("A").is_err());

    let long_name = "a".repeat(101);
    assert!(Estimate::is_valid_name(&long_name).is_err());
}

#[test]
fn test_valid_description() {
    assert!(Estimate::is_valid_description("Valid Description").is_ok());

    // Five characters are within the 1 to 1000 that a description may have.
    assert!(Estimate::is_valid_description("Short").is_ok());

    let long_description = "a".repeat(1001);
    assert!(Estimate::is_valid_description(&long_description).is_err());
}

#[test]
fn test_valid_price() {
    assert!(Estimate::is_valid_price(f64::to_bits(10.0)).is_ok());

    assert!(Estimate::is_valid_price(f64::to_bits(0.0)).is_err());

    assert!(Estimate::is_valid_price(f64::to_bits(-10.0)).is_err());
}

#[test]
fn test_valid_location() {
    assert!(Estimate::is_valid_location("Valid Location").is_ok());

    assert!(Estimate::is_valid_location("A").is_err());

    let long_location = "a".repeat(101);
    assert!(Estimate::is_valid_location(&long_location).is_err());
}

#[test]
fn test_valid_price_guess() {
    assert!(Estimate::is_valid_price_guess(f64::to_bits(10.0)).is_ok());

    assert!(Estimate::is_valid_price_guess(f64::to_bits(0.0)).is_err());

    assert!(Estimate::is_valid_price_guess(f64::to_bits(-10.0)).is_err());
}

#[test]
fn estimate_name_bounds_are_50_and_100() {
    assert!(Estimate::is_valid_name(&"n".repeat(49)).is_err());
    assert!(Estimate::is_valid_name(&"n".repeat(50)).is_ok());
    assert!(Estimate::is_valid_name(&"n".repeat(100)).is_ok());
    assert!(Estimate::is_valid_name(&"n".repeat(101)).is_err());
}

#[test]
fn estimate_description_bounds_are_1_and_1000() {
    assert!(Estimate::is_valid_description("").is_err());
    assert!(Estimate::is_valid_description("d").is_ok());
    assert!(Estimate::is_valid_description(&"d".repeat(1000)).is_ok());
    assert!(Estimate::is_valid_description(&"d".repeat(1001)).is_err());
}

#[test]
fn estimate_location_bounds_are_3_and_100() {
    assert!(Estimate::is_valid_location("ab").is_err());
    assert!(Estimate::is_valid_location("abc").is_ok());
    assert!(Estimate::is_valid_location(&"l".repeat(100)).is_ok());
    assert!(Estimate::is_valid_location(&"l".repeat(101)).is_err());
}

#[test]
fn lengths_count_characters() {
    // Three characters, six bytes.
    assert!(Estimate::is_valid_location("äöü").is_ok());
    assert!(Estimate::is_valid_location("äö").is_err());
    // A hundred characters, two hundred bytes.
    assert!(Estimate::is_valid_location(&"ä".repeat(100)).is_ok());
}

#[test]
fn price_is_positive_exactly_for_numbers_above_zero() {
    assert!(Estimate::is_valid_price(f64::to_bits(f64::MIN_POSITIVE)).is_ok());
    assert!(Estimate::is_valid_price(1).is_ok());
    assert!(Estimate::is_valid_price(f64::to_bits(f64::MAX)).is_ok());
    assert!(Estimate::is_valid_price(f64::to_bits(f64::INFINITY)).is_ok());
    assert!(Estimate::is_valid_price(f64::to_bits(-0.0)).is_err());
    assert!(Estimate::is_valid_price(f64::to_bits(f64::NAN)).is_err());
    assert!(Estimate::is_valid_price(f64::to_bits(f64::NEG_INFINITY)).is_err());
    assert!(Estimate::is_valid_price(f64::to_bits(-f64::MIN_POSITIVE)).is_err());
    assert!(Estimate::is_valid_price(0x7ff0_0000_0000_0001).is_err());
    assert!(Estimate::is_valid_price(u64::MAX).is_err());
}

#[test]
fn price_check_agrees_with_the_comparison_of_doubles() {
    let samples: [f64; 9] =
        [0.0, -0.0, 1.0, -1.0, 1e-320, f64::MAX, f64::INFINITY, f64::NEG_INFINITY, f64::NAN];
    for x in samples {
        assert_eq!(Estimate::is_valid_price(x.to_bits()).is_ok(), x > 0.0);
        assert_eq!(Estimate::is_valid_price_guess(x.to_bits()).is_ok(), x > 0.0);
    }
}

#[test]
fn estimate_failures_name_the_entity_and_the_rule() {
    assert_eq!(
        Estimate::is_valid_name("short"),
        Err(Error::ValidationError {
            entity: "Estimate",
            message: "Name must be between 50 and 100 characters".to_string(),
        })
    );
    assert_eq!(
        Estimate::is_valid_description(""),
        Err(Error::ValidationError {
            entity: "Estimate",
            message: "Description must be between 1 and 1000 characters".to_string(),
        })
    );
    assert_eq!(
        Estimate::is_valid_price(0),
        Err(Error::ValidationError {
            entity: "Estimate",
            message: "Price must be greater than 0".to_string(),
        })
    );
    assert_eq!(
        Estimate::is_valid_location(""),
        Err(Error::ValidationError {
            entity: "Estimate",
            message: "Location must be between 3 and 100 characters".to_string(),
        })
    );
    assert_eq!(
        Estimate::is_valid_price_guess(0),
        Err(Error::ValidationError {
            entity: "Estimate",
            message: "Price guess must be greater than 0".to_string(),
        })
    );
}

#[test]
fn section_name_bounds_are_3_and_100() {
    assert!(Section::is_valid_name("ab").is_err());
    assert!(Section::is_valid_name("abc").is_ok());
    assert!(Section::is_valid_name(&"n".repeat(100)).is_ok());
    assert!(Section::is_valid_name(&"n".repeat(101)).is_err());
}

#[test]
fn section_description_bounds_are_10_and_1000() {
    assert!(Section::is_valid_description(&"d".repeat(9)).is_err());
    assert!(Section::is_valid_description(&"d".repeat(10)).is_ok());
    assert!(Section::is_valid_description(&"d".repeat(1000)).is_ok());
    assert!(Section::is_valid_description(&"d".repeat(1001)).is_err());
}

#[test]
fn section_holds_at_most_100_sections() {
    let mut children: Vec<Section> = Vec::new();
    assert!(Section::is_valid_sections(&children).is_ok());
    for i in 0..100u128 {
        children.push(section(i, "Child", vec![]));
    }
    assert!(Section::is_valid_sections(&children).is_ok());
    children.push(section(100, "Child", vec![]));
    assert_eq!(
        Section::is_valid_sections(&children),
        Err(Error::ValidationError {
            entity: "Section",
            message: "Sections must be at most 100".to_string(),
        })
    );
}

#[test]
fn section_failures_name_the_entity_and_the_rule() {
    assert_eq!(
        Section::is_valid_name(""),
        Err(Error::ValidationError {
            entity: "Section",
            message: "Name must be between 3 and 100 characters".to_string(),
        })
    );
    assert_eq!(
        Section::is_valid_description(""),
        Err(Error::ValidationError {
            entity: "Section",
            message: "Description must be between 10 and 1000 characters".to_string(),
        })
    );
}

#[test]
fn every_project_id_is_valid() {
    assert!(Section::is_valid_project_id(&0).is_ok());
    assert!(Section::is_valid_project_id(&u128::MAX).is_ok());
    assert!(Section::is_valid_project_id(&0x1234_5678_9abc_4def_8123_4567_89ab_cdef).is_ok());
}

#[test]
fn entities_report_their_id() {
    let s = section(7, "Name", vec![]);
    assert_eq!(s.id(), 7);
    let e = Estimate {
        id: 9,
        name: "Name".to_string(),
        description: "Description".to_string(),
        price: 0,
        location: "Location".to_string(),
        price_guess: 0,
        created_at: at(1),
        updated_at: at(2),
    };
    assert_eq!(e.id(), 9);
}

#[test]
fn clone_of_an_estimate_has_every_field() {
    let e = Estimate {
        id: 9,
        name: "Name".to_string(),
        description: "Description".to_string(),
        price: f64::to_bits(12.5),
        location: "Location".to_string(),
        price_guess: f64::to_bits(13.0),
        created_at: Timestamp { secs: 10, nanos: 11 },
        updated_at: Timestamp { secs: 12, nanos: 13 },
    };
    let c = e.clone();
    assert_eq!(c.id, 9);
    assert_eq!(c.name, "Name");
    assert_eq!(c.description, "Description");
    assert_eq!(f64::from_bits(c.price), 12.5);
    assert_eq!(c.location, "Location");
    assert_eq!(f64::from_bits(c.price_guess), 13.0);
    assert_eq!(c.created_at, Timestamp { secs: 10, nanos: 11 });
    assert_eq!(c.updated_at, Timestamp { secs: 12, nanos: 13 });
}

#[test]
fn clone_of_a_section_has_the_nested_sections() {
    let leaf = section(3, "Leaf", vec![]);
    let middle = section(2, "Middle", vec![leaf, section(4, "Other", vec![])]);
    let root = section(1, "Root", vec![middle]);
    let copy = root.clone();
    assert!(copy == root);
    assert_eq!(copy.sections.len(), 1);
    assert_eq!(copy.sections[0].sections.len(), 2);
    assert_eq!(copy.sections[0].sections[0].name, "Leaf");
    assert_eq!(copy.sections[0].sections[1].id, 4);
}

#[test]
fn sections_differ_when_any_field_differs() {
    let base = section(1, "Name", vec![section(2, "Child", vec![])]);

    let mut other = base.clone();
    assert!(other == base);
    other.id = 5;
    assert!(other != base);

    let mut other = base.clone();
    other.code = "Other".to_string();
    assert!(other != base);

    let mut other = base.clone();
    other.name = "Other".to_string();
    assert!(other != base);

    let mut other = base.clone();
    other.description = "Other".to_string();
    assert!(other != base);

    let mut other = base.clone();
    other.created_at = at(9);
    assert!(other != base);

    let mut other = base.clone();
    other.updated_at = at(9);
    assert!(other != base);

    let mut other = base.clone();
    other.estimate_id = Some(1);
    assert!(other != base);

    let mut other = base.clone();
    other.sections.push(section(3, "More", vec![]));
    assert!(other != base);

    let mut other = base.clone();
    other.sections[0].name = "Changed".to_string();
    assert!(other != base);
}

#[test]
fn entity_failure_text() {
    let e = Error::ValidationError { entity: "Estimate", message: "Too long".to_string() };
    assert_eq!(e.to_text(), "Validation error in Estimate: Too long");
}
