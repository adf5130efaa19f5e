use estimates::entity::clock::Timestamp;
use estimates::entity::error::Error as EntityError;
use estimates::entity::estimate::Estimate;
use estimates::entity::section::Section;
use estimates::repository::error::Error as RepositoryError;
use estimates::repository::in_memory_repo::InMemoryRepository;
use estimates::repository::repository::Repository;
use estimates::service::error::Error;
use estimates::service::generic_service::{forward, pass_on, GenericService, Service};

const VALID_NAME: &str = "An estimate whose name has at least fifty characters in it";

fn estimate(id: u128, name: &str, description: &str) -> Estimate {
    Estimate {
        id,
        name: name.to_string(),
        description: description.to_string(),
        price: 0,
        location: "New York".to_string(),
        price_guess: 0,
        created_at: Timestamp { secs: 1_700_000_000, nanos: 1 },
        updated_at: Timestamp { secs: 1_700_000_001, nanos: 2 },
    }
}

fn section(id: u128, name: &str) -> Section {
    Section {
        id,
        code: "Code:0001".to_string(),
        name: name.to_string(),
        description: String::new(),
        sections: vec![],
        created_at: Timestamp { secs: 1, nanos: 0 },
        updated_at: Timestamp { secs: 2, nanos: 0 },
        estimate_id: None,
    }
}

fn estimates() -> GenericService<Estimate, InMemoryRepository<Estimate>> {
    GenericService::<Estimate, _>::new(InMemoryRepository::new())
}

fn sections() -> GenericService<Section, InMemoryRepository<Section>> {
    GenericService::<Section, _>::new(InMemoryRepository::new())
}

#[test]
fn generic_add_get_update_delete() {
    let mut service = estimates();
    // The generic operations ask for no valid name.
    assert_eq!(service.add(estimate(1, "New Estimate", "A new estimate")), Ok(1));
    let found = service.get(1).unwrap().unwrap();
    assert_eq!(found.name, "New Estimate");
    assert_eq!(found.description, "A new estimate");
    assert_eq!(found.location, "New York");
    assert_eq!(f64::from_bits(found.price), 0.0);
    assert_eq!(f64::from_bits(found.price_guess), 0.0);

    assert_eq!(service.update(estimate(1, "Renamed", "Changed")), Ok(()));
    assert_eq!(service.get(1).unwrap().unwrap().name, "Renamed");
    assert_eq!(service.get(1).unwrap().unwrap().description, "Changed");

    assert_eq!(service.delete(1), Ok(()));
    assert!(matches!(service.get(1), Ok(None)));
}

#[test]
fn generic_failures_carry_the_text_of_the_repository() {
    let mut service = estimates();
    assert_eq!(service.add(estimate(1, "First", "d")), Ok(1));
    assert_eq!(
        service.add(estimate(1, "Second", "d")),
        Err(Error::OperationFailed {
            message: "Placeholder error: Item already exists".to_string()
        })
    );
    assert_eq!(service.get(1).unwrap().unwrap().name, "First");
    assert_eq!(
        service.update(estimate(2, "Missing", "d")),
        Err(Error::OperationFailed { message: "Placeholder error: Item not found".to_string() })
    );
    assert!(matches!(service.get(2), Ok(None)));
    assert_eq!(
        service.delete(2),
        Err(Error::OperationFailed { message: "Placeholder error: Item not found".to_string() })
    );
}

#[test]
fn with_repository_runs_several_steps_as_one() {
    let mut service = estimates();
    let moved = service.with_repository(|repo: &mut InMemoryRepository<Estimate>| {
        repo.add(estimate(1, "One", "d"))?;
        repo.add(estimate(2, "Two", "d"))?;
        repo.delete(1)?;
        repo.get(2)
    });
    assert_eq!(moved.unwrap().unwrap().name, "Two");
    assert!(matches!(service.get(1), Ok(None)));
    assert_eq!(service.get(2).unwrap().unwrap().name, "Two");

    let failed = service
        .with_repository(|repo: &mut InMemoryRepository<Estimate>| repo.add(estimate(2, "x", "d")));
    assert_eq!(failed, Err(RepositoryError::DuplicateKey));
}

#[test]
fn add_estimate_stores_a_valid_estimate_and_returns_it() {
    let mut service = estimates();
    let stored = service.add_estimate(estimate(1, VALID_NAME, "A new estimate")).unwrap();
    assert_eq!(stored.id, 1);
    assert_eq!(stored.name, VALID_NAME);
    let found = service.get_estimate(1).unwrap().unwrap();
    assert_eq!(found.name, VALID_NAME);
    assert_eq!(found.description, "A new estimate");
}

#[test]
fn add_estimate_refuses_an_invalid_name_before_storing() {
    let mut service = estimates();
    assert_eq!(
        service.add_estimate(estimate(1, "New Estimate", "A new estimate")).unwrap_err(),
        Error::ValidationFailed {
            message: "Validation error in Estimate: Name must be between 50 and 100 characters"
                .to_string()
        }
    );
    assert!(matches!(service.get_estimate(1), Ok(None)));
}

#[test]
fn add_estimate_refuses_an_invalid_description_before_storing() {
    let mut service = estimates();
    assert_eq!(
        service.add_estimate(estimate(1, VALID_NAME, "")).unwrap_err(),
        Error::ValidationFailed {
            message:
                "Validation error in Estimate: Description must be between 1 and 1000 characters"
                    .to_string()
        }
    );
    assert!(matches!(service.get_estimate(1), Ok(None)));
}

#[test]
fn the_name_is_checked_before_the_description() {
    let mut service = estimates();
    assert_eq!(
        service.add_estimate(estimate(1, "short", "")).unwrap_err(),
        Error::ValidationFailed {
            message: "Validation error in Estimate: Name must be between 50 and 100 characters"
                .to_string()
        }
    );
}

#[test]
fn add_estimate_twice_fails_and_keeps_the_first() {
    let mut service = estimates();
    assert!(service.add_estimate(estimate(1, VALID_NAME, "first")).is_ok());
    assert_eq!(
        service.add_estimate(estimate(1, VALID_NAME, "second")).unwrap_err(),
        Error::OperationFailed {
            message: "Error adding estimate: Placeholder error: Item already exists".to_string()
        }
    );
    assert_eq!(service.get_estimate(1).unwrap().unwrap().description, "first");
}

#[test]
fn update_estimate_replaces_or_fails() {
    let mut service = estimates();
    assert_eq!(
        service.update_estimate(estimate(1, VALID_NAME, "d")).unwrap_err(),
        Error::OperationFailed {
            message: "Error updating estimate: Placeholder error: Item not found".to_string()
        }
    );
    assert!(matches!(service.get_estimate(1), Ok(None)));

    assert!(service.add_estimate(estimate(1, VALID_NAME, "before")).is_ok());
    let updated = service.update_estimate(estimate(1, VALID_NAME, "after")).unwrap();
    assert_eq!(updated.description, "after");
    assert_eq!(service.get_estimate(1).unwrap().unwrap().description, "after");

    assert_eq!(
        service.update_estimate(estimate(1, "short", "invalid")).unwrap_err(),
        Error::ValidationFailed {
            message: "Validation error in Estimate: Name must be between 50 and 100 characters"
                .to_string()
        }
    );
    assert_eq!(service.get_estimate(1).unwrap().unwrap().description, "after");
}

#[test]
fn delete_estimate_removes_or_fails() {
    let mut service = estimates();
    assert_eq!(
        service.delete_estimate(1),
        Err(Error::OperationFailed {
            message: "Error deleting estimate: Placeholder error: Item not found".to_string()
        })
    );
    assert!(service.add_estimate(estimate(1, VALID_NAME, "d")).is_ok());
    assert_eq!(service.delete_estimate(1), Ok(()));
    assert!(matches!(service.get_estimate(1), Ok(None)));
}

#[test]
fn estimate_validity_is_name_and_description() {
    type S = GenericService<Estimate, InMemoryRepository<Estimate>>;
    assert_eq!(S::is_valid_estimate(&estimate(1, VALID_NAME, "d")), Ok(()));
    assert!(S::is_valid_estimate(&estimate(1, "short", "d")).is_err());
    assert!(S::is_valid_estimate(&estimate(1, VALID_NAME, "")).is_err());
    // The price is not part of it.
    assert_eq!(
        S::has_valid_price(&estimate(1, VALID_NAME, "d")),
        Err(EntityError::ValidationError {
            entity: "Estimate",
            message: "Price must be greater than 0".to_string(),
        })
    );
    let mut priced = estimate(1, "short", "");
    priced.price = f64::to_bits(1.0);
    assert_eq!(S::has_valid_price(&priced), Ok(()));
}

#[test]
fn section_service_stores_replaces_and_removes() {
    let mut service = sections();
    // A section without a description is stored.
    let stored = service.add_section(section(1, "Sec")).unwrap();
    assert_eq!(stored, section(1, "Sec"));
    assert_eq!(service.get_section(1).unwrap().unwrap(), section(1, "Sec"));

    assert_eq!(
        service.add_section(section(1, "Other")).unwrap_err(),
        Error::OperationFailed {
            message: "Error adding section: Placeholder error: Item already exists".to_string()
        }
    );
    assert_eq!(service.get_section(1).unwrap().unwrap().name, "Sec");

    let updated = service.update_section(section(1, "Renamed")).unwrap();
    assert_eq!(updated.name, "Renamed");
    assert_eq!(service.get_section(1).unwrap().unwrap().name, "Renamed");
    assert_eq!(
        service.update_section(section(2, "Missing")).unwrap_err(),
        Error::OperationFailed {
            message: "Error updating section: Placeholder error: Item not found".to_string()
        }
    );
    assert!(matches!(service.get_section(2), Ok(None)));

    assert_eq!(service.delete_section(1), Ok(()));
    assert_eq!(
        service.delete_section(1),
        Err(Error::OperationFailed {
            message: "Error deleting section: Placeholder error: Item not found".to_string()
        })
    );
    assert!(matches!(service.get_section(1), Ok(None)));
}

fn crowded(id: u128, name: &str, children: u128) -> Section {
    let mut parent = section(id, name);
    for child in 0..children {
        parent.sections.push(section(1000 + child, "Child"));
    }
    parent
}

#[test]
fn section_validity_is_name_and_number_of_sections() {
    type S = GenericService<Section, InMemoryRepository<Section>>;
    assert_eq!(S::is_valid_section(&section(1, "Sec")), Ok(()));
    assert_eq!(S::is_valid_section(&section(1, &"n".repeat(100))), Ok(()));
    assert_eq!(S::is_valid_section(&crowded(1, "Sec", 100)), Ok(()));
    // The description is not asked for, short or long.
    let mut wordy = section(1, "Sec");
    wordy.description = "d".repeat(1001);
    assert_eq!(S::is_valid_section(&wordy), Ok(()));

    assert_eq!(
        S::is_valid_section(&section(1, "Se")),
        Err(EntityError::ValidationError {
            entity: "Section",
            message: "Name must be between 3 and 100 characters".to_string(),
        })
    );
    assert!(S::is_valid_section(&section(1, &"n".repeat(101))).is_err());
    assert_eq!(
        S::is_valid_section(&crowded(1, "Sec", 101)),
        Err(EntityError::ValidationError {
            entity: "Section",
            message: "Sections must be at most 100".to_string(),
        })
    );
    // The name is checked first.
    assert_eq!(
        S::is_valid_section(&crowded(1, "Se", 101)),
        Err(EntityError::ValidationError {
            entity: "Section",
            message: "Name must be between 3 and 100 characters".to_string(),
        })
    );
    // Only the sections directly under it count.
    let mut deep = section(1, "Sec");
    deep.sections.push(crowded(2, "Sec", 101));
    assert_eq!(S::is_valid_section(&deep), Ok(()));
}

#[test]
fn add_section_refuses_an_invalid_section_before_storing() {
    let mut service = sections();
    assert_eq!(
        service.add_section(crowded(1, "Sec", 101)).unwrap_err(),
        Error::ValidationFailed {
            message: "Validation error in Section: Sections must be at most 100".to_string()
        }
    );
    assert!(matches!(service.get_section(1), Ok(None)));
    assert_eq!(
        service.add_section(section(1, "S")).unwrap_err(),
        Error::ValidationFailed {
            message: "Validation error in Section: Name must be between 3 and 100 characters"
                .to_string()
        }
    );
    assert!(matches!(service.get_section(1), Ok(None)));

    let full = service.add_section(crowded(1, "Sec", 100)).unwrap();
    assert_eq!(full.sections.len(), 100);
    assert_eq!(service.get_section(1).unwrap().unwrap().sections.len(), 100);
}

#[test]
fn update_section_refuses_an_invalid_section_before_storing() {
    let mut service = sections();
    assert!(service.add_section(section(1, "Before")).is_ok());
    assert_eq!(
        service.update_section(crowded(1, "After", 101)).unwrap_err(),
        Error::ValidationFailed {
            message: "Validation error in Section: Sections must be at most 100".to_string()
        }
    );
    assert_eq!(service.get_section(1).unwrap().unwrap(), section(1, "Before"));
    // An invalid section is refused before the identifier is looked for.
    assert_eq!(
        service.update_section(section(2, "S")).unwrap_err(),
        Error::ValidationFailed {
            message: "Validation error in Section: Name must be between 3 and 100 characters"
                .to_string()
        }
    );
}

#[test]
fn forwarding_keeps_values_and_wraps_failures() {
    assert_eq!(forward::<u8>(Ok(3), "Context: "), Ok(3));
    assert_eq!(
        forward::<u8>(Err(RepositoryError::NotFound), "Context: "),
        Err(Error::OperationFailed {
            message: "Context: Placeholder error: Item not found".to_string()
        })
    );
    assert_eq!(pass_on::<u8>(Ok(3)), Ok(3));
    assert_eq!(
        pass_on::<u8>(Err(RepositoryError::DuplicateKey)),
        Err(Error::OperationFailed {
            message: "Placeholder error: Item already exists".to_string()
        })
    );
}

#[test]
fn service_failure_texts() {
    assert_eq!(
        Error::ValidationFailed { message: "bad".to_string() }.to_text(),
        "Validation error: bad"
    );
    assert_eq!(
        Error::OperationFailed { message: "bad".to_string() }.to_text(),
        "Lock error: bad"
    );
}

#[test]
fn the_service_owns_its_repository() {
    let mut repo = InMemoryRepository::<Estimate>::new();
    assert_eq!(repo.add(estimate(1, "Before", "d")), Ok(1));
    let service = GenericService::<Estimate, _>::new(repo);
    assert_eq!(service.get(1).unwrap().unwrap().name, "Before");
    assert_eq!(service.repository.get(1).unwrap().unwrap().name, "Before");
}
