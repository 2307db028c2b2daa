pub mod validate_a_person;
