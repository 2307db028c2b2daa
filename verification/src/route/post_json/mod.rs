pub mod echo_a_person;
