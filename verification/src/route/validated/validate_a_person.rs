use vstd::prelude::*;
use crate::extractor::json::ApiJson;
use crate::extractor::validated::Validated;

verus! {

/// A person as the JSON body describes it; a name of at least 5 characters and an age
/// between 25 and 150 are required.
#[derive(Debug)]
pub struct Person {
    pub name: String,
    pub age: u8,
    pub is_alive: bool,
    pub city: String,
}

/// Answers with the person of the body, once validated.
pub fn validate_a_person(person: Validated<ApiJson<Person>>) -> (res: Person)
    ensures
        res == person.0.0,
{
    person.0.0
}

} // verus!
