use vstd::prelude::*;
use crate::extractor::json::ApiJson;

verus! {

/// A person as the JSON body describes it.
#[derive(Debug)]
pub struct Person {
    pub name: String,
    pub age: u8,
    pub is_alive: bool,
    pub city: String,
}

/// Answers with the person of the body.
pub fn echo_a_person(person: ApiJson<Person>) -> (res: Person)
    ensures
        res == person.0,
{
    person.0
}

} // verus!
