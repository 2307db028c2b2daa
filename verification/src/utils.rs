use vstd::prelude::*;
use vstd::string::*;

verus! {

/// The text that stands for a masked value, whatever the value.
pub fn mask_fmt<T>(_value: &T) -> (text: String)
    ensures
        text@ == "..."@,
{
    String::from_str("...")
}

} // verus!
