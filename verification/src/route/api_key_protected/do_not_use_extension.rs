use vstd::prelude::*;
use vstd::string::*;

verus! {

/// A fixed message.
#[derive(Debug)]
pub struct DoNotUseExtensionResponse {
    pub message: String,
}

/// Answers with a message that does not depend on the API key.
pub fn do_not_use_extension() -> (res: DoNotUseExtensionResponse)
    ensures
        res.message@ == "I was protected by an API key! but I have no use for it. I don't even know wich API key was used."@,
{
    DoNotUseExtensionResponse {
        message: String::from_str(
            "I was protected by an API key! but I have no use for it. I don't even know wich API key was used.",
        ),
    }
}

} // verus!
