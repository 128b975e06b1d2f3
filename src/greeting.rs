use vstd::prelude::*;

verus! {

/// The fixed greeting that lists what the tool offers.
pub fn hello_from_bin() -> (r: String)
    ensures
        r@ == "Hello I am CASY. What can I do for you Buddy \n 1. Translation \n 2. AI Productivity \n 3. Teleprompter!"@,
{
    "Hello I am CASY. What can I do for you Buddy \n 1. Translation \n 2. AI Productivity \n 3. Teleprompter!".to_owned()
}

} // verus!
