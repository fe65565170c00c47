//! The greeting text that every handler of the API answers with.

use vstd::prelude::*;
use vstd::string::*;

verus! {

/// The greeting for `name`: the name between `Hello, ` and `!`.
pub open spec fn greeting_text(name: Seq<char>) -> Seq<char> {
    "Hello, "@ + name + "!"@
}

/// Builds the greeting for `name`, which is used as it stands.
pub fn greeting(name: &str) -> (text: String)
    ensures
        text@ == greeting_text(name@),
{
    let mut text = String::from_str("Hello, ");
    text.append(name);
    text.append("!");
    text
}

} // verus!
