//! The greeting that the `greet` command answers with.

use vstd::prelude::*;
use vstd::string::*;

verus! {

/// The greeting for `name`: a fixed text before the name and one after it.
pub open spec fn greeting_text(name: Seq<char>) -> Seq<char> {
    "Hello, "@ + name + "! You've been greeted from Rust!"@
}

/// Composes the greeting for `name`.
pub fn greet(name: &str) -> (greeting: String)
    ensures
        greeting@ == greeting_text(name@),
{
    let mut greeting = String::from_str("Hello, ");
    greeting.append(name);
    greeting.append("! You've been greeted from Rust!");
    greeting
}

/// The greeting holds the name, whole and unchanged, directly behind the
/// seven characters of its opening.
pub proof fn lemma_greeting_embeds_name(name: Seq<char>)
    ensures
        greeting_text(name).len() == 7 + name.len() + 32,
        greeting_text(name).subrange(7, 7 + name.len() as int) == name,
        greeting_text(name).subrange(0, 7) == "Hello, "@,
{
    reveal_strlit("Hello, ");
    reveal_strlit("! You've been greeted from Rust!");
    assert(greeting_text(name).subrange(7, 7 + name.len() as int) =~= name);
    assert(greeting_text(name).subrange(0, 7) =~= "Hello, "@);
}

} // verus!
