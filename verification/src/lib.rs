//! A greeting library: builds the fixed greeting text for a caller-supplied
//! name. The greeting is a pure, total function of the name alone, stated
//! over sequences of characters.

use vstd::prelude::*;
use vstd::string::StringExecFns;

verus! {

/// The text that stands before the name in every greeting.
pub open spec fn greeting_prefix() -> Seq<char> {
    "Hello, "@
}

/// The text that stands after the name in every greeting.
pub open spec fn greeting_suffix() -> Seq<char> {
    "! You've been greeted from Rust!"@
}

/// The greeting for a name: the fixed prefix, then the name itself,
/// then the fixed suffix.
pub open spec fn greeting(name: Seq<char>) -> Seq<char> {
    greeting_prefix() + name + greeting_suffix()
}

/// Builds the greeting for `name`. Every name is accepted, unconstrained in
/// length or content, and the result is exactly the fixed template with the
/// name substituted in.
pub fn greet(name: &str) -> (r: String)
    ensures
        r@ == greeting(name@),
{
    let mut r = String::from_str("Hello, ");
    r.append(name);
    r.append("! You've been greeted from Rust!");
    r
}

/// The greeting depends on the name alone: any two results of greeting the
/// same name are equal, so repeated calls return the same string and no
/// outside state can change what comes back.
pub proof fn lemma_greeting_deterministic(name: Seq<char>, r1: Seq<char>, r2: Seq<char>)
    requires
        r1 == greeting(name),
        r2 == greeting(name),
    ensures
        r1 == r2,
{
}

/// The greeting carries the name unchanged: it is exactly as long as the
/// prefix, the name and the suffix together, it begins with the prefix, the
/// name stands right after the prefix, and the suffix fills the rest.
pub proof fn lemma_greeting_embeds_name(name: Seq<char>)
    ensures
        greeting(name).len() == greeting_prefix().len() + name.len() + greeting_suffix().len(),
        greeting(name).subrange(0, greeting_prefix().len() as int) == greeting_prefix(),
        greeting(name).subrange(
            greeting_prefix().len() as int,
            (greeting_prefix().len() + name.len()) as int,
        ) == name,
        greeting(name).subrange(
            (greeting_prefix().len() + name.len()) as int,
            greeting(name).len() as int,
        ) == greeting_suffix(),
{
    assert(greeting(name).subrange(0, greeting_prefix().len() as int) =~= greeting_prefix());
    assert(greeting(name).subrange(
        greeting_prefix().len() as int,
        (greeting_prefix().len() + name.len()) as int,
    ) =~= name);
    assert(greeting(name).subrange(
        (greeting_prefix().len() + name.len()) as int,
        greeting(name).len() as int,
    ) =~= greeting_suffix());
}

} // verus!
