//! The greeting operation and what holds of it.

use vstd::prelude::*;
use vstd::string::*;

verus! {

/// The text in front of the name.
pub open spec fn greeting_prefix() -> Seq<char> {
    "Hello, "@
}

/// The text behind the name.
pub open spec fn greeting_suffix() -> Seq<char> {
    "! You've been greeted from Rust!"@
}

/// The greeting for `name`: prefix, the name as it stands, suffix.
pub open spec fn greeting(name: Seq<char>) -> Seq<char> {
    greeting_prefix() + name + greeting_suffix()
}

/// Builds the greeting for `name`. Total: every text is a name, the empty one
/// too, and nothing in it is trimmed or escaped.
pub fn greet(name: &str) -> (out: String)
    ensures
        out@ == greeting(name@),
{
    let mut out = String::from_str("Hello, ");
    out.append(name);
    out.append("! You've been greeted from Rust!");
    out
}

/// The prefix has 7 characters and the suffix 32.
pub proof fn lemma_frame_lengths()
    ensures
        greeting_prefix().len() == 7,
        greeting_suffix().len() == 32,
{
    reveal_strlit("Hello, ");
    reveal_strlit("! You've been greeted from Rust!");
}

/// A greeting is exactly 39 characters longer than its name: no length limit
/// cuts it short.
pub proof fn lemma_greeting_len(name: Seq<char>)
    ensures
        greeting(name).len() == name.len() + 39,
{
    lemma_frame_lengths();
}

/// The name stands in its greeting verbatim, right behind the prefix, and the
/// frame around it is the same for every name.
pub proof fn lemma_greeting_embeds_name(name: Seq<char>)
    ensures
        greeting(name).subrange(0, 7) == greeting_prefix(),
        greeting(name).subrange(7, 7 + name.len() as int) == name,
        greeting(name).subrange(7 + name.len() as int, 39 + name.len() as int) == greeting_suffix(),
{
    lemma_frame_lengths();
    let g = greeting(name);
    assert(g.subrange(0, 7) =~= greeting_prefix());
    assert(g.subrange(7, 7 + name.len() as int) =~= name);
    assert(g.subrange(7 + name.len() as int, 39 + name.len() as int) =~= greeting_suffix());
}

/// Two names with the same greeting are the same name. So each of a set of
/// greetings belongs to one name only, whoever asked for the others and
/// whenever.
pub proof fn lemma_greeting_injective(a: Seq<char>, b: Seq<char>)
    requires
        greeting(a) == greeting(b),
    ensures
        a == b,
{
    lemma_greeting_len(a);
    lemma_greeting_len(b);
    lemma_greeting_embeds_name(a);
    lemma_greeting_embeds_name(b);
}

} // verus!
