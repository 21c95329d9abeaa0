use vstd::prelude::*;
use vstd::string::StringExecFns;

verus! {

/// The greeting for `name`: the name substituted verbatim between the fixed
/// prefix and suffix, with nothing trimmed or escaped.
pub open spec fn greeting_text(name: Seq<char>) -> Seq<char> {
    "Hello, "@ + name + "! You've been greeted from Rust!"@
}

/// The `greet` command: a total, side-effect-free function of its argument.
pub fn greet(name: &str) -> (r: String)
    ensures
        r@ == greeting_text(name@),
{
    let mut out = String::from_str("Hello, ");
    out.append(name);
    out.append("! You've been greeted from Rust!");
    out
}

/// The greeting holds the name unchanged, right after the prefix: nothing is
/// cut from it and nothing is escaped.
pub proof fn lemma_greeting_holds_name(name: Seq<char>)
    ensures
        greeting_text(name).len() == name.len() + 39,
        greeting_text(name).subrange(0, 7) == "Hello, "@,
        greeting_text(name).subrange(7, 7 + name.len() as int) == name,
        greeting_text(name).subrange(7 + name.len() as int, name.len() as int + 39)
            == "! You've been greeted from Rust!"@,
{
    reveal_strlit("Hello, ");
    reveal_strlit("! You've been greeted from Rust!");
    let g = greeting_text(name);
    assert(g.subrange(0, 7) =~= "Hello, "@);
    assert(g.subrange(7, 7 + name.len() as int) =~= name);
    assert(g.subrange(7 + name.len() as int, name.len() as int + 39) =~= "! You've been greeted from Rust!"@);
}

/// Greeting the same name twice gives the same text, and two different names
/// never get the same greeting: the result depends on the name and nothing else.
pub proof fn lemma_greet_deterministic(a: Seq<char>, b: Seq<char>)
    ensures
        (greeting_text(a) == greeting_text(b)) <==> (a == b),
{
    lemma_greeting_holds_name(a);
    lemma_greeting_holds_name(b);
}

} // verus!
