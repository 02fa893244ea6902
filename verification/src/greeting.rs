//! The greeting: a fixed text around the name of the person greeted.

use vstd::prelude::*;

verus! {

/// The text that stands before the name.
pub open spec fn salutation() -> Seq<char> {
    "你好, "@
}

/// The text that stands after the name.
pub open spec fn welcome() -> Seq<char> {
    "! 欢迎使用 Rust WebAssembly!"@
}

/// The greeting for `name`: salutation, name and welcome, in this order.
pub open spec fn greeting(name: Seq<char>) -> Seq<char> {
    salutation() + name + welcome()
}

/// `part` stands in `text`, starting at position `at`.
pub open spec fn occurs_at(text: Seq<char>, part: Seq<char>, at: int) -> bool {
    0 <= at && at + part.len() <= text.len() && text.subrange(at, at + part.len()) == part
}

/// `text` holds `part` as a contiguous run of characters.
pub open spec fn contains(text: Seq<char>, part: Seq<char>) -> bool {
    exists|at: int| occurs_at(text, part, at)
}

/// Every greeting holds the name it was made for, right after the four
/// characters of the salutation.
pub proof fn lemma_greeting_holds_name(name: Seq<char>)
    ensures
        salutation().len() == 4,
        occurs_at(greeting(name), name, 4),
        contains(greeting(name), name),
        greeting(name).len() == 4 + name.len() + welcome().len(),
{
    reveal_strlit("你好, ");
    assert(greeting(name).subrange(4, 4 + name.len() as int) =~= name);
    assert(occurs_at(greeting(name), name, 4));
}

/// Builds the greeting for `name`.
pub fn greet(name: &str) -> (message: String)
    ensures
        message@ == greeting(name@),
        contains(message@, name@),
{
    let mut message = String::from_str("你好, ");
    message.append(name);
    message.append("! 欢迎使用 Rust WebAssembly!");
    proof {
        lemma_greeting_holds_name(name@);
    }
    message
}

/// Two calls of `greet` on the same name return the same text.
pub proof fn lemma_greet_repeats(name: &str, first: String, second: String)
    requires
        call_ensures(greet, (name,), first),
        call_ensures(greet, (name,), second),
    ensures
        first@ == second@,
{
}

} // verus!
