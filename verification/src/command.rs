//! The command dispatcher's decisions: which of the three recognized tokens
//! an argument names, and the fixed console lines the program prints.

use vstd::prelude::*;
use vstd::string::StrSliceExecFns;

verus! {

/// The three operations a run can perform.
#[derive(Clone, Copy, Debug, PartialEq, Eq, Structural)]
pub enum Command {
    Add,
    Mark,
    Del,
}

/// Character-for-character equality of two strings.
fn str_eq(a: &str, b: &str) -> (r: bool)
    ensures
        r == (a@ == b@),
{
    let alen = a.unicode_len();
    let blen = b.unicode_len();
    if alen != blen {
        return false;
    }
    let mut i: usize = 0;
    while i < alen
        invariant
            i <= alen,
            alen == a@.len(),
            alen == b@.len(),
            forall|j: int| 0 <= j < i ==> a@[j] == b@[j],
        decreases alen - i,
    {
        if a.get_char(i) != b.get_char(i) {
            return false;
        }
        i += 1;
    }
    proof {
        assert(a@ =~= b@);
    }
    true
}

/// The sole command-line argument selects an operation; anything outside
/// {add, mark, del} selects none.
pub fn parse_command(arg: &str) -> (r: Option<Command>)
    ensures
        (r == Some(Command::Add)) <==> arg@ == "add"@,
        (r == Some(Command::Mark)) <==> arg@ == "mark"@,
        (r == Some(Command::Del)) <==> arg@ == "del"@,
        (r is None) <==> (arg@ != "add"@ && arg@ != "mark"@ && arg@ != "del"@),
{
    proof {
        reveal_strlit("add");
        reveal_strlit("mark");
        reveal_strlit("del");
        assert("add"@.len() == 3 && "mark"@.len() == 4 && "del"@.len() == 3);
        assert("add"@[0] == 'a' && "del"@[0] == 'd');
        assert("add"@ != "mark"@ && "del"@ != "mark"@ && "add"@ != "del"@);
    }
    if str_eq(arg, "add") {
        Some(Command::Add)
    } else if str_eq(arg, "mark") {
        Some(Command::Mark)
    } else if str_eq(arg, "del") {
        Some(Command::Del)
    } else {
        None
    }
}

/// The fixed confirmation line printed after each operation succeeds.
pub fn confirmation_message(cmd: Command) -> (r: &'static str)
    ensures
        cmd is Add ==> r@ == "Your task was saved!"@,
        cmd is Mark ==> r@ == "Task marked as completed!"@,
        cmd is Del ==> r@ == "Task deleted successfully!"@,
{
    match cmd {
        Command::Add => "Your task was saved!",
        Command::Mark => "Task marked as completed!",
        Command::Del => "Task deleted successfully!",
    }
}

/// The usage line printed to standard error on a missing or unrecognized
/// argument.
pub fn usage_message() -> (r: &'static str)
    ensures
        r@ == "Please pass one argument from [\"mark\", \"add\", \"del\"]."@,
{
    "Please pass one argument from [\"mark\", \"add\", \"del\"]."
}

} // verus!
