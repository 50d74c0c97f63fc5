//! The command language of the demonstration shell: what a line of input
//! asks for.
//!
//! A line is split at white space. The first word names the command, the
//! words after it are its arguments. Nothing is printed here: the result says
//! what the shell has to do.

use vstd::prelude::*;
use crate::decimal::{parse_u32, parsed};

verus! {

/// An operator of the `calc` command.
#[derive(Clone, Copy, Debug, PartialEq, Eq, Structural)]
pub enum Operator {
    Add,
    Sub,
    Mul,
    Div,
    Rem,
}

/// What a `calc` command gives.
#[derive(Clone, Copy, Debug, PartialEq, Eq)]
pub enum Evaluation {
    /// The result.
    Value(u32),
    /// The operation has no result: a difference below zero, or a division by
    /// zero.
    Invalid,
    /// The result does not fit in a `u32`.
    Overflow,
}

/// The arguments of a `calc` command.
#[derive(Clone, Copy, Debug, PartialEq, Eq)]
pub enum Calc {
    MissingFirst,
    MissingOperator,
    MissingSecond,
    /// One of the two numbers is not a decimal `u32`.
    InvalidNumbers,
    /// Both numbers were read; `op` is `None` for an operator that does not
    /// exist.
    Ready { a: u32, op: Option<Operator>, b: u32 },
}

/// The argument of a `sleep` command.
#[derive(Clone, Copy, Debug, PartialEq, Eq)]
pub enum Nap {
    Missing,
    Invalid,
    For(u32),
}

/// What a line asks the shell to do.
#[derive(Clone, Copy, Debug, PartialEq, Eq)]
pub enum Command {
    /// The line holds no word.
    Nothing,
    Help,
    Info,
    /// Print the words after the first.
    Echo,
    Calc(Calc),
    Sleep(Nap),
    Mem,
    Exit,
    /// The first word names no command.
    Unknown,
}

/// A line taken apart: its words, and what they ask for.
pub struct Line {
    pub words: Vec<String>,
    pub command: Command,
}

/// Whether `c` is white space: what `char::is_whitespace` says of it, the
/// White_Space property of Unicode.
pub uninterp spec fn is_white_space(c: char) -> bool;

/// The words of `line` that come after the characters of `word`, a word that
/// has begun: `word` ends at the next white space or at the end of the line.
pub open spec fn words_after(word: Seq<char>, line: Seq<char>) -> Seq<Seq<char>>
    decreases line.len(),
{
    let ended: Seq<Seq<char>> = if word.len() == 0 {
        Seq::empty()
    } else {
        seq![word]
    };
    if line.len() == 0 {
        ended
    } else if is_white_space(line[0]) {
        ended + words_after(Seq::empty(), line.skip(1))
    } else {
        words_after(word.push(line[0]), line.skip(1))
    }
}

/// The words of `line`: its longest runs of characters that are not white
/// space, in order.
pub open spec fn whitespace_words(line: Seq<char>) -> Seq<Seq<char>> {
    words_after(Seq::empty(), line)
}

/// The characters of each of `words`.
pub open spec fn texts(words: Seq<String>) -> Seq<Seq<char>> {
    Seq::new(words.len(), |i: int| words[i]@)
}

/// `str::split_whitespace`: the words are the longest runs of characters
/// that are not white space, in the order in which the line holds them, so
/// no word holds white space.
#[verifier::external_body]
fn split_words(line: &str) -> (words: Vec<String>)
    ensures
        texts(words@) == whitespace_words(line@),
        forall|i: int, j: int|
            0 <= i < words@.len() && 0 <= j < words@[i]@.len() ==> !is_white_space(
                #[trigger] words@[i]@[j],
            ),
{
    line.split_whitespace().map(String::from).collect()
}

/// The operator that `word` names.
pub open spec fn operator_of(word: Seq<char>) -> Option<Operator> {
    if word == "+"@ {
        Some(Operator::Add)
    } else if word == "-"@ {
        Some(Operator::Sub)
    } else if word == "*"@ {
        Some(Operator::Mul)
    } else if word == "/"@ {
        Some(Operator::Div)
    } else if word == "%"@ {
        Some(Operator::Rem)
    } else {
        None
    }
}

/// The result of `a op b` over the natural numbers, where there is one.
pub open spec fn evaluated(a: u32, op: Operator, b: u32) -> Evaluation {
    match op {
        Operator::Add => if a + b <= u32::MAX {
            Evaluation::Value((a + b) as u32)
        } else {
            Evaluation::Overflow
        },
        Operator::Sub => if a >= b {
            Evaluation::Value((a - b) as u32)
        } else {
            Evaluation::Invalid
        },
        Operator::Mul => if a * b <= u32::MAX {
            Evaluation::Value((a * b) as u32)
        } else {
            Evaluation::Overflow
        },
        Operator::Div => if b != 0 {
            Evaluation::Value(a / b)
        } else {
            Evaluation::Invalid
        },
        Operator::Rem => if b != 0 {
            Evaluation::Value(a % b)
        } else {
            Evaluation::Invalid
        },
    }
}

/// What the arguments of a `calc` command are read as.
pub open spec fn calc_of(words: Seq<Seq<char>>) -> Calc {
    if words.len() < 2 {
        Calc::MissingFirst
    } else if words.len() < 3 {
        Calc::MissingOperator
    } else if words.len() < 4 {
        Calc::MissingSecond
    } else {
        match (parsed(words[1]), parsed(words[3])) {
            (Ok(a), Ok(b)) => Calc::Ready { a, op: operator_of(words[2]), b },
            _ => Calc::InvalidNumbers,
        }
    }
}

/// What the argument of a `sleep` command is read as.
pub open spec fn nap_of(words: Seq<Seq<char>>) -> Nap {
    if words.len() < 2 {
        Nap::Missing
    } else {
        match parsed(words[1]) {
            Ok(ms) => Nap::For(ms),
            Err(_) => Nap::Invalid,
        }
    }
}

/// What a line with the words `words` asks for.
pub open spec fn interpreted(words: Seq<Seq<char>>) -> Command {
    if words.len() == 0 {
        Command::Nothing
    } else if words[0] == "help"@ {
        Command::Help
    } else if words[0] == "info"@ {
        Command::Info
    } else if words[0] == "echo"@ {
        Command::Echo
    } else if words[0] == "calc"@ {
        Command::Calc(calc_of(words))
    } else if words[0] == "sleep"@ {
        Command::Sleep(nap_of(words))
    } else if words[0] == "mem"@ {
        Command::Mem
    } else if words[0] == "exit"@ {
        Command::Exit
    } else {
        Command::Unknown
    }
}

/// Whether two texts hold the same characters.
pub fn same_text(a: &str, b: &str) -> (same: bool)
    ensures
        same == (a@ == b@),
{
    let len = a.unicode_len();
    if len != b.unicode_len() {
        return false;
    }
    let mut i: usize = 0;
    while i < len
        invariant
            i <= len,
            len == a@.len(),
            len == b@.len(),
            forall|j: int| 0 <= j < i ==> a@[j] == b@[j],
        decreases len - i,
    {
        if a.get_char(i) != b.get_char(i) {
            return false;
        }
        i = i + 1;
    }
    assert(a@ =~= b@);
    true
}

/// The operator that `word` names, if it names one.
pub fn operator(word: &str) -> (op: Option<Operator>)
    ensures
        op == operator_of(word@),
{
    if same_text(word, "+") {
        Some(Operator::Add)
    } else if same_text(word, "-") {
        Some(Operator::Sub)
    } else if same_text(word, "*") {
        Some(Operator::Mul)
    } else if same_text(word, "/") {
        Some(Operator::Div)
    } else if same_text(word, "%") {
        Some(Operator::Rem)
    } else {
        None
    }
}

/// Computes `a op b`, and says so where there is no result or where it does
/// not fit.
pub fn evaluate(a: u32, op: Operator, b: u32) -> (result: Evaluation)
    ensures
        result == evaluated(a, op, b),
{
    match op {
        Operator::Add => match a.checked_add(b) {
            Some(sum) => Evaluation::Value(sum),
            None => Evaluation::Overflow,
        },
        Operator::Sub => if a >= b {
            Evaluation::Value(a - b)
        } else {
            Evaluation::Invalid
        },
        Operator::Mul => match a.checked_mul(b) {
            Some(product) => Evaluation::Value(product),
            None => Evaluation::Overflow,
        },
        Operator::Div => if b != 0 {
            Evaluation::Value(a / b)
        } else {
            Evaluation::Invalid
        },
        Operator::Rem => if b != 0 {
            Evaluation::Value(a % b)
        } else {
            Evaluation::Invalid
        },
    }
}

fn calc(words: &Vec<String>) -> (calc: Calc)
    ensures
        calc == calc_of(texts(words@)),
{
    if words.len() < 2 {
        Calc::MissingFirst
    } else if words.len() < 3 {
        Calc::MissingOperator
    } else if words.len() < 4 {
        Calc::MissingSecond
    } else {
        match (parse_u32(words[1].as_str()), parse_u32(words[3].as_str())) {
            (Ok(a), Ok(b)) => Calc::Ready { a, op: operator(words[2].as_str()), b },
            _ => Calc::InvalidNumbers,
        }
    }
}

fn nap(words: &Vec<String>) -> (nap: Nap)
    ensures
        nap == nap_of(texts(words@)),
{
    if words.len() < 2 {
        Nap::Missing
    } else {
        match parse_u32(words[1].as_str()) {
            Ok(ms) => Nap::For(ms),
            Err(_) => Nap::Invalid,
        }
    }
}

/// Says what the words of a line ask for.
pub fn interpret(words: &Vec<String>) -> (command: Command)
    ensures
        command == interpreted(texts(words@)),
{
    if words.len() == 0 {
        return Command::Nothing;
    }
    let name = words[0].as_str();
    if same_text(name, "help") {
        Command::Help
    } else if same_text(name, "info") {
        Command::Info
    } else if same_text(name, "echo") {
        Command::Echo
    } else if same_text(name, "calc") {
        Command::Calc(calc(words))
    } else if same_text(name, "sleep") {
        Command::Sleep(nap(words))
    } else if same_text(name, "mem") {
        Command::Mem
    } else if same_text(name, "exit") {
        Command::Exit
    } else {
        Command::Unknown
    }
}

/// Takes a line of input apart and says what it asks for.
pub fn execute_command(command: &str) -> (line: Line)
    ensures
        texts(line.words@) == whitespace_words(command@),
        line.command == interpreted(whitespace_words(command@)),
{
    let words = split_words(command);
    let command = interpret(&words);
    Line { words, command }
}

} // verus!
