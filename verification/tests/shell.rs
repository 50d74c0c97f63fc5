use mtos_runtime::shell::{evaluate, execute_command, interpret, operator, same_text, Calc, Command, Evaluation, Nap, Operator};

fn words(line: &[&str]) -> Vec<String> {
    line.iter().map(|word| word.to_string()).collect()
}

#[test]
fn line_is_split_at_white_space() {
    let line = execute_command("  echo   Hello\tMTOS! \n");
    assert_eq!(line.words, words(&["echo", "Hello", "MTOS!"]));
    assert_eq!(line.command, Command::Echo);
}

#[test]
fn empty_line_asks_for_nothing() {
    let line = execute_command("");
    assert!(line.words.is_empty());
    assert_eq!(line.command, Command::Nothing);
    assert_eq!(execute_command("   \t ").command, Command::Nothing);
}

#[test]
fn commands_by_name() {
    assert_eq!(execute_command("help").command, Command::Help);
    assert_eq!(execute_command("info").command, Command::Info);
    assert_eq!(execute_command("echo").command, Command::Echo);
    assert_eq!(execute_command("mem").command, Command::Mem);
    assert_eq!(execute_command("exit").command, Command::Exit);
    assert_eq!(execute_command("help me").command, Command::Help);
}

#[test]
fn unknown_names() {
    assert_eq!(execute_command("Help").command, Command::Unknown);
    assert_eq!(execute_command("helpx").command, Command::Unknown);
    assert_eq!(execute_command("hel").command, Command::Unknown);
    assert_eq!(execute_command("quit").command, Command::Unknown);
    assert_eq!(interpret(&words(&["ls", "-l"])), Command::Unknown);
}

#[test]
fn calc_reads_its_three_arguments() {
    assert_eq!(
        execute_command("calc 15 + 27").command,
        Command::Calc(Calc::Ready { a: 15, op: Some(Operator::Add), b: 27 })
    );
    assert_eq!(
        execute_command("calc 100 / 7").command,
        Command::Calc(Calc::Ready { a: 100, op: Some(Operator::Div), b: 7 })
    );
    assert_eq!(
        execute_command("calc 1 ^ 2").command,
        Command::Calc(Calc::Ready { a: 1, op: None, b: 2 })
    );
    assert_eq!(
        execute_command("calc 1 + 2 and more").command,
        Command::Calc(Calc::Ready { a: 1, op: Some(Operator::Add), b: 2 })
    );
}

#[test]
fn calc_says_what_is_missing() {
    assert_eq!(execute_command("calc").command, Command::Calc(Calc::MissingFirst));
    assert_eq!(execute_command("calc 1").command, Command::Calc(Calc::MissingOperator));
    assert_eq!(execute_command("calc 1 +").command, Command::Calc(Calc::MissingSecond));
}

#[test]
fn calc_rejects_what_is_not_a_number() {
    assert_eq!(execute_command("calc one + 2").command, Command::Calc(Calc::InvalidNumbers));
    assert_eq!(execute_command("calc 1 + two").command, Command::Calc(Calc::InvalidNumbers));
    assert_eq!(execute_command("calc -1 + 2").command, Command::Calc(Calc::InvalidNumbers));
    assert_eq!(execute_command("calc 4294967296 + 2").command, Command::Calc(Calc::InvalidNumbers));
    assert_eq!(execute_command("calc x ^ y").command, Command::Calc(Calc::InvalidNumbers));
}

#[test]
fn sleep_reads_its_duration() {
    assert_eq!(execute_command("sleep 500").command, Command::Sleep(Nap::For(500)));
    assert_eq!(execute_command("sleep").command, Command::Sleep(Nap::Missing));
    assert_eq!(execute_command("sleep soon").command, Command::Sleep(Nap::Invalid));
    assert_eq!(execute_command("sleep 0").command, Command::Sleep(Nap::For(0)));
}

#[test]
fn operators_by_sign() {
    assert_eq!(operator("+"), Some(Operator::Add));
    assert_eq!(operator("-"), Some(Operator::Sub));
    assert_eq!(operator("*"), Some(Operator::Mul));
    assert_eq!(operator("/"), Some(Operator::Div));
    assert_eq!(operator("%"), Some(Operator::Rem));
    assert_eq!(operator("++"), None);
    assert_eq!(operator(""), None);
    assert_eq!(operator("x"), None);
}

#[test]
fn evaluation_values() {
    assert_eq!(evaluate(15, Operator::Add, 27), Evaluation::Value(42));
    assert_eq!(evaluate(27, Operator::Sub, 15), Evaluation::Value(12));
    assert_eq!(evaluate(15, Operator::Sub, 15), Evaluation::Value(0));
    assert_eq!(evaluate(6, Operator::Mul, 7), Evaluation::Value(42));
    assert_eq!(evaluate(100, Operator::Div, 7), Evaluation::Value(14));
    assert_eq!(evaluate(100, Operator::Rem, 7), Evaluation::Value(2));
}

#[test]
fn evaluation_without_a_result() {
    assert_eq!(evaluate(15, Operator::Sub, 27), Evaluation::Invalid);
    assert_eq!(evaluate(1, Operator::Div, 0), Evaluation::Invalid);
    assert_eq!(evaluate(1, Operator::Rem, 0), Evaluation::Invalid);
}

#[test]
fn evaluation_out_of_range() {
    assert_eq!(evaluate(u32::MAX, Operator::Add, 1), Evaluation::Overflow);
    assert_eq!(evaluate(u32::MAX, Operator::Add, 0), Evaluation::Value(u32::MAX));
    assert_eq!(evaluate(65536, Operator::Mul, 65536), Evaluation::Overflow);
    assert_eq!(evaluate(65535, Operator::Mul, 65537), Evaluation::Value(u32::MAX));
}

#[test]
fn texts_are_compared_by_character() {
    assert!(same_text("", ""));
    assert!(same_text("calc", "calc"));
    assert!(!same_text("calc", "cal"));
    assert!(!same_text("calc", "cald"));
    assert!(!same_text("a", "b"));
    assert!(same_text("\u{e9}t\u{e9}", "\u{e9}t\u{e9}"));
    assert!(!same_text("\u{e9}", "e"));
}
