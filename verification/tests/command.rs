use n64::debugger::command::Command;

#[test]
fn step_alone_is_one_step() {
    assert_eq!(Command::from_str("step"), Ok(Command::Step(1)));
    assert_eq!(Command::from_str("s"), Ok(Command::Step(1)));
}

#[test]
fn step_with_count() {
    assert_eq!(Command::from_str("step 5"), Ok(Command::Step(5)));
    assert_eq!(Command::from_str("s 10"), Ok(Command::Step(10)));
    assert_eq!(Command::from_str("step  \t 007"), Ok(Command::Step(7)));
    assert_eq!(Command::from_str("s 0"), Ok(Command::Step(0)));
}

#[test]
fn step_count_round_trips_for_large_values() {
    let n = usize::MAX;
    let line = format!("step {}", n);
    assert_eq!(Command::from_str(&line), Ok(Command::Step(n)));
    let line = format!("s {}", 123456789usize);
    assert_eq!(Command::from_str(&line), Ok(Command::Step(123456789)));
}

#[test]
fn step_count_that_overflows_is_rejected() {
    assert!(Command::from_str("step 99999999999999999999999999").is_err());
}

#[test]
fn malformed_step_lines_are_rejected() {
    assert!(Command::from_str("st").is_err());
    assert!(Command::from_str("s5").is_err());
    assert!(Command::from_str("step5").is_err());
    assert!(Command::from_str("step ").is_err());
    assert!(Command::from_str("step x").is_err());
    assert!(Command::from_str("step 5x").is_err());
    assert!(Command::from_str("steps").is_err());
}

#[test]
fn exit_keywords() {
    for w in ["exit", "quit", "e", "q"] {
        assert_eq!(Command::from_str(w), Ok(Command::Exit), "{}", w);
    }
    assert!(Command::from_str("ex").is_err());
    assert!(Command::from_str("qu").is_err());
    assert!(Command::from_str("exit now").is_err());
    assert!(Command::from_str("exitx").is_err());
}

#[test]
fn empty_line_is_repeat() {
    assert_eq!(Command::from_str(""), Ok(Command::Repeat));
}

#[test]
fn unknown_words_are_rejected() {
    assert!(Command::from_str("x").is_err());
    assert!(Command::from_str(" step").is_err());
    assert!(Command::from_str("help").is_err());
}

#[test]
fn parse_takes_bytes() {
    assert_eq!(Command::parse(b"q"), Some(Command::Exit));
    assert_eq!(Command::parse(b"s\t3"), Some(Command::Step(3)));
    assert_eq!(Command::parse(b"stepx"), None);
}

#[test]
fn parse_error_reports_the_line() {
    for line in ["foo", "exit now", "s x", "stepx"] {
        let e = Command::from_str(line).unwrap_err();
        assert_eq!(e.line, line);
        assert_eq!(e.message(), format!("Unable to parse command: {}", line));
    }
}
