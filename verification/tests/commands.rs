use dbg_rs::commands::{parse_line, parse_regs_command, split_words, ReplCommand};

#[test]
fn words_are_split_as_the_standard_library_does() {
    for line in ["", " ", "a", " a ", "run /bin/ls  -l\n", "\u{2003}x\u{a0}y\u{3000}", "a\tb\r\n"] {
        let expected: Vec<&str> = line.split_whitespace().collect();
        assert_eq!(split_words(line), expected);
    }
}

#[test]
fn white_space_is_what_unicode_says() {
    for code in 0..0x3100u32 {
        if let Some(c) = char::from_u32(code) {
            let parts = split_words(&format!("a{c}b"));
            assert_eq!(parts.len() == 2, c.is_whitespace(), "{code:x}");
        }
    }
    for code in (0x3100..0x110000u32).step_by(97) {
        if let Some(c) = char::from_u32(code) {
            assert_eq!(split_words(&format!("a{c}b")).len(), 1, "{code:x}");
            assert!(!c.is_whitespace());
        }
    }
}

#[test]
fn white_space_around_a_command_is_ignored() {
    assert!(matches!(parse_line("status"), ReplCommand::Status));
    assert!(matches!(parse_line("  status \t\n"), ReplCommand::Status));
    assert!(matches!(parse_line("\n"), ReplCommand::Nothing));
    assert!(matches!(parse_line(""), ReplCommand::Nothing));
}

#[test]
fn every_command_is_understood() {
    match parse_line("run /bin/echo a  b") {
        ReplCommand::Run { program, args } => {
            assert_eq!(program, "/bin/echo");
            assert_eq!(args, ["a", "b"]);
        }
        other => panic!("{other:?}"),
    }
    assert!(matches!(parse_line("run x"), ReplCommand::Run { args, .. } if args.is_empty()));
    assert!(matches!(parse_line("attach 42"), ReplCommand::Attach { pid: 42 }));
    assert!(matches!(parse_line("attach -3"), ReplCommand::Attach { pid: -3 }));
    assert!(matches!(parse_line("continue"), ReplCommand::Continue { count: 1 }));
    assert!(matches!(parse_line("c 0x10"), ReplCommand::Continue { count: 16 }));
    assert!(matches!(parse_line("c 2 ignored"), ReplCommand::Continue { count: 2 }));
    assert!(matches!(parse_line("detach"), ReplCommand::Detach));
    assert!(matches!(parse_line("kill"), ReplCommand::Kill));
    assert!(matches!(parse_line("terminate now"), ReplCommand::Kill));
    assert!(matches!(parse_line("metrics"), ReplCommand::Metrics));
    assert!(matches!(parse_line("regs read all"), ReplCommand::ReadAll));
    assert!(matches!(parse_line("regs read eax"), ReplCommand::Read { name } if name == "eax"));
    assert!(matches!(
        parse_line("regs write rax 0xff"),
        ReplCommand::Write { name, value: 255 } if name == "rax"
    ));
    assert!(matches!(parse_line("help"), ReplCommand::Help));
    assert!(matches!(parse_line("?"), ReplCommand::Help));
    assert!(matches!(parse_line("quit"), ReplCommand::Quit));
    assert!(matches!(parse_line("q"), ReplCommand::Quit));
    assert!(matches!(parse_line("exit"), ReplCommand::Quit));
}

fn usage_of(line: &str) -> &'static str {
    match parse_line(line) {
        ReplCommand::Usage { text } => text,
        other => panic!("{other:?}"),
    }
}

fn rejection_of(line: &str) -> String {
    match parse_line(line) {
        ReplCommand::Invalid { message } => message,
        other => panic!("{other:?}"),
    }
}

#[test]
fn missing_words_are_explained() {
    assert_eq!(usage_of("run"), "usage: run <program> [args...]");
    assert_eq!(usage_of("attach"), "usage: attach <pid>");
    assert_eq!(usage_of("attach 1 2"), "usage: attach <pid>");
    assert_eq!(
        usage_of("regs"),
        "usage: regs read <name|all> | regs write <name> <value>"
    );
    assert_eq!(
        usage_of("regs write"),
        "usage: regs read <name|all> | regs write <name> <value>"
    );
    assert_eq!(usage_of("regs write rax"), "usage: regs write <name> <value>");
}

#[test]
fn words_that_mean_nothing_are_rejected() {
    assert_eq!(rejection_of("frobnicate x"), "unknown command: frobnicate");
    assert_eq!(rejection_of("RUN x"), "unknown command: RUN");
    assert_eq!(rejection_of("regs dump rax"), "unknown regs command: dump");
    assert_eq!(
        rejection_of("attach me"),
        "invalid i32 value `me`: invalid digit found in string"
    );
    assert_eq!(
        rejection_of("c many"),
        "invalid decimal value `many`: invalid digit found in string"
    );
    assert_eq!(rejection_of("c 4294967296"), "value out of range for u32: 4294967296");
    assert_eq!(
        rejection_of("regs write rax 0xzz"),
        "invalid hex value `0xzz`: invalid digit found in string"
    );
}

#[test]
fn regs_words_are_read_on_their_own() {
    let parts: Vec<String> = ["regs", "read", "all"].iter().map(|s| s.to_string()).collect();
    assert!(matches!(parse_regs_command(&parts), ReplCommand::ReadAll));
}
