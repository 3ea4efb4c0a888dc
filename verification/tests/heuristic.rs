use rtfm::capture::{
    get_help_output, get_man_page, get_man_page_with_section, is_valid_help_content,
    learn_command, list_available_commands, list_man_pages, parse_man_list_line,
    parse_man_listing, strip_ansi_codes, try_help_flag, HelpStep, Launch, LearnStep, ListStep,
};
use rtfm::learn::{get_platform, has_fallback_description, parse_help_content, parse_option_line};

fn ran(success: bool, stdout: &str, stderr: &str) -> Launch {
    Launch::Ran { success, stdout: stdout.to_string(), stderr: stderr.to_string() }
}

#[test]
fn test_strip_ansi_codes() {
    let input = "\x1b[1mBold\x1b[0m text";
    let output = strip_ansi_codes(input);
    assert_eq!(output, "Bold text");
}

#[test]
fn strip_ansi_handles_backspace_and_lone_escape() {
    assert_eq!(strip_ansi_codes("N\x08NA\x08AM\x08ME\x08E"), "NAME");
    assert_eq!(strip_ansi_codes("\x08a\x1bb"), "ab");
    assert_eq!(strip_ansi_codes("x\x1b[31;1"), "x");
    assert_eq!(strip_ansi_codes(""), "");
}

#[test]
fn test_parse_option_line() {
    let line = "-v, --verbose  Enable verbose output";
    let (opt, desc) = parse_option_line(line).unwrap();
    assert_eq!(opt, "--verbose");
    assert_eq!(desc, "Enable verbose output");
}

#[test]
fn option_line_without_long_form_or_description() {
    assert_eq!(
        parse_option_line("-h  Show help"),
        Some(("-h".to_string(), "Show help".to_string()))
    );
    assert_eq!(
        parse_option_line("-a, -b    Both   forms"),
        Some(("-a".to_string(), "Both   forms".to_string()))
    );
    assert_eq!(parse_option_line("--flag description"), None);
    assert_eq!(parse_option_line("--flag    "), None);
    assert_eq!(parse_option_line("  text"), None);
}

#[test]
fn test_parse_help_content() {
    let content = r#"
mycmd - A test command

Usage: mycmd [OPTIONS] <FILE>

Options:
  -v, --verbose  Enable verbose output
  -h, --help     Show help

Examples:
  mycmd file.txt
  mycmd -v file.txt
"#;
    let cmd = parse_help_content("mycmd", content, "--help", "linux");
    assert_eq!(cmd.name, "mycmd");
    assert!(!cmd.description.is_empty());
}

#[test]
fn help_text_gives_man_style_description_and_examples() {
    let content = "\nmycmd - A test command\n\nUsage: mycmd [OPTIONS] <FILE>\n\nOptions:\n  -v, --verbose  Enable verbose output\n  -h, --help     Show help\n\nExamples:\n  mycmd file.txt\n  mycmd -v file.txt\n";
    let cmd = parse_help_content("mycmd", content, "--help", "linux");
    assert_eq!(cmd.description, "A test command");
    assert_eq!(cmd.category, "local");
    assert_eq!(cmd.lang, "local");
    assert_eq!(cmd.platform, "linux");
    assert_eq!(cmd.content, format!("Source: --help\n\n{}", content));
    assert_eq!(cmd.examples.len(), 2);
    assert_eq!(cmd.examples[0].code, "mycmd file.txt");
    assert_eq!(cmd.examples[0].description, "Options:");
    assert_eq!(cmd.examples[1].code, "mycmd -v file.txt");
    assert_eq!(cmd.examples[1].description, "Example usage");
}

#[test]
fn help_text_without_example_lines_falls_back_to_options() {
    let content = "mycmd - A test command\n\nUsage: mycmd [OPTIONS] <FILE>\n\nOptions:\n  -v, --verbose  Enable verbose output\n";
    let cmd = parse_help_content("mycmd", content, "--help", "macos");
    assert_eq!(cmd.platform, "osx");
    assert_eq!(cmd.description, "A test command");
    assert_eq!(cmd.examples.len(), 1);
    assert_eq!(cmd.examples[0].description, "Enable verbose output");
    assert_eq!(cmd.examples[0].code, "mycmd --verbose");
}

#[test]
fn later_line_with_a_dash_is_an_example() {
    let content = "tar - archiver\ntar cf - dir\ntar - again\n";
    let cmd = parse_help_content("tar", content, "man", "linux");
    assert_eq!(cmd.description, "archiver");
    assert_eq!(cmd.examples.len(), 2);
    assert_eq!(cmd.examples[0].code, "tar cf - dir");
    assert_eq!(cmd.examples[1].code, "tar - again");
    let prose = "Some tool\n\ntar - archiver\n";
    let cmd = parse_help_content("tar", prose, "man", "linux");
    assert_eq!(cmd.description, "Some tool");
    assert_eq!(cmd.examples.len(), 1);
    assert_eq!(cmd.examples[0].code, "tar - archiver");
    assert_eq!(cmd.examples[0].description, "Some tool");
}

#[test]
fn description_is_gathered_until_blank_line() {
    let content = "USAGE: tool [x]\nFirst  line\n  second line  \n--flag   ignored\n[opt] ignored\n-x ignored\n\nnot reached\n";
    let cmd = parse_help_content("tool", content, "-h", "windows");
    assert_eq!(cmd.platform, "windows");
    assert_eq!(cmd.description, "First line second line");
}

#[test]
fn description_falls_back_when_nothing_qualifies() {
    let cmd = parse_help_content("zz", "\n\n--only  flags\n-x\n", "man", "linux");
    assert_eq!(cmd.description, "zz command (learned from local system)");
    assert!(has_fallback_description(&cmd));
    assert!(!has_fallback_description(&parse_help_content("zz", "Real text", "man", "linux")));
    let empty = parse_help_content("zz", "", "man", "linux");
    assert_eq!(empty.description, "zz command (learned from local system)");
    assert!(empty.examples.is_empty());
    assert_eq!(empty.content, "Source: man\n\n");
}

#[test]
fn description_reads_twenty_lines_that_are_not_empty() {
    let mut late = String::new();
    for _ in 0..20 {
        late.push_str("--flag\n\n");
    }
    late.push_str("Too late\n");
    let cmd = parse_help_content("zz", &late, "man", "linux");
    assert_eq!(cmd.description, "zz command (learned from local system)");
    let mut early = String::new();
    for _ in 0..30 {
        early.push('\n');
    }
    for _ in 0..19 {
        early.push_str("--flag\n");
    }
    early.push_str("In time\n");
    let cmd = parse_help_content("zz", &early, "man", "linux");
    assert_eq!(cmd.description, "In time");
}

#[test]
fn description_stops_after_two_hundred_characters() {
    let long = "w".repeat(150);
    let content = format!("{}\n{}\nthird\n", long, long);
    let cmd = parse_help_content("zz", &content, "man", "linux");
    assert_eq!(cmd.description, format!("{} {}", long, long));
}

#[test]
fn examples_stop_at_ten_and_options_at_five() {
    let mut many = String::new();
    for i in 0..12 {
        many.push_str(&format!("caption {}\n$ tool run {} # note {}\n", i, i, i));
    }
    let cmd = parse_help_content("tool", &many, "--help", "linux");
    assert_eq!(cmd.examples.len(), 10);
    assert_eq!(cmd.examples[0].code, "tool run 0 # note 0");
    assert_eq!(cmd.examples[0].description, "caption 0");
    assert_eq!(cmd.examples[9].code, "tool run 9 # note 9");
    let mut flags = String::from("intro\nFlags:\n");
    for i in 0..7 {
        flags.push_str(&format!("  -{}, --opt{}  Option number {}\n", i, i, i));
    }
    let cmd = parse_help_content("other", &flags, "--help", "linux");
    assert_eq!(cmd.examples.len(), 5);
    assert_eq!(cmd.examples[4].code, "other --opt4");
    assert_eq!(cmd.examples[4].description, "Option number 4");
}

#[test]
fn example_without_caption_reads_its_comment() {
    let cmd = parse_help_content("tool", "tool go # start it\ntool stop\n", "--help", "linux");
    assert_eq!(cmd.examples.len(), 2);
    assert_eq!(cmd.examples[0].description, "start it");
    assert_eq!(cmd.examples[1].description, "Example usage");
}

#[test]
fn test_get_platform() {
    let platform = get_platform("linux");
    assert!(["linux", "osx", "windows"].contains(&platform.as_str()));
}

#[test]
fn platform_names() {
    assert_eq!(get_platform("windows"), "windows");
    assert_eq!(get_platform("macos"), "osx");
    assert_eq!(get_platform("linux"), "linux");
    assert_eq!(get_platform("freebsd"), "linux");
}

#[test]
fn manual_listing_line_is_read_for_its_section() {
    assert_eq!(
        parse_man_list_line("docker-ps (1) - list containers", "1"),
        Some(("docker-ps".to_string(), "list containers".to_string()))
    );
    assert_eq!(
        parse_man_list_line("git, git-all(1,7) - the tracker - fast", "1"),
        Some(("git".to_string(), "the tracker".to_string()))
    );
    assert_eq!(parse_man_list_line("printf (3) - formatted output", "1"), None);
    assert_eq!(parse_man_list_line("(1) - no name", "1"), None);
    assert_eq!(
        parse_man_list_line("ls (1)", "1"),
        Some(("ls".to_string(), "".to_string()))
    );
}

#[test]
fn manual_listing_keeps_order() {
    let listing = "ls (1) - list\nprintf (3) - print\n\ncat (1) - concatenate\r\n";
    assert_eq!(
        parse_man_listing(listing, "1"),
        vec![
            ("ls".to_string(), "list".to_string()),
            ("cat".to_string(), "concatenate".to_string())
        ]
    );
}

#[test]
fn help_content_validity() {
    assert!(is_valid_help_content("Usage: x"));
    assert!(is_valid_help_content("  see HELP  "));
    assert!(is_valid_help_content(&"z".repeat(51)));
    assert!(!is_valid_help_content(&"z".repeat(50)));
    assert!(!is_valid_help_content("   \n\t "));
    assert!(!is_valid_help_content("error"));
}

#[test]
fn help_flag_outcomes() {
    assert_eq!(
        try_help_flag("x", "--help", &ran(true, "usage: x", "")),
        Ok(("usage: x".to_string(), "--help".to_string()))
    );
    assert_eq!(
        try_help_flag("x", "-h", &ran(false, "", "usage: x [y]")),
        Ok(("usage: x [y]".to_string(), "-h (stderr)".to_string()))
    );
    assert_eq!(
        try_help_flag("x", "-h", &ran(true, "nope", "bad")),
        Err("No usable output from x -h".to_string())
    );
    assert_eq!(
        try_help_flag("x", "-h", &Launch::Missing { error: "os error 2".to_string() }),
        Err("Command 'x' not found (program not found)".to_string())
    );
    assert_eq!(
        try_help_flag("x", "-h", &Launch::Failed { error: "denied".to_string() }),
        Err("Failed to execute 'x -h': denied".to_string())
    );
}

#[test]
fn help_is_asked_in_order_on_unix() {
    let mut seen: Vec<Launch> = Vec::new();
    match get_help_output("tool", "linux", &seen) {
        HelpStep::Run(probe) => {
            assert_eq!(probe.program, "tool");
            assert_eq!(probe.args, vec!["--help".to_string()]);
            assert!(probe.env.is_empty());
        }
        other => panic!("unexpected step {:?}", other),
    }
    seen.push(ran(false, "", ""));
    match get_help_output("tool", "linux", &seen) {
        HelpStep::Run(probe) => assert_eq!(probe.args, vec!["-h".to_string()]),
        other => panic!("unexpected step {:?}", other),
    }
    seen.push(Launch::Missing { error: "gone".to_string() });
    match get_help_output("tool", "linux", &seen) {
        HelpStep::Run(probe) => {
            assert_eq!(probe.program, "which");
            assert_eq!(probe.args, vec!["tool".to_string()]);
        }
        other => panic!("unexpected step {:?}", other),
    }
    seen.push(ran(true, "/usr/bin/tool", ""));
    match get_help_output("tool", "linux", &seen) {
        HelpStep::Done(Err(reason)) => assert_eq!(
            reason,
            "Command 'tool' exists but --help/-h didn't provide usable output"
        ),
        other => panic!("unexpected step {:?}", other),
    }
    seen.pop();
    seen.push(ran(false, "", ""));
    match get_help_output("tool", "linux", &seen) {
        HelpStep::Done(Err(reason)) => {
            assert_eq!(reason, "Command 'tool' not found (program not found)")
        }
        other => panic!("unexpected step {:?}", other),
    }
    let second = vec![ran(false, "", ""), ran(true, "Usage: tool", "")];
    match get_help_output("tool", "linux", &second) {
        HelpStep::Done(Ok((text, source))) => {
            assert_eq!(text, "Usage: tool");
            assert_eq!(source, "-h");
        }
        other => panic!("unexpected step {:?}", other),
    }
}

#[test]
fn help_is_asked_in_order_on_windows() {
    let mut seen: Vec<Launch> = vec![ran(false, "", ""), ran(false, "", "")];
    match get_help_output("dir", "windows", &seen) {
        HelpStep::Run(probe) => assert_eq!(probe.args, vec!["/?".to_string()]),
        other => panic!("unexpected step {:?}", other),
    }
    seen.push(ran(false, "", ""));
    match get_help_output("dir", "windows", &seen) {
        HelpStep::Run(probe) => {
            assert_eq!(probe.program, "powershell");
            assert_eq!(probe.args.len(), 3);
            assert_eq!(
                probe.args[2],
                "Get-Help dir -ErrorAction SilentlyContinue | Out-String -Width 120"
            );
        }
        other => panic!("unexpected step {:?}", other),
    }
    seen.push(ran(true, "No help topic found", ""));
    match get_help_output("dir", "windows", &seen) {
        HelpStep::Run(probe) => {
            assert_eq!(probe.program, "cmd");
            assert_eq!(probe.args, vec!["/c".to_string(), "help".to_string(), "dir".to_string()]);
        }
        other => panic!("unexpected step {:?}", other),
    }
    seen.push(ran(false, "Displays a list of files. Usage: DIR", ""));
    match get_help_output("dir", "windows", &seen) {
        HelpStep::Done(Ok((_, source))) => assert_eq!(source, "help (cmd)"),
        other => panic!("unexpected step {:?}", other),
    }
    seen.pop();
    seen.push(ran(true, "This command is not supported by the help utility.", ""));
    match get_help_output("dir", "windows", &seen) {
        HelpStep::Run(probe) => assert_eq!(probe.program, "where"),
        other => panic!("unexpected step {:?}", other),
    }
    seen.push(ran(true, "C:\\dir.exe", ""));
    match get_help_output("dir", "windows", &seen) {
        HelpStep::Done(Err(reason)) => {
            assert_eq!(reason, "Command 'dir' exists but no help output available")
        }
        other => panic!("unexpected step {:?}", other),
    }
}

#[test]
fn manual_page_steps() {
    match get_man_page("ls", "windows", &Vec::new()) {
        HelpStep::Done(Err(reason)) => assert_eq!(
            reason,
            "'man' is not available on Windows. Use --help or Get-Help instead."
        ),
        other => panic!("unexpected step {:?}", other),
    }
    match get_man_page("ls", "linux", &Vec::new()) {
        HelpStep::Run(probe) => {
            assert_eq!(probe.program, "man");
            assert_eq!(probe.args, vec!["ls".to_string()]);
            assert_eq!(
                probe.env,
                vec![
                    "MANPAGER=cat".to_string(),
                    "MANWIDTH=80".to_string(),
                    "GROFF_NO_SGR=1".to_string()
                ]
            );
        }
        other => panic!("unexpected step {:?}", other),
    }
    match get_man_page("ls", "linux", &vec![ran(true, "\x1b[1mLS\x1b[0m(1)", "")]) {
        HelpStep::Done(Ok((text, source))) => {
            assert_eq!(text, "LS(1)");
            assert_eq!(source, "man");
        }
        other => panic!("unexpected step {:?}", other),
    }
    match get_man_page("ls", "linux", &vec![ran(true, " \x1b[0m\n", "")]) {
        HelpStep::Done(Err(reason)) => assert_eq!(reason, "man page for 'ls' is empty"),
        other => panic!("unexpected step {:?}", other),
    }
    match get_man_page("ls", "linux", &vec![ran(false, "", "No Manual Entry for ls\n")]) {
        HelpStep::Done(Err(reason)) => assert_eq!(reason, "No man page for 'ls'"),
        other => panic!("unexpected step {:?}", other),
    }
    match get_man_page("ls", "linux", &vec![ran(false, "", " broken pipe \n")]) {
        HelpStep::Done(Err(reason)) => assert_eq!(reason, "man failed for 'ls': broken pipe"),
        other => panic!("unexpected step {:?}", other),
    }
    match get_man_page("ls", "linux", &vec![Launch::Missing { error: "x".to_string() }]) {
        HelpStep::Done(Err(reason)) => {
            assert_eq!(reason, "'man' command not available (program not found)")
        }
        other => panic!("unexpected step {:?}", other),
    }
    match get_man_page("ls", "linux", &vec![Launch::Failed { error: "x".to_string() }]) {
        HelpStep::Done(Err(reason)) => assert_eq!(reason, "Failed to run man: x"),
        other => panic!("unexpected step {:?}", other),
    }
}

#[test]
fn manual_page_in_section_steps() {
    match get_man_page_with_section("ls", "8", "windows", &Vec::new()) {
        HelpStep::Done(Err(reason)) => assert_eq!(reason, "'man' is not available on Windows"),
        other => panic!("unexpected step {:?}", other),
    }
    match get_man_page_with_section("ls", "8", "linux", &Vec::new()) {
        HelpStep::Run(probe) => assert_eq!(probe.args, vec!["8".to_string(), "ls".to_string()]),
        other => panic!("unexpected step {:?}", other),
    }
    match get_man_page_with_section("ls", "8", "linux", &vec![ran(true, "text", "")]) {
        HelpStep::Done(Ok((text, source))) => {
            assert_eq!(text, "text");
            assert_eq!(source, "man(8)");
        }
        other => panic!("unexpected step {:?}", other),
    }
    match get_man_page_with_section("ls", "8", "linux", &vec![ran(true, "", "")]) {
        HelpStep::Done(Err(reason)) => assert_eq!(reason, "man page for 'ls(8)' is empty"),
        other => panic!("unexpected step {:?}", other),
    }
    match get_man_page_with_section("ls", "8", "linux", &vec![ran(false, "", " none \n")]) {
        HelpStep::Done(Err(reason)) => {
            assert_eq!(reason, "No man page for 'ls' in section 8: none")
        }
        other => panic!("unexpected step {:?}", other),
    }
}

#[test]
fn manual_listing_steps() {
    match list_man_pages("1", "linux", &Vec::new()) {
        ListStep::Run(probe) => assert_eq!(
            probe.args,
            vec!["-k".to_string(), "-s".to_string(), "1".to_string(), ".".to_string()]
        ),
        other => panic!("unexpected step {:?}", other),
    }
    match list_man_pages("1", "linux", &vec![ran(true, "ls (1) - list\n", "")]) {
        ListStep::Done(Ok(list)) => {
            assert_eq!(list, vec![("ls".to_string(), "list".to_string())])
        }
        other => panic!("unexpected step {:?}", other),
    }
    let mut seen = vec![ran(true, "", "")];
    match list_man_pages("1", "linux", &seen) {
        ListStep::Run(probe) => {
            assert_eq!(probe.program, "man");
            assert_eq!(probe.args, vec!["-k".to_string(), ".".to_string()]);
        }
        other => panic!("unexpected step {:?}", other),
    }
    seen.push(ran(false, "", "nothing appropriate"));
    match list_man_pages("1", "linux", &seen) {
        ListStep::Run(probe) => assert_eq!(probe.program, "apropos"),
        other => panic!("unexpected step {:?}", other),
    }
    seen.push(ran(false, "", "apropos failed"));
    match list_man_pages("1", "linux", &seen) {
        ListStep::Done(Err(reason)) => {
            assert_eq!(reason, "Failed to list man pages: nothing appropriate")
        }
        other => panic!("unexpected step {:?}", other),
    }
    seen.pop();
    seen.push(ran(true, "cat (1) - concatenate\n", ""));
    match list_man_pages("1", "linux", &seen) {
        ListStep::Done(Ok(list)) => assert_eq!(list.len(), 1),
        other => panic!("unexpected step {:?}", other),
    }
    match list_man_pages(
        "1",
        "linux",
        &vec![ran(false, "", ""), Launch::Missing { error: "no man".to_string() }],
    ) {
        ListStep::Done(Err(reason)) => assert_eq!(reason, "man/apropos not available: no man"),
        other => panic!("unexpected step {:?}", other),
    }
    match list_man_pages("1", "windows", &Vec::new()) {
        ListStep::Done(Err(reason)) => assert_eq!(
            reason,
            "'man' is not available on Windows. This feature only works on Linux/macOS."
        ),
        other => panic!("unexpected step {:?}", other),
    }
}

#[test]
fn sources_of_commands() {
    match list_available_commands("path", "linux", &Vec::new()) {
        ListStep::ScanPath => {}
        other => panic!("unexpected step {:?}", other),
    }
    match list_available_commands("powershell", "linux", &Vec::new()) {
        ListStep::Done(Err(reason)) => {
            assert_eq!(reason, "PowerShell cmdlet listing is only available on Windows")
        }
        other => panic!("unexpected step {:?}", other),
    }
    match list_available_commands("auto", "windows", &Vec::new()) {
        ListStep::Run(probe) => assert_eq!(probe.program, "powershell"),
        other => panic!("unexpected step {:?}", other),
    }
    match list_available_commands("auto", "windows", &vec![ran(true, "Get-Item\n\n  Set-Item \n", "")]) {
        ListStep::Done(Ok(list)) => assert_eq!(
            list,
            vec![
                ("Get-Item".to_string(), "PowerShell cmdlet".to_string()),
                ("Set-Item".to_string(), "PowerShell cmdlet".to_string())
            ]
        ),
        other => panic!("unexpected step {:?}", other),
    }
    match list_available_commands("powershell", "windows", &vec![ran(true, "\n \n", "")]) {
        ListStep::Done(Err(reason)) => assert_eq!(reason, "No PowerShell cmdlets found"),
        other => panic!("unexpected step {:?}", other),
    }
    match list_available_commands("powershell", "windows", &vec![ran(false, "", " boom ")]) {
        ListStep::Done(Err(reason)) => {
            assert_eq!(reason, "Failed to list PowerShell cmdlets: boom")
        }
        other => panic!("unexpected step {:?}", other),
    }
    match list_available_commands("man", "windows", &Vec::new()) {
        ListStep::Done(Err(reason)) => assert_eq!(
            reason,
            "'man' is not available on Windows. Use 'powershell' or 'path' instead."
        ),
        other => panic!("unexpected step {:?}", other),
    }
    match list_available_commands("auto", "linux", &Vec::new()) {
        ListStep::Run(probe) => assert_eq!(probe.program, "man"),
        other => panic!("unexpected step {:?}", other),
    }
    match list_available_commands("web", "linux", &Vec::new()) {
        ListStep::Done(Err(reason)) => assert_eq!(
            reason,
            "Unknown source 'web'. Use 'man', 'powershell', 'path', or 'auto'."
        ),
        other => panic!("unexpected step {:?}", other),
    }
}

#[test]
fn command_is_asked_before_the_manual() {
    let mut seen: Vec<Launch> = Vec::new();
    let mut programs: Vec<String> = Vec::new();
    let answers = [
        ran(false, "", ""),
        ran(false, "", ""),
        ran(true, "/usr/bin/tool", ""),
        ran(true, "TOOL(1)\n\nNAME\n  tool - does things", ""),
    ];
    let mut outcome = None;
    for step in 0..6 {
        match learn_command("tool", "linux", false, &seen) {
            LearnStep::Run(probe) => {
                programs.push(format!("{} {}", probe.program, probe.args.join(" ")));
                seen.push(answers[step].clone());
            }
            done => {
                outcome = Some(done);
                break;
            }
        }
    }
    assert_eq!(programs, vec!["tool --help", "tool -h", "which tool", "man tool"]);
    match outcome {
        Some(LearnStep::Done { text, source }) => {
            assert!(text.starts_with("TOOL(1)"));
            assert_eq!(source, "man");
        }
        other => panic!("unexpected {:?}", other),
    }
}

#[test]
fn both_reasons_are_told_when_nothing_helps() {
    let missing = || Launch::Missing { error: "No such file or directory".to_string() };
    let seen = vec![missing(), missing(), ran(false, "", ""), missing()];
    match learn_command("nope", "linux", false, &seen) {
        LearnStep::Failed { help_reason, man_reason } => {
            assert_eq!(help_reason, "Command 'nope' not found (program not found)");
            assert_eq!(man_reason, "'man' command not available (program not found)");
        }
        other => panic!("unexpected {:?}", other),
    }
    let seen = vec![ran(false, "", "No manual entry for nope"), missing(), missing(), missing()];
    match learn_command("nope", "linux", true, &seen) {
        LearnStep::Failed { help_reason, man_reason } => {
            assert_eq!(help_reason, "Command 'nope' not found (program not found)");
            assert_eq!(man_reason, "No man page for 'nope'");
        }
        other => panic!("unexpected {:?}", other),
    }
    match learn_command("nope", "linux", true, &seen[..1].to_vec()) {
        LearnStep::Run(probe) => assert_eq!(probe.args, vec!["--help".to_string()]),
        other => panic!("unexpected {:?}", other),
    }
    match learn_command("dir", "windows", true, &Vec::new()) {
        LearnStep::Run(probe) => {
            assert_eq!(probe.program, "dir");
            assert_eq!(probe.args, vec!["--help".to_string()]);
        }
        other => panic!("unexpected {:?}", other),
    }
    match learn_command("ls", "linux", true, &vec![ran(true, "LS(1)", "")]) {
        LearnStep::Done { text, source } => {
            assert_eq!(text, "LS(1)");
            assert_eq!(source, "man");
        }
        other => panic!("unexpected {:?}", other),
    }
    match learn_command("ls", "linux", false, &vec![ran(true, "Usage: ls", "")]) {
        LearnStep::Done { source, .. } => assert_eq!(source, "--help"),
        other => panic!("unexpected {:?}", other),
    }
}

#[test]
fn description_is_never_empty() {
    let cmd = parse_help_content("a", "a -  - b", "man", "linux");
    assert_eq!(cmd.description, "a - - b");
    let cmd = parse_help_content("a", "a - \u{a0} - b\n\nmore", "man", "linux");
    assert!(!cmd.description.is_empty());
    let cmd = parse_help_content("", "", "man", "linux");
    assert_eq!(cmd.description, " command (learned from local system)");
    let cmd = parse_help_content("a", "usage: a\n--flag\n[x]\n", "man", "linux");
    assert_eq!(cmd.description, "a command (learned from local system)");
}

#[test]
fn line_that_calls_the_command_is_an_example_whatever_it_holds() {
    let cmd = parse_help_content("cp", "cp example", "man", "linux");
    assert_eq!(cmd.examples.len(), 1);
    assert_eq!(cmd.examples[0].code, "cp example");
    let cmd = parse_help_content("cp", "Synopsis\n$ cp synopsis.txt b # copy\n", "man", "linux");
    assert_eq!(cmd.examples.len(), 1);
    assert_eq!(cmd.examples[0].code, "cp synopsis.txt b # copy");
    assert_eq!(cmd.examples[0].description, "copy");
}
