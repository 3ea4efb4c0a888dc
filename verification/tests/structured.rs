use rtfm::update::{
    command_from_events, parse_local_markdown, parse_tldr_markdown, parse_tldr_path, MdEvent,
};

#[test]
fn structured_page_gives_description_and_example() {
    let text = "# tar\n> Archive files.\n\n- Create archive:\n\n`tar -cvf {{file}}`\n";
    let cmd = parse_tldr_markdown(text, "tar".to_string(), "en".to_string(), "common".to_string())
        .unwrap();
    assert_eq!(cmd.name, "tar");
    assert_eq!(cmd.description, "Archive files.");
    assert_eq!(cmd.category, "common");
    assert_eq!(cmd.platform, "common");
    assert_eq!(cmd.lang, "en");
    assert_eq!(cmd.content, text);
    assert_eq!(cmd.examples.len(), 1);
    assert_eq!(cmd.examples[0].description, "Create archive");
    assert_eq!(cmd.examples[0].code, "tar -cvf {{file}}");
}

#[test]
fn structured_parse_is_repeatable() {
    let text = "# cp\n\n> Copy files.\n> Second line.\n\n- Copy a file:\n\n`cp {{a}} {{b}}`\n\n- Copy a directory:\n\n`cp -r {{a}} {{b}}`\n";
    let first = parse_tldr_markdown(text, "cp".into(), "en".into(), "common".into()).unwrap();
    let other = parse_tldr_markdown("# x\n> y\n", "x".into(), "en".into(), "linux".into()).unwrap();
    let second = parse_tldr_markdown(text, "cp".into(), "en".into(), "common".into()).unwrap();
    assert_eq!(other.description, "y");
    assert_eq!(first.name, second.name);
    assert_eq!(first.description, second.description);
    assert_eq!(first.description, "Copy files. Second line.");
    assert_eq!(first.examples.len(), 2);
    assert_eq!(second.examples.len(), 2);
    for (a, b) in first.examples.iter().zip(second.examples.iter()) {
        assert_eq!(a.description, b.description);
        assert_eq!(a.code, b.code);
    }
    assert_eq!(first.examples[1].description, "Copy a directory");
    assert_eq!(first.examples[1].code, "cp -r {{a}} {{b}}");
}

#[test]
fn more_information_line_is_left_out() {
    let text = "# tar\n\n> Archiving utility.\n> Often combined with a compression method.\n> More information: <https://www.gnu.org/software/tar>.\n\n- Extract:\n\n`tar xf {{file}}`\n";
    let cmd = parse_local_markdown(text, "tar.md").unwrap();
    assert_eq!(cmd.name, "tar");
    assert_eq!(cmd.lang, "zh");
    assert_eq!(cmd.platform, "common");
    assert_eq!(
        cmd.description,
        "Archiving utility. Often combined with a compression method."
    );
    assert_eq!(cmd.examples.len(), 1);
    assert_eq!(cmd.examples[0].description, "Extract");
    assert_eq!(cmd.examples[0].code, "tar xf {{file}}");
}

#[test]
fn chinese_more_information_line_is_left_out() {
    let text = "# ls\n\n> 列出目录内容。\n> 更多信息：<https://example.com/ls>.\n\n- 列出文件：\n\n`ls`\n";
    let cmd = parse_local_markdown(text, "ls.md").unwrap();
    assert_eq!(cmd.description, "列出目录内容。");
    assert_eq!(cmd.examples[0].description, "列出文件：");
}

#[test]
fn page_without_description_takes_the_name() {
    let cmd = parse_local_markdown("# thing\n\n- Do it:\n\n`thing now`\n", "thing.md").unwrap();
    assert_eq!(cmd.description, "thing");
    assert_eq!(cmd.examples.len(), 1);
    let empty = parse_local_markdown("", "nothing.md.md").unwrap();
    assert_eq!(empty.name, "nothing");
    assert_eq!(empty.description, "nothing");
    assert!(empty.examples.is_empty());
}

#[test]
fn fenced_code_block_is_an_example() {
    let text = "# run\n\n> Runs.\n\n- Run it::\n\n```\n  run --fast  \n```\n\n```\nrun --alone\n```\n";
    let cmd = parse_local_markdown(text, "run.md").unwrap();
    assert_eq!(cmd.examples.len(), 2);
    assert_eq!(cmd.examples[0].description, "Run it");
    assert_eq!(cmd.examples[0].code, "run --fast");
    assert_eq!(cmd.examples[1].description, "Example");
    assert_eq!(cmd.examples[1].code, "run --alone");
}

#[test]
fn events_are_scanned_as_given() {
    let events = vec![
        MdEvent::HeadingStart(1),
        MdEvent::Text("ignored".to_string()),
        MdEvent::HeadingEnd,
        MdEvent::QuoteStart,
        MdEvent::ParagraphStart,
        MdEvent::Text("  First.  ".to_string()),
        MdEvent::SoftBreak,
        MdEvent::Text("http://example.com".to_string()),
        MdEvent::Text("left out with its line".to_string()),
        MdEvent::HardBreak,
        MdEvent::Text("Second".to_string()),
        MdEvent::Other,
        MdEvent::Text("http://example.org".to_string()),
        MdEvent::Other,
        MdEvent::Text(" part.".to_string()),
        MdEvent::SoftBreak,
        MdEvent::Text("Third, see".to_string()),
        MdEvent::Text("More information: x".to_string()),
        MdEvent::QuoteEnd,
        MdEvent::ItemStart,
        MdEvent::Text("Use ".to_string()),
        MdEvent::Code("x".to_string()),
        MdEvent::Text(" so:".to_string()),
        MdEvent::ItemEnd,
        MdEvent::Code("x --go".to_string()),
        MdEvent::Code("orphan".to_string()),
        MdEvent::Other,
    ];
    let cmd = command_from_events(&events, "raw", "n".into(), "l".into(), "p".into());
    assert_eq!(cmd.name, "n");
    assert_eq!(cmd.lang, "l");
    assert_eq!(cmd.platform, "p");
    assert_eq!(cmd.category, "p");
    assert_eq!(cmd.content, "raw");
    assert_eq!(cmd.description, "First. Second part.");
    assert_eq!(cmd.examples.len(), 1);
    assert_eq!(cmd.examples[0].description, "Use `x` so");
    assert_eq!(cmd.examples[0].code, "x --go");
    let open = vec![MdEvent::QuoteStart, MdEvent::Text("Never closed".to_string())];
    let cmd = command_from_events(&open, "", "n".into(), "l".into(), "p".into());
    assert_eq!(cmd.description, "Never closed");
}

#[test]
fn quoted_lines_are_taken_or_left_whole() {
    let parse = |text: &str| parse_local_markdown(text, "x.md").unwrap().description;
    assert_eq!(parse("> See <https://x.y> now.\n"), "See now.");
    assert_eq!(parse("> One.\n> <https://x.y> is where it lives.\n> Two.\n"), "One. Two.");
    assert_eq!(parse("> One.\n> Read on: More information at <https://x.y>.\n"), "One.");
    assert_eq!(parse("> One.\n>\n> Two *strong* words.\n"), "One. Two strong words.");
    assert_eq!(parse("> <https://x.y>\n"), "x");
}

#[test]
fn archive_path_is_classified() {
    assert_eq!(
        parse_tldr_path("tldr-main/pages.zh/common/docker.md"),
        Some(("zh".to_string(), "common".to_string(), "docker".to_string()))
    );
    assert_eq!(
        parse_tldr_path("pages/linux/apt.md"),
        Some(("en".to_string(), "linux".to_string(), "apt".to_string()))
    );
    assert_eq!(
        parse_tldr_path("tldr\\pages.pt_BR\\windows\\dir.md"),
        Some(("pt_BR".to_string(), "windows".to_string(), "dir".to_string()))
    );
    assert_eq!(
        parse_tldr_path("pages.zh.old/osx/sub/open.md.md"),
        Some(("zh".to_string(), "osx".to_string(), "open".to_string()))
    );
}

#[test]
fn path_without_pages_shape_is_refused() {
    assert_eq!(parse_tldr_path("docs/common/docker.md"), None);
    assert_eq!(parse_tldr_path("pages/docker.md"), None);
    assert_eq!(parse_tldr_path("tldr/pages.zh"), None);
    assert_eq!(parse_tldr_path(""), None);
}
