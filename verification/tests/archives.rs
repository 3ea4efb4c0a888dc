use rtfm::archive::ArchiveEntry;
use rtfm::update::{
    classify_file, commands_from_entries, local_commands_from_entries, parse_file_data,
    parse_tldr_archive, FileKind, UpdateError,
};
use std::io::Write;

const PAGE: &str = "# tar\n\n> Archive files.\n\n- Create archive:\n\n`tar -cvf {{file}}`\n";

fn zip_of(files: &[(&str, &[u8])]) -> Vec<u8> {
    let mut writer = zip::ZipWriter::new(std::io::Cursor::new(Vec::new()));
    for (name, data) in files {
        writer.start_file(*name, zip::write::SimpleFileOptions::default()).unwrap();
        writer.write_all(data).unwrap();
    }
    writer.finish().unwrap().into_inner()
}

fn tar_of(files: &[(&str, &[u8])]) -> Vec<u8> {
    let mut builder = tar::Builder::new(Vec::new());
    for (name, data) in files {
        let mut header = tar::Header::new_gnu();
        header.set_size(data.len() as u64);
        header.set_mode(0o644);
        header.set_cksum();
        builder.append_data(&mut header, *name, *data).unwrap();
    }
    builder.into_inner().unwrap()
}

fn gz_of(data: &[u8]) -> Vec<u8> {
    let mut encoder =
        flate2::write::GzEncoder::new(Vec::new(), flate2::Compression::default());
    encoder.write_all(data).unwrap();
    encoder.finish().unwrap()
}

#[test]
fn zip_archive_of_pages() {
    let data = zip_of(&[
        ("tldr-main/README.md", b"# readme\n"),
        ("tldr-main/pages/common/tar.md", PAGE.as_bytes()),
        ("tldr-main/pages.zh/linux/apt.md", "# apt\n\n> 包管理。\n".as_bytes()),
        ("tldr-main/pages/common/logo.png", &[0xff, 0xfe, 0x00]),
    ]);
    let commands = parse_tldr_archive(&data).unwrap();
    assert_eq!(commands.len(), 2);
    assert_eq!(commands[0].name, "tar");
    assert_eq!(commands[0].lang, "en");
    assert_eq!(commands[0].platform, "common");
    assert_eq!(commands[0].description, "Archive files.");
    assert_eq!(commands[0].examples.len(), 1);
    assert_eq!(commands[1].name, "apt");
    assert_eq!(commands[1].lang, "zh");
    assert_eq!(commands[1].platform, "linux");
    assert_eq!(commands[1].description, "包管理。");
}

#[test]
fn gzipped_tar_archive_of_pages() {
    let data = gz_of(&tar_of(&[
        ("tldr/pages/osx/open.md", "# open\n\n> Opens.\n".as_bytes()),
        ("tldr/pages/osx/notes.txt", b"notes"),
    ]));
    let commands = parse_tldr_archive(&data).unwrap();
    assert_eq!(commands.len(), 1);
    assert_eq!(commands[0].name, "open");
    assert_eq!(commands[0].platform, "osx");
}

#[test]
fn unknown_archive_is_refused() {
    match parse_tldr_archive(b"this is neither zip nor gzip") {
        Err(UpdateError::Parse(reason)) => assert_eq!(reason, "Unrecognized archive format"),
        other => panic!("unexpected {:?}", other),
    }
    let error = parse_tldr_archive(b"plain").unwrap_err();
    assert_eq!(error.message(), "Parse error: Unrecognized archive format");
    assert_eq!(UpdateError::Io("x".to_string()).message(), "IO error: x");
    assert_eq!(UpdateError::Zip("y".to_string()).message(), "ZIP error: y");
}

#[test]
fn page_that_is_no_text_is_passed_over() {
    let data = zip_of(&[
        ("pages/common/bad.md", &[0xff, 0xfe, 0xfd]),
        ("pages/common/tar.md", PAGE.as_bytes()),
    ]);
    let commands = parse_tldr_archive(&data).unwrap();
    assert_eq!(commands.len(), 1);
    assert_eq!(commands[0].name, "tar");
    let (commands, skipped) = parse_file_data("upload.zip", &data).unwrap();
    assert_eq!(commands.len(), 1);
    assert_eq!(skipped, 1);
}

#[test]
fn entries_are_walked_in_order() {
    let entry = |path: &str, text: Result<&str, &str>| {
        Ok(ArchiveEntry {
            path: path.to_string(),
            text: text.map(|t| t.to_string()).map_err(|e| e.to_string()),
        })
    };
    let entries = vec![
        entry("pages/common/a.md", Ok("# a\n> A.\n")),
        entry("pages/common/image.png", Err("no text")),
        entry("elsewhere/b.md", Err("no text")),
        entry("pages.fr/linux/c.md", Ok("# c\n> C.\n")),
    ];
    let commands = commands_from_entries(&entries).unwrap();
    assert_eq!(commands.len(), 2);
    assert_eq!(commands[1].lang, "fr");
    let mut unread = entries;
    unread.push(entry("pages/common/d.md", Err("bad bytes")));
    assert_eq!(commands_from_entries(&unread).unwrap().len(), 2);
    unread.push(Err("broken archive".to_string()));
    assert_eq!(commands_from_entries(&unread).unwrap_err(), "broken archive");
    let lost: Vec<Result<ArchiveEntry, String>> = vec![Err("lost".to_string())];
    assert_eq!(commands_from_entries(&lost).unwrap_err(), "lost");
    let local = vec![
        entry("docs/a.md", Ok("# a\n> A.\n")),
        entry("docs/.md", Ok("# hidden\n")),
        entry("docs/b.MD", Ok("# b\n")),
        entry("docs/c.md", Err("bad bytes")),
        entry("docs/d.txt", Err("bad bytes")),
    ];
    let (by_extension, skipped) = local_commands_from_entries(&local, false).unwrap();
    assert_eq!(by_extension.len(), 1);
    assert_eq!(by_extension[0].name, "a");
    assert_eq!(skipped, 1);
    let (by_name, skipped) = local_commands_from_entries(&local, true).unwrap();
    assert_eq!(by_name.len(), 2);
    assert_eq!(by_name[1].name, "");
    assert_eq!(skipped, 1);
    let mut broken = local;
    broken.push(Err("cut short".to_string()));
    assert_eq!(local_commands_from_entries(&broken, true).unwrap_err(), "cut short");
}

#[test]
fn uploaded_files_by_kind() {
    let (commands, skipped) = parse_file_data("tar.md", PAGE.as_bytes()).unwrap();
    assert_eq!(skipped, 0);
    assert_eq!(commands.len(), 1);
    assert_eq!(commands[0].name, "tar");
    assert_eq!(commands[0].lang, "zh");
    assert_eq!(commands[0].platform, "common");
    let (commands, _) = parse_file_data("notes.txt", b"> Only a note.\n").unwrap();
    assert_eq!(commands.len(), 1);
    assert_eq!(commands[0].name, "notes.txt");
    assert_eq!(commands[0].description, "Only a note.");
    let (commands, _) = parse_file_data("bytes", &[b'>', b' ', 0xff]).unwrap();
    assert_eq!(commands[0].description, "\u{fffd}");
    let zipped = zip_of(&[("docs/tar.md", PAGE.as_bytes()), ("docs/skip.txt", b"x")]);
    let (commands, skipped) = parse_file_data("pages.ZIP", &zipped).unwrap();
    assert_eq!(skipped, 0);
    assert_eq!(commands.len(), 1);
    assert_eq!(commands[0].name, "tar");
    let tarred = tar_of(&[("docs/tar.md", PAGE.as_bytes()), ("docs/skip.txt", b"x")]);
    let (commands, _) = parse_file_data("pages.tar", &tarred).unwrap();
    assert_eq!(commands.len(), 1);
    let (commands, _) = parse_file_data("pages.tar.gz", &gz_of(&tarred)).unwrap();
    assert_eq!(commands.len(), 1);
    let (commands, _) = parse_file_data("pages.tgz", &gz_of(&tarred)).unwrap();
    assert_eq!(commands.len(), 1);
    assert_eq!(commands[0].name, "tar");
}

#[test]
fn broken_uploads_give_errors() {
    assert!(matches!(parse_file_data("x.zip", b"not a zip"), Err(UpdateError::Zip(_))));
    assert!(matches!(parse_file_data("x.tgz", b"not gzip"), Err(UpdateError::Io(_))));
    assert!(matches!(parse_file_data("x.tar", &[7u8; 600]), Err(UpdateError::Io(_))));
}

#[test]
fn files_are_told_apart_by_extension() {
    assert_eq!(classify_file("a.md"), FileKind::Markdown);
    assert_eq!(classify_file("dir/A.MD"), FileKind::Markdown);
    assert_eq!(classify_file("pages.Zip"), FileKind::Zip);
    assert_eq!(classify_file("pages.tar.gz"), FileKind::TarGz);
    assert_eq!(classify_file("pages.TGZ"), FileKind::TarGz);
    assert_eq!(classify_file("pages.tar"), FileKind::Tar);
    assert_eq!(classify_file("notes.txt"), FileKind::Other);
    assert_eq!(classify_file("md"), FileKind::Other);
    assert_eq!(classify_file(".zip"), FileKind::Other);
    assert_eq!(classify_file(""), FileKind::Other);
}
