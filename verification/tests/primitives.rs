use rtfm::archive::{extension_of, file_name_of};
use rtfm::listing::comes_before;
use rtfm::text::{begins_with, chain, char_position, chars_of, find_at, finishes_with, framed, includes, is_whitespace, piece_after, replaced, replaced_char, same, slice, split_at_char, split_lines, str_same, string_of, to_lower, trimmed, without_prefix, without_suffix};

const SAMPLES: [&str; 24] = [
    "",
    " ",
    "a",
    "  lead",
    "trail \t\n",
    "\u{3000}wide\u{a0}",
    "a\nb",
    "a\r\nb\r\n",
    "a\r",
    "\n\n",
    "one\n\ntwo\n",
    "x  y   z",
    "aaaa",
    "ab.md.md",
    ".md",
    "$ $ $ run",
    "a - b - c",
    " - ",
    "MiXeD Case İK",
    "path/to/file.txt",
    "中文 测试\r\n字符串",
    "a,b,,c,",
    "::a::b",
    "tab\tsep",
];

const NEEDLES: [&str; 10] = ["", " ", "a", "  ", ".md", "$ ", " - ", "aa", "\n", "中"];

fn text(v: Vec<char>) -> String {
    string_of(&v)
}

#[test]
fn white_space_is_what_std_says() {
    for code in 0..=0x10ffffu32 {
        if let Some(c) = char::from_u32(code) {
            assert_eq!(is_whitespace(c), c.is_whitespace(), "character {:x}", code);
        }
    }
}

#[test]
fn conversions_round_trip() {
    for s in SAMPLES {
        assert_eq!(chars_of(s), s.chars().collect::<Vec<char>>());
        assert_eq!(text(chars_of(s)), s);
    }
}

#[test]
fn trimming_and_case_follow_std() {
    for s in SAMPLES {
        assert_eq!(text(trimmed(&chars_of(s))), s.trim());
        assert_eq!(text(to_lower(&chars_of(s))), s.to_ascii_lowercase());
    }
}

#[test]
fn lines_follow_std() {
    for s in SAMPLES {
        let mine: Vec<String> = split_lines(&chars_of(s)).into_iter().map(text).collect();
        let std: Vec<String> = s.lines().map(|l| l.to_string()).collect();
        assert_eq!(mine, std, "text {:?}", s);
    }
}

#[test]
fn splitting_follows_std() {
    for s in SAMPLES {
        for sep in [',', '/', ' ', ':', '.'] {
            let mine: Vec<String> =
                split_at_char(&chars_of(s), sep).into_iter().map(text).collect();
            let std: Vec<String> = s.split(sep).map(|p| p.to_string()).collect();
            assert_eq!(mine, std, "text {:?} separator {:?}", s, sep);
            assert_eq!(
                text(replaced_char(&chars_of(s), sep, '_')),
                s.replace(sep, "_"),
                "text {:?}",
                s
            );
            let first = s.chars().position(|c| c == sep);
            assert_eq!(char_position(&chars_of(s), sep, 0), first);
        }
    }
}

#[test]
fn searching_follows_std() {
    for s in SAMPLES {
        for p in NEEDLES {
            let v = chars_of(s);
            let n = chars_of(p);
            assert_eq!(includes(&v, &n), s.contains(p), "{:?} in {:?}", p, s);
            assert_eq!(begins_with(&v, &n), s.starts_with(p));
            assert_eq!(finishes_with(&v, &n), s.ends_with(p));
            let at = s.find(p).map(|bytes| s[..bytes].chars().count());
            assert_eq!(find_at(&v, &n, 0), at);
            if !p.is_empty() {
                assert_eq!(text(replaced(&v, &n, &chars_of("<>"))), s.replace(p, "<>"));
                assert_eq!(text(without_suffix(&v, &n)), s.trim_end_matches(p));
                assert_eq!(text(without_prefix(&v, &n)), s.trim_start_matches(p));
                let second = s.split(p).nth(1).map(|piece| piece.to_string());
                assert_eq!(piece_after(&v, &n).map(text), second, "{:?} by {:?}", s, p);
            } else {
                assert_eq!(text(without_suffix(&v, &n)), s);
                assert_eq!(text(without_prefix(&v, &n)), s);
            }
        }
    }
}

#[test]
fn comparing_follows_std() {
    for a in SAMPLES {
        for b in SAMPLES {
            assert_eq!(same(&chars_of(a), &chars_of(b)), a == b);
            assert_eq!(str_same(a, b), a == b);
            assert_eq!(comes_before(&chars_of(a), &chars_of(b)), a < b, "{:?} < {:?}", a, b);
            assert_eq!(text(chain(&chars_of(a), &chars_of(b))), format!("{}{}", a, b));
            assert_eq!(text(framed("[", &chars_of(a), b)), format!("[{}{}", a, b));
        }
    }
    assert_eq!(text(slice(&chars_of("中文测试"), 1, 3)), "文测");
    assert_eq!(text(slice(&chars_of("abc"), 0, 0)), "");
}

#[test]
fn file_names_follow_std_on_slash_paths() {
    let paths = [
        "",
        "a",
        "a.md",
        "dir/a.md",
        "dir/.md",
        "dir/a.",
        "dir/a.tar.gz",
        "dir/",
        "dir//",
        "dir/.",
        "dir/..",
        "/",
        ".",
        "..",
        "./a.b",
        "a/./b.c/",
        ".hidden.txt",
        "no_extension",
    ];
    for p in paths {
        let path = std::path::Path::new(p);
        let name = path.file_name().map(|n| n.to_string_lossy().into_owned());
        let ext = path.extension().map(|e| e.to_string_lossy().into_owned());
        assert_eq!(file_name_of(&chars_of(p)).map(text), name, "name of {:?}", p);
        assert_eq!(extension_of(&chars_of(p)).map(text), ext, "extension of {:?}", p);
    }
}
