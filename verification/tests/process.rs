//! End-to-end behaviour of the pipeline: matching, section printing,
//! commit-hash output, color stripping, decode policies, and the edge shapes
//! a stream can end in.

use hunk::classify::{ProcessError, State};
use hunk::config::{Config, OutputConfig, PatchSections, UTF8Strategy};
use hunk::model::{chunk_empty, chunk_from, FileDiff, Hunk, HunkDiffWithTail, Patch};
use hunk::engine::process_patch;
use hunk::pipeline::process_lines;

fn sections_all() -> PatchSections {
    PatchSections { context: true, diff: true, file_header: true, patch_header: true }
}

fn sections_none() -> PatchSections {
    PatchSections { context: false, diff: false, file_header: false, patch_header: false }
}

fn concat(parts: &[&[u8]]) -> Vec<u8> {
    let mut v: Vec<u8> = Vec::new();
    for p in parts {
        v.extend_from_slice(p);
    }
    v
}

fn three_patches_plain() -> Vec<u8> {
    let text = "commit bcd581d22a277d2f7e8766219f96412f516418af\n\
                Author: Someone <someone@example.com>\n\
                \n\
                    Add an AI opponent\n\
                \n\
                diff --git a/src/game.ts b/src/game.ts\n\
                index 1111111..2222222 100644\n\
                --- a/src/game.ts\n\
                +++ b/src/game.ts\n\
                @@ -1,3 +1,4 @@\n \
                const board = new Board();\n\
                +const ai = new AIPlayer(board);\n \
                start();\n\
                commit 39512adde34a5ece411a7ef67a363fa33a333f45\n\
                \n\
                    Trim the player hierarchy\n\
                \n\
                diff --git a/src/player.ts b/src/player.ts\n\
                @@ -10,3 +10,3 @@\n\
                -class AIPlayer extends Player {\n\
                +class AIPlayer {\n \
                }\n\
                commit a9b7171d2eb0164592e20e39d9f126412a44964f\n\
                \n\
                diff --git a/README.md b/README.md\n\
                @@ -1 +1,2 @@\n \
                # Game\n\
                +Now with an AIPlayer bot.\n";
    text.as_bytes().to_vec()
}

fn three_patches_color() -> Vec<u8> {
    concat(&[
        b"\x1b[33mcommit bcd581d22a277d2f7e8766219f96412f516418af\x1b[m\n",
        b"Author: Someone <someone@example.com>\n",
        b"\n",
        b"    Add an AI opponent\n",
        b"\n",
        b"diff --git a/src/game.ts b/src/game.ts\n",
        b"\x1b[36m@@ -1,3 +1,4 @@\x1b[m\n",
        b" const board = new Board();\n",
        b"\x1b[32m+const ai = new AIPlayer(board);\x1b[m\n",
        b" start();\n",
        b"\x1b[33mcommit 39512adde34a5ece411a7ef67a363fa33a333f45\x1b[m\n",
        b"\n",
        b"diff --git a/src/player.ts b/src/player.ts\n",
        b"\x1b[36m@@ -10,3 +10,3 @@\x1b[m\n",
        b"\x1b[31m-class AIPlayer extends Player {\x1b[m\n",
        b"\x1b[32m+class AIPlayer {\x1b[m\n",
        b" }\n",
        b"\x1b[33mcommit a9b7171d2eb0164592e20e39d9f126412a44964f\x1b[m\n",
        b"\n",
        b"diff --git a/README.md b/README.md\n",
        b"\x1b[36m@@ -1 +1,2 @@\x1b[m\n",
        b" # Game\n",
        b"\x1b[32m+Now with an AIPlayer bot.\x1b[m\n",
    ])
}

#[test]
fn test_1() {
    let input = three_patches_plain();
    let mut config = Config::default();
    config.search_string = "AIPlayer".to_string();
    config.match_on.diff = true;
    let mut output_sections = sections_none();
    output_sections.diff = true;
    config.output = OutputConfig::Sections(output_sections);
    let out_str = process_lines(&input, &config).unwrap();
    println!("{}", out_str);
    assert!(out_str.contains(&config.search_string));
}

#[test]
fn test_1_color() {
    let input = three_patches_color();
    let mut config = Config::default();
    config.search_string = "AIPlayer".to_string();
    config.match_on.diff = true;
    let mut output_sections = sections_none();
    output_sections.diff = true;
    config.output = OutputConfig::Sections(output_sections);
    let out_str = process_lines(&input, &config).unwrap();
    println!("{}", out_str);
    assert!(out_str.contains(&config.search_string));
}

#[test]
fn test_1_commit_hash() {
    let input = three_patches_color();
    let mut config = Config::default();
    config.search_string = "AIPlayer".to_string();
    config.match_on.diff = true;
    config.output = OutputConfig::CommitHash;
    let out_str = process_lines(&input, &config).unwrap();
    println!("{}", out_str);
    let out_lines: Vec<&str> = out_str.split('\n').collect();
    assert!(out_lines.len() == 4);
    assert!(out_lines[0] == "bcd581d22a277d2f7e8766219f96412f516418af");
    assert!(out_lines[1] == "39512adde34a5ece411a7ef67a363fa33a333f45");
    assert!(out_lines[2] == "a9b7171d2eb0164592e20e39d9f126412a44964f");
    assert!(out_lines[3] == "");
}

#[test]
fn test_unicode_chars_cjk() {
    let text = "commit 0123456789abcdef0123456789abcdef01234567\n\
                \n\
                diff --git a/installer.nsi b/installer.nsi\n\
                @@ -1,2 +1,2 @@\n \
                Section\n\
                +; \u{4fee}\u{590d}\u{5b89}\u{88c5}\u{5305}\u{8bb8}\u{53ef}\u{534f}\u{8bae}\u{4e71}\u{7801}\u{95ee}\u{9898}\n";
    let input = text.as_bytes().to_vec();
    let mut config = Config::default();
    config.search_string =
        "\u{4fee}\u{590d}\u{5b89}\u{88c5}\u{5305}\u{8bb8}\u{53ef}\u{534f}\u{8bae}\u{4e71}\u{7801}\u{95ee}\u{9898}"
        .to_string();
    config.match_on.diff = true;
    let mut output_sections = sections_none();
    output_sections.diff = true;
    config.output = OutputConfig::Sections(output_sections);
    let out_str = process_lines(&input, &config).unwrap();
    println!("{}", out_str);
    assert!(out_str.contains(&config.search_string));
}

fn invalid_unicode_hunk() -> Vec<u8> {
    concat(&[
        b"commit 0123456789abcdef0123456789abcdef01234567\n",
        b"\n",
        b"diff --git a/data.bin b/data.bin\n",
        b"@@ -1,3 +1,3 @@\n",
        b" context\n",
        b"+ab\xffefg\n",
        b" tail\n",
    ])
}

#[test]
fn test_invalid_unicode_hunk_panic() {
    let input = invalid_unicode_hunk();
    let mut config = Config::default();
    config.search_string = "fg".to_string();
    process_lines(&input, &config).err().expect("");
}

#[test]
fn test_invalid_unicode_hunk_skip_line() {
    let input = invalid_unicode_hunk();
    let mut config = Config::default();
    config.search_string = "fg".to_string();
    config.decode_strategy = UTF8Strategy::SkipLine;
    let out_str = process_lines(&input, &config).unwrap();
    println!("{}", out_str);
    assert!(!out_str.contains(&config.search_string));
    assert!(out_str.is_empty());
}

#[test]
fn test_invalid_unicode_hunk_lossy() {
    let input = invalid_unicode_hunk();
    let mut config = Config::default();
    config.search_string = "fg".to_string();
    config.decode_strategy = UTF8Strategy::Lossy;
    config.match_on.diff = true;
    let mut output_sections = sections_none();
    output_sections.diff = true;
    config.output = OutputConfig::Sections(output_sections);
    let out_str = process_lines(&input, &config).unwrap();
    println!("{}", out_str);
    assert!(out_str.contains(&config.search_string));
}

fn invalid_unicode_whole_hunk() -> Vec<u8> {
    concat(&[
        b"commit 0123456789abcdef0123456789abcdef01234567\n",
        b"\n",
        b"diff --git a/blob.bin b/blob.bin\n",
        b"@@ -1,2 +1,2 @@\n",
        b"+Invalid\xff bytes here\n",
        b" Invalid\xff tail\n",
    ])
}

#[test]
fn test_invalid_unicode_whole_hunk_panic() {
    let input = invalid_unicode_whole_hunk();
    let mut config = Config::default();
    config.search_string = "Invalid".to_string();
    process_lines(&input, &config).err().expect("");
}

#[test]
fn test_invalid_unicode_whole_hunk_skip_line() {
    let input = invalid_unicode_whole_hunk();
    let mut config = Config::default();
    config.search_string = "Invalid".to_string();
    config.decode_strategy = UTF8Strategy::SkipLine;
    let out_str = process_lines(&input, &config).unwrap();
    println!("{}", out_str);
    assert!(!out_str.contains(&config.search_string));
    assert!(out_str.is_empty());
}

#[test]
fn test_invalid_unicode_whole_hunk_lossy() {
    let input = invalid_unicode_whole_hunk();
    let mut config = Config::default();
    config.search_string = "Invalid".to_string();
    config.decode_strategy = UTF8Strategy::Lossy;
    config.match_on.diff = true;
    let mut output_sections = sections_none();
    output_sections.diff = true;
    config.output = OutputConfig::Sections(output_sections);
    let out_str = process_lines(&input, &config).unwrap();
    println!("{}", out_str);
    assert!(out_str.contains(&config.search_string));
}

#[test]
fn test_empty_file_section() {
    let text = "commit 5555555555555555555555555555555555555555\n\
                \n\
                    Fix the mingw build scripts\n\
                \n\
                diff --git a/build.sh b/build.sh\n\
                old mode 100644\n\
                new mode 100755\n";
    let input = text.as_bytes().to_vec();
    let mut config = Config::default();
    config.search_string = "mingw".to_string();
    config.match_on.patch_header = true;
    let mut output_sections = sections_none();
    output_sections.patch_header = true;
    config.output = OutputConfig::Sections(output_sections);
    let out_str = process_lines(&input, &config).unwrap();
    println!("{}", out_str);
    assert!(out_str.contains(&config.search_string));
}

#[test]
fn test_empty_file_tail() {
    let text = "commit 6666666666666666666666666666666666666666\n\
                \n\
                    Fix the mingw build scripts\n\
                \n\
                diff --git a/configure b/configure\n\
                @@ -1 +1 @@\n\
                +set -e\n\
                diff --git a/tools/mk b/tools/mk2\n\
                similarity index 100%\n\
                rename from tools/mk\n\
                rename to tools/mk2\n";
    let input = text.as_bytes().to_vec();
    let mut config = Config::default();
    config.search_string = "mingw".to_string();
    config.match_on.patch_header = true;
    let mut output_sections = sections_none();
    output_sections.patch_header = true;
    config.output = OutputConfig::Sections(output_sections);
    let out_str = process_lines(&input, &config).unwrap();
    println!("{}", out_str);
    assert!(out_str.contains(&config.search_string));
}

#[test]
fn test_tail() {
    let text = "commit 7777777777777777777777777777777777777777\n\
                \n\
                diff --git a/app.js b/app.js\n\
                @@ -5,3 +5,4 @@\n \
                function report(w, l, m) {\n\
                +  console.log(w, l, m);\n \
                }\n";
    let input = text.as_bytes().to_vec();
    let mut config = Config::default();
    config.search_string = "console.log(w, l, m);".to_string();
    config.match_on.diff = true;
    let mut output_sections = sections_none();
    output_sections.diff = true;
    config.output = OutputConfig::Sections(output_sections);
    let out_str = process_lines(&input, &config).unwrap();
    println!("{}", out_str);
    assert!(out_str.contains(&config.search_string));
}

#[test]
fn test_empty() {
    let input: Vec<u8> = Vec::new();
    let mut config = Config::default();
    config.search_string = "hello".to_string();
    config.match_on = sections_all();
    config.output = OutputConfig::Sections(sections_all());
    let out_str = process_lines(&input, &config).unwrap();
    println!("{}", out_str);
    assert!(out_str.is_empty());
}

#[test]
fn test_only_header() {
    let text = "commit 8888888888888888888888888888888888888888\n\
                \n\
                    Nothing interesting\n";
    let input = text.as_bytes().to_vec();
    let mut config = Config::default();
    config.search_string = "hello".to_string();
    config.match_on.patch_header = true;
    let mut output_sections = sections_none();
    output_sections.patch_header = true;
    config.output = OutputConfig::Sections(output_sections);
    let out_str = process_lines(&input, &config).unwrap();
    println!("{}", out_str);
    assert!(out_str.is_empty());
}

#[test]
fn test_only_header_and_file_header_tail() {
    let text = "commit 9999999999999999999999999999999999999999\n\
                \n\
                diff --git a/x b/x\n\
                index 0000000..1111111\n";
    let input = text.as_bytes().to_vec();
    let mut config = Config::default();
    config.search_string = "hi".to_string();
    config.match_on.diff = true;
    let mut output_sections = sections_none();
    output_sections.diff = true;
    config.output = OutputConfig::Sections(output_sections);
    let out_str = process_lines(&input, &config).unwrap();
    println!("{}", out_str);
    assert!(out_str.is_empty());
}

#[test]
fn test_diff_match_prints_all_hunks() {
    let text = "commit aaaaaaaaaaaaaaaaaaaaaaaaaaaaaaaaaaaaaaaa\n\
                \n\
                diff --git a/f b/f\n\
                @@ -1,2 +1,2 @@\n\
                +first added line\n\
                -first removed line\n \
                between\n\
                @@ -9,2 +9,2 @@\n\
                +needle here\n \
                after\n";
    let input = text.as_bytes().to_vec();
    let mut config = Config::default();
    config.search_string = "needle".to_string();
    config.match_on.diff = true;
    let mut output_sections = sections_none();
    output_sections.diff = true;
    config.output = OutputConfig::Sections(output_sections);
    let out_str = process_lines(&input, &config).unwrap();
    println!("{}", out_str);
    assert_eq!(out_str, "+first added line\n-first removed line\n+needle here\n");
}

#[test]
fn test_disabled_section_never_emits() {
    let text = "commit bbbbbbbbbbbbbbbbbbbbbbbbbbbbbbbbbbbbbbbb\n\
                \n\
                    needle in the header\n\
                \n\
                diff --git a/needle.txt b/needle.txt\n\
                @@ -1 +1 @@\n\
                +no match in here\n";
    let input = text.as_bytes().to_vec();
    let mut config = Config::default();
    config.search_string = "needle".to_string();
    config.match_on.diff = true;
    config.output = OutputConfig::Sections(sections_all());
    let out_str = process_lines(&input, &config).unwrap();
    assert!(out_str.is_empty());
}

#[test]
fn test_not_starting_with_commit() {
    let input = b"hello world\n".to_vec();
    let mut config = Config::default();
    config.search_string = "hello".to_string();
    let err = process_lines(&input, &config).unwrap_err();
    assert_eq!(err, ProcessError::UnexpectedLine { line: 1, state: State::Start });
}

#[test]
fn test_bad_line_in_hunk_head() {
    let text = "commit cccccccccccccccccccccccccccccccccccccccc\n\
                diff --git a/f b/f\n\
                @@ -1 +1 @@\n\
                garbage where a hunk body belongs\n";
    let input = text.as_bytes().to_vec();
    let mut config = Config::default();
    config.search_string = "garbage".to_string();
    let err = process_lines(&input, &config).unwrap_err();
    assert_eq!(err, ProcessError::UnexpectedLine { line: 4, state: State::HunkHead });
}

#[test]
fn test_invalid_utf8_error_carries_line() {
    let input = concat(&[b"commit dddddddddddddddddddddddddddddddddddddddd\n", b"bad \xff header\n"]);
    let mut config = Config::default();
    config.search_string = "bad".to_string();
    let err = process_lines(&input, &config).unwrap_err();
    assert_eq!(err, ProcessError::InvalidUtf8 { line: 2 });
}

#[test]
fn test_crlf_terminators_kept() {
    let text = "commit eeeeeeeeeeeeeeeeeeeeeeeeeeeeeeeeeeeeeeee\r\n\
                \r\n\
                diff --git a/f b/f\r\n\
                @@ -1 +1 @@\r\n\
                +windows line\r\n";
    let input = text.as_bytes().to_vec();
    let mut config = Config::default();
    config.search_string = "windows".to_string();
    config.match_on.diff = true;
    let mut output_sections = sections_none();
    output_sections.diff = true;
    config.output = OutputConfig::Sections(output_sections);
    let out_str = process_lines(&input, &config).unwrap();
    assert_eq!(out_str, "+windows line\r\n");
}

#[test]
fn test_process_patch_direct() {
    let patch = Patch {
        patch_header: chunk_from("commit 1234\n".to_string()),
        files: vec![
            FileDiff {
                file_header: chunk_from("diff --git a/f b/f\n".to_string()),
                hunks: vec![
                    Hunk {
                        header: "@@ -1,2 +1,2 @@\n".to_string(),
                        context_head: chunk_from(" lead\n".to_string()),
                        diffs: vec![
                            HunkDiffWithTail {
                                diff: chunk_from("+added\n".to_string()),
                                context_tail: chunk_from(" trail\n".to_string()),
                            },
                        ],
                    },
                ],
            },
        ],
    };
    let mut config = Config::default();
    config.search_string = "added".to_string();
    config.match_on.diff = true;
    config.output = OutputConfig::Sections(sections_all());
    let out = process_patch(&config, &patch).unwrap();
    assert_eq!(
        out,
        "commit 1234\ndiff --git a/f b/f\n@@ -1,2 +1,2 @@\n lead\n+added\n trail\n"
    );
}

#[test]
fn test_commit_hash_missing_prefix() {
    let patch = Patch { patch_header: chunk_from("garbled header\n".to_string()), files: Vec::new() };
    let mut config = Config::default();
    config.search_string = "garbled".to_string();
    config.match_on.patch_header = true;
    config.output = OutputConfig::CommitHash;
    let err = process_patch(&config, &patch).unwrap_err();
    assert_eq!(err, ProcessError::MissingCommitPrefix);
}

#[test]
fn test_zero_hunk_file_is_skipped() {
    let patch = Patch {
        patch_header: chunk_from("commit 9\n".to_string()),
        files: vec![
            FileDiff { file_header: chunk_from("diff --git a/r b/r2\n".to_string()), hunks: Vec::new() },
        ],
    };
    let mut config = Config::default();
    config.search_string = "commit".to_string();
    config.match_on.patch_header = true;
    config.output = OutputConfig::Sections(sections_all());
    let out = process_patch(&config, &patch).unwrap();
    assert_eq!(out, "commit 9\ndiff --git a/r b/r2\n");
}

#[test]
fn test_empty_chunk_helpers() {
    let c = chunk_empty();
    assert_eq!(c.lines.len(), 0);
    let d = chunk_from("one\n".to_string());
    assert_eq!(d.lines.len(), 1);
    assert_eq!(d.lines[0], "one\n");
}

#[test]
fn test_help_text_nonempty() {
    let text = hunk::args::help_text();
    assert!(text.contains("PATTERN"));
    assert!(text.contains("--invalid-utf8"));
}

#[test]
fn test_commit_directly_after_diff_line() {
    let text = "commit 1111111111111111111111111111111111111111\n\
                \n\
                diff --git a/a b/a\n\
                @@ -1 +1 @@\n\
                +alpha needle\n\
                commit 2222222222222222222222222222222222222222\n\
                \n\
                diff --git a/b b/b\n\
                @@ -1 +1 @@\n\
                +beta needle\n";
    let input = text.as_bytes().to_vec();
    let mut config = Config::default();
    config.search_string = "needle".to_string();
    config.match_on.diff = true;
    config.output = OutputConfig::CommitHash;
    let out_str = process_lines(&input, &config).unwrap();
    assert_eq!(
        out_str,
        "1111111111111111111111111111111111111111\n2222222222222222222222222222222222222222\n"
    );
}

#[test]
fn test_blank_line_in_hunk_head() {
    let text = "commit 3333333333333333333333333333333333333333\n\
                \n\
                diff --git a/a b/a\n\
                @@ -1,2 +1,2 @@\n\
                \n\
                +needle\n";
    let input = text.as_bytes().to_vec();
    let mut config = Config::default();
    config.search_string = "needle".to_string();
    config.match_on.diff = true;
    let mut output_sections = sections_none();
    output_sections.diff = true;
    config.output = OutputConfig::Sections(output_sections);
    let out_str = process_lines(&input, &config).unwrap();
    assert_eq!(out_str, "+needle\n");
}
