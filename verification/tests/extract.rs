use mdexec::code_container::CodeContainer;
use mdexec::executor::{language_picker, Executor};
use mdexec::extract::{
    classify, extract_content, extract_language, extract_line, fence_prefix, settle, Event,
    ExtractOptions,
};

fn document(text: &str) -> Vec<String> {
    text.split('\n').map(|line| line.to_string()).collect()
}

fn every_block() -> ExtractOptions {
    ExtractOptions { group: None, pick: false }
}

fn group(name: &str) -> ExtractOptions {
    ExtractOptions { group: Some(name.to_string()), pick: false }
}

fn picking() -> ExtractOptions {
    ExtractOptions { group: None, pick: true }
}

fn script(name: &str, text: &str, opts: &ExtractOptions, answers: &[bool]) -> Option<String> {
    extract_content(name, &document(text), opts, &answers.to_vec()).map(|c| c.lines())
}

#[test]
fn test_extract_language() {
    let test_cases: Vec<(&str, &str, &str)> = vec![
        ("python", "python", "python"),
        ("py:python", "py", "python"),
        ("py:", "py", ""),
        ("php", "php", "php"),
        ("", "", ""),
    ];

    for case in test_cases {
        let (name, exec) = extract_language(case.0);
        assert_eq!(name, case.1);
        assert_eq!(exec, case.2);
    }
}

#[test]
fn extract_language_splits_at_the_first_colon_only() {
    assert_eq!(extract_language("js:node:x"), ("js", "node:x"));
    assert_eq!(extract_language(":zsh"), ("", "zsh"));
    assert_eq!(extract_language(":"), ("", ""));
    assert_eq!(extract_language("shell:zsh"), ("shell", "zsh"));
}

#[test]
fn fence_prefix_of_a_language_and_of_all() {
    assert_eq!(fence_prefix("python"), "```python");
    assert_eq!(fence_prefix("all"), "```");
    assert_eq!(fence_prefix(""), "```");
    assert_eq!(fence_prefix("All"), "```All");
}

#[test]
fn only_the_blocks_of_the_language_are_extracted() {
    let text = "```python\nprint(1)\n```\n```other\nx\n```";
    assert_eq!(script("python", text, &every_block(), &[]), Some("print(1)".to_string()));
    assert_eq!(script("other", text, &every_block(), &[]), Some("x".to_string()));
    assert_eq!(script("ruby", text, &every_block(), &[]), Some(String::new()));
}

#[test]
fn a_group_that_no_fence_declares_extracts_nothing() {
    let text = "```python\nprint(1)\n```\n```other\nx\n```";
    assert_eq!(script("python", text, &group("g"), &[]), Some(String::new()));
}

#[test]
fn pick_mode_takes_the_block_on_yes_and_drops_it_on_no() {
    let text = "intro\n```sh\necho 1\n```\n";
    assert_eq!(script("sh", text, &picking(), &[false]), Some(String::new()));
    assert_eq!(script("sh", text, &picking(), &[true]), Some("echo 1".to_string()));
}

#[test]
fn pick_mode_answers_block_by_block_in_order() {
    let text = "```sh\na\n```\n```sh\nb\n```\n```sh\nc\n```";
    assert_eq!(script("sh", text, &picking(), &[true, false, true]), Some("a\nc".to_string()));
    assert_eq!(script("sh", text, &picking(), &[false, true, false]), Some("b".to_string()));
    assert_eq!(script("sh", text, &picking(), &[true, true, true, false]), Some("a\nb\nc".to_string()));
}

#[test]
fn pick_mode_without_enough_answers_gives_nothing() {
    let text = "```sh\na\n```\n```sh\nb\n```";
    assert_eq!(script("sh", text, &picking(), &[]), None);
    assert_eq!(script("sh", text, &picking(), &[true]), None);
}

#[test]
fn pick_mode_does_not_ask_for_empty_or_unmatched_blocks() {
    let text = "```sh\n```\n```sh\n\n```\n```py\nx\n```";
    assert_eq!(script("sh", text, &picking(), &[]), Some(String::new()));
    let opts = ExtractOptions { group: Some("g".to_string()), pick: true };
    assert_eq!(script("sh", "```sh #group=h\na\n```", &opts, &[]), Some(String::new()));
}

#[test]
fn answers_are_not_used_outside_pick_mode() {
    let text = "```sh\na\n```";
    assert_eq!(script("sh", text, &every_block(), &[false]), Some("a".to_string()));
}

#[test]
fn blocks_of_the_wanted_group_are_joined() {
    let text = "```sh #group=a\none\n```\n```sh #group=b\ntwo\n```\n```sh\nthree\n```\n```sh #x group=a\nfour\n```";
    assert_eq!(script("sh", text, &group("a"), &[]), Some("one\nfour".to_string()));
    assert_eq!(script("sh", text, &group("b"), &[]), Some("two".to_string()));
    assert_eq!(script("sh", text, &group(""), &[]), Some("three".to_string()));
    assert_eq!(script("sh", text, &every_block(), &[]), Some("one\ntwo\nthree\nfour".to_string()));
}

#[test]
fn empty_blocks_never_show() {
    let text = "```sh\n```\n```sh\na\n```\n```sh\n\n```\n```sh\n\n\n```";
    assert_eq!(script("sh", text, &every_block(), &[]), Some("a".to_string()));
}

#[test]
fn a_block_of_blank_lines_alone_is_discarded() {
    let text = "```python\n\n\n```\n```python\nx\n```";
    assert_eq!(script("python", text, &every_block(), &[]), Some("x".to_string()));
    let text = "```python\n\n\n\n\n```";
    assert_eq!(script("python", text, &every_block(), &[]), Some(String::new()));
}

#[test]
fn a_block_with_one_line_of_text_keeps_its_blank_lines() {
    let text = "```sh\n\nx\n\n```";
    assert_eq!(script("sh", text, &every_block(), &[]), Some("\nx\n".to_string()));
}

#[test]
fn a_line_of_white_space_is_text() {
    let text = "```sh\n  \n```\n```sh\n\t\n\n```";
    assert_eq!(script("sh", text, &every_block(), &[]), Some("  \n\t\n".to_string()));
}

#[test]
fn pick_mode_does_not_ask_for_a_block_of_blank_lines() {
    let text = "```sh\n\n\n```\n```sh\na\n```";
    assert_eq!(script("sh", text, &picking(), &[false]), Some(String::new()));
    assert_eq!(script("sh", text, &picking(), &[true]), Some("a".to_string()));
    let pattern = fence_prefix("sh");
    let mut code = CodeContainer::new();
    for line in ["```sh", "", ""] {
        assert_eq!(extract_line(&mut code, &pattern, &picking(), line), None);
    }
    assert!(!code.has_text());
    assert_eq!(extract_line(&mut code, &pattern, &picking(), "```"), None);
    assert!(!code.is_open());
    assert_eq!(code.lines(), "");
}

#[test]
fn lines_are_taken_verbatim() {
    let text = "```sh\n  indented\n\n# comment\n ```\n```";
    assert_eq!(script("sh", text, &every_block(), &[]), Some("  indented\n\n# comment\n ```".to_string()));
}

#[test]
fn a_block_that_is_left_open_never_shows() {
    let text = "```sh\na\n```\n```sh\nb";
    let code = extract_content("sh", &document(text), &every_block(), &vec![]).unwrap();
    assert_eq!(code.lines(), "a");
    assert!(code.is_open());
    assert_eq!(code.open_lines(), Some("b".to_string()));
}

#[test]
fn an_opening_fence_inside_a_block_starts_over() {
    let text = "```sh\nlost\n```sh\nkept\n```";
    assert_eq!(script("sh", text, &every_block(), &[]), Some("kept".to_string()));
}

#[test]
fn the_fence_matches_by_prefix() {
    let text = "```python3\na\n```\n```py\nb\n```";
    assert_eq!(script("python", text, &every_block(), &[]), Some("a".to_string()));
    assert_eq!(script("py", text, &every_block(), &[]), Some("a\nb".to_string()));
}

#[test]
fn with_all_every_fence_opens_and_none_closes() {
    let text = "```python\nprint(1)\n```\n```other\nx\n```";
    let code = extract_content("all", &document(text), &every_block(), &vec![]).unwrap();
    assert_eq!(code.lines(), "");
    assert_eq!(code.open_lines(), Some(String::new()));
}

#[test]
fn a_document_without_lines_extracts_nothing() {
    let code = extract_content("sh", &vec![], &picking(), &vec![]).unwrap();
    assert_eq!(code.lines(), "");
    assert!(!code.is_open());
}

#[test]
fn classify_tells_the_four_events() {
    assert_eq!(classify("```sh", &None, "```sh"), Event::Open);
    assert_eq!(classify("```sh", &None, "```sh #group=a"), Event::Open);
    assert_eq!(classify("```sh", &Some("a".to_string()), "```sh #group=a"), Event::Open);
    assert_eq!(classify("```sh", &Some("a".to_string()), "```sh #group=b"), Event::Skip);
    assert_eq!(classify("```sh", &Some("a".to_string()), "```sh"), Event::Skip);
    assert_eq!(classify("```sh", &Some(String::new()), "```sh"), Event::Open);
    assert_eq!(classify("```sh", &None, "```"), Event::Close);
    assert_eq!(classify("```sh", &None, "``` "), Event::Text);
    assert_eq!(classify("```sh", &None, "```py"), Event::Text);
    assert_eq!(classify("```sh", &None, "echo"), Event::Text);
    assert_eq!(classify("```", &None, "```"), Event::Open);
}

#[test]
fn extract_line_hands_out_the_block_that_awaits_an_answer() {
    let pattern = fence_prefix("sh");
    let opts = picking();
    let mut code = CodeContainer::new();
    assert_eq!(extract_line(&mut code, &pattern, &opts, "```sh"), None);
    assert_eq!(extract_line(&mut code, &pattern, &opts, "a"), None);
    assert_eq!(extract_line(&mut code, &pattern, &opts, "b"), None);
    assert_eq!(extract_line(&mut code, &pattern, &opts, "```"), Some("a\nb".to_string()));
    assert!(code.is_open());
    assert_eq!(code.lines(), "");
    settle(&mut code, true);
    assert!(!code.is_open());
    assert_eq!(code.lines(), "a\nb");

    assert_eq!(extract_line(&mut code, &pattern, &opts, "```sh"), None);
    assert_eq!(extract_line(&mut code, &pattern, &opts, "c"), None);
    assert_eq!(extract_line(&mut code, &pattern, &opts, "```"), Some("c".to_string()));
    settle(&mut code, false);
    assert!(!code.is_open());
    assert_eq!(code.lines(), "a\nb");
}

#[test]
fn extract_line_drops_text_outside_a_block() {
    let pattern = fence_prefix("sh");
    let opts = every_block();
    let mut code = CodeContainer::new();
    assert_eq!(extract_line(&mut code, &pattern, &opts, "outside"), None);
    assert_eq!(extract_line(&mut code, &pattern, &opts, "```"), None);
    assert!(!code.is_open());
    assert_eq!(extract_line(&mut code, &pattern, &opts, "```sh"), None);
    assert_eq!(extract_line(&mut code, &pattern, &opts, "inside"), None);
    assert_eq!(extract_line(&mut code, &pattern, &opts, "```"), None);
    assert_eq!(extract_line(&mut code, &pattern, &opts, "after"), None);
    assert_eq!(code.lines(), "inside");
}

#[test]
fn the_default_options_take_every_block_without_asking() {
    let opts = ExtractOptions::default();
    assert_eq!(opts.group, None);
    assert!(!opts.pick);
    assert_eq!(script("sh", "```sh\na\n```", &opts, &[]), Some("a".to_string()));
}

#[test]
fn a_token_with_executor_extracts_and_exports() {
    let (name, executor) = extract_language("js:deno");
    let text = "```js\nconsole.log(1)\n```\n```sh\nls\n```\n```js\nconsole.log(2)\n```";
    let code = extract_content(name, &document(text), &every_block(), &vec![]).unwrap();
    let language = language_picker(executor).unwrap();
    assert_eq!(language.binary(), "deno");
    assert_eq!(language.export(code), "#!/usr/bin/env deno\n\nconsole.log(1)\nconsole.log(2)");
}
