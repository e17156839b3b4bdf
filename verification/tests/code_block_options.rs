use mdexec::code_block_options::{find_group_name, CodeBlockOption};

fn new_cbo(key: &str, value: &str) -> CodeBlockOption {
    CodeBlockOption { key: key.into(), value: value.into() }
}

#[test]
fn test_code_block_option_from_str() {
    let test_cases: Vec<(&str, Option<CodeBlockOption>)> = vec![
        ("group=a", Some(CodeBlockOption { key: "group".into(), value: "a".into() })),
        ("empty=", Some(CodeBlockOption { key: "empty".into(), value: "".into() })),
        ("single", Some(CodeBlockOption { key: "single".into(), value: "".into() })),
        ("more=than=one=eq", Some(CodeBlockOption { key: "more".into(), value: "than=one=eq".into() })),
        ("", None),
    ];

    for case in test_cases {
        let result = CodeBlockOption::from_str(case.0);
        assert_eq!(result.ok(), case.1);
    }
}

#[test]
fn test_parse_options() {
    let test_cases: Vec<(&str, Vec<CodeBlockOption>)> = vec![
        ("```bash", vec![]),
        ("```bash #", vec![]),
        ("```bash #group=a", vec![new_cbo("group", "a")]),
        ("```bash #group=a version=3", vec![new_cbo("group", "a"), new_cbo("version", "3")]),
        ("```bash # group=a", vec![new_cbo("group", "a")]),
    ];

    for case in test_cases {
        let result = CodeBlockOption::parse_options(case.0);
        assert_eq!(result, case.1);
    }
}

#[test]
fn from_str_refuses_the_empty_token_with_its_message() {
    assert_eq!(
        CodeBlockOption::from_str(""),
        Err("empty string found for options list".to_string())
    );
}

#[test]
fn from_str_splits_at_the_first_equals_sign_only() {
    assert_eq!(CodeBlockOption::from_str("k=v1=v2"), Ok(new_cbo("k", "v1=v2")));
    assert_eq!(CodeBlockOption::from_str("k=="), Ok(new_cbo("k", "=")));
}

#[test]
fn from_str_refuses_a_token_without_a_key() {
    for token in ["=v", "=", "==", "=a=b"] {
        assert_eq!(
            CodeBlockOption::from_str(token),
            Err("empty key found for options list".to_string())
        );
    }
}

#[test]
fn from_str_never_gives_an_empty_key() {
    for token in ["", "=", "=v", "a", "a=", "a=b", " ", " =x", "#=1", "k=v1=v2"] {
        if let Ok(option) = CodeBlockOption::from_str(token) {
            assert!(!option.key.is_empty());
        }
    }
}

#[test]
fn parse_gives_what_from_str_gives() {
    assert_eq!("group=a".parse::<CodeBlockOption>(), Ok(new_cbo("group", "a")));
    assert_eq!("single".parse::<CodeBlockOption>(), Ok(new_cbo("single", "")));
    assert_eq!(
        "".parse::<CodeBlockOption>(),
        Err("empty string found for options list".to_string())
    );
    assert_eq!(
        "=v".parse::<CodeBlockOption>(),
        Err("empty key found for options list".to_string())
    );
}

#[test]
fn parse_options_drops_the_tokens_without_a_key() {
    assert_eq!(CodeBlockOption::parse_options("```sh #=v"), vec![]);
    assert_eq!(
        CodeBlockOption::parse_options("```sh #a=1 =v = b"),
        vec![new_cbo("a", "1"), new_cbo("b", "")]
    );
}

#[test]
fn from_str_counts_characters_not_bytes() {
    assert_eq!(CodeBlockOption::from_str("clé=värde"), Ok(new_cbo("clé", "värde")));
}

#[test]
fn parse_options_of_a_line_without_hash_is_empty() {
    for line in ["", "```", "```python", "```bash group=a", "no fence at all = x"] {
        assert_eq!(CodeBlockOption::parse_options(line), vec![]);
    }
}

#[test]
fn parse_options_starts_after_the_first_hash() {
    assert_eq!(
        CodeBlockOption::parse_options("```bash #group=a #b=c"),
        vec![new_cbo("group", "a"), new_cbo("#b", "c")]
    );
    assert_eq!(CodeBlockOption::parse_options("#a# b"), vec![new_cbo("a#", ""), new_cbo("b", "")]);
}

#[test]
fn parse_options_drops_the_empty_tokens_between_spaces() {
    assert_eq!(
        CodeBlockOption::parse_options("```sh #  a=1   b  "),
        vec![new_cbo("a", "1"), new_cbo("b", "")]
    );
    assert_eq!(CodeBlockOption::parse_options("```sh #   "), vec![]);
}

#[test]
fn parse_options_splits_at_spaces_only() {
    assert_eq!(
        CodeBlockOption::parse_options("```sh #a=1\tb=2"),
        vec![new_cbo("a", "1\tb=2")]
    );
}

#[test]
fn is_group_holds_for_the_key_group_alone() {
    assert!(new_cbo("group", "a").is_group());
    assert!(new_cbo("group", "").is_group());
    assert!(!new_cbo("Group", "a").is_group());
    assert!(!new_cbo("groups", "a").is_group());
    assert!(!new_cbo("", "group").is_group());
}

#[test]
fn find_group_name_gives_the_first_group() {
    let options = vec![new_cbo("version", "3"), new_cbo("group", "a"), new_cbo("group", "b")];
    assert_eq!(find_group_name(options), "a");
}

#[test]
fn find_group_name_is_empty_without_a_group() {
    assert_eq!(find_group_name(vec![]), "");
    assert_eq!(find_group_name(vec![new_cbo("version", "3"), new_cbo("x", "group")]), "");
}

#[test]
fn find_group_name_of_a_parsed_line() {
    let options = CodeBlockOption::parse_options("```bash #version=3 group=setup");
    assert_eq!(find_group_name(options), "setup");
}
