use chat_dispatch::prompt::{gather, ModelSwitch, PromptReader, PromptRules};
use chat_dispatch::text::{is_whitespace, trim};

fn lines(text: &[&str]) -> Vec<String> {
    text.iter().map(|l| l.to_string()).collect()
}

#[test]
fn standard_rules_hold_the_usual_sentinels() {
    let rules = PromptRules::standard();
    assert_eq!(rules.default_model, "gpt-4o-mini");
    assert_eq!(rules.terminator, "///");
    assert_eq!(rules.exit_keyword, "exit");
    assert_eq!(rules.switches.len(), 2);
    assert_eq!(rules.switches[0].sentinel, "//3");
    assert_eq!(rules.switches[0].model, "gpt-3.5-turbo");
    assert_eq!(rules.switches[1].sentinel, "//4");
    assert_eq!(rules.switches[1].model, "gpt-4o");
}

#[test]
fn ending_lines_select_their_models() {
    let rules = PromptRules::standard();
    assert_eq!(rules.ending("//3"), Some("gpt-3.5-turbo".to_string()));
    assert_eq!(rules.ending("//4"), Some("gpt-4o".to_string()));
    assert_eq!(rules.ending("///"), Some("gpt-4o-mini".to_string()));
}

#[test]
fn other_lines_do_not_end_the_prompt() {
    let rules = PromptRules::standard();
    for line in ["", "//", "//5", "////", " ///", "/// ", "hello", "exit"] {
        assert_eq!(rules.ending(line), None, "{:?}", line);
    }
}

#[test]
fn earlier_switch_wins_over_later_and_over_terminator() {
    let rules = PromptRules {
        default_model: "d".to_string(),
        terminator: "end".to_string(),
        switches: vec![
            ModelSwitch { sentinel: "end".to_string(), model: "a".to_string() },
            ModelSwitch { sentinel: "end".to_string(), model: "b".to_string() },
            ModelSwitch { sentinel: "big".to_string(), model: "c".to_string() },
        ],
        exit_keyword: "quit".to_string(),
    };
    assert_eq!(rules.ending("end"), Some("a".to_string()));
    assert_eq!(rules.ending("big"), Some("c".to_string()));
}

#[test]
fn rules_without_switches_know_the_terminator_only() {
    let rules = PromptRules {
        default_model: "d".to_string(),
        terminator: ".".to_string(),
        switches: Vec::new(),
        exit_keyword: "quit".to_string(),
    };
    assert_eq!(rules.ending("."), Some("d".to_string()));
    assert_eq!(rules.ending("//3"), None);
}

#[test]
fn gather_joins_lines_up_to_the_terminator() {
    let rules = PromptRules::standard();
    let prompt = gather(&rules, &lines(&["hello", "world", "///", "ignored"]));
    assert_eq!(prompt.text, "hello\nworld\n");
    assert_eq!(prompt.model, "gpt-4o-mini");
}

#[test]
fn gather_takes_the_model_of_the_first_ending_line() {
    let rules = PromptRules::standard();
    let fast = gather(&rules, &lines(&["a", "//3", "//4"]));
    assert_eq!(fast.text, "a\n");
    assert_eq!(fast.model, "gpt-3.5-turbo");
    let large = gather(&rules, &lines(&["a", "", "b", "//4", "///"]));
    assert_eq!(large.text, "a\n\nb\n");
    assert_eq!(large.model, "gpt-4o");
}

#[test]
fn gather_without_ending_line_takes_all_lines_and_the_default_model() {
    let rules = PromptRules::standard();
    let prompt = gather(&rules, &lines(&["one", "two"]));
    assert_eq!(prompt.text, "one\ntwo\n");
    assert_eq!(prompt.model, "gpt-4o-mini");
}

#[test]
fn gather_of_nothing_is_an_empty_prompt() {
    let rules = PromptRules::standard();
    let prompt = gather(&rules, &Vec::new());
    assert_eq!(prompt.text, "");
    assert_eq!(prompt.model, "gpt-4o-mini");
    let ended_at_once = gather(&rules, &lines(&["//4"]));
    assert_eq!(ended_at_once.text, "");
    assert_eq!(ended_at_once.model, "gpt-4o");
}

#[test]
fn reader_reports_the_end_and_ignores_what_follows() {
    let rules = PromptRules::standard();
    let mut reader = PromptReader::new();
    assert!(!reader.is_done());
    assert!(!reader.feed(&rules, "tell me"));
    assert!(!reader.feed(&rules, "more"));
    assert!(!reader.is_done());
    assert!(reader.feed(&rules, "//3"));
    assert!(reader.is_done());
    assert!(reader.feed(&rules, "late"));
    assert!(reader.feed(&rules, "//4"));
    let prompt = reader.finish(&rules);
    assert_eq!(prompt.text, "tell me\nmore\n");
    assert_eq!(prompt.model, "gpt-3.5-turbo");
}

#[test]
fn reader_that_was_fed_nothing_gives_the_default_model() {
    let rules = PromptRules::standard();
    let prompt = PromptReader::new().finish(&rules);
    assert_eq!(prompt.text, "");
    assert_eq!(prompt.model, "gpt-4o-mini");
}

#[test]
fn empty_and_blank_prompts_ask_to_leave() {
    let rules = PromptRules::standard();
    assert!(rules.wants_exit(""));
    assert!(rules.wants_exit("\n"));
    assert!(rules.wants_exit("  \t \n\n"));
    assert!(rules.wants_exit("\u{a0}\u{2003}\u{3000}"));
}

#[test]
fn exit_keyword_asks_to_leave() {
    let rules = PromptRules::standard();
    assert!(rules.wants_exit("exit"));
    assert!(rules.wants_exit("exit\n"));
    assert!(rules.wants_exit("  exit \r\n"));
}

#[test]
fn other_prompts_do_not_ask_to_leave() {
    let rules = PromptRules::standard();
    assert!(!rules.wants_exit("exit now\n"));
    assert!(!rules.wants_exit("Exit\n"));
    assert!(!rules.wants_exit("ex it\n"));
    assert!(!rules.wants_exit("exit\nexit\n"));
    assert!(!rules.wants_exit("hello\n"));
    assert!(!rules.wants_exit("\u{200b}"));
}

#[test]
fn exit_keyword_is_configurable() {
    let mut rules = PromptRules::standard();
    rules.exit_keyword = "quit".to_string();
    assert!(rules.wants_exit("quit\n"));
    assert!(!rules.wants_exit("exit\n"));
    assert!(rules.wants_exit(""));
}

#[test]
fn trim_agrees_with_the_standard_library() {
    for text in [
        "",
        " ",
        "a",
        " a",
        "a ",
        "  a b  ",
        "\n\t x \r\n",
        "\u{85}x\u{1680}",
        "\u{2000}\u{200a}mid dle\u{2028}\u{2029}\u{202f}\u{205f}\u{3000}",
        "\u{200b}x\u{200b}",
        "\u{b}\u{c}é\u{a0}",
    ] {
        assert_eq!(trim(text), text.trim(), "{:?}", text);
    }
}

#[test]
fn whitespace_test_agrees_with_the_standard_library() {
    for code in 0u32..=0x3100 {
        if let Some(c) = char::from_u32(code) {
            assert_eq!(is_whitespace(c), c.is_whitespace(), "{:x}", code);
        }
    }
    assert!(!is_whitespace('\u{feff}'));
    assert!(!is_whitespace(char::MAX));
}
