/// Comprehensive edge case tests for deny_filter implementations
use deny_filter::deny_list::DenyList;
use deny_filter::deny_list_daac::DenyListDaac;
use deny_filter::deny_list_rs::DenyListRs;
use deny_filter::matcher::Matcher;
use deny_filter::value::Value;

fn entry(key: &str, v: Value) -> (String, Value) {
    (key.to_string(), v)
}

fn s(text: &str) -> Value {
    Value::Str(text.to_string())
}

/// Test empty word list for DenyList
#[test]
fn test_empty_word_list_denylist() {
    let words: Vec<String> = vec![];
    let deny_list = DenyList::new(words).unwrap();
    assert!(!deny_list.is_match("anything"));
    assert!(!deny_list.is_match(""));
    assert!(!deny_list.scan_str("test string"));
}

/// Test empty word list for DenyListRs
#[test]
fn test_empty_word_list_rs() {
    let words: Vec<String> = vec![];
    let deny_list = DenyListRs::new(words).unwrap();
    assert!(!deny_list.is_match("anything"));
    assert!(!deny_list.is_match(""));
}

/// Test empty string input for DenyList
#[test]
fn test_empty_string_denylist() {
    let words = vec!["test".to_string(), "word".to_string()];
    let deny_list = DenyList::new(words).unwrap();
    assert!(!deny_list.is_match(""));
    assert!(!deny_list.scan_str(""));
}

/// Test single character words
#[test]
fn test_single_character_words() {
    let words = vec!["a".to_string(), "b".to_string(), "x".to_string()];
    let deny_list = DenyList::new(words).unwrap();
    assert!(deny_list.is_match("a"));
    assert!(deny_list.is_match("B")); // case insensitive
    assert!(deny_list.is_match("test a test"));
    assert!(!deny_list.is_match("c"));
}

/// Test Unicode characters
#[test]
fn test_unicode_characters() {
    let words = vec![
        "caf\u{e9}".to_string(),
        "\u{65e5}\u{672c}\u{8a9e}".to_string(),
        "\u{1f525}".to_string(),
    ];
    let deny_list = DenyList::new(words).unwrap();
    assert!(deny_list.is_match("caf\u{e9}"));
    assert!(deny_list.is_match("CAF\u{c9}")); // case insensitive
    assert!(deny_list.is_match("\u{65e5}\u{672c}\u{8a9e}"));
    assert!(deny_list.is_match("\u{1f525}"));
    assert!(deny_list.is_match("test \u{1f525} test"));
}

/// Test special characters and punctuation
#[test]
fn test_special_characters() {
    let words = vec![
        "test@email.com".to_string(),
        "hello-world".to_string(),
        "under_score".to_string(),
        "dots.in.word".to_string(),
    ];
    let deny_list = DenyList::new(words).unwrap();
    assert!(deny_list.is_match("test@email.com"));
    assert!(deny_list.is_match("hello-world"));
    assert!(deny_list.is_match("under_score"));
    assert!(deny_list.is_match("dots.in.word"));
}

/// Test very long strings
#[test]
fn test_very_long_strings() {
    let words = vec!["needle".to_string()];
    let deny_list = DenyList::new(words).unwrap();

    // Create a very long string with the needle at the end
    let mut long_string = "a".repeat(10000);
    long_string.push_str(" needle");
    assert!(deny_list.is_match(&long_string));

    // Test without needle
    let long_string_no_match = "b".repeat(10000);
    assert!(!deny_list.is_match(&long_string_no_match));
}

/// Test case sensitivity
#[test]
fn test_case_insensitivity() {
    let words = vec!["CaseSensitive".to_string(), "UPPERCASE".to_string()];
    let deny_list = DenyList::new(words).unwrap();
    assert!(deny_list.is_match("casesensitive"));
    assert!(deny_list.is_match("CASESENSITIVE"));
    assert!(deny_list.is_match("CaSeSenSiTive"));
    assert!(deny_list.is_match("uppercase"));
}

/// Test whitespace handling
#[test]
fn test_whitespace_handling() {
    let words = vec!["word".to_string()];
    let deny_list = DenyList::new(words).unwrap();
    assert!(deny_list.is_match(" word "));
    assert!(deny_list.is_match("\tword\t"));
    assert!(deny_list.is_match("\nword\n"));
    assert!(deny_list.is_match("word\r\n"));
}

/// Test deeply nested dictionaries
#[test]
fn test_deeply_nested_dictionaries() {
    let words = vec!["secret".to_string()];
    let deny_list = DenyList::new(words).unwrap();

    // Create nested dictionary: level1 -> level2 -> level3 -> "secret"
    let dict_level3 = Value::Dict(vec![entry("deepest", s("secret"))]);
    let dict_level2 = Value::Dict(vec![entry("level3", dict_level3)]);
    let dict_level1 = Value::Dict(vec![entry("level2", dict_level2)]);

    assert!(deny_list.scan_any(&dict_level1));

    // Test without the secret word
    let clean_dict_level3 = Value::Dict(vec![entry("deepest", s("clean"))]);
    let clean_dict_level2 = Value::Dict(vec![entry("level3", clean_dict_level3)]);
    let clean_dict_level1 = Value::Dict(vec![entry("level2", clean_dict_level2)]);

    assert!(!deny_list.scan_any(&clean_dict_level1));
}

/// Test deeply nested lists
#[test]
fn test_deeply_nested_lists() {
    let words = vec!["forbidden".to_string()];
    let deny_list = DenyList::new(words).unwrap();

    // Create nested list: [[["forbidden"]]]
    let list_level3 = Value::List(vec![s("forbidden")]);
    let list_level2 = Value::List(vec![list_level3]);
    let list_level1 = Value::List(vec![list_level2]);

    assert!(deny_list.scan_any(&list_level1));

    // Test without forbidden word
    let clean_list_level3 = Value::List(vec![s("allowed")]);
    let clean_list_level2 = Value::List(vec![clean_list_level3]);
    let clean_list_level1 = Value::List(vec![clean_list_level2]);

    assert!(!deny_list.scan_any(&clean_list_level1));
}

/// Test mixed nested structures (dict containing lists containing dicts)
#[test]
fn test_mixed_nested_structures() {
    let words = vec!["banned".to_string()];
    let deny_list = DenyList::new(words).unwrap();

    // Create: dict -> list -> dict -> "banned"
    let inner_dict = Value::Dict(vec![entry("key", s("banned"))]);
    let list = Value::List(vec![inner_dict]);
    let outer_dict = Value::Dict(vec![entry("items", list)]);

    assert!(deny_list.scan_any(&outer_dict));
}

/// Test non-string types in collections
#[test]
fn test_non_string_types_in_collections() {
    let words = vec!["match".to_string()];
    let deny_list = DenyList::new(words).unwrap();

    // Create dict with mixed types
    let dict = Value::Dict(vec![
        entry("string", s("match")),
        entry("number", Value::Int(42)),
        entry("float", Value::Float((3.14f64).to_bits())),
        entry("bool", Value::Bool(true)),
    ]);

    assert!(deny_list.scan_any(&dict));

    // Create list with mixed types
    let list = Value::List(vec![Value::Int(42), s("match"), Value::Bool(true)]);

    assert!(deny_list.scan_any(&list));

    // Create collection with only non-strings
    let non_string_dict = Value::Dict(vec![
        entry("num", Value::Int(123)),
        entry("bool", Value::Bool(false)),
    ]);

    assert!(!deny_list.scan_any(&non_string_dict));
}

/// Test substring matching behavior
#[test]
fn test_substring_matching() {
    let words = vec!["cat".to_string()];
    let deny_list = DenyList::new(words).unwrap();

    // These should all match because "cat" is a substring
    assert!(deny_list.is_match("cat")); // exact
    assert!(deny_list.is_match("cats")); // start
    assert!(deny_list.is_match("scatter")); // middle
    assert!(deny_list.is_match("tomcat")); // end
    assert!(deny_list.is_match("the cat sat")); // word
}

/// Test multiple words matching
#[test]
fn test_multiple_words() {
    let words = vec!["one".to_string(), "two".to_string(), "three".to_string()];
    let deny_list = DenyList::new(words).unwrap();
    assert!(deny_list.is_match("one"));
    assert!(deny_list.is_match("two"));
    assert!(deny_list.is_match("three"));
    assert!(deny_list.is_match("one two three"));
    assert!(!deny_list.is_match("four five six"));
}

/// Test scan method with various dict structures
#[test]
fn test_scan_dict_variations() {
    let words = vec!["blocked".to_string()];
    let deny_list = DenyList::new(words).unwrap();

    // Empty dict
    let empty_dict: Vec<(String, Value)> = vec![];
    assert!(!deny_list.scan(&empty_dict));

    // Dict with matching value
    let match_dict = vec![entry("key1", s("blocked"))];
    assert!(deny_list.scan(&match_dict));

    // Dict with no matching value
    let no_match_dict = vec![entry("key1", s("allowed"))];
    assert!(!deny_list.scan(&no_match_dict));

    // Dict with multiple values, one matching
    let multi_dict = vec![
        entry("key1", s("clean")),
        entry("key2", s("also clean")),
        entry("key3", s("blocked word")),
    ];
    assert!(deny_list.scan(&multi_dict));
}

/// Test boundary: large word list
#[test]
fn test_large_word_list() {
    // Create a large word list
    let words: Vec<String> = (0..5000).map(|i| format!("word{}", i)).collect();

    let deny_list = DenyList::new(words).unwrap();

    // Test matching first word
    assert!(deny_list.is_match("word0"));

    // Test matching last word
    assert!(deny_list.is_match("word4999"));

    // Test matching middle word
    assert!(deny_list.is_match("word2500"));

    // "word5000" still matches: it contains "word500", and matching is by
    // substring
    assert!(deny_list.is_match("word5000"));

    // Test non-matching
    assert!(!deny_list.is_match("notaword"));
}

/// Test duplicate words in list (should handle gracefully)
#[test]
fn test_duplicate_words() {
    let words = vec![
        "duplicate".to_string(),
        "duplicate".to_string(),
        "other".to_string(),
    ];
    let deny_list = DenyList::new(words).unwrap();
    assert!(deny_list.is_match("duplicate"));
    assert!(deny_list.is_match("other"));
}

/// Test words with different case in word list
#[test]
fn test_mixed_case_in_wordlist() {
    let words = vec!["LoWeRcAsE".to_string(), "UPPERCASE".to_string()];
    let deny_list = DenyList::new(words).unwrap();

    // All variations should match because words are normalized to lowercase
    assert!(deny_list.is_match("lowercase"));
    assert!(deny_list.is_match("LOWERCASE"));
    assert!(deny_list.is_match("uppercase"));
}

/// Test empty elements in lists
#[test]
fn test_empty_elements_in_lists() {
    let words = vec!["find".to_string()];
    let deny_list = DenyList::new(words).unwrap();

    let list = Value::List(vec![s(""), s("find"), s("")]);
    assert!(deny_list.scan_any(&list));

    let empty_list = Value::List(vec![]);
    assert!(!deny_list.scan_any(&empty_list));
}

/// Regression test: ensure consistent behavior across all methods
#[test]
fn test_method_consistency() {
    let words = vec!["test".to_string()];
    let deny_list = DenyList::new(words).unwrap();

    let test_string = "this is a test string";

    // is_match and scan_str should return same result
    assert_eq!(
        deny_list.is_match(test_string),
        deny_list.scan_str(test_string)
    );

    // scan_any with string should match is_match
    let value = s(test_string);
    assert_eq!(deny_list.is_match(test_string), deny_list.scan_any(&value));
}

/// Test with newlines and multiline strings
#[test]
fn test_multiline_strings() {
    let words = vec!["secret".to_string()];
    let deny_list = DenyList::new(words).unwrap();

    let multiline = "line 1\nline 2 with secret\nline 3";
    assert!(deny_list.is_match(multiline));

    let clean_multiline = "line 1\nline 2\nline 3";
    assert!(!deny_list.is_match(clean_multiline));
}

/// Test all three implementations with same data
#[test]
fn test_all_implementations_consistency() {
    let words = vec!["test".to_string(), "word".to_string()];

    let deny_list = DenyList::new(words.clone()).unwrap();
    let deny_list_rs = DenyListRs::new(words.clone()).unwrap();
    let deny_list_daac = DenyListDaac::new(words).unwrap();

    let test_cases = vec![
        ("test", true),
        ("word", true),
        ("TEST", true),    // case insensitive
        ("testing", true), // substring
        ("nothing", false),
        ("", false),
    ];

    for (input, expected) in test_cases {
        assert_eq!(
            deny_list.is_match(input),
            expected,
            "DenyList failed for: {}",
            input
        );
        assert_eq!(
            deny_list_rs.is_match(input),
            expected,
            "DenyListRs failed for: {}",
            input
        );
        assert_eq!(
            deny_list_daac.is_match(input),
            expected,
            "DenyListDaac failed for: {}",
            input
        );
    }
}

/// Test very long word
#[test]
fn test_very_long_word() {
    let long_word = "a".repeat(1000);
    let deny_list = DenyList::new(vec![long_word.clone()]).unwrap();
    assert!(deny_list.is_match(&long_word));
    assert!(!deny_list.is_match(&"a".repeat(999)));
}

/// Test consecutive matches
#[test]
fn test_consecutive_matches() {
    let words = vec!["bad".to_string()];
    let deny_list = DenyList::new(words).unwrap();
    assert!(deny_list.is_match("badbad"));
    assert!(deny_list.is_match("bad bad bad"));
}
