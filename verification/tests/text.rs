use dragons_escape::text::{is_white_space, normalize, same_text, strip_prefix, to_lower, trim};

#[test]
fn trim_removes_white_space_at_both_ends() {
    assert_eq!(trim("  go north \t\n"), "go north");
    assert_eq!(trim("\r\n quit"), "quit");
    assert_eq!(trim("look   "), "look");
}

#[test]
fn trim_keeps_white_space_between_words() {
    assert_eq!(trim(" go  north "), "go  north");
    assert_eq!(trim("a b"), "a b");
}

#[test]
fn trim_of_white_space_alone_is_empty() {
    assert_eq!(trim("   "), "");
    assert_eq!(trim("\t\n"), "");
    assert_eq!(trim(""), "");
}

#[test]
fn trim_knows_white_space_beyond_ascii() {
    assert_eq!(trim("\u{3000}look\u{a0}"), "look");
    assert_eq!(trim("\u{2003}\u{85}help\u{2028}"), "help");
}

#[test]
fn trim_is_that_of_the_standard_library() {
    for line in [" x ", "x", "", "  ", "\tgo north\n", "é \u{1680}", "\u{feff}x\u{feff}", " 越 "] {
        assert_eq!(trim(line), line.trim());
    }
    for c in '\0'..='\u{3100}' {
        let line = format!("{}a b{}", c, c);
        assert_eq!(trim(&line), line.trim(), "{:?}", c);
    }
}

#[test]
fn trim_counts_characters_not_bytes() {
    assert_eq!(trim(" é越 "), "é越");
    assert_eq!(trim("\u{3000}é"), "é");
}

#[test]
fn normalize_trims_and_lowercases() {
    assert_eq!(normalize("GO NORTH "), "go north");
    assert_eq!(normalize("  QuIt"), "quit");
    assert_eq!(normalize("map"), "map");
    assert_eq!(normalize(" \t "), "");
}

#[test]
fn normalize_lowercases_beyond_ascii() {
    assert_eq!(normalize("ÉCOLE"), "école");
    assert_eq!(normalize("LOO\u{212a}"), "look");
}

#[test]
fn same_text_compares_characters() {
    assert!(same_text("quit", "quit"));
    assert!(!same_text("quit", "quip"));
    assert!(!same_text("quit", "qui"));
    assert!(!same_text("qui", "quit"));
    assert!(!same_text("", "q"));
    assert!(same_text("", ""));
    assert!(same_text("é越", "é越"));
    assert!(!same_text("Quit", "quit"));
}

#[test]
fn strip_prefix_gives_the_rest() {
    assert_eq!(strip_prefix("go north", "go "), Some("north"));
    assert_eq!(strip_prefix("go ", "go "), Some(""));
    assert_eq!(strip_prefix("go  north", "go "), Some(" north"));
    assert_eq!(strip_prefix("go é越", "go "), Some("é越"));
    assert_eq!(strip_prefix("anything", ""), Some("anything"));
}

#[test]
fn strip_prefix_of_a_text_that_begins_otherwise_is_none() {
    assert_eq!(strip_prefix("go", "go "), None);
    assert_eq!(strip_prefix("gone north", "go "), None);
    assert_eq!(strip_prefix("", "go "), None);
    assert_eq!(strip_prefix(" go north", "go "), None);
}

#[test]
fn ascii_white_space_is_the_space_and_tab_to_carriage_return() {
    for c in ['\t', '\n', '\u{b}', '\u{c}', '\r', ' '] {
        assert!(is_white_space(c));
    }
    for c in ['\0', '\u{8}', '\u{e}', '\u{1c}', '\u{1f}', '!', '0', 'A', 'z', '_', '\u{7f}'] {
        assert!(!is_white_space(c));
    }
}

#[test]
fn white_space_beyond_ascii_is_unicode_white_space() {
    for c in ['\u{85}', '\u{a0}', '\u{1680}', '\u{2000}', '\u{200a}', '\u{2028}', '\u{3000}'] {
        assert!(is_white_space(c));
    }
    for c in ['\u{80}', '\u{200b}', '\u{feff}', 'é', '越'] {
        assert!(!is_white_space(c));
    }
}

#[test]
fn white_space_is_that_of_the_standard_library_for_every_character() {
    for c in '\0'..=char::MAX {
        assert_eq!(is_white_space(c), c.is_whitespace(), "{:?}", c);
    }
}

#[test]
fn to_lower_lowers_ascii_letters() {
    assert_eq!(to_lower("GO NORTH"), "go north");
    assert_eq!(to_lower("Quit"), "quit");
    assert_eq!(to_lower("already lower"), "already lower");
    assert_eq!(to_lower("@AZ[`az{ 09"), "@az[`az{ 09");
    assert_eq!(to_lower(""), "");
}

#[test]
fn to_lower_lowers_beyond_ascii() {
    assert_eq!(to_lower("ÉCOLE"), "école");
    assert_eq!(to_lower("ΟΔΟΣ"), "οδος");
    assert_eq!(to_lower("\u{212a}"), "k");
    assert_eq!(to_lower("İ"), "i\u{307}");
    assert_eq!(to_lower("Grüße"), "grüße");
}

#[test]
fn to_lower_is_the_lowercase_of_the_standard_library_for_every_ascii_character() {
    for c in '\0'..='\u{7f}' {
        let text = c.to_string();
        assert_eq!(to_lower(&text), text.to_lowercase(), "{:?}", c);
        let text = format!("x{}Y{}", c, c);
        assert_eq!(to_lower(&text), text.to_lowercase(), "{:?}", c);
    }
}

#[test]
fn to_lower_is_the_lowercase_of_the_standard_library_beyond_ascii() {
    for c in '\u{80}'..='\u{ffff}' {
        let text = format!("A{}Z", c);
        assert_eq!(to_lower(&text), text.to_lowercase(), "{:?}", c);
    }
}

#[test]
fn to_lower_is_the_lowercase_of_the_standard_library_for_mixed_text() {
    for text in ["Go North", "GO  EAST!", "\tLOOK\n", "ΟΔΟΣ ODOS", "Straße 12", "A\u{212a}B", "ǅ x"] {
        assert_eq!(to_lower(text), text.to_lowercase());
    }
}
