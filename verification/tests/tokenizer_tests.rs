use html_tokenizer::state::State;
use html_tokenizer::token::ParseError;
use html_tokenizer::token::Token;
use html_tokenizer::tokenizer::Tokenizer;

fn tokenize(input: &str) -> Vec<Token> {
    let mut t = Tokenizer::new(input.to_string());
    t.run();
    t.tokens().clone()
}

fn chars_of(s: &str) -> Vec<Token> {
    s.chars().map(Token::Character).collect()
}

#[test]
fn empty_input_emits_single_end_of_file() {
    let toks = tokenize("");
    assert_eq!(toks, vec![Token::EndOfFile]);
}

#[test]
fn every_run_ends_with_exactly_one_end_of_file() {
    let inputs = [
        "",
        "plain text",
        "<div class=\"a\" class=\"b\">",
        "<!DOCTYPE html>",
        "<!-- a -- b -->",
        "&amp;",
        "<",
        "</>",
        "<!",
        "<?bogus>",
        "&#x41;&#65;",
        "garbage < & more >>",
    ];
    for input in inputs {
        let toks = tokenize(input);
        assert!(toks.len() >= 1);
        assert_eq!(*toks.last().unwrap(), Token::EndOfFile);
        assert_eq!(
            toks.iter().filter(|t| matches!(t, Token::EndOfFile)).count(),
            1
        );
    }
}

#[test]
fn duplicate_attribute_keeps_both_and_first_value_wins() {
    let toks = tokenize("<div class=\"a\" class=\"b\">");
    assert_eq!(toks.len(), 2);
    match &toks[0] {
        Token::StartTag(tag) => {
            assert_eq!(tag.tag_name, "div");
            assert!(!tag.self_closing);
            assert_eq!(tag.attributes.len(), 2);
            assert_eq!(tag.attributes[0].name, "class");
            assert_eq!(tag.attributes[0].value, "a");
            assert_eq!(tag.attributes[1].name, "class");
            assert_eq!(tag.attributes[1].value, "b");
            let effective = tag.effective_value(&"class".to_string());
            assert_eq!(effective, Some(&"a".to_string()));
        }
        other => panic!("expected a start tag, got {:?}", other),
    }
    assert_eq!(toks[1], Token::EndOfFile);
}

#[test]
fn doctype_html_has_no_identifiers_and_no_quirks() {
    let toks = tokenize("<!DOCTYPE html>");
    assert_eq!(toks.len(), 2);
    match &toks[0] {
        Token::DOCTYPE(d) => {
            assert_eq!(d.name, Some("html".to_string()));
            assert_eq!(d.public_identifier, None);
            assert_eq!(d.system_identifier, None);
            assert!(!d.force_quirks);
        }
        other => panic!("expected a doctype, got {:?}", other),
    }
}

#[test]
fn doctype_with_public_and_system_identifiers() {
    let toks = tokenize("<!DOCTYPE html PUBLIC \"pub-id\" 'sys-id'>");
    match &toks[0] {
        Token::DOCTYPE(d) => {
            assert_eq!(d.name, Some("html".to_string()));
            assert_eq!(d.public_identifier, Some("pub-id".to_string()));
            assert_eq!(d.system_identifier, Some("sys-id".to_string()));
            assert!(!d.force_quirks);
        }
        other => panic!("expected a doctype, got {:?}", other),
    }
}

#[test]
fn doctype_missing_name_forces_quirks() {
    let toks = tokenize("<!DOCTYPE>");
    match &toks[0] {
        Token::DOCTYPE(d) => {
            assert_eq!(d.name, None);
            assert!(d.force_quirks);
        }
        other => panic!("expected a doctype, got {:?}", other),
    }
}

#[test]
fn embedded_double_dash_stays_in_comment_data() {
    let toks = tokenize("<!-- a -- b -->");
    assert_eq!(
        toks,
        vec![Token::Comment(" a -- b ".to_string()), Token::EndOfFile]
    );
}

#[test]
fn comment_bang_closer_is_not_a_valid_close() {
    let toks = tokenize("<!--x--!y-->");
    assert_eq!(
        toks,
        vec![Token::Comment("x--!y".to_string()), Token::EndOfFile]
    );
}

#[test]
fn script_data_abandons_inappropriate_end_tag() {
    let mut t = Tokenizer::new("</scr></script>".to_string());
    t.set_state(State::ScriptData);
    t.set_last_start_tag_name("script");
    t.run();
    // The `>` that ends the abandoned `</scr` is reconsumed as ScriptData
    // text, so it too comes out as a literal character.
    let mut expected = chars_of("</scr>");
    expected.push(Token::EndTag(html_tokenizer::token::Tag {
        tag_name: "script".to_string(),
        self_closing: false,
        attributes: Vec::new(),
    }));
    expected.push(Token::EndOfFile);
    assert_eq!(*t.tokens(), expected);
}

#[test]
fn named_entity_resolves_to_one_character_in_data() {
    let toks = tokenize("&amp;");
    assert_eq!(toks, vec![Token::Character('&'), Token::EndOfFile]);
}

#[test]
fn ambiguous_ampersand_stays_literal_in_attribute_value() {
    let toks = tokenize("<a href=\"&ampp\">");
    match &toks[0] {
        Token::StartTag(tag) => {
            assert_eq!(tag.attributes.len(), 1);
            assert_eq!(tag.attributes[0].name, "href");
            assert_eq!(tag.attributes[0].value, "&ampp");
        }
        other => panic!("expected a start tag, got {:?}", other),
    }
}

#[test]
fn entity_resolves_inside_attribute_value_with_semicolon() {
    let toks = tokenize("<a href=\"x&amp;y\">");
    match &toks[0] {
        Token::StartTag(tag) => {
            assert_eq!(tag.attributes[0].value, "x&y");
        }
        other => panic!("expected a start tag, got {:?}", other),
    }
}

#[test]
fn longest_prefix_match_wins() {
    // `notin;` must not be cut short to the `not` entry.
    assert_eq!(
        tokenize("&notin;"),
        vec![Token::Character('\u{2209}'), Token::EndOfFile]
    );
    // Without the longer match, the legacy `not` still resolves.
    let toks = tokenize("&notit");
    assert_eq!(toks[0], Token::Character('\u{ac}'));
}

#[test]
fn numeric_references_decimal_and_hex() {
    assert_eq!(
        tokenize("&#65;&#x41;&#X42;"),
        vec![
            Token::Character('A'),
            Token::Character('A'),
            Token::Character('B'),
            Token::EndOfFile
        ]
    );
}

#[test]
fn numeric_reference_control_range_is_remapped() {
    assert_eq!(
        tokenize("&#x80;"),
        vec![Token::Character('\u{20ac}'), Token::EndOfFile]
    );
}

#[test]
fn numeric_reference_surrogate_and_overflow_become_replacement() {
    assert_eq!(
        tokenize("&#xD800;"),
        vec![Token::Character('\u{fffd}'), Token::EndOfFile]
    );
    assert_eq!(
        tokenize("&#x110000;"),
        vec![Token::Character('\u{fffd}'), Token::EndOfFile]
    );
}

#[test]
fn plain_text_round_trips_as_character_tokens() {
    let input = "hello, world! 123";
    let mut expected = chars_of(input);
    expected.push(Token::EndOfFile);
    assert_eq!(tokenize(input), expected);
}

#[test]
fn text_with_one_tag_round_trips_text_exactly() {
    let toks = tokenize("ab<b>cd");
    let mut expected = chars_of("ab");
    expected.push(Token::StartTag(html_tokenizer::token::Tag {
        tag_name: "b".to_string(),
        self_closing: false,
        attributes: Vec::new(),
    }));
    expected.extend(chars_of("cd"));
    expected.push(Token::EndOfFile);
    assert_eq!(toks, expected);
}

#[test]
fn tag_names_fold_to_lowercase() {
    let toks = tokenize("<DIV>");
    match &toks[0] {
        Token::StartTag(tag) => assert_eq!(tag.tag_name, "div"),
        other => panic!("expected a start tag, got {:?}", other),
    }
}

#[test]
fn self_closing_tag_sets_flag() {
    let toks = tokenize("<br/>");
    match &toks[0] {
        Token::StartTag(tag) => {
            assert_eq!(tag.tag_name, "br");
            assert!(tag.self_closing);
        }
        other => panic!("expected a start tag, got {:?}", other),
    }
}

#[test]
fn empty_end_tag_emits_nothing() {
    assert_eq!(tokenize("</>"), vec![Token::EndOfFile]);
}

#[test]
fn question_mark_becomes_bogus_comment() {
    assert_eq!(
        tokenize("<?pi data?>"),
        vec![Token::Comment("?pi data?".to_string()), Token::EndOfFile]
    );
}

#[test]
fn unquoted_attribute_value() {
    let toks = tokenize("<a href=x>");
    match &toks[0] {
        Token::StartTag(tag) => {
            assert_eq!(tag.attributes[0].name, "href");
            assert_eq!(tag.attributes[0].value, "x");
        }
        other => panic!("expected a start tag, got {:?}", other),
    }
}

#[test]
fn rcdata_emits_text_until_appropriate_end_tag() {
    let mut t = Tokenizer::new("a<b</textarea>".to_string());
    t.set_state(State::RCDATA);
    t.set_last_start_tag_name("textarea");
    t.run();
    let mut expected = chars_of("a<b");
    expected.push(Token::EndTag(html_tokenizer::token::Tag {
        tag_name: "textarea".to_string(),
        self_closing: false,
        attributes: Vec::new(),
    }));
    expected.push(Token::EndOfFile);
    assert_eq!(*t.tokens(), expected);
}

#[test]
fn plaintext_never_recognizes_markup() {
    let mut t = Tokenizer::new("<a>&amp;".to_string());
    t.set_state(State::PLAINTEXT);
    t.run();
    let mut expected = chars_of("<a>&amp;");
    expected.push(Token::EndOfFile);
    assert_eq!(*t.tokens(), expected);
}

#[test]
fn cdata_in_foreign_content_emits_characters() {
    let mut t = Tokenizer::new("<![CDATA[x]]y]]>z".to_string());
    t.set_foreign_content(true);
    t.run();
    let mut expected = chars_of("x]]yz");
    expected.push(Token::EndOfFile);
    assert_eq!(*t.tokens(), expected);
}

#[test]
fn cdata_outside_foreign_content_is_bogus_comment() {
    let toks = tokenize("<![CDATA[x]]>");
    assert_eq!(
        toks,
        vec![Token::Comment("[CDATA[x]]".to_string()), Token::EndOfFile]
    );
}

#[test]
fn script_double_escape_keeps_nested_script_text() {
    let mut t = Tokenizer::new("<!--<script>-->x".to_string());
    t.set_state(State::ScriptData);
    t.set_last_start_tag_name("script");
    t.run();
    let mut expected = chars_of("<!--<script>-->x");
    expected.push(Token::EndOfFile);
    assert_eq!(*t.tokens(), expected);
}

#[test]
fn parse_error_channel_reports_duplicate_attribute() {
    let mut t = Tokenizer::new("<div class=\"a\" class=\"b\">".to_string());
    t.run();
    assert!(t
        .parse_errors()
        .iter()
        .any(|e| *e == ParseError::DuplicateAttribute));
}

#[test]
fn eof_inside_doctype_forces_quirks_but_still_emits() {
    let toks = tokenize("<!DOCTYPE htm");
    match &toks[0] {
        Token::DOCTYPE(d) => {
            assert_eq!(d.name, Some("htm".to_string()));
            assert!(d.force_quirks);
        }
        other => panic!("expected a doctype, got {:?}", other),
    }
    assert_eq!(toks[1], Token::EndOfFile);
}
