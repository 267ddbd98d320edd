use rukaidata::bot::{data_character, data_reply, find_character, tokenize};

fn strings(items: &[&str]) -> Vec<String> {
    items.iter().map(|s| s.to_string()).collect()
}

#[test]
fn tokenize_trims_lowercases_and_splits() {
    assert_eq!(tokenize("  Captain Falcon "), strings(&["captain", "falcon"]));
    assert_eq!(tokenize("ZSS"), strings(&["zss"]));
    assert_eq!(tokenize("a\tb\n c"), strings(&["a", "b", "c"]));
    assert_eq!(tokenize("   "), Vec::<String>::new());
    assert_eq!(tokenize(""), Vec::<String>::new());
}

#[test]
fn tokenize_lowercases_beyond_ascii() {
    assert_eq!(tokenize("ÉCLAIR Ω"), strings(&["éclair", "ω"]));
}

#[test]
fn first_named_token_decides() {
    let tokens = strings(&["the", "great", "falcon", "bowser"]);
    assert_eq!(find_character("Brawl", &tokens), Some("Captain%20Falcon"));
    assert_eq!(find_character("Brawl", &strings(&["nobody"])), None);
    assert_eq!(find_character("Brawl", &Vec::new()), None);
}

#[test]
fn data_character_reports_unknown_fighters() {
    assert_eq!(data_character("P+", "Knux please"), Ok("Knuckles"));
    assert_eq!(
        data_character("Brawl", "Knux"),
        Err("fighter `Knux` does not exist in mod `Brawl`".to_string())
    );
}

#[test]
fn data_reply_links_each_subaction() {
    let reply = data_reply("P+", "knux", "jab", "Knuckles", &strings(&["Attack11", "Attack12"]));
    assert_eq!(
        reply,
        Ok("https://rukaidata.com/P+/Knuckles/subactions/Attack11.html\nhttps://rukaidata.com/P+/Knuckles/subactions/Attack12.html".to_string())
    );
}

#[test]
fn data_reply_reports_unknown_actions() {
    let reply = data_reply("Brawl", "mario", "dance", "Mario", &Vec::new());
    assert_eq!(
        reply,
        Err("action `dance` does not exist on fighter `mario` in mod `Brawl`".to_string())
    );
}

#[test]
fn tokens_are_non_empty_words_that_rejoin_to_themselves() {
    let tokens = tokenize("\t Captain  FALCON\u{3000}up-B \n");
    assert_eq!(tokens, strings(&["captain", "falcon", "up-b"]));
    assert!(tokens.iter().all(|t| !t.is_empty() && !t.chars().any(char::is_whitespace)));
    assert_eq!(tokenize(&tokens.join(" ")), tokens);
    assert!(tokenize(" \n\t ").is_empty());
}
