//! The decisions of the Discord bot: how a message is cut into tokens, which fighter
//! the tokens name, and what the bot answers.

use vstd::prelude::*;
use crate::characters::{character, character_name, known_mod};
use crate::text::{
    clean_words, join, join_strings, lemma_joined_words_trimmed, lemma_words_clean, lemma_words_of_joined, split_white_space,
    str_option_view, string_views, to_lowercase, trim, trim_str, unicode_lowercase, words,
};

verus! {

/// The tokens of a message: the words of its trimmed, lowercased text.
pub open spec fn message_tokens(msg: Seq<char>) -> Seq<Seq<char>> {
    words(unicode_lowercase(trim(msg)))
}

/// Cuts a message into lowercase tokens separated by white space. Each token is non-empty
/// and holds no white space.
pub fn tokenize(msg: &str) -> (tokens: Vec<String>)
    ensures
        string_views(tokens@) == message_tokens(msg@),
        clean_words(string_views(tokens@)),
{
    let trimmed = trim_str(msg);
    let lower = to_lowercase(trimmed);
    proof {
        lemma_words_clean(lower@);
    }
    split_white_space(lower.as_str())
}

/// The tokens of a message, joined by spaces, are tokenized into the same tokens, wherever
/// lowercasing leaves that joined text as it is. (That lowercasing leaves text it produced
/// unchanged is a property of std's lowercasing that nothing here states.)
pub proof fn lemma_tokens_rejoined(msg: Seq<char>)
    requires
        unicode_lowercase(join(message_tokens(msg), " "@)) == join(message_tokens(msg), " "@),
    ensures
        message_tokens(join(message_tokens(msg), " "@)) == message_tokens(msg),
{
    let ws = message_tokens(msg);
    lemma_words_clean(unicode_lowercase(trim(msg)));
    lemma_joined_words_trimmed(ws);
    lemma_words_of_joined(ws);
}

/// The fighter that the first token with a known name names, if any token does.
pub open spec fn first_character(mod_path: Seq<char>, tokens: Seq<Seq<char>>) -> Option<Seq<char>>
    decreases tokens.len(),
{
    if tokens.len() == 0 {
        None
    } else {
        match character_name(mod_path, tokens[0]) {
            Some(name) => Some(name),
            None => first_character(mod_path, tokens.drop_first()),
        }
    }
}

/// Looks the tokens up one after the other and stops at the first that names a fighter.
pub fn find_character(mod_path: &str, tokens: &Vec<String>) -> (found: Option<&'static str>)
    requires
        known_mod(mod_path@),
    ensures
        str_option_view(found) == first_character(mod_path@, string_views(tokens@)),
{
    let ghost views = string_views(tokens@);
    let mut i: usize = 0;
    assert(views.skip(0) =~= views);
    while i < tokens.len()
        invariant
            known_mod(mod_path@),
            views == string_views(tokens@),
            i <= tokens.len(),
            first_character(mod_path@, views) == first_character(mod_path@, views.skip(i as int)),
        decreases tokens.len() - i,
    {
        let found = character(mod_path, tokens[i].as_str());
        assert(views.skip(i as int)[0] == tokens@[i as int]@);
        assert(views.skip(i as int).drop_first() =~= views.skip(i + 1));
        if found.is_some() {
            return found;
        }
        i += 1;
    }
    None
}

/// The answer when no token of `fighter` names a fighter of the mod.
pub open spec fn unknown_fighter_message(fighter: Seq<char>, mod_path: Seq<char>) -> Seq<char> {
    "fighter `"@ + fighter + "` does not exist in mod `"@ + mod_path + "`"@
}

/// The answer when no subaction of the fighter matches `action`.
pub open spec fn unknown_action_message(
    action: Seq<char>,
    fighter: Seq<char>,
    mod_path: Seq<char>,
) -> Seq<char> {
    "action `"@ + action + "` does not exist on fighter `"@ + fighter + "` in mod `"@ + mod_path
        + "`"@
}

/// The fighter that a `data` command asks for: the fighter of its first token that names
/// one, or the message that says none does.
pub fn data_character(mod_path: &str, fighter: &str) -> (found: Result<&'static str, String>)
    requires
        known_mod(mod_path@),
    ensures
        match found {
            Ok(name) => first_character(mod_path@, message_tokens(fighter@)) == Some(name@),
            Err(message) => first_character(mod_path@, message_tokens(fighter@)) is None
                && message@ == unknown_fighter_message(fighter@, mod_path@),
        },
{
    let tokens = tokenize(fighter);
    match find_character(mod_path, &tokens) {
        Some(name) => Ok(name),
        None => {
            let mut message = String::from_str("fighter `");
            message.append(fighter);
            message.append("` does not exist in mod `");
            message.append(mod_path);
            message.append("`");
            Err(message)
        },
    }
}

/// The page of one subaction of a fighter on the website.
pub open spec fn subaction_url(mod_path: Seq<char>, character: Seq<char>, subaction: Seq<char>) -> Seq<
    char,
> {
    "https://rukaidata.com/"@ + mod_path + "/"@ + character + "/subactions/"@ + subaction
        + ".html"@
}

/// The pages of the given subactions, in order.
pub open spec fn subaction_urls(
    mod_path: Seq<char>,
    character: Seq<char>,
    subactions: Seq<Seq<char>>,
) -> Seq<Seq<char>> {
    subactions.map_values(|s: Seq<char>| subaction_url(mod_path, character, s))
}

/// The answer to a `data` command once the fighter is known: one link per matching
/// subaction, one per line, or the message that says none matches.
pub fn data_reply(
    mod_path: &str,
    fighter: &str,
    action: &str,
    character: &str,
    subactions: &Vec<String>,
) -> (reply: Result<String, String>)
    ensures
        subactions@.len() == 0 <==> reply is Err,
        match reply {
            Ok(text) => text@ == join(
                subaction_urls(mod_path@, character@, string_views(subactions@)),
                "\n"@,
            ),
            Err(message) => message@ == unknown_action_message(action@, fighter@, mod_path@),
        },
{
    if subactions.len() == 0 {
        let mut message = String::from_str("action `");
        message.append(action);
        message.append("` does not exist on fighter `");
        message.append(fighter);
        message.append("` in mod `");
        message.append(mod_path);
        message.append("`");
        return Err(message);
    }
    let mut urls: Vec<String> = Vec::new();
    let mut i: usize = 0;
    while i < subactions.len()
        invariant
            i <= subactions.len(),
            string_views(urls@) =~= subaction_urls(
                mod_path@,
                character@,
                string_views(subactions@),
            ).take(i as int),
        decreases subactions.len() - i,
    {
        let mut url = String::from_str("https://rukaidata.com/");
        url.append(mod_path);
        url.append("/");
        url.append(character);
        url.append("/subactions/");
        url.append(subactions[i].as_str());
        url.append(".html");
        let ghost url_view = url@;
        assert(url_view =~= subaction_url(mod_path@, character@, subactions@[i as int]@));
        let ghost before = urls@;
        urls.push(url);
        assert(string_views(urls@) =~= string_views(before).push(url_view));
        assert(subaction_urls(mod_path@, character@, string_views(subactions@)).take(i + 1)
            =~= subaction_urls(mod_path@, character@, string_views(subactions@)).take(
            i as int,
        ).push(url_view));
        i += 1;
    }
    assert(subaction_urls(mod_path@, character@, string_views(subactions@)).take(
        subactions.len() as int,
    ) =~= subaction_urls(mod_path@, character@, string_views(subactions@)));
    Ok(join_strings(&urls, "\n"))
}

} // verus!
