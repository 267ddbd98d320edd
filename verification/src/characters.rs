//! Lookup of fighter names from the tokens that users type to the bot.

use vstd::prelude::*;
use crate::text::{str_eq, str_option_view};

verus! {

/// The fighter page name that `token` stands for in the table of `brawl`, if any.
pub open spec fn brawl_name(token: Seq<char>) -> Option<Seq<char>> {
    if token == "bowser"@ {
        Some("Bowser"@)
    } else if token == "captain"@ {
        Some("Captain%20Falcon"@)
    } else if token == "falcon"@ {
        Some("Captain%20Falcon"@)
    } else if token == "captainfalcon"@ {
        Some("Captain%20Falcon"@)
    } else if token == "cf"@ {
        Some("Captain%20Falcon"@)
    } else if token == "charizard"@ {
        Some("Charizard"@)
    } else if token == "zard"@ {
        Some("Charizard"@)
    } else if token == "diddy"@ {
        Some("Diddy%20Kong"@)
    } else if token == "diddykong"@ {
        Some("Diddy%20Kong"@)
    } else if token == "donkey"@ {
        Some("Donkey%20Kong"@)
    } else if token == "donkeykong"@ {
        Some("Donkey%20Kong"@)
    } else if token == "dk"@ {
        Some("Donkey%20Kong"@)
    } else if token == "falco"@ {
        Some("Falco"@)
    } else if token == "fox"@ {
        Some("Fox"@)
    } else if token == "game"@ {
        Some("Game%20&%20Watch"@)
    } else if token == "game&watch"@ {
        Some("Game%20&%20Watch"@)
    } else if token == "gameandwatch"@ {
        Some("Game%20&%20Watch"@)
    } else if token == "gamewatch"@ {
        Some("Game%20&%20Watch"@)
    } else if token == "g&w"@ {
        Some("Game%20&%20Watch"@)
    } else if token == "gaw"@ {
        Some("Game%20&%20Watch"@)
    } else if token == "gw"@ {
        Some("Game%20&%20Watch"@)
    } else if token == "gnw"@ {
        Some("Game%20&%20Watch"@)
    } else if token == "ganondorf"@ {
        Some("Ganondorf"@)
    } else if token == "ganon"@ {
        Some("Ganondorf"@)
    } else if token == "dorf"@ {
        Some("Ganondorf"@)
    } else if token == "giga bowser"@ {
        Some("Giga%20Bowser"@)
    } else if token == "gigabowser"@ {
        Some("Giga%20Bowser"@)
    } else if token == "gb"@ {
        Some("Giga%20Bowser"@)
    } else if token == "iceclimbers"@ {
        Some("Ice%20Climbers"@)
    } else if token == "iceclimber"@ {
        Some("Ice%20Climbers"@)
    } else if token == "ice"@ {
        Some("Ice%20Climbers"@)
    } else if token == "ic"@ {
        Some("Ice%20Climbers"@)
    } else if token == "ics"@ {
        Some("Ice%20Climbers"@)
    } else if token == "ices"@ {
        Some("Ice%20Climbers"@)
    } else if token == "icies"@ {
        Some("Ice%20Climbers"@)
    } else if token == "ike"@ {
        Some("Ike"@)
    } else if token == "ivysaur"@ {
        Some("Ivysaur"@)
    } else if token == "ivy"@ {
        Some("Ivysaur"@)
    } else if token == "jigglypuff"@ {
        Some("Jigglypuff"@)
    } else if token == "jiggly"@ {
        Some("Jigglypuff"@)
    } else if token == "jiggs"@ {
        Some("Jigglypuff"@)
    } else if token == "puff"@ {
        Some("Jigglypuff"@)
    } else if token == "kingdedede"@ {
        Some("King%20Dedede"@)
    } else if token == "king"@ {
        Some("King%20Dedede"@)
    } else if token == "dedede"@ {
        Some("King%20Dedede"@)
    } else if token == "d3"@ {
        Some("King%20Dedede"@)
    } else if token == "ddd"@ {
        Some("King%20Dedede"@)
    } else if token == "kd"@ {
        Some("King%20Dedede"@)
    } else if token == "kirby"@ {
        Some("Kirby"@)
    } else if token == "kirb"@ {
        Some("Kirby"@)
    } else if token == "link"@ {
        Some("Link"@)
    } else if token == "lucario"@ {
        Some("Lucario"@)
    } else if token == "lucas"@ {
        Some("Lucas"@)
    } else if token == "luigi"@ {
        Some("Luigi"@)
    } else if token == "mario"@ {
        Some("Mario"@)
    } else if token == "marth"@ {
        Some("Marth"@)
    } else if token == "swordball"@ {
        Some("Meta%20Knight"@)
    } else if token == "meta"@ {
        Some("Meta%20Knight"@)
    } else if token == "metaknight"@ {
        Some("Meta%20Knight"@)
    } else if token == "mk"@ {
        Some("Meta%20Knight"@)
    } else if token == "ness"@ {
        Some("Ness"@)
    } else if token == "olimar"@ {
        Some("Olimar"@)
    } else if token == "oli"@ {
        Some("Olimar"@)
    } else if token == "peach"@ {
        Some("Peach"@)
    } else if token == "pikachu"@ {
        Some("Pikachu"@)
    } else if token == "pika"@ {
        Some("Pikachu"@)
    } else if token == "pit"@ {
        Some("Pit"@)
    } else if token == "rob"@ {
        Some("R.O.B"@)
    } else if token == "r.o.b"@ {
        Some("R.O.B"@)
    } else if token == "samus"@ {
        Some("Samus"@)
    } else if token == "sheik"@ {
        Some("Sheik"@)
    } else if token == "solid"@ {
        Some("Snake"@)
    } else if token == "solidsnake"@ {
        Some("Snake"@)
    } else if token == "snake"@ {
        Some("Snake"@)
    } else if token == "sonic"@ {
        Some("Sonic"@)
    } else if token == "squirtle"@ {
        Some("Squirtle"@)
    } else if token == "squirt"@ {
        Some("Squirtle"@)
    } else if token == "toon"@ {
        Some("Toon%20Link"@)
    } else if token == "toonlink"@ {
        Some("Toon%20Link"@)
    } else if token == "tink"@ {
        Some("Toon%20Link"@)
    } else if token == "tlink"@ {
        Some("Toon%20Link"@)
    } else if token == "tl"@ {
        Some("Toon%20Link"@)
    } else if token == "wario"@ {
        Some("Wario"@)
    } else if token == "wario-man"@ {
        Some("Wario-Man"@)
    } else if token == "warioman"@ {
        Some("Wario-Man"@)
    } else if token == "wolf"@ {
        Some("Wolf"@)
    } else if token == "yoshi"@ {
        Some("Yoshi"@)
    } else if token == "yosh"@ {
        Some("Yoshi"@)
    } else if token == "zelda"@ {
        Some("Zelda"@)
    } else if token == "zero"@ {
        Some("Zero%20Suit%20Samus"@)
    } else if token == "zerosuitsamus"@ {
        Some("Zero%20Suit%20Samus"@)
    } else if token == "zss"@ {
        Some("Zero%20Suit%20Samus"@)
    } else {
        None
    }
}

/// The fighter page name that `token` stands for in the table of `pm`, if any.
pub open spec fn pm_name(token: Seq<char>) -> Option<Seq<char>> {
    if token == "mewtwo"@ {
        Some("Mewtwo"@)
    } else if token == "mew2"@ {
        Some("Mewtwo"@)
    } else if token == "m2"@ {
        Some("Mewtwo"@)
    } else if token == "roy"@ {
        Some("Roy"@)
    } else {
        None
    }
}

/// The fighter page name that `token` stands for in the table of `pplus`, if any.
pub open spec fn pplus_name(token: Seq<char>) -> Option<Seq<char>> {
    if token == "knuckles"@ {
        Some("Knuckles"@)
    } else if token == "knucks"@ {
        Some("Knuckles"@)
    } else if token == "knux"@ {
        Some("Knuckles"@)
    } else if token == "fightingfreak"@ {
        Some("Knuckles"@)
    } else if token == "&"@ {
        Some("Knuckles"@)
    } else {
        None
    }
}

/// The fighter page name that `token` stands for in the table of `secret`, if any.
pub open spec fn secret_name(token: Seq<char>) -> Option<Seq<char>> {
    if token == "knuckles"@ {
        Some("Knuckles"@)
    } else if token == "knucks"@ {
        Some("Knuckles"@)
    } else if token == "knux"@ {
        Some("Knuckles"@)
    } else if token == "fightingfreak"@ {
        Some("Knuckles"@)
    } else if token == "&"@ {
        Some("Knuckles"@)
    } else if token == "donald"@ {
        Some("Donald"@)
    } else if token == "ronald"@ {
        Some("Donald"@)
    } else if token == "mcdonald"@ {
        Some("Donald"@)
    } else {
        None
    }
}

/// The fighter page name that `token` stands for in the table of `lxp`, if any.
pub open spec fn lxp_name(token: Seq<char>) -> Option<Seq<char>> {
    if token == "doctor"@ {
        Some("DoctorMario"@)
    } else if token == "doctormario"@ {
        Some("DoctorMario"@)
    } else if token == "doc"@ {
        Some("DoctorMario"@)
    } else if token == "dr"@ {
        Some("DoctorMario"@)
    } else if token == "drmario"@ {
        Some("DoctorMario"@)
    } else if token == "dm"@ {
        Some("DoctorMario"@)
    } else if token == "mage"@ {
        Some("Ganon-Mage"@)
    } else if token == "mageganon"@ {
        Some("Ganon-Mage"@)
    } else if token == "mg"@ {
        Some("Ganon-Mage"@)
    } else if token == "geno"@ {
        Some("Geno"@)
    } else if token == "lucina"@ {
        Some("Lucina"@)
    } else if token == "metal"@ {
        Some("MetalSonic"@)
    } else if token == "metalsonic"@ {
        Some("MetalSonic"@)
    } else if token == "ms"@ {
        Some("MetalSonic"@)
    } else if token == "pichu"@ {
        Some("Pichu"@)
    } else if token == "ridley"@ {
        Some("Ridley-Classic"@)
    } else if token == "classic"@ {
        Some("Ridley-Classic"@)
    } else if token == "classicridley"@ {
        Some("Ridley-Classic"@)
    } else if token == "ridleyclassic"@ {
        Some("Ridley-Classic"@)
    } else if token == "modern"@ {
        Some("Ridley-Modern"@)
    } else if token == "modernridley"@ {
        Some("Ridley-Modern"@)
    } else if token == "ridleymodern"@ {
        Some("Ridley-Modern"@)
    } else if token == "shadow"@ {
        Some("Shadow"@)
    } else if token == "waluigi"@ {
        Some("Waluigi"@)
    } else if token == "yl"@ {
        Some("YoungLink"@)
    } else if token == "young"@ {
        Some("YoungLink"@)
    } else if token == "younglink"@ {
        Some("YoungLink"@)
    } else if token == "yink"@ {
        Some("YoungLink"@)
    } else if token == "ylink"@ {
        Some("YoungLink"@)
    } else {
        None
    }
}

/// Looks up the fighter that a token names among the fighters of Brawl.
pub fn brawl(token: &str) -> (found: Option<&'static str>)
    ensures
        str_option_view(found) == brawl_name(token@),
{
    if str_eq(token, "bowser") {
        Some("Bowser")
    } else if str_eq(token, "captain") {
        Some("Captain%20Falcon")
    } else if str_eq(token, "falcon") {
        Some("Captain%20Falcon")
    } else if str_eq(token, "captainfalcon") {
        Some("Captain%20Falcon")
    } else if str_eq(token, "cf") {
        Some("Captain%20Falcon")
    } else if str_eq(token, "charizard") {
        Some("Charizard")
    } else if str_eq(token, "zard") {
        Some("Charizard")
    } else if str_eq(token, "diddy") {
        Some("Diddy%20Kong")
    } else if str_eq(token, "diddykong") {
        Some("Diddy%20Kong")
    } else if str_eq(token, "donkey") {
        Some("Donkey%20Kong")
    } else if str_eq(token, "donkeykong") {
        Some("Donkey%20Kong")
    } else if str_eq(token, "dk") {
        Some("Donkey%20Kong")
    } else if str_eq(token, "falco") {
        Some("Falco")
    } else if str_eq(token, "fox") {
        Some("Fox")
    } else if str_eq(token, "game") {
        Some("Game%20&%20Watch")
    } else if str_eq(token, "game&watch") {
        Some("Game%20&%20Watch")
    } else if str_eq(token, "gameandwatch") {
        Some("Game%20&%20Watch")
    } else if str_eq(token, "gamewatch") {
        Some("Game%20&%20Watch")
    } else if str_eq(token, "g&w") {
        Some("Game%20&%20Watch")
    } else if str_eq(token, "gaw") {
        Some("Game%20&%20Watch")
    } else if str_eq(token, "gw") {
        Some("Game%20&%20Watch")
    } else if str_eq(token, "gnw") {
        Some("Game%20&%20Watch")
    } else if str_eq(token, "ganondorf") {
        Some("Ganondorf")
    } else if str_eq(token, "ganon") {
        Some("Ganondorf")
    } else if str_eq(token, "dorf") {
        Some("Ganondorf")
    } else if str_eq(token, "giga bowser") {
        Some("Giga%20Bowser")
    } else if str_eq(token, "gigabowser") {
        Some("Giga%20Bowser")
    } else if str_eq(token, "gb") {
        Some("Giga%20Bowser")
    } else if str_eq(token, "iceclimbers") {
        Some("Ice%20Climbers")
    } else if str_eq(token, "iceclimber") {
        Some("Ice%20Climbers")
    } else if str_eq(token, "ice") {
        Some("Ice%20Climbers")
    } else if str_eq(token, "ic") {
        Some("Ice%20Climbers")
    } else if str_eq(token, "ics") {
        Some("Ice%20Climbers")
    } else if str_eq(token, "ices") {
        Some("Ice%20Climbers")
    } else if str_eq(token, "icies") {
        Some("Ice%20Climbers")
    } else if str_eq(token, "ike") {
        Some("Ike")
    } else if str_eq(token, "ivysaur") {
        Some("Ivysaur")
    } else if str_eq(token, "ivy") {
        Some("Ivysaur")
    } else if str_eq(token, "jigglypuff") {
        Some("Jigglypuff")
    } else if str_eq(token, "jiggly") {
        Some("Jigglypuff")
    } else if str_eq(token, "jiggs") {
        Some("Jigglypuff")
    } else if str_eq(token, "puff") {
        Some("Jigglypuff")
    } else if str_eq(token, "kingdedede") {
        Some("King%20Dedede")
    } else if str_eq(token, "king") {
        Some("King%20Dedede")
    } else if str_eq(token, "dedede") {
        Some("King%20Dedede")
    } else if str_eq(token, "d3") {
        Some("King%20Dedede")
    } else if str_eq(token, "ddd") {
        Some("King%20Dedede")
    } else if str_eq(token, "kd") {
        Some("King%20Dedede")
    } else if str_eq(token, "kirby") {
        Some("Kirby")
    } else if str_eq(token, "kirb") {
        Some("Kirby")
    } else if str_eq(token, "link") {
        Some("Link")
    } else if str_eq(token, "lucario") {
        Some("Lucario")
    } else if str_eq(token, "lucas") {
        Some("Lucas")
    } else if str_eq(token, "luigi") {
        Some("Luigi")
    } else if str_eq(token, "mario") {
        Some("Mario")
    } else if str_eq(token, "marth") {
        Some("Marth")
    } else if str_eq(token, "swordball") {
        Some("Meta%20Knight")
    } else if str_eq(token, "meta") {
        Some("Meta%20Knight")
    } else if str_eq(token, "metaknight") {
        Some("Meta%20Knight")
    } else if str_eq(token, "mk") {
        Some("Meta%20Knight")
    } else if str_eq(token, "ness") {
        Some("Ness")
    } else if str_eq(token, "olimar") {
        Some("Olimar")
    } else if str_eq(token, "oli") {
        Some("Olimar")
    } else if str_eq(token, "peach") {
        Some("Peach")
    } else if str_eq(token, "pikachu") {
        Some("Pikachu")
    } else if str_eq(token, "pika") {
        Some("Pikachu")
    } else if str_eq(token, "pit") {
        Some("Pit")
    } else if str_eq(token, "rob") {
        Some("R.O.B")
    } else if str_eq(token, "r.o.b") {
        Some("R.O.B")
    } else if str_eq(token, "samus") {
        Some("Samus")
    } else if str_eq(token, "sheik") {
        Some("Sheik")
    } else if str_eq(token, "solid") {
        Some("Snake")
    } else if str_eq(token, "solidsnake") {
        Some("Snake")
    } else if str_eq(token, "snake") {
        Some("Snake")
    } else if str_eq(token, "sonic") {
        Some("Sonic")
    } else if str_eq(token, "squirtle") {
        Some("Squirtle")
    } else if str_eq(token, "squirt") {
        Some("Squirtle")
    } else if str_eq(token, "toon") {
        Some("Toon%20Link")
    } else if str_eq(token, "toonlink") {
        Some("Toon%20Link")
    } else if str_eq(token, "tink") {
        Some("Toon%20Link")
    } else if str_eq(token, "tlink") {
        Some("Toon%20Link")
    } else if str_eq(token, "tl") {
        Some("Toon%20Link")
    } else if str_eq(token, "wario") {
        Some("Wario")
    } else if str_eq(token, "wario-man") {
        Some("Wario-Man")
    } else if str_eq(token, "warioman") {
        Some("Wario-Man")
    } else if str_eq(token, "wolf") {
        Some("Wolf")
    } else if str_eq(token, "yoshi") {
        Some("Yoshi")
    } else if str_eq(token, "yosh") {
        Some("Yoshi")
    } else if str_eq(token, "zelda") {
        Some("Zelda")
    } else if str_eq(token, "zero") {
        Some("Zero%20Suit%20Samus")
    } else if str_eq(token, "zerosuitsamus") {
        Some("Zero%20Suit%20Samus")
    } else if str_eq(token, "zss") {
        Some("Zero%20Suit%20Samus")
    } else {
        None
    }
}

/// Looks up the fighter that a token names among the fighters that Project M adds to Brawl.
pub fn pm(token: &str) -> (found: Option<&'static str>)
    ensures
        str_option_view(found) == pm_name(token@),
{
    if str_eq(token, "mewtwo") {
        Some("Mewtwo")
    } else if str_eq(token, "mew2") {
        Some("Mewtwo")
    } else if str_eq(token, "m2") {
        Some("Mewtwo")
    } else if str_eq(token, "roy") {
        Some("Roy")
    } else {
        None
    }
}

/// Looks up the fighter that a token names among the fighters that Project+ adds to Project M.
pub fn pplus(token: &str) -> (found: Option<&'static str>)
    ensures
        str_option_view(found) == pplus_name(token@),
{
    if str_eq(token, "knuckles") {
        Some("Knuckles")
    } else if str_eq(token, "knucks") {
        Some("Knuckles")
    } else if str_eq(token, "knux") {
        Some("Knuckles")
    } else if str_eq(token, "fightingfreak") {
        Some("Knuckles")
    } else if str_eq(token, "&") {
        Some("Knuckles")
    } else {
        None
    }
}

/// Looks up the fighter that a token names among the fighters of the secret mod.
pub fn secret(token: &str) -> (found: Option<&'static str>)
    ensures
        str_option_view(found) == secret_name(token@),
{
    if str_eq(token, "knuckles") {
        Some("Knuckles")
    } else if str_eq(token, "knucks") {
        Some("Knuckles")
    } else if str_eq(token, "knux") {
        Some("Knuckles")
    } else if str_eq(token, "fightingfreak") {
        Some("Knuckles")
    } else if str_eq(token, "&") {
        Some("Knuckles")
    } else if str_eq(token, "donald") {
        Some("Donald")
    } else if str_eq(token, "ronald") {
        Some("Donald")
    } else if str_eq(token, "mcdonald") {
        Some("Donald")
    } else {
        None
    }
}

/// Looks up the fighter that a token names among the fighters that Legacy XP adds.
pub fn lxp(token: &str) -> (found: Option<&'static str>)
    ensures
        str_option_view(found) == lxp_name(token@),
{
    if str_eq(token, "doctor") {
        Some("DoctorMario")
    } else if str_eq(token, "doctormario") {
        Some("DoctorMario")
    } else if str_eq(token, "doc") {
        Some("DoctorMario")
    } else if str_eq(token, "dr") {
        Some("DoctorMario")
    } else if str_eq(token, "drmario") {
        Some("DoctorMario")
    } else if str_eq(token, "dm") {
        Some("DoctorMario")
    } else if str_eq(token, "mage") {
        Some("Ganon-Mage")
    } else if str_eq(token, "mageganon") {
        Some("Ganon-Mage")
    } else if str_eq(token, "mg") {
        Some("Ganon-Mage")
    } else if str_eq(token, "geno") {
        Some("Geno")
    } else if str_eq(token, "lucina") {
        Some("Lucina")
    } else if str_eq(token, "metal") {
        Some("MetalSonic")
    } else if str_eq(token, "metalsonic") {
        Some("MetalSonic")
    } else if str_eq(token, "ms") {
        Some("MetalSonic")
    } else if str_eq(token, "pichu") {
        Some("Pichu")
    } else if str_eq(token, "ridley") {
        Some("Ridley-Classic")
    } else if str_eq(token, "classic") {
        Some("Ridley-Classic")
    } else if str_eq(token, "classicridley") {
        Some("Ridley-Classic")
    } else if str_eq(token, "ridleyclassic") {
        Some("Ridley-Classic")
    } else if str_eq(token, "modern") {
        Some("Ridley-Modern")
    } else if str_eq(token, "modernridley") {
        Some("Ridley-Modern")
    } else if str_eq(token, "ridleymodern") {
        Some("Ridley-Modern")
    } else if str_eq(token, "shadow") {
        Some("Shadow")
    } else if str_eq(token, "waluigi") {
        Some("Waluigi")
    } else if str_eq(token, "yl") {
        Some("YoungLink")
    } else if str_eq(token, "young") {
        Some("YoungLink")
    } else if str_eq(token, "younglink") {
        Some("YoungLink")
    } else if str_eq(token, "yink") {
        Some("YoungLink")
    } else if str_eq(token, "ylink") {
        Some("YoungLink")
    } else {
        None
    }
}

/// Whether `mod_path` names one of the mods that the bot knows.
pub open spec fn known_mod(mod_path: Seq<char>) -> bool {
    ||| mod_path == "Brawl"@
    ||| mod_path == "PM3.02"@
    ||| mod_path == "PM3.6"@
    ||| mod_path == "P+"@
    ||| mod_path == "LXP2.1"@
    ||| mod_path == "Secret"@
}

/// `first` if it holds a name, else `second`.
pub open spec fn or_else(first: Option<Seq<char>>, second: Option<Seq<char>>) -> Option<Seq<char>> {
    match first {
        Some(name) => Some(name),
        None => second,
    }
}

/// The fighter page name that `token` stands for in the mod `mod_path`: Brawl's table
/// first, then the tables of the mods that each mod builds on, in order.
pub open spec fn character_name(mod_path: Seq<char>, token: Seq<char>) -> Option<Seq<char>> {
    if mod_path == "Brawl"@ {
        brawl_name(token)
    } else if mod_path == "PM3.02"@ || mod_path == "PM3.6"@ {
        or_else(brawl_name(token), pm_name(token))
    } else if mod_path == "P+"@ {
        or_else(or_else(brawl_name(token), pm_name(token)), pplus_name(token))
    } else if mod_path == "LXP2.1"@ {
        lxp_name(token)
    } else if mod_path == "Secret"@ {
        secret_name(token)
    } else {
        None
    }
}

/// Looks up the fighter that `fighter_option` names in the mod `mod_path`.
/// Only checks one token against the tables: the first word of a name is enough,
/// as the words do not collide.
pub fn character(mod_path: &str, fighter_option: &str) -> (found: Option<&'static str>)
    requires
        known_mod(mod_path@),
    ensures
        str_option_view(found) == character_name(mod_path@, fighter_option@),
{
    if str_eq(mod_path, "Brawl") {
        brawl(fighter_option)
    } else if str_eq(mod_path, "PM3.02") || str_eq(mod_path, "PM3.6") {
        match brawl(fighter_option) {
            Some(name) => Some(name),
            None => pm(fighter_option),
        }
    } else if str_eq(mod_path, "P+") {
        match brawl(fighter_option) {
            Some(name) => Some(name),
            None => match pm(fighter_option) {
                Some(name) => Some(name),
                None => pplus(fighter_option),
            },
        }
    } else if str_eq(mod_path, "LXP2.1") {
        lxp(fighter_option)
    } else {
        secret(fighter_option)
    }
}

/// The two releases of Project M know the same fighters under the same tokens.
pub proof fn lemma_pm_releases_agree(token: Seq<char>)
    ensures
        character_name("PM3.02"@, token) == character_name("PM3.6"@, token),
{
    reveal_strlit("PM3.02");
    reveal_strlit("PM3.6");
    reveal_strlit("Brawl");
    assert("PM3.02"@.len() != "Brawl"@.len());
    assert("PM3.6"@[0] != "Brawl"@[0]);
}

/// In Brawl and in the mods built on it, a token of Brawl's table always names Brawl's fighter.
pub proof fn lemma_brawl_tokens_take_priority(mod_path: Seq<char>, token: Seq<char>)
    requires
        mod_path == "Brawl"@ || mod_path == "PM3.02"@ || mod_path == "PM3.6"@ || mod_path == "P+"@,
        brawl_name(token) is Some,
    ensures
        character_name(mod_path, token) == brawl_name(token),
{
}

/// Project+ knows every fighter that Project M knows, under the same tokens.
pub proof fn lemma_pplus_extends_pm(token: Seq<char>)
    requires
        character_name("PM3.6"@, token) is Some,
    ensures
        character_name("P+"@, token) == character_name("PM3.6"@, token),
{
    reveal_strlit("P+");
    reveal_strlit("PM3.6");
    reveal_strlit("PM3.02");
    reveal_strlit("Brawl");
    assert("P+"@[0] != "Brawl"@[0]);
    assert("P+"@.len() != "PM3.02"@.len());
    assert("P+"@.len() != "PM3.6"@.len());
    assert("PM3.6"@[0] != "Brawl"@[0]);
}

/// The secret mod knows every token of Project+'s own table, with the same fighter.
pub proof fn lemma_secret_includes_pplus(token: Seq<char>)
    requires
        pplus_name(token) is Some,
    ensures
        secret_name(token) == pplus_name(token),
{
}

/// A lookup succeeds only with a name of Brawl's table or of the tables the mod adds.
pub proof fn lemma_found_names_come_from_tables(mod_path: Seq<char>, token: Seq<char>)
    requires
        character_name(mod_path, token) is Some,
    ensures
        character_name(mod_path, token) == brawl_name(token)
            || character_name(mod_path, token) == pm_name(token)
            || character_name(mod_path, token) == pplus_name(token)
            || character_name(mod_path, token) == lxp_name(token)
            || character_name(mod_path, token) == secret_name(token),
{
}


/// The tables share no token, except that the secret mod's table repeats Project+'s and adds
/// Donald's tokens, which no other table has. So the order in which a mod looks its tables
/// up never changes what a token names.
#[verifier::rlimit(100)]
pub proof fn lemma_tables_disjoint(token: Seq<char>)
    ensures
        brawl_name(token) is Some ==> pm_name(token) is None && pplus_name(token) is None
            && secret_name(token) is None && lxp_name(token) is None,
        pm_name(token) is Some ==> pplus_name(token) is None && secret_name(token) is None
            && lxp_name(token) is None,
        lxp_name(token) is Some ==> pplus_name(token) is None && secret_name(token) is None,
        pplus_name(token) is Some ==> secret_name(token) == pplus_name(token),
        secret_name(token) is Some && pplus_name(token) is None ==> secret_name(token) == Some("Donald"@),
        secret_name(token) == Some("Donald"@) ==> pplus_name(token) is None && brawl_name(token) is None
            && pm_name(token) is None && lxp_name(token) is None,
{
    reveal_strlit("&");
    reveal_strlit("bowser");
    reveal_strlit("captain");
    reveal_strlit("captainfalcon");
    reveal_strlit("cf");
    reveal_strlit("charizard");
    reveal_strlit("classic");
    reveal_strlit("classicridley");
    reveal_strlit("d3");
    reveal_strlit("ddd");
    reveal_strlit("dedede");
    reveal_strlit("diddy");
    reveal_strlit("diddykong");
    reveal_strlit("dk");
    reveal_strlit("dm");
    reveal_strlit("doc");
    reveal_strlit("doctor");
    reveal_strlit("doctormario");
    reveal_strlit("donald");
    reveal_strlit("donkey");
    reveal_strlit("donkeykong");
    reveal_strlit("dorf");
    reveal_strlit("dr");
    reveal_strlit("drmario");
    reveal_strlit("falco");
    reveal_strlit("falcon");
    reveal_strlit("fightingfreak");
    reveal_strlit("fox");
    reveal_strlit("g&w");
    reveal_strlit("game");
    reveal_strlit("game&watch");
    reveal_strlit("gameandwatch");
    reveal_strlit("gamewatch");
    reveal_strlit("ganon");
    reveal_strlit("ganondorf");
    reveal_strlit("gaw");
    reveal_strlit("gb");
    reveal_strlit("geno");
    reveal_strlit("giga bowser");
    reveal_strlit("gigabowser");
    reveal_strlit("gnw");
    reveal_strlit("gw");
    reveal_strlit("ic");
    reveal_strlit("ice");
    reveal_strlit("iceclimber");
    reveal_strlit("iceclimbers");
    reveal_strlit("ices");
    reveal_strlit("icies");
    reveal_strlit("ics");
    reveal_strlit("ike");
    reveal_strlit("ivy");
    reveal_strlit("ivysaur");
    reveal_strlit("jiggly");
    reveal_strlit("jigglypuff");
    reveal_strlit("jiggs");
    reveal_strlit("kd");
    reveal_strlit("king");
    reveal_strlit("kingdedede");
    reveal_strlit("kirb");
    reveal_strlit("kirby");
    reveal_strlit("knuckles");
    reveal_strlit("knucks");
    reveal_strlit("knux");
    reveal_strlit("link");
    reveal_strlit("lucario");
    reveal_strlit("lucas");
    reveal_strlit("lucina");
    reveal_strlit("luigi");
    reveal_strlit("m2");
    reveal_strlit("mage");
    reveal_strlit("mageganon");
    reveal_strlit("mario");
    reveal_strlit("marth");
    reveal_strlit("mcdonald");
    reveal_strlit("meta");
    reveal_strlit("metaknight");
    reveal_strlit("metal");
    reveal_strlit("metalsonic");
    reveal_strlit("mew2");
    reveal_strlit("mewtwo");
    reveal_strlit("mg");
    reveal_strlit("mk");
    reveal_strlit("modern");
    reveal_strlit("modernridley");
    reveal_strlit("ms");
    reveal_strlit("ness");
    reveal_strlit("oli");
    reveal_strlit("olimar");
    reveal_strlit("peach");
    reveal_strlit("pichu");
    reveal_strlit("pika");
    reveal_strlit("pikachu");
    reveal_strlit("pit");
    reveal_strlit("puff");
    reveal_strlit("r.o.b");
    reveal_strlit("ridley");
    reveal_strlit("ridleyclassic");
    reveal_strlit("ridleymodern");
    reveal_strlit("rob");
    reveal_strlit("ronald");
    reveal_strlit("roy");
    reveal_strlit("samus");
    reveal_strlit("shadow");
    reveal_strlit("sheik");
    reveal_strlit("snake");
    reveal_strlit("solid");
    reveal_strlit("solidsnake");
    reveal_strlit("sonic");
    reveal_strlit("squirt");
    reveal_strlit("squirtle");
    reveal_strlit("swordball");
    reveal_strlit("tink");
    reveal_strlit("tl");
    reveal_strlit("tlink");
    reveal_strlit("toon");
    reveal_strlit("toonlink");
    reveal_strlit("waluigi");
    reveal_strlit("wario");
    reveal_strlit("wario-man");
    reveal_strlit("warioman");
    reveal_strlit("wolf");
    reveal_strlit("yink");
    reveal_strlit("yl");
    reveal_strlit("ylink");
    reveal_strlit("yosh");
    reveal_strlit("yoshi");
    reveal_strlit("young");
    reveal_strlit("younglink");
    reveal_strlit("zard");
    reveal_strlit("zelda");
    reveal_strlit("zero");
    reveal_strlit("zerosuitsamus");
    reveal_strlit("zss");
    reveal_strlit("Donald");
    reveal_strlit("Knuckles");
    assert("Knuckles"@.len() != "Donald"@.len());
    if token == "mewtwo"@ {
        assert(token.len() == 6 && token[0] == 'm' && token[1] == 'e' && token[2] == 'w' && token[3] == 't' && token[4] == 'w' && token[5] == 'o');
    } else if token == "mew2"@ {
        assert(token.len() == 4 && token[0] == 'm' && token[1] == 'e' && token[2] == 'w' && token[3] == '2');
    } else if token == "m2"@ {
        assert(token.len() == 2 && token[0] == 'm' && token[1] == '2');
    } else if token == "roy"@ {
        assert(token.len() == 3 && token[0] == 'r' && token[1] == 'o' && token[2] == 'y');
    } else if token == "knuckles"@ {
        assert(token.len() == 8 && token[0] == 'k' && token[1] == 'n' && token[2] == 'u' && token[3] == 'c' && token[4] == 'k' && token[5] == 'l' && token[6] == 'e' && token[7] == 's');
    } else if token == "knucks"@ {
        assert(token.len() == 6 && token[0] == 'k' && token[1] == 'n' && token[2] == 'u' && token[3] == 'c' && token[4] == 'k' && token[5] == 's');
    } else if token == "knux"@ {
        assert(token.len() == 4 && token[0] == 'k' && token[1] == 'n' && token[2] == 'u' && token[3] == 'x');
    } else if token == "fightingfreak"@ {
        assert(token.len() == 13 && token[0] == 'f' && token[1] == 'i' && token[2] == 'g' && token[3] == 'h' && token[4] == 't' && token[5] == 'i' && token[6] == 'n' && token[7] == 'g' && token[8] == 'f' && token[9] == 'r' && token[10] == 'e' && token[11] == 'a' && token[12] == 'k');
    } else if token == "&"@ {
        assert(token.len() == 1 && token[0] == '&');
    } else if token == "donald"@ {
        assert(token.len() == 6 && token[0] == 'd' && token[1] == 'o' && token[2] == 'n' && token[3] == 'a' && token[4] == 'l' && token[5] == 'd');
    } else if token == "ronald"@ {
        assert(token.len() == 6 && token[0] == 'r' && token[1] == 'o' && token[2] == 'n' && token[3] == 'a' && token[4] == 'l' && token[5] == 'd');
    } else if token == "mcdonald"@ {
        assert(token.len() == 8 && token[0] == 'm' && token[1] == 'c' && token[2] == 'd' && token[3] == 'o' && token[4] == 'n' && token[5] == 'a' && token[6] == 'l' && token[7] == 'd');
    } else if token == "doctor"@ {
        assert(token.len() == 6 && token[0] == 'd' && token[1] == 'o' && token[2] == 'c' && token[3] == 't' && token[4] == 'o' && token[5] == 'r');
    } else if token == "doctormario"@ {
        assert(token.len() == 11 && token[0] == 'd' && token[1] == 'o' && token[2] == 'c' && token[3] == 't' && token[4] == 'o' && token[5] == 'r' && token[6] == 'm' && token[7] == 'a' && token[8] == 'r' && token[9] == 'i' && token[10] == 'o');
    } else if token == "doc"@ {
        assert(token.len() == 3 && token[0] == 'd' && token[1] == 'o' && token[2] == 'c');
    } else if token == "dr"@ {
        assert(token.len() == 2 && token[0] == 'd' && token[1] == 'r');
    } else if token == "drmario"@ {
        assert(token.len() == 7 && token[0] == 'd' && token[1] == 'r' && token[2] == 'm' && token[3] == 'a' && token[4] == 'r' && token[5] == 'i' && token[6] == 'o');
    } else if token == "dm"@ {
        assert(token.len() == 2 && token[0] == 'd' && token[1] == 'm');
    } else if token == "mage"@ {
        assert(token.len() == 4 && token[0] == 'm' && token[1] == 'a' && token[2] == 'g' && token[3] == 'e');
    } else if token == "mageganon"@ {
        assert(token.len() == 9 && token[0] == 'm' && token[1] == 'a' && token[2] == 'g' && token[3] == 'e' && token[4] == 'g' && token[5] == 'a' && token[6] == 'n' && token[7] == 'o' && token[8] == 'n');
    } else if token == "mg"@ {
        assert(token.len() == 2 && token[0] == 'm' && token[1] == 'g');
    } else if token == "geno"@ {
        assert(token.len() == 4 && token[0] == 'g' && token[1] == 'e' && token[2] == 'n' && token[3] == 'o');
    } else if token == "lucina"@ {
        assert(token.len() == 6 && token[0] == 'l' && token[1] == 'u' && token[2] == 'c' && token[3] == 'i' && token[4] == 'n' && token[5] == 'a');
    } else if token == "metal"@ {
        assert(token.len() == 5 && token[0] == 'm' && token[1] == 'e' && token[2] == 't' && token[3] == 'a' && token[4] == 'l');
    } else if token == "metalsonic"@ {
        assert(token.len() == 10 && token[0] == 'm' && token[1] == 'e' && token[2] == 't' && token[3] == 'a' && token[4] == 'l' && token[5] == 's' && token[6] == 'o' && token[7] == 'n' && token[8] == 'i' && token[9] == 'c');
    } else if token == "ms"@ {
        assert(token.len() == 2 && token[0] == 'm' && token[1] == 's');
    } else if token == "pichu"@ {
        assert(token.len() == 5 && token[0] == 'p' && token[1] == 'i' && token[2] == 'c' && token[3] == 'h' && token[4] == 'u');
    } else if token == "ridley"@ {
        assert(token.len() == 6 && token[0] == 'r' && token[1] == 'i' && token[2] == 'd' && token[3] == 'l' && token[4] == 'e' && token[5] == 'y');
    } else if token == "classic"@ {
        assert(token.len() == 7 && token[0] == 'c' && token[1] == 'l' && token[2] == 'a' && token[3] == 's' && token[4] == 's' && token[5] == 'i' && token[6] == 'c');
    } else if token == "classicridley"@ {
        assert(token.len() == 13 && token[0] == 'c' && token[1] == 'l' && token[2] == 'a' && token[3] == 's' && token[4] == 's' && token[5] == 'i' && token[6] == 'c' && token[7] == 'r' && token[8] == 'i' && token[9] == 'd' && token[10] == 'l' && token[11] == 'e' && token[12] == 'y');
    } else if token == "ridleyclassic"@ {
        assert(token.len() == 13 && token[0] == 'r' && token[1] == 'i' && token[2] == 'd' && token[3] == 'l' && token[4] == 'e' && token[5] == 'y' && token[6] == 'c' && token[7] == 'l' && token[8] == 'a' && token[9] == 's' && token[10] == 's' && token[11] == 'i' && token[12] == 'c');
    } else if token == "modern"@ {
        assert(token.len() == 6 && token[0] == 'm' && token[1] == 'o' && token[2] == 'd' && token[3] == 'e' && token[4] == 'r' && token[5] == 'n');
    } else if token == "modernridley"@ {
        assert(token.len() == 12 && token[0] == 'm' && token[1] == 'o' && token[2] == 'd' && token[3] == 'e' && token[4] == 'r' && token[5] == 'n' && token[6] == 'r' && token[7] == 'i' && token[8] == 'd' && token[9] == 'l' && token[10] == 'e' && token[11] == 'y');
    } else if token == "ridleymodern"@ {
        assert(token.len() == 12 && token[0] == 'r' && token[1] == 'i' && token[2] == 'd' && token[3] == 'l' && token[4] == 'e' && token[5] == 'y' && token[6] == 'm' && token[7] == 'o' && token[8] == 'd' && token[9] == 'e' && token[10] == 'r' && token[11] == 'n');
    } else if token == "shadow"@ {
        assert(token.len() == 6 && token[0] == 's' && token[1] == 'h' && token[2] == 'a' && token[3] == 'd' && token[4] == 'o' && token[5] == 'w');
    } else if token == "waluigi"@ {
        assert(token.len() == 7 && token[0] == 'w' && token[1] == 'a' && token[2] == 'l' && token[3] == 'u' && token[4] == 'i' && token[5] == 'g' && token[6] == 'i');
    } else if token == "yl"@ {
        assert(token.len() == 2 && token[0] == 'y' && token[1] == 'l');
    } else if token == "young"@ {
        assert(token.len() == 5 && token[0] == 'y' && token[1] == 'o' && token[2] == 'u' && token[3] == 'n' && token[4] == 'g');
    } else if token == "younglink"@ {
        assert(token.len() == 9 && token[0] == 'y' && token[1] == 'o' && token[2] == 'u' && token[3] == 'n' && token[4] == 'g' && token[5] == 'l' && token[6] == 'i' && token[7] == 'n' && token[8] == 'k');
    } else if token == "yink"@ {
        assert(token.len() == 4 && token[0] == 'y' && token[1] == 'i' && token[2] == 'n' && token[3] == 'k');
    } else if token == "ylink"@ {
        assert(token.len() == 5 && token[0] == 'y' && token[1] == 'l' && token[2] == 'i' && token[3] == 'n' && token[4] == 'k');
    }
}

/// The fighters of Brawl, by the names of their pages.
pub open spec fn brawl_roster() -> Seq<Seq<char>> {
    seq![
        "Bowser"@,
        "Captain%20Falcon"@,
        "Charizard"@,
        "Diddy%20Kong"@,
        "Donkey%20Kong"@,
        "Falco"@,
        "Fox"@,
        "Game%20&%20Watch"@,
        "Ganondorf"@,
        "Giga%20Bowser"@,
        "Ice%20Climbers"@,
        "Ike"@,
        "Ivysaur"@,
        "Jigglypuff"@,
        "King%20Dedede"@,
        "Kirby"@,
        "Link"@,
        "Lucario"@,
        "Lucas"@,
        "Luigi"@,
        "Mario"@,
        "Marth"@,
        "Meta%20Knight"@,
        "Ness"@,
        "Olimar"@,
        "Peach"@,
        "Pikachu"@,
        "Pit"@,
        "R.O.B"@,
        "Samus"@,
        "Sheik"@,
        "Snake"@,
        "Sonic"@,
        "Squirtle"@,
        "Toon%20Link"@,
        "Wario"@,
        "Wario-Man"@,
        "Wolf"@,
        "Yoshi"@,
        "Zelda"@,
        "Zero%20Suit%20Samus"@,
    ]
}

/// Brawl's table names exactly Brawl's roster: every fighter of Brawl is named by its own
/// page name, lowercased and without its spaces (`ike` names Ike, `captainfalcon` Captain
/// Falcon), and every name the table gives is one of the roster.
#[verifier::rlimit(100)]
pub proof fn lemma_brawl_names_the_roster(token: Seq<char>)
    ensures
        forall|i: int| 0 <= i < brawl_roster().len() ==> exists|t: Seq<char>| brawl_name(t) == Some(#[trigger] brawl_roster()[i]),
        brawl_name(token) matches Some(name) ==> brawl_roster().contains(name),
{
    reveal_strlit("bowser");
    reveal_strlit("captain");
    reveal_strlit("falcon");
    reveal_strlit("captainfalcon");
    reveal_strlit("cf");
    reveal_strlit("charizard");
    reveal_strlit("zard");
    reveal_strlit("diddy");
    reveal_strlit("diddykong");
    reveal_strlit("donkey");
    reveal_strlit("donkeykong");
    reveal_strlit("dk");
    reveal_strlit("falco");
    reveal_strlit("fox");
    reveal_strlit("game");
    reveal_strlit("game&watch");
    reveal_strlit("gameandwatch");
    reveal_strlit("gamewatch");
    reveal_strlit("g&w");
    reveal_strlit("gaw");
    reveal_strlit("gw");
    reveal_strlit("gnw");
    reveal_strlit("ganondorf");
    reveal_strlit("ganon");
    reveal_strlit("dorf");
    reveal_strlit("giga bowser");
    reveal_strlit("gigabowser");
    reveal_strlit("gb");
    reveal_strlit("iceclimbers");
    reveal_strlit("iceclimber");
    reveal_strlit("ice");
    reveal_strlit("ic");
    reveal_strlit("ics");
    reveal_strlit("ices");
    reveal_strlit("icies");
    reveal_strlit("ike");
    reveal_strlit("ivysaur");
    reveal_strlit("ivy");
    reveal_strlit("jigglypuff");
    reveal_strlit("jiggly");
    reveal_strlit("jiggs");
    reveal_strlit("puff");
    reveal_strlit("kingdedede");
    reveal_strlit("king");
    reveal_strlit("dedede");
    reveal_strlit("d3");
    reveal_strlit("ddd");
    reveal_strlit("kd");
    reveal_strlit("kirby");
    reveal_strlit("kirb");
    reveal_strlit("link");
    reveal_strlit("lucario");
    reveal_strlit("lucas");
    reveal_strlit("luigi");
    reveal_strlit("mario");
    reveal_strlit("marth");
    reveal_strlit("swordball");
    reveal_strlit("meta");
    reveal_strlit("metaknight");
    reveal_strlit("mk");
    reveal_strlit("ness");
    reveal_strlit("olimar");
    reveal_strlit("oli");
    reveal_strlit("peach");
    reveal_strlit("pikachu");
    reveal_strlit("pika");
    reveal_strlit("pit");
    reveal_strlit("rob");
    reveal_strlit("r.o.b");
    reveal_strlit("samus");
    reveal_strlit("sheik");
    reveal_strlit("solid");
    reveal_strlit("solidsnake");
    reveal_strlit("snake");
    reveal_strlit("sonic");
    reveal_strlit("squirtle");
    reveal_strlit("squirt");
    reveal_strlit("toon");
    reveal_strlit("toonlink");
    reveal_strlit("tink");
    reveal_strlit("tlink");
    reveal_strlit("tl");
    reveal_strlit("wario");
    reveal_strlit("wario-man");
    reveal_strlit("warioman");
    reveal_strlit("wolf");
    reveal_strlit("yoshi");
    reveal_strlit("yosh");
    reveal_strlit("zelda");
    reveal_strlit("zero");
    reveal_strlit("zerosuitsamus");
    reveal_strlit("zss");
    reveal_strlit("Bowser");
    reveal_strlit("Captain%20Falcon");
    reveal_strlit("Charizard");
    reveal_strlit("Diddy%20Kong");
    reveal_strlit("Donkey%20Kong");
    reveal_strlit("Falco");
    reveal_strlit("Fox");
    reveal_strlit("Game%20&%20Watch");
    reveal_strlit("Ganondorf");
    reveal_strlit("Giga%20Bowser");
    reveal_strlit("Ice%20Climbers");
    reveal_strlit("Ike");
    reveal_strlit("Ivysaur");
    reveal_strlit("Jigglypuff");
    reveal_strlit("King%20Dedede");
    reveal_strlit("Kirby");
    reveal_strlit("Link");
    reveal_strlit("Lucario");
    reveal_strlit("Lucas");
    reveal_strlit("Luigi");
    reveal_strlit("Mario");
    reveal_strlit("Marth");
    reveal_strlit("Meta%20Knight");
    reveal_strlit("Ness");
    reveal_strlit("Olimar");
    reveal_strlit("Peach");
    reveal_strlit("Pikachu");
    reveal_strlit("Pit");
    reveal_strlit("R.O.B");
    reveal_strlit("Samus");
    reveal_strlit("Sheik");
    reveal_strlit("Snake");
    reveal_strlit("Sonic");
    reveal_strlit("Squirtle");
    reveal_strlit("Toon%20Link");
    reveal_strlit("Wario");
    reveal_strlit("Wario-Man");
    reveal_strlit("Wolf");
    reveal_strlit("Yoshi");
    reveal_strlit("Zelda");
    reveal_strlit("Zero%20Suit%20Samus");
    assert(brawl_roster()[0] == "Bowser"@);
    assert(brawl_roster()[1] == "Captain%20Falcon"@);
    assert(brawl_roster()[2] == "Charizard"@);
    assert(brawl_roster()[3] == "Diddy%20Kong"@);
    assert(brawl_roster()[4] == "Donkey%20Kong"@);
    assert(brawl_roster()[5] == "Falco"@);
    assert(brawl_roster()[6] == "Fox"@);
    assert(brawl_roster()[7] == "Game%20&%20Watch"@);
    assert(brawl_roster()[8] == "Ganondorf"@);
    assert(brawl_roster()[9] == "Giga%20Bowser"@);
    assert(brawl_roster()[10] == "Ice%20Climbers"@);
    assert(brawl_roster()[11] == "Ike"@);
    assert(brawl_roster()[12] == "Ivysaur"@);
    assert(brawl_roster()[13] == "Jigglypuff"@);
    assert(brawl_roster()[14] == "King%20Dedede"@);
    assert(brawl_roster()[15] == "Kirby"@);
    assert(brawl_roster()[16] == "Link"@);
    assert(brawl_roster()[17] == "Lucario"@);
    assert(brawl_roster()[18] == "Lucas"@);
    assert(brawl_roster()[19] == "Luigi"@);
    assert(brawl_roster()[20] == "Mario"@);
    assert(brawl_roster()[21] == "Marth"@);
    assert(brawl_roster()[22] == "Meta%20Knight"@);
    assert(brawl_roster()[23] == "Ness"@);
    assert(brawl_roster()[24] == "Olimar"@);
    assert(brawl_roster()[25] == "Peach"@);
    assert(brawl_roster()[26] == "Pikachu"@);
    assert(brawl_roster()[27] == "Pit"@);
    assert(brawl_roster()[28] == "R.O.B"@);
    assert(brawl_roster()[29] == "Samus"@);
    assert(brawl_roster()[30] == "Sheik"@);
    assert(brawl_roster()[31] == "Snake"@);
    assert(brawl_roster()[32] == "Sonic"@);
    assert(brawl_roster()[33] == "Squirtle"@);
    assert(brawl_roster()[34] == "Toon%20Link"@);
    assert(brawl_roster()[35] == "Wario"@);
    assert(brawl_roster()[36] == "Wario-Man"@);
    assert(brawl_roster()[37] == "Wolf"@);
    assert(brawl_roster()[38] == "Yoshi"@);
    assert(brawl_roster()[39] == "Zelda"@);
    assert(brawl_roster()[40] == "Zero%20Suit%20Samus"@);
    assert forall|i: int| 0 <= i < brawl_roster().len() implies exists|t: Seq<char>| brawl_name(t) == Some(
        #[trigger] brawl_roster()[i],
    ) by {
        if i == 0 {
            assert("bowser"@.len() == 6 && "bowser"@[0] == 'b' && "bowser"@[1] == 'o' && "bowser"@[2] == 'w' && "bowser"@[3] == 's' && "bowser"@[4] == 'e' && "bowser"@[5] == 'r');
            assert(brawl_name("bowser"@) == Some("Bowser"@));
        }
        if i == 1 {
            assert("captainfalcon"@.len() == 13 && "captainfalcon"@[0] == 'c' && "captainfalcon"@[1] == 'a' && "captainfalcon"@[2] == 'p' && "captainfalcon"@[3] == 't' && "captainfalcon"@[4] == 'a' && "captainfalcon"@[5] == 'i' && "captainfalcon"@[6] == 'n' && "captainfalcon"@[7] == 'f' && "captainfalcon"@[8] == 'a' && "captainfalcon"@[9] == 'l' && "captainfalcon"@[10] == 'c' && "captainfalcon"@[11] == 'o' && "captainfalcon"@[12] == 'n');
            assert(brawl_name("captainfalcon"@) == Some("Captain%20Falcon"@));
        }
        if i == 2 {
            assert("charizard"@.len() == 9 && "charizard"@[0] == 'c' && "charizard"@[1] == 'h' && "charizard"@[2] == 'a' && "charizard"@[3] == 'r' && "charizard"@[4] == 'i' && "charizard"@[5] == 'z' && "charizard"@[6] == 'a' && "charizard"@[7] == 'r' && "charizard"@[8] == 'd');
            assert(brawl_name("charizard"@) == Some("Charizard"@));
        }
        if i == 3 {
            assert("diddykong"@.len() == 9 && "diddykong"@[0] == 'd' && "diddykong"@[1] == 'i' && "diddykong"@[2] == 'd' && "diddykong"@[3] == 'd' && "diddykong"@[4] == 'y' && "diddykong"@[5] == 'k' && "diddykong"@[6] == 'o' && "diddykong"@[7] == 'n' && "diddykong"@[8] == 'g');
            assert(brawl_name("diddykong"@) == Some("Diddy%20Kong"@));
        }
        if i == 4 {
            assert("donkeykong"@.len() == 10 && "donkeykong"@[0] == 'd' && "donkeykong"@[1] == 'o' && "donkeykong"@[2] == 'n' && "donkeykong"@[3] == 'k' && "donkeykong"@[4] == 'e' && "donkeykong"@[5] == 'y' && "donkeykong"@[6] == 'k' && "donkeykong"@[7] == 'o' && "donkeykong"@[8] == 'n' && "donkeykong"@[9] == 'g');
            assert(brawl_name("donkeykong"@) == Some("Donkey%20Kong"@));
        }
        if i == 5 {
            assert("falco"@.len() == 5 && "falco"@[0] == 'f' && "falco"@[1] == 'a' && "falco"@[2] == 'l' && "falco"@[3] == 'c' && "falco"@[4] == 'o');
            assert(brawl_name("falco"@) == Some("Falco"@));
        }
        if i == 6 {
            assert("fox"@.len() == 3 && "fox"@[0] == 'f' && "fox"@[1] == 'o' && "fox"@[2] == 'x');
            assert(brawl_name("fox"@) == Some("Fox"@));
        }
        if i == 7 {
            assert("game&watch"@.len() == 10 && "game&watch"@[0] == 'g' && "game&watch"@[1] == 'a' && "game&watch"@[2] == 'm' && "game&watch"@[3] == 'e' && "game&watch"@[4] == '&' && "game&watch"@[5] == 'w' && "game&watch"@[6] == 'a' && "game&watch"@[7] == 't' && "game&watch"@[8] == 'c' && "game&watch"@[9] == 'h');
            assert(brawl_name("game&watch"@) == Some("Game%20&%20Watch"@));
        }
        if i == 8 {
            assert("ganondorf"@.len() == 9 && "ganondorf"@[0] == 'g' && "ganondorf"@[1] == 'a' && "ganondorf"@[2] == 'n' && "ganondorf"@[3] == 'o' && "ganondorf"@[4] == 'n' && "ganondorf"@[5] == 'd' && "ganondorf"@[6] == 'o' && "ganondorf"@[7] == 'r' && "ganondorf"@[8] == 'f');
            assert(brawl_name("ganondorf"@) == Some("Ganondorf"@));
        }
        if i == 9 {
            assert("gigabowser"@.len() == 10 && "gigabowser"@[0] == 'g' && "gigabowser"@[1] == 'i' && "gigabowser"@[2] == 'g' && "gigabowser"@[3] == 'a' && "gigabowser"@[4] == 'b' && "gigabowser"@[5] == 'o' && "gigabowser"@[6] == 'w' && "gigabowser"@[7] == 's' && "gigabowser"@[8] == 'e' && "gigabowser"@[9] == 'r');
            assert(brawl_name("gigabowser"@) == Some("Giga%20Bowser"@));
        }
        if i == 10 {
            assert("iceclimbers"@.len() == 11 && "iceclimbers"@[0] == 'i' && "iceclimbers"@[1] == 'c' && "iceclimbers"@[2] == 'e' && "iceclimbers"@[3] == 'c' && "iceclimbers"@[4] == 'l' && "iceclimbers"@[5] == 'i' && "iceclimbers"@[6] == 'm' && "iceclimbers"@[7] == 'b' && "iceclimbers"@[8] == 'e' && "iceclimbers"@[9] == 'r' && "iceclimbers"@[10] == 's');
            assert(brawl_name("iceclimbers"@) == Some("Ice%20Climbers"@));
        }
        if i == 11 {
            assert("ike"@.len() == 3 && "ike"@[0] == 'i' && "ike"@[1] == 'k' && "ike"@[2] == 'e');
            assert(brawl_name("ike"@) == Some("Ike"@));
        }
        if i == 12 {
            assert("ivysaur"@.len() == 7 && "ivysaur"@[0] == 'i' && "ivysaur"@[1] == 'v' && "ivysaur"@[2] == 'y' && "ivysaur"@[3] == 's' && "ivysaur"@[4] == 'a' && "ivysaur"@[5] == 'u' && "ivysaur"@[6] == 'r');
            assert(brawl_name("ivysaur"@) == Some("Ivysaur"@));
        }
        if i == 13 {
            assert("jigglypuff"@.len() == 10 && "jigglypuff"@[0] == 'j' && "jigglypuff"@[1] == 'i' && "jigglypuff"@[2] == 'g' && "jigglypuff"@[3] == 'g' && "jigglypuff"@[4] == 'l' && "jigglypuff"@[5] == 'y' && "jigglypuff"@[6] == 'p' && "jigglypuff"@[7] == 'u' && "jigglypuff"@[8] == 'f' && "jigglypuff"@[9] == 'f');
            assert(brawl_name("jigglypuff"@) == Some("Jigglypuff"@));
        }
        if i == 14 {
            assert("kingdedede"@.len() == 10 && "kingdedede"@[0] == 'k' && "kingdedede"@[1] == 'i' && "kingdedede"@[2] == 'n' && "kingdedede"@[3] == 'g' && "kingdedede"@[4] == 'd' && "kingdedede"@[5] == 'e' && "kingdedede"@[6] == 'd' && "kingdedede"@[7] == 'e' && "kingdedede"@[8] == 'd' && "kingdedede"@[9] == 'e');
            assert(brawl_name("kingdedede"@) == Some("King%20Dedede"@));
        }
        if i == 15 {
            assert("kirby"@.len() == 5 && "kirby"@[0] == 'k' && "kirby"@[1] == 'i' && "kirby"@[2] == 'r' && "kirby"@[3] == 'b' && "kirby"@[4] == 'y');
            assert(brawl_name("kirby"@) == Some("Kirby"@));
        }
        if i == 16 {
            assert("link"@.len() == 4 && "link"@[0] == 'l' && "link"@[1] == 'i' && "link"@[2] == 'n' && "link"@[3] == 'k');
            assert(brawl_name("link"@) == Some("Link"@));
        }
        if i == 17 {
            assert("lucario"@.len() == 7 && "lucario"@[0] == 'l' && "lucario"@[1] == 'u' && "lucario"@[2] == 'c' && "lucario"@[3] == 'a' && "lucario"@[4] == 'r' && "lucario"@[5] == 'i' && "lucario"@[6] == 'o');
            assert(brawl_name("lucario"@) == Some("Lucario"@));
        }
        if i == 18 {
            assert("lucas"@.len() == 5 && "lucas"@[0] == 'l' && "lucas"@[1] == 'u' && "lucas"@[2] == 'c' && "lucas"@[3] == 'a' && "lucas"@[4] == 's');
            assert(brawl_name("lucas"@) == Some("Lucas"@));
        }
        if i == 19 {
            assert("luigi"@.len() == 5 && "luigi"@[0] == 'l' && "luigi"@[1] == 'u' && "luigi"@[2] == 'i' && "luigi"@[3] == 'g' && "luigi"@[4] == 'i');
            assert(brawl_name("luigi"@) == Some("Luigi"@));
        }
        if i == 20 {
            assert("mario"@.len() == 5 && "mario"@[0] == 'm' && "mario"@[1] == 'a' && "mario"@[2] == 'r' && "mario"@[3] == 'i' && "mario"@[4] == 'o');
            assert(brawl_name("mario"@) == Some("Mario"@));
        }
        if i == 21 {
            assert("marth"@.len() == 5 && "marth"@[0] == 'm' && "marth"@[1] == 'a' && "marth"@[2] == 'r' && "marth"@[3] == 't' && "marth"@[4] == 'h');
            assert(brawl_name("marth"@) == Some("Marth"@));
        }
        if i == 22 {
            assert("metaknight"@.len() == 10 && "metaknight"@[0] == 'm' && "metaknight"@[1] == 'e' && "metaknight"@[2] == 't' && "metaknight"@[3] == 'a' && "metaknight"@[4] == 'k' && "metaknight"@[5] == 'n' && "metaknight"@[6] == 'i' && "metaknight"@[7] == 'g' && "metaknight"@[8] == 'h' && "metaknight"@[9] == 't');
            assert(brawl_name("metaknight"@) == Some("Meta%20Knight"@));
        }
        if i == 23 {
            assert("ness"@.len() == 4 && "ness"@[0] == 'n' && "ness"@[1] == 'e' && "ness"@[2] == 's' && "ness"@[3] == 's');
            assert(brawl_name("ness"@) == Some("Ness"@));
        }
        if i == 24 {
            assert("olimar"@.len() == 6 && "olimar"@[0] == 'o' && "olimar"@[1] == 'l' && "olimar"@[2] == 'i' && "olimar"@[3] == 'm' && "olimar"@[4] == 'a' && "olimar"@[5] == 'r');
            assert(brawl_name("olimar"@) == Some("Olimar"@));
        }
        if i == 25 {
            assert("peach"@.len() == 5 && "peach"@[0] == 'p' && "peach"@[1] == 'e' && "peach"@[2] == 'a' && "peach"@[3] == 'c' && "peach"@[4] == 'h');
            assert(brawl_name("peach"@) == Some("Peach"@));
        }
        if i == 26 {
            assert("pikachu"@.len() == 7 && "pikachu"@[0] == 'p' && "pikachu"@[1] == 'i' && "pikachu"@[2] == 'k' && "pikachu"@[3] == 'a' && "pikachu"@[4] == 'c' && "pikachu"@[5] == 'h' && "pikachu"@[6] == 'u');
            assert(brawl_name("pikachu"@) == Some("Pikachu"@));
        }
        if i == 27 {
            assert("pit"@.len() == 3 && "pit"@[0] == 'p' && "pit"@[1] == 'i' && "pit"@[2] == 't');
            assert(brawl_name("pit"@) == Some("Pit"@));
        }
        if i == 28 {
            assert("r.o.b"@.len() == 5 && "r.o.b"@[0] == 'r' && "r.o.b"@[1] == '.' && "r.o.b"@[2] == 'o' && "r.o.b"@[3] == '.' && "r.o.b"@[4] == 'b');
            assert(brawl_name("r.o.b"@) == Some("R.O.B"@));
        }
        if i == 29 {
            assert("samus"@.len() == 5 && "samus"@[0] == 's' && "samus"@[1] == 'a' && "samus"@[2] == 'm' && "samus"@[3] == 'u' && "samus"@[4] == 's');
            assert(brawl_name("samus"@) == Some("Samus"@));
        }
        if i == 30 {
            assert("sheik"@.len() == 5 && "sheik"@[0] == 's' && "sheik"@[1] == 'h' && "sheik"@[2] == 'e' && "sheik"@[3] == 'i' && "sheik"@[4] == 'k');
            assert(brawl_name("sheik"@) == Some("Sheik"@));
        }
        if i == 31 {
            assert("snake"@.len() == 5 && "snake"@[0] == 's' && "snake"@[1] == 'n' && "snake"@[2] == 'a' && "snake"@[3] == 'k' && "snake"@[4] == 'e');
            assert(brawl_name("snake"@) == Some("Snake"@));
        }
        if i == 32 {
            assert("sonic"@.len() == 5 && "sonic"@[0] == 's' && "sonic"@[1] == 'o' && "sonic"@[2] == 'n' && "sonic"@[3] == 'i' && "sonic"@[4] == 'c');
            assert(brawl_name("sonic"@) == Some("Sonic"@));
        }
        if i == 33 {
            assert("squirtle"@.len() == 8 && "squirtle"@[0] == 's' && "squirtle"@[1] == 'q' && "squirtle"@[2] == 'u' && "squirtle"@[3] == 'i' && "squirtle"@[4] == 'r' && "squirtle"@[5] == 't' && "squirtle"@[6] == 'l' && "squirtle"@[7] == 'e');
            assert(brawl_name("squirtle"@) == Some("Squirtle"@));
        }
        if i == 34 {
            assert("toonlink"@.len() == 8 && "toonlink"@[0] == 't' && "toonlink"@[1] == 'o' && "toonlink"@[2] == 'o' && "toonlink"@[3] == 'n' && "toonlink"@[4] == 'l' && "toonlink"@[5] == 'i' && "toonlink"@[6] == 'n' && "toonlink"@[7] == 'k');
            assert(brawl_name("toonlink"@) == Some("Toon%20Link"@));
        }
        if i == 35 {
            assert("wario"@.len() == 5 && "wario"@[0] == 'w' && "wario"@[1] == 'a' && "wario"@[2] == 'r' && "wario"@[3] == 'i' && "wario"@[4] == 'o');
            assert(brawl_name("wario"@) == Some("Wario"@));
        }
        if i == 36 {
            assert("wario-man"@.len() == 9 && "wario-man"@[0] == 'w' && "wario-man"@[1] == 'a' && "wario-man"@[2] == 'r' && "wario-man"@[3] == 'i' && "wario-man"@[4] == 'o' && "wario-man"@[5] == '-' && "wario-man"@[6] == 'm' && "wario-man"@[7] == 'a' && "wario-man"@[8] == 'n');
            assert(brawl_name("wario-man"@) == Some("Wario-Man"@));
        }
        if i == 37 {
            assert("wolf"@.len() == 4 && "wolf"@[0] == 'w' && "wolf"@[1] == 'o' && "wolf"@[2] == 'l' && "wolf"@[3] == 'f');
            assert(brawl_name("wolf"@) == Some("Wolf"@));
        }
        if i == 38 {
            assert("yoshi"@.len() == 5 && "yoshi"@[0] == 'y' && "yoshi"@[1] == 'o' && "yoshi"@[2] == 's' && "yoshi"@[3] == 'h' && "yoshi"@[4] == 'i');
            assert(brawl_name("yoshi"@) == Some("Yoshi"@));
        }
        if i == 39 {
            assert("zelda"@.len() == 5 && "zelda"@[0] == 'z' && "zelda"@[1] == 'e' && "zelda"@[2] == 'l' && "zelda"@[3] == 'd' && "zelda"@[4] == 'a');
            assert(brawl_name("zelda"@) == Some("Zelda"@));
        }
        if i == 40 {
            assert("zerosuitsamus"@.len() == 13 && "zerosuitsamus"@[0] == 'z' && "zerosuitsamus"@[1] == 'e' && "zerosuitsamus"@[2] == 'r' && "zerosuitsamus"@[3] == 'o' && "zerosuitsamus"@[4] == 's' && "zerosuitsamus"@[5] == 'u' && "zerosuitsamus"@[6] == 'i' && "zerosuitsamus"@[7] == 't' && "zerosuitsamus"@[8] == 's' && "zerosuitsamus"@[9] == 'a' && "zerosuitsamus"@[10] == 'm' && "zerosuitsamus"@[11] == 'u' && "zerosuitsamus"@[12] == 's');
            assert(brawl_name("zerosuitsamus"@) == Some("Zero%20Suit%20Samus"@));
        }
    }
}

} // verus!
