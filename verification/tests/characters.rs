use rukaidata::characters::{brawl, character, lxp, pm, pplus, secret};

#[test]
fn brawl_names_map_to_page_names() {
    assert_eq!(brawl("bowser"), Some("Bowser"));
    assert_eq!(brawl("cf"), Some("Captain%20Falcon"));
    assert_eq!(brawl("falcon"), Some("Captain%20Falcon"));
    assert_eq!(brawl("zss"), Some("Zero%20Suit%20Samus"));
    assert_eq!(brawl("mewtwo"), None);
    assert_eq!(brawl(""), None);
}

#[test]
fn project_m_adds_its_fighters() {
    assert_eq!(pm("m2"), Some("Mewtwo"));
    assert_eq!(pm("roy"), Some("Roy"));
    assert_eq!(pm("bowser"), None);
}

#[test]
fn project_plus_adds_knuckles() {
    assert_eq!(pplus("knux"), Some("Knuckles"));
    assert_eq!(pplus("&"), Some("Knuckles"));
    assert_eq!(pplus("roy"), None);
}

#[test]
fn secret_mod_names() {
    assert_eq!(secret("ronald"), Some("Donald"));
    assert_eq!(secret("knucks"), Some("Knuckles"));
    assert_eq!(secret("bowser"), None);
}

#[test]
fn legacy_xp_names() {
    assert_eq!(lxp("doc"), Some("DoctorMario"));
    assert_eq!(lxp("mg"), Some("Ganon-Mage"));
    assert_eq!(lxp("classicridley"), Some("Ridley-Classic"));
    assert_eq!(lxp("ridleymodern"), Some("Ridley-Modern"));
    assert_eq!(lxp("yink"), Some("YoungLink"));
    assert_eq!(lxp("bowser"), None);
}

#[test]
fn character_searches_the_mods_tables_in_order() {
    assert_eq!(character("Brawl", "knux"), None);
    assert_eq!(character("P+", "knux"), Some("Knuckles"));
    assert_eq!(character("P+", "m2"), Some("Mewtwo"));
    assert_eq!(character("P+", "bowser"), Some("Bowser"));
    assert_eq!(character("PM3.6", "roy"), Some("Roy"));
    assert_eq!(character("PM3.02", "knux"), None);
    assert_eq!(character("PM3.02", "zard"), Some("Charizard"));
    assert_eq!(character("LXP2.1", "bowser"), None);
    assert_eq!(character("LXP2.1", "geno"), Some("Geno"));
    assert_eq!(character("Secret", "mcdonald"), Some("Donald"));
}

#[test]
fn pm_releases_agree() {
    for token in ["bowser", "m2", "roy", "knux", "geno", "zss"] {
        assert_eq!(character("PM3.02", token), character("PM3.6", token));
    }
}

#[test]
fn brawl_tokens_take_priority_in_mods() {
    for token in ["bowser", "cf", "diddy", "zss", "charizard"] {
        assert_eq!(character("P+", token), brawl(token));
        assert_eq!(character("PM3.6", token), brawl(token));
    }
}

#[test]
fn mod_tables_share_no_token_with_brawls() {
    for token in ["mewtwo", "roy", "knux", "&", "donald", "mcdonald", "doc", "ridley", "ylink", "bowser", "cf"] {
        let found = [brawl(token), pm(token), pplus(token), lxp(token)];
        assert!(found.iter().filter(|f| f.is_some()).count() <= 1, "{token}");
        if pplus(token).is_some() {
            assert_eq!(secret(token), pplus(token));
        }
        if secret(token) == Some("Donald") {
            assert!(found.iter().all(|f| f.is_none()), "{token}");
        }
    }
    assert_eq!(character("P+", "roy"), Some("Roy"));
    assert_eq!(character("Secret", "ronald"), Some("Donald"));
}
