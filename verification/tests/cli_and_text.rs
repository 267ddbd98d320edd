use rukaidata::cli::{args, Args};
use rukaidata::config::Config;
use rukaidata::text::{join_strings, split_white_space, str_eq, trim_str, u64_string, write_decimal_i64, write_hex, write_hex_i32};

fn strings(items: &[&str]) -> Vec<String> {
    items.iter().map(|s| s.to_string()).collect()
}

#[test]
fn args_lowercases_ascii_names_only() {
    let parsed = Args {
        mod_names: strings(&["P+", "Brawl", "PM3.6"]),
        fighter_names: strings(&["Mario", "ÉCLAIR"]),
        generate_gifs: true,
        generate_web: false,
        wasm_mode: true,
        serve: false,
    };
    let normalized = args(parsed);
    assert_eq!(normalized.mod_names, strings(&["p+", "brawl", "pm3.6"]));
    assert_eq!(normalized.fighter_names, strings(&["mario", "Éclair"]));
    assert!(normalized.generate_gifs);
    assert!(!normalized.generate_web);
    assert!(normalized.wasm_mode);
    assert!(!normalized.serve);
}

#[test]
fn args_normalizing_twice_changes_nothing() {
    let once = args(Args {
        mod_names: strings(&["LXP2.1"]),
        fighter_names: strings(&["DoctorMario"]),
        generate_gifs: false,
        generate_web: true,
        wasm_mode: false,
        serve: true,
    });
    let twice = args(Args {
        mod_names: once.mod_names.clone(),
        fighter_names: once.fighter_names.clone(),
        generate_gifs: once.generate_gifs,
        generate_web: once.generate_web,
        wasm_mode: once.wasm_mode,
        serve: once.serve,
    });
    assert_eq!(once.mod_names, twice.mod_names);
    assert_eq!(once.fighter_names, twice.fighter_names);
}

#[test]
fn default_config_uses_every_mod_from_the_root() {
    let config = Config::default_config();
    assert!(!config.legacy_renderer);
    assert!(config.mods.is_empty());
    assert_eq!(config.web_root, "/");
}

#[test]
fn decimal_and_hex_writers() {
    assert_eq!(u64_string(0), "0");
    assert_eq!(u64_string(1234567890), "1234567890");
    let mut s = String::from("x");
    write_decimal_i64(&mut s, -42);
    assert_eq!(s, "x-42");
    let mut s = String::new();
    write_decimal_i64(&mut s, i64::MIN);
    assert_eq!(s, i64::MIN.to_string());
    let mut s = String::new();
    write_hex(&mut s, 255);
    assert_eq!(s, "ff");
    let mut s = String::new();
    write_hex_i32(&mut s, -1);
    assert_eq!(s, format!("{:x}", -1i32));
    let mut s = String::new();
    write_hex_i32(&mut s, 0x1234);
    assert_eq!(s, "1234");
}

#[test]
fn string_helpers() {
    assert!(str_eq("abc", "abc"));
    assert!(!str_eq("abc", "abd"));
    assert_eq!(trim_str("  a b \t"), "a b");
    assert_eq!(split_white_space(" a  b\u{3000}c "), strings(&["a", "b", "c"]));
    assert_eq!(join_strings(&strings(&["a", "b", "c"]), ", "), "a, b, c");
    assert_eq!(join_strings(&Vec::new(), ", "), "");
}

