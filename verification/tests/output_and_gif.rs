use rukaidata::brawl_data::{BrawlFighter, BrawlMod, BrawlMods, Fighter, SubactionInfo};
use rukaidata::gif::{gif_jobs, GifQueue};
use rukaidata::output::OutDir;

#[test]
fn out_dir_paths_and_addresses() {
    let root = OutDir::new(".");
    assert_eq!(root.file_address("error.html"), "/error.html");
    assert_eq!(root.file_path("error.html"), "../root/./error.html");
    let dir = OutDir::new("P+/Mario/subactions");
    assert_eq!(dir.fs_path(), "../root/P+/Mario/subactions");
    assert_eq!(dir.file_path("Wait1.gif"), "../root/P+/Mario/subactions/Wait1.gif");
    assert_eq!(dir.file_address("Wait1.gif"), "/P+/Mario/subactions/Wait1.gif");
}

fn subaction(name: &str, frame_count: usize) -> SubactionInfo {
    SubactionInfo { name: name.to_string(), script_main: 0, script_gfx: 0, script_sfx: 0, script_other: 0, frame_count }
}

fn fighter(name: &str, subactions: Vec<SubactionInfo>) -> BrawlFighter {
    BrawlFighter::new(
        "m",
        Fighter {
            name: name.to_string(),
            actions: vec![],
            subactions,
            scripts_fragment_fighter: vec![],
            scripts_fragment_common: vec![],
            scripts_section: vec![],
        },
    )
}

#[test]
fn gifs_for_subactions_with_frames() {
    let mods = BrawlMods {
        mods: vec![
            BrawlMod {
                name: "Brawl".to_string(),
                fighters: vec![fighter("Mario", vec![subaction("Wait1", 60), subaction("Empty", 0), subaction("Jump", 5)])],
            },
            BrawlMod { name: "P+".to_string(), fighters: vec![fighter("Roy", vec![subaction("Attack11", 20)])] },
        ],
    };
    let jobs: Vec<(String, String, String)> =
        gif_jobs(&mods).iter().map(|g| (g.dir.path.clone(), g.file_name.clone(), g.wait())).collect();
    assert_eq!(
        jobs,
        vec![
            ("Brawl/Mario/subactions".to_string(), "Wait1.gif".to_string(), "../root/Brawl/Mario/subactions/Wait1.gif".to_string()),
            ("Brawl/Mario/subactions".to_string(), "Jump.gif".to_string(), "../root/Brawl/Mario/subactions/Jump.gif".to_string()),
            ("P+/Roy/subactions".to_string(), "Attack11.gif".to_string(), "../root/P+/Roy/subactions/Attack11.gif".to_string()),
        ]
    );
}

#[test]
fn queue_waits_for_the_oldest_render_when_full() {
    let mut queue = GifQueue::new(2);
    assert_eq!(queue.start(1), None);
    assert_eq!(queue.start(2), Some(1));
    assert_eq!(queue.start(3), Some(2));
    assert_eq!(queue.finish(), vec![3]);
}

#[test]
fn queue_of_one_waits_at_once() {
    let mut queue = GifQueue::new(1);
    assert_eq!(queue.start("a"), Some("a"));
    assert_eq!(queue.start("b"), Some("b"));
    assert_eq!(queue.finish(), Vec::<&str>::new());
}

#[test]
fn every_render_is_waited_for_once_in_order() {
    let mut queue = GifQueue::new(3);
    let mut waited = vec![];
    for i in 0..10 {
        if let Some(done) = queue.start(i) {
            waited.push(done);
        }
        assert!(queue.pending.len() < 3);
    }
    waited.extend(queue.finish());
    assert_eq!(waited, (0..10).collect::<Vec<_>>());
}

fn joined_by_paths(dir: &str, file_name: &str) -> (String, String) {
    let path = std::path::Path::new("../root").join(dir).join(file_name);
    let address = std::path::Path::new("/")
        .join(path.strip_prefix("../root").unwrap())
        .into_os_string()
        .into_string()
        .unwrap();
    (path.into_os_string().into_string().unwrap(), address)
}

#[test]
fn addresses_follow_how_paths_join() {
    let cases = [
        (".", "error.html"),
        ("P+/Mario/subactions", "Wait1.gif"),
        ("x", "a//b/"),
        ("x/", "n"),
        ("", "n"),
        ("x", "."),
        ("./x/.", "./n/."),
        ("x", "../y"),
        ("a//b", "c"),
        ("x", ""),
        (".", "."),
        ("", ""),
    ];
    for (dir, file_name) in cases {
        let out = OutDir::new(dir);
        let (path, address) = joined_by_paths(dir, file_name);
        assert_eq!(out.file_path(file_name), path, "{dir} {file_name}");
        assert_eq!(out.file_address(file_name), address, "{dir} {file_name}");
    }
    assert_eq!(OutDir::new("x").file_address("a//b/"), "/x/a//b");
    assert_eq!(OutDir::new("x").file_path("/abs"), "/abs");
}
