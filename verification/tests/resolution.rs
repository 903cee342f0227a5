use discord_updater::gate::{has_char_prefix, must_abort, requires_root};
use discord_updater::resolve::{resolve_installation, ProbeResult};

fn probe(path: &str, present_dir: bool) -> ProbeResult {
    ProbeResult { path: String::from(path), present_dir }
}

#[test]
fn root_prefixes_require_elevation() {
    assert!(requires_root("/opt/discord"));
    assert!(requires_root("/usr/share/discord"));
    assert!(requires_root("/usr/local/share/discord"));
    assert!(requires_root("/opt"));
    assert!(requires_root("/usr"));
}

#[test]
fn user_paths_need_no_elevation() {
    assert!(!requires_root("/snap/discord"));
    assert!(!requires_root("/home/someone/.discord"));
    assert!(!requires_root("/home/someone/.local/share/discord"));
    assert!(!requires_root(""));
}

#[test]
fn prefix_match_is_component_wise() {
    // a sibling that merely shares leading characters is not under the root
    assert!(!requires_root("/optional/discord"));
    assert!(!requires_root("/usrlocal"));
}

#[test]
fn char_prefix_basics() {
    assert!(has_char_prefix("Discord-0.0.1", "Discord"));
    assert!(has_char_prefix("Discord", "Discord"));
    assert!(!has_char_prefix("discord", "Discord"));
    assert!(!has_char_prefix("Disc", "Discord"));
    assert!(has_char_prefix("anything", ""));
}

#[test]
fn abort_only_without_elevation() {
    assert!(must_abort("/opt/discord", false));
    assert!(!must_abort("/opt/discord", true));
    assert!(!must_abort("/home/someone/.discord", false));
}

#[test]
fn first_matching_candidate_wins() {
    let probes = vec![
        probe("/opt/discord", false),
        probe("/usr/share/discord", true),
        probe("/snap/discord", true),
    ];
    let found = resolve_installation(&probes, &None);
    assert_eq!(found, Some(String::from("/usr/share/discord")));
}

#[test]
fn lookup_is_consulted_only_as_fallback() {
    let probes = vec![probe("/opt/discord", true)];
    let lookup = Some(probe("/home/someone/bin", true));
    let found = resolve_installation(&probes, &lookup);
    assert_eq!(found, Some(String::from("/opt/discord")));

    let probes_missed = vec![probe("/opt/discord", false)];
    let found_fallback = resolve_installation(&probes_missed, &lookup);
    assert_eq!(found_fallback, Some(String::from("/home/someone/bin")));
}

#[test]
fn nothing_found_resolves_to_none() {
    let probes = vec![probe("/opt/discord", false), probe("/snap/discord", false)];
    assert_eq!(resolve_installation(&probes, &None), None);
    let lookup_not_dir = Some(probe("/home/someone/bin", false));
    assert_eq!(resolve_installation(&probes, &lookup_not_dir), None);
    assert_eq!(resolve_installation(&Vec::new(), &None), None);
}
