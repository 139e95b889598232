use browser_for_remote::launch::{
    pick_window_size, profile_path, resolve_profile_path, window_size_or_default,
};

#[test]
fn the_window_size_is_one_of_the_configured_ones() {
    let resolutions = vec![(1600, 1111), (1680, 1137), (1920, 1287)];
    let mut seen = Vec::new();
    for _ in 0..200 {
        let size = pick_window_size(&resolutions);
        assert!(resolutions.contains(&size));
        if !seen.contains(&size) {
            seen.push(size);
        }
    }
    assert!(seen.len() > 1, "two hundred draws from three sizes gave one size only");
}

#[test]
fn a_single_resolution_is_always_picked() {
    assert_eq!(pick_window_size(&vec![(800, 600)]), (800, 600));
}

#[test]
fn no_resolution_gives_the_default_window() {
    assert_eq!(pick_window_size(&Vec::new()), (1920, 1080));
    assert_eq!(window_size_or_default(None), (1920, 1080));
    assert_eq!(window_size_or_default(Some((1, 2))), (1, 2));
}

#[test]
fn the_profile_lies_below_the_home_directory() {
    assert_eq!(profile_path(Some("/home/u"), "ignored"), "/home/u/.browser-for-remote/");
    assert_eq!(profile_path(Some(""), ""), "/.browser-for-remote/");
}

#[test]
fn without_a_home_directory_the_profile_is_temporary() {
    assert_eq!(profile_path(None, "Ab3dE6gH9j"), "/tmp/browser-for-remote/Ab3dE6gH9j");
}

#[test]
fn a_configured_profile_path_wins() {
    assert_eq!(resolve_profile_path(Some("/data/profile"), Some("/home/u")), "/data/profile");
    assert_eq!(resolve_profile_path(Some("/data/profile"), None), "/data/profile");
    assert_eq!(resolve_profile_path(None, Some("/home/u")), "/home/u/.browser-for-remote/");
}

#[test]
fn a_temporary_profile_gets_ten_random_letters_and_digits() {
    let first = resolve_profile_path(None, None);
    let name = first.strip_prefix("/tmp/browser-for-remote/").expect("a temporary path");
    assert_eq!(name.chars().count(), 10);
    assert!(name.chars().all(|c| c.is_ascii_alphanumeric()));
    let mut differs = false;
    for _ in 0..20 {
        if resolve_profile_path(None, None) != first {
            differs = true;
        }
    }
    assert!(differs, "twenty random names were all the same");
}
