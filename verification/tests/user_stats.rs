use oadiscord::user_stats::{
    avatar_cache_filename, avatar_url, compose_args, fresh_temp_avatar_filename,
    fullbleed_avatar_args, image_path_for, stats_image_filename, temp_avatar_filename, trim_label,
    usable_avatar_hash, user_stats_image, user_stats_title, wrap_title, UserStatsAction,
};
use std::collections::hash_map::DefaultHasher;
use std::hash::{Hash, Hasher};

#[test]
fn image_filename_changes_with_avatar_hash() {
    let first = stats_image_filename("1", "avatar-a");
    let second = stats_image_filename("1", "avatar-b");
    assert_ne!(first, second);
}

#[test]
fn wrap_title_breaks_on_spaces() {
    assert_eq!(wrap_title("ciskao legal", 8), "ciskao\nlegal");
}

#[test]
fn stats_image_filename_has_sixteen_hex_digits() {
    let name = stats_image_filename("1234", "abcd");
    assert!(name.starts_with("user_stats_"));
    assert!(name.ends_with(".png"));
    let hex = &name["user_stats_".len()..name.len() - 4];
    assert_eq!(hex.len(), 16);
    assert!(hex.chars().all(|c| c.is_ascii_digit() || ('a'..='f').contains(&c)));
}

#[test]
fn stats_image_filename_matches_default_hasher() {
    let mut hasher = DefaultHasher::new();
    "user_stats_avatar_only_v1".hash(&mut hasher);
    "42".hash(&mut hasher);
    "hash".hash(&mut hasher);
    let expected = format!("user_stats_{:016x}.png", hasher.finish());
    assert_eq!(stats_image_filename("42", "hash"), expected);
}

#[test]
fn avatar_cache_filename_matches_default_hasher() {
    let mut hasher = DefaultHasher::new();
    "user_stats_avatar_cache_v4".hash(&mut hasher);
    "42".hash(&mut hasher);
    "hash".hash(&mut hasher);
    let expected = format!("user_stats_avatar_{:016x}.png", hasher.finish());
    assert_eq!(avatar_cache_filename("42", "hash"), expected);
    assert_ne!(avatar_cache_filename("42", "hash"), stats_image_filename("42", "hash"));
}

#[test]
fn trim_label_keeps_short_labels() {
    assert_eq!(trim_label("  hello  ", 18), "hello");
    assert_eq!(trim_label("", 5), "");
    assert_eq!(trim_label("exact", 5), "exact");
}

#[test]
fn trim_label_cuts_long_labels() {
    assert_eq!(trim_label("abcdefghij", 4), "abcd...");
    assert_eq!(trim_label("ab  cdefgh", 4), "ab...");
    assert_eq!(trim_label("abc", 0), "...");
}

#[test]
fn trim_label_counts_characters_not_bytes() {
    assert_eq!(trim_label("ééééé", 3), "ééé...");
    assert_eq!(trim_label("ééé", 3), "ééé");
}

#[test]
fn trim_label_length_is_bounded() {
    for input in ["a very long user name indeed", "short", "   ", "x y z w v"] {
        for max in 0..10 {
            assert!(trim_label(input, max).chars().count() <= max + 3);
        }
    }
}

#[test]
fn wrap_title_edge_cases() {
    assert_eq!(wrap_title("   ", 8), "");
    assert_eq!(wrap_title(" short ", 8), "short");
    assert_eq!(wrap_title("abcdefghijkl", 8), "abcdefgh\nijkl");
    assert_eq!(wrap_title("abcdefghijklmnopqrstuvwxyz", 8), "abcdefgh\nijklmnop...");
    assert_eq!(wrap_title("one two three four", 8), "one two\nthree fo...");
    assert_eq!(wrap_title("averyverylongword next", 8), "averyverylongword\nnext");
    assert_eq!(wrap_title("a    b   ccccccc", 5), "a b\nccccc...");
    assert_eq!(wrap_title("a         b", 5), "a    \nb");
}

#[test]
fn user_stats_title_defaults_to_user() {
    assert_eq!(user_stats_title(None), "User");
    assert_eq!(user_stats_title(Some("ciskao legal")), "ciskao\nlegal");
    assert_eq!(user_stats_title(Some("  bob  ")), "bob");
    assert_eq!(
        user_stats_title(Some("averyveryverylongusernamehere")),
        "averyver\nyverylon..."
    );
}

#[test]
fn image_path_drops_png_extension() {
    assert_eq!(image_path_for("user_stats_0123.png"), "actions/generated/user_stats_0123");
    assert_eq!(image_path_for("x.png.png"), "actions/generated/x");
    assert_eq!(image_path_for("plain"), "actions/generated/plain");
}

#[test]
fn avatar_url_and_temp_name() {
    assert_eq!(
        avatar_url("42", "abc"),
        "https://cdn.discordapp.com/avatars/42/abc.png?size=256"
    );
    assert_eq!(temp_avatar_filename("id"), "user_stats_avatar_fullbleed_id.png");
}

#[test]
fn usable_avatar_hash_needs_text() {
    assert_eq!(usable_avatar_hash(None), None);
    assert_eq!(usable_avatar_hash(Some("   ")), None);
    assert_eq!(usable_avatar_hash(Some(" abc ")), Some("abc".to_string()));
}

#[test]
fn user_stats_image_falls_back() {
    assert_eq!(user_stats_image(None), "actions/serverStats");
    assert_eq!(user_stats_image(Some("actions/generated/x".to_string())), "actions/generated/x");
}

#[test]
fn convert_arguments() {
    assert_eq!(
        fullbleed_avatar_args("/a/avatar.png", "/g/tmp.png"),
        vec![
            "/a/avatar.png", "-resize", "144x144^", "-gravity", "center", "-crop", "144x144+0+0",
            "+repage", "png32:/g/tmp.png",
        ]
    );
    assert_eq!(
        compose_args("/a/blank.svg", "/g/tmp.png", "/g/out.png"),
        vec![
            "/a/blank.svg", "/g/tmp.png", "-gravity", "center", "-geometry", "+0+0", "-composite",
            "/g/out.png",
        ]
    );
}

#[test]
fn fresh_temp_names_differ() {
    let a = fresh_temp_avatar_filename();
    let b = fresh_temp_avatar_filename();
    assert_ne!(a, b);
    assert!(a.starts_with("user_stats_avatar_fullbleed_"));
    assert!(a.ends_with(".png"));
    let id = &a["user_stats_avatar_fullbleed_".len()..a.len() - 4];
    assert_eq!(id.len(), 36);
    assert_eq!(&id[14..15], "4");
}

#[test]
fn stats_button_appearance() {
    let (image, title) = UserStatsAction::appearance(Some("ciskao legal"), None);
    assert_eq!(image, "actions/serverStats");
    assert_eq!(title, "ciskao\nlegal");
    let (image, title) = UserStatsAction::appearance(None, Some("actions/generated/x".to_string()));
    assert_eq!(image, "actions/generated/x");
    assert_eq!(title, "User");
}
