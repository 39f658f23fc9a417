use communicator::platforms::mattermost::channels::{get_dm_partner_id, parse_dm_channel_id};

#[test]
fn test_parse_dm_channel_id() {
    let dm_id = "t1pn9rb63fnpjrqibgriijcx4r__xei6dqz8xfgm7kqzddjziyofyo";
    let result = parse_dm_channel_id(dm_id);
    assert!(result.is_some());
    let (user1, user2) = result.unwrap();
    assert_eq!(user1, "t1pn9rb63fnpjrqibgriijcx4r");
    assert_eq!(user2, "xei6dqz8xfgm7kqzddjziyofyo");

    let regular_id = "channel123abc";
    assert!(parse_dm_channel_id(regular_id).is_none());

    let invalid_id = "user1__user2__user3";
    assert!(parse_dm_channel_id(invalid_id).is_none());
}

#[test]
fn test_get_dm_partner_id() {
    let dm_id = "abc123__xyz789";

    let partner = get_dm_partner_id(dm_id, "abc123");
    assert_eq!(partner, Some("xyz789".to_string()));

    let partner = get_dm_partner_id(dm_id, "xyz789");
    assert_eq!(partner, Some("abc123".to_string()));

    let partner = get_dm_partner_id(dm_id, "other_user");
    assert!(partner.is_none());

    let partner = get_dm_partner_id("regular_channel", "abc123");
    assert!(partner.is_none());
}

#[test]
fn test_self_dm_detection() {
    let self_dm = "t1pn9rb63fnpjrqibgriijcx4r__t1pn9rb63fnpjrqibgriijcx4r";
    let user_id = "t1pn9rb63fnpjrqibgriijcx4r";
    let partner = get_dm_partner_id(self_dm, user_id);
    assert_eq!(partner, Some(user_id.to_string()));
}

#[test]
fn test_real_dm_channel_names() {
    let self_dm_name = "t1pn9rb63fnpjrqibgriijcx4r__t1pn9rb63fnpjrqibgriijcx4r";
    let user_id = "t1pn9rb63fnpjrqibgriijcx4r";
    assert_eq!(get_dm_partner_id(self_dm_name, user_id), Some(user_id.to_string()));

    let dm_name = "t1pn9rb63fnpjrqibgriijcx4r__xei6dqz8xfgm7kqzddjziyofyo";
    assert_eq!(
        get_dm_partner_id(dm_name, "t1pn9rb63fnpjrqibgriijcx4r"),
        Some("xei6dqz8xfgm7kqzddjziyofyo".to_string())
    );
    assert_eq!(
        get_dm_partner_id(dm_name, "xei6dqz8xfgm7kqzddjziyofyo"),
        Some("t1pn9rb63fnpjrqibgriijcx4r".to_string())
    );
}

#[test]
fn dm_split_edge_cases() {
    // A run of three underscores splits at the first two.
    assert_eq!(parse_dm_channel_id("a___b"), Some(("a".to_string(), "_b".to_string())));
    // Four underscores make three pieces.
    assert!(parse_dm_channel_id("a____b").is_none());
    // Empty pieces are kept.
    assert_eq!(parse_dm_channel_id("__"), Some((String::new(), String::new())));
    assert_eq!(parse_dm_channel_id("x__"), Some(("x".to_string(), String::new())));
    // A single underscore is no separator.
    assert!(parse_dm_channel_id("a_b").is_none());
}
