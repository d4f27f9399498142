use isracard_payment::config::{config_from_values, parse_allowed_users, ConfigError};

#[test]
fn whitelist_from_text() {
    assert_eq!(parse_allowed_users("1, 2,abc,,3"), vec![1, 2, 3]);
    assert_eq!(parse_allowed_users(""), Vec::<u64>::new());
    assert_eq!(parse_allowed_users(" 42 "), vec![42]);
    assert_eq!(parse_allowed_users("-1,5,"), vec![5]);
    assert_eq!(parse_allowed_users(",,"), Vec::<u64>::new());
}

#[test]
fn whitelist_follows_split_and_parse() {
    for s in ["1,2", " 7 ,\t8\n", "x,9,+10", "18446744073709551616,1"] {
        let expected: Vec<u64> = s.split(',').filter_map(|p| p.trim().parse().ok()).collect();
        assert_eq!(parse_allowed_users(s), expected, "{:?}", s);
    }
}

#[test]
fn channel_chat_id_is_needed() {
    assert_eq!(config_from_values(Some("1"), None), Err(ConfigError::ChannelChatIdMissing));
    assert_eq!(config_from_values(None, Some("channel")), Err(ConfigError::ChannelChatIdInvalid));
    assert_eq!(config_from_values(None, Some("")), Err(ConfigError::ChannelChatIdInvalid));
}

#[test]
fn config_from_text() {
    let c = config_from_values(Some("1,2"), Some("  -1001234567890 ")).unwrap();
    assert_eq!(c.allowed_users, vec![1, 2]);
    assert_eq!(c.channel_chat_id, -1001234567890);
    let open = config_from_values(None, Some("5")).unwrap();
    assert!(open.allowed_users.is_empty());
}
