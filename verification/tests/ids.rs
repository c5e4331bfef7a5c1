use discorsd_games::ids::{
    snowflake_at_millis, snowflake_timestamp_millis, ChannelId, GuildId, UserId, DISCORD_EPOCH,
};
use discorsd_games::markup::{ping_nick_user, ping_user};

#[test]
fn snowflake_timestamps() {
    // a snowflake from Discord's documentation
    assert_eq!(snowflake_timestamp_millis(175928847299117063), 1462015105796);
    assert_eq!(snowflake_timestamp_millis(0), DISCORD_EPOCH);
}

#[test]
fn snowflake_round_trip() {
    for millis in [DISCORD_EPOCH, DISCORD_EPOCH + 1, 1462015105796, 1700000000000] {
        assert_eq!(snowflake_timestamp_millis(snowflake_at_millis(millis)), millis);
        let id = GuildId::from_timestamp_millis(millis);
        assert_eq!(id.timestamp_millis(), millis);
    }
}

#[test]
fn ids_render_in_decimal() {
    assert_eq!(ChannelId(1234).to_string(), "1234");
    assert_eq!(ping_user(UserId(77)), "<@77>");
    assert_eq!(ping_nick_user(UserId(77)), "<@!77>");
}
