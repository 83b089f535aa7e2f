use bitcraft::chat::{chat_post_message, reduce, ChatChannel, CollectibleFacts, PostedMessage, PosterFacts, RegionChatLimits};

fn poster(name: &str, time_signed_in: i32, sign_in_timestamp: i32) -> Option<PosterFacts> {
    Some(PosterFacts { username: name.to_string(), time_signed_in, sign_in_timestamp })
}

const LIMITS: RegionChatLimits =
    RegionChatLimits { max_messages_per_time_period: 2, rate_limit_window_sec: 60, new_account_min_playtime_sec: 7200 };

#[allow(clippy::too_many_arguments)]
fn post(
    text: &str,
    channel: ChatChannel,
    target: u64,
    p: Option<PosterFacts>,
    vault: Option<Vec<CollectibleFacts>>,
    messages: &Vec<PostedMessage>,
) -> Result<bitcraft::chat::ChatMessage, String> {
    reduce(7, text, text.to_string(), true, p, Ok(()), channel, target, "en", vault, LIMITS, messages, 10_000)
}

#[test]
fn local_message_is_stored() {
    let m = post("hello", ChatChannel::Local, 3, poster("Ana", 0, 0), Some(vec![]), &vec![]).unwrap();
    assert_eq!(m.text, "hello");
    assert_eq!(m.username, "en/Ana");
    assert_eq!((m.title_id, m.timestamp, m.owner_entity_id, m.target_id, m.channel), (0, 10_000, 7, 3, ChatChannel::Local));
}

#[test]
fn title_is_first_activated_title() {
    let vault = vec![
        CollectibleFacts { id: 1, activated: true, is_title: Some(false) },
        CollectibleFacts { id: 2, activated: false, is_title: Some(true) },
        CollectibleFacts { id: 3, activated: true, is_title: None },
        CollectibleFacts { id: 4, activated: true, is_title: Some(true) },
        CollectibleFacts { id: 5, activated: true, is_title: Some(true) },
    ];
    let m = post("hi", ChatChannel::Region, 0, poster("player1", 0, 9_999), Some(vault), &vec![]).unwrap();
    assert_eq!(m.title_id, 4);
}

#[test]
fn chat_errors() {
    let none: Vec<PostedMessage> = vec![];
    assert_eq!(post("", ChatChannel::Local, 0, poster("Ana", 0, 0), Some(vec![]), &none).unwrap_err(), "Can't send empty chat message");
    assert_eq!(
        reduce(7, "x", "x".to_string(), false, poster("Ana", 0, 0), Ok(()), ChatChannel::Local, 0, "en", Some(vec![]), LIMITS, &none, 0).unwrap_err(),
        "Failed to send chat messages"
    );
    assert_eq!(post("x", ChatChannel::Local, 0, None, Some(vec![]), &none).unwrap_err(), "Invalid player");
    assert_eq!(
        reduce(7, "x", "x".to_string(), true, poster("Ana", 0, 0), Err("Your chat privileges have been suspended".to_string()), ChatChannel::Local, 0, "en", Some(vec![]), LIMITS, &none, 0).unwrap_err(),
        "Your chat privileges have been suspended"
    );
    assert_eq!(post("x", ChatChannel::Region, 5, poster("Ana", 0, 0), Some(vec![]), &none).unwrap_err(), "This regional channel shouldn't have a target");
    assert_eq!(post("x", ChatChannel::Other(9), 5, poster("Ana", 0, 0), Some(vec![]), &none).unwrap_err(), "This regional channel shouldn't have a target");
    assert_eq!(post("x", ChatChannel::Local, 0, poster("Ana", 0, 0), None, &none).unwrap_err(), "Player is missing some components");
}

#[test]
fn region_chat_rules_for_new_accounts_and_names() {
    let none: Vec<PostedMessage> = vec![];
    assert_eq!(
        post("x", ChatChannel::Region, 0, poster("Ana", 100, 9_000), Some(vec![]), &none).unwrap_err(),
        "Region chat is unlocked after {0} hours for new accounts.|~2"
    );
    // A session that began before the cutoff passes.
    assert!(post("x", ChatChannel::Region, 0, poster("Ana", 100, 2_000), Some(vec![]), &none).is_ok());
    assert_eq!(
        post("x", ChatChannel::Region, 0, poster("player123", 9_000, 0), Some(vec![]), &none).unwrap_err(),
        "You need to set your username to post in Region chat."
    );
}

#[test]
fn region_chat_rate_limit() {
    let msgs = vec![
        PostedMessage { owner_entity_id: 7, timestamp: 9_950 },
        PostedMessage { owner_entity_id: 8, timestamp: 9_990 },
        PostedMessage { owner_entity_id: 7, timestamp: 9_000 },
    ];
    assert!(post("x", ChatChannel::Region, 0, poster("Ana", 9_000, 0), Some(vec![]), &msgs).is_ok());
    let mut more = msgs.clone();
    more.push(PostedMessage { owner_entity_id: 7, timestamp: 9_940 });
    assert_eq!(
        post("x", ChatChannel::Region, 0, poster("Ana", 9_000, 0), Some(vec![]), &more).unwrap_err(),
        "You can only send {0} messages per {1} seconds in Region chat|~2|~60"
    );
    // The limit does not apply outside the region channel.
    assert!(post("x", ChatChannel::Local, 0, poster("Ana", 9_000, 0), Some(vec![]), &more).is_ok());
}

#[test]
fn posting_needs_a_resolved_actor() {
    let none: Vec<PostedMessage> = vec![];
    let r = chat_post_message(Err("Not signed in".to_string()), "hi", "hi".to_string(), true, poster("Ana", 0, 0), Ok(()), ChatChannel::Local, 0, "en", Some(vec![]), LIMITS, &none, 0);
    assert_eq!(r.unwrap_err(), "Not signed in");
    let m = chat_post_message(Ok(11), "hi", "hi".to_string(), true, poster("Ana", 0, 0), Ok(()), ChatChannel::Local, 0, "fr", Some(vec![]), LIMITS, &none, 5).unwrap();
    assert_eq!((m.owner_entity_id, m.timestamp), (11, 5));
    assert_eq!(m.username, "fr/Ana");
}

#[test]
fn extreme_limits_matter_only_on_the_region_channel() {
    let none: Vec<PostedMessage> = vec![];
    let wide = RegionChatLimits { max_messages_per_time_period: 5, rate_limit_window_sec: i32::MAX, new_account_min_playtime_sec: i32::MAX };
    let m = reduce(7, "hi", "hi".to_string(), true, poster("Ana", 0, 0), Ok(()), ChatChannel::Local, 0, "en", Some(vec![]), wide, &none, i32::MIN).unwrap();
    assert_eq!(m.timestamp, i32::MIN);
    // A veteran on the region channel only reaches the rate-limit window.
    let window_only = RegionChatLimits { max_messages_per_time_period: 5, rate_limit_window_sec: 60, new_account_min_playtime_sec: i32::MAX };
    let r = reduce(7, "hi", "hi".to_string(), true, poster("Ana", i32::MAX, 0), Ok(()), ChatChannel::Region, 0, "en", Some(vec![]), window_only, &none, -10);
    assert!(r.is_ok());
}
