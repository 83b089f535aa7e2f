//! Posting a chat message: who may post, where, how often, and the message
//! that is stored.
use vstd::prelude::*;
use vstd::string::*;
use crate::numbers::{div_toward_zero, in_i32, quotient_toward_zero};
use crate::text::{decimal, err_view, has_prefix, message, push_decimal, starts_with};

verus! {

/// A chat channel. Channels other than the local and the region channel
/// are told apart by their number.
#[derive(Clone, Copy, Debug, PartialEq, Eq, Structural)]
pub enum ChatChannel {
    Local,
    Region,
    Other(i32),
}

/// A collectible in the poster's vault, with whether its description exists
/// and names it a title (`None` when no description exists).
#[derive(Clone, Copy, Debug)]
pub struct CollectibleFacts {
    pub id: i32,
    pub activated: bool,
    pub is_title: Option<bool>,
}

/// The poster, as the player tables describe them.
#[derive(Clone, Debug)]
pub struct PosterFacts {
    pub username: String,
    /// Seconds the account spent signed in.
    pub time_signed_in: i32,
    /// When the current session began.
    pub sign_in_timestamp: i32,
}

/// The limits of the region channel, from the region's moderation config or
/// its defaults.
#[derive(Clone, Copy, Debug)]
pub struct RegionChatLimits {
    pub max_messages_per_time_period: i32,
    pub rate_limit_window_sec: i32,
    pub new_account_min_playtime_sec: i32,
}

/// A message already posted on the region channel.
#[derive(Clone, Copy, Debug)]
pub struct PostedMessage {
    pub owner_entity_id: u64,
    pub timestamp: i32,
}

/// The message to store.
#[derive(Clone, Debug)]
pub struct ChatMessage {
    pub title_id: i32,
    pub text: String,
    pub timestamp: i32,
    pub owner_entity_id: u64,
    pub target_id: u64,
    pub channel: ChatChannel,
    /// `language/username`, shown as it is.
    pub username: String,
}

/// The title the poster shows: the first activated collectible that is a
/// title.
pub open spec fn title_of(c: Seq<CollectibleFacts>) -> Option<i32>
    decreases c.len(),
{
    if c.len() == 0 {
        None
    } else if c[0].activated && c[0].is_title == Some(true) {
        Some(c[0].id)
    } else {
        title_of(c.drop_first())
    }
}

/// Messages of `owner` posted at `since` or later.
pub open spec fn recent_count(m: Seq<PostedMessage>, owner: u64, since: int) -> nat
    decreases m.len(),
{
    if m.len() == 0 {
        0
    } else {
        recent_count(m.drop_last(), owner, since) + if m.last().owner_entity_id == owner && m.last().timestamp
            >= since {
            1nat
        } else {
            0nat
        }
    }
}

/// Posting would compute a time outside `i32`: the post reaches the region
/// channel's checks (every earlier check passes, the channel is the region
/// one and the poster shows no title), and either the poster is still new
/// (signed in less than the minimal playtime) and `now` less that playtime
/// leaves `i32`, or the post passes the checks on new accounts and on
/// usernames and `now` less the rate-limit window leaves `i32`.
pub open spec fn region_checks_fault(
    text: Seq<char>,
    sanitized_valid: bool,
    poster: Option<PosterFacts>,
    privileges: Result<(), Seq<char>>,
    channel: ChatChannel,
    target_id: u64,
    vault: Option<Seq<CollectibleFacts>>,
    limits: RegionChatLimits,
    now: i32,
) -> bool {
    &&& text.len() > 0
    &&& sanitized_valid
    &&& poster is Some
    &&& privileges is Ok
    &&& !(target_id > 0 && channel != ChatChannel::Local)
    &&& vault is Some
    &&& channel == ChatChannel::Region
    &&& title_of(vault->0) is None
    &&& {
        let p = poster->0;
        let min = limits.new_account_min_playtime_sec;
        let window = limits.rate_limit_window_sec;
        ||| p.time_signed_in < min && !in_i32(now - min)
        ||| !(p.time_signed_in < min && p.sign_in_timestamp > now - min) && !has_prefix(p.username@, "player"@)
            && !in_i32(now - window)
    }
}

/// What posting answers.
pub open spec fn post_outcome(
    text: Seq<char>,
    sanitized_valid: bool,
    poster: Option<PosterFacts>,
    privileges: Result<(), Seq<char>>,
    channel: ChatChannel,
    target_id: u64,
    vault: Option<Seq<CollectibleFacts>>,
    limits: RegionChatLimits,
    region_messages: Seq<PostedMessage>,
    actor_id: u64,
    now: i32,
) -> Result<(), Seq<char>> {
    if text.len() == 0 {
        Err("Can't send empty chat message"@)
    } else if !sanitized_valid {
        Err("Failed to send chat messages"@)
    } else if poster is None {
        Err("Invalid player"@)
    } else if privileges is Err {
        privileges
    } else if target_id > 0 && channel != ChatChannel::Local {
        Err("This regional channel shouldn't have a target"@)
    } else if vault is None {
        Err("Player is missing some components"@)
    } else if channel == ChatChannel::Region && title_of(vault->0) is None {
        let p = poster->0;
        let min = limits.new_account_min_playtime_sec;
        let window = limits.rate_limit_window_sec;
        let max = limits.max_messages_per_time_period;
        if p.time_signed_in < min && p.sign_in_timestamp > now - min {
            Err("Region chat is unlocked after {0} hours for new accounts.|~"@ + decimal(div_toward_zero(min as int, 3600)))
        } else if has_prefix(p.username@, "player"@) {
            Err("You need to set your username to post in Region chat."@)
        } else if recent_count(region_messages, actor_id, now - window) >= (max as usize) {
            Err(
                "You can only send {0} messages per {1} seconds in Region chat|~"@ + decimal(max as int) + "|~"@
                    + decimal(window as int),
            )
        } else {
            Ok(())
        }
    } else {
        Ok(())
    }
}

fn find_title(c: &Vec<CollectibleFacts>) -> (r: Option<i32>)
    ensures
        r == title_of(c@),
{
    let n = c.len();
    let mut i: usize = 0;
    assert(c@.skip(0) =~= c@);
    while i < n
        invariant
            n == c@.len(),
            i <= n,
            title_of(c@) == title_of(c@.skip(i as int)),
        decreases n - i,
    {
        assert(c@.skip(i as int)[0] == c@[i as int]);
        if c[i].activated && c[i].is_title == Some(true) {
            return Some(c[i].id);
        }
        assert(c@.skip(i as int).drop_first() =~= c@.skip(i + 1));
        i = i + 1;
    }
    assert(c@.skip(n as int).len() == 0);
    None
}

fn count_recent(m: &Vec<PostedMessage>, owner: u64, since: i32) -> (r: usize)
    ensures
        r == recent_count(m@, owner, since as int),
{
    let n = m.len();
    let mut count: usize = 0;
    let mut i: usize = 0;
    while i < n
        invariant
            n == m@.len(),
            i <= n,
            count <= i,
            count == recent_count(m@.take(i as int), owner, since as int),
        decreases n - i,
    {
        assert(m@.take(i + 1).drop_last() =~= m@.take(i as int));
        if m[i].owner_entity_id == owner && m[i].timestamp >= since {
            count = count + 1;
        }
        i = i + 1;
    }
    assert(m@.take(n as int) =~= m@);
    count
}

/// `r` is the answer to a chat post: the outcome `post_outcome` gives and,
/// on success, the message to store.
pub open spec fn post_answer(
    r: Result<ChatMessage, String>,
    actor_id: u64,
    text: Seq<char>,
    sanitized: Seq<char>,
    sanitized_valid: bool,
    poster: Option<PosterFacts>,
    privileges: Result<(), Seq<char>>,
    channel: ChatChannel,
    target_id: u64,
    language_code: Seq<char>,
    vault: Option<Seq<CollectibleFacts>>,
    limits: RegionChatLimits,
    region_messages: Seq<PostedMessage>,
    now: i32,
) -> bool {
    let outcome = post_outcome(
        text,
        sanitized_valid,
        poster,
        privileges,
        channel,
        target_id,
        vault,
        limits,
        region_messages,
        actor_id,
        now,
    );
    match r {
        Ok(m) => {
            &&& outcome is Ok
            &&& m.title_id == (match title_of(vault->0) { Some(t) => t, None => 0 })
            &&& m.text@ == sanitized
            &&& m.timestamp == now
            &&& m.owner_entity_id == actor_id
            &&& m.target_id == target_id
            &&& m.channel == channel
            &&& m.username@ == language_code + "/"@ + poster->0.username@
        },
        Err(e) => outcome == Err::<(), Seq<char>>(e@),
    }
}

/// A stored message holds the sanitized text, never the raw one, and is
/// the poster's, stamped with the posting time, on the channel and for the
/// target asked for.
pub proof fn lemma_stored_message_is_sanitized(
    m: ChatMessage,
    actor_id: u64,
    text: Seq<char>,
    sanitized: Seq<char>,
    sanitized_valid: bool,
    poster: Option<PosterFacts>,
    privileges: Result<(), Seq<char>>,
    channel: ChatChannel,
    target_id: u64,
    language_code: Seq<char>,
    vault: Option<Seq<CollectibleFacts>>,
    limits: RegionChatLimits,
    region_messages: Seq<PostedMessage>,
    now: i32,
)
    requires
        post_answer(
            Ok(m),
            actor_id,
            text,
            sanitized,
            sanitized_valid,
            poster,
            privileges,
            channel,
            target_id,
            language_code,
            vault,
            limits,
            region_messages,
            now,
        ),
    ensures
        m.text@ == sanitized,
        m.owner_entity_id == actor_id,
        m.timestamp == now,
        m.channel == channel,
        m.target_id == target_id,
        text.len() > 0,
        sanitized_valid,
{
}

pub open spec fn vault_view(vault: Option<Vec<CollectibleFacts>>) -> Option<Seq<CollectibleFacts>> {
    match vault {
        Some(v) => Some(v@),
        None => None,
    }
}

/// Decides a chat post. `sanitized` is the text once sanitized and
/// `sanitized_valid` whether it passes the text rules; `poster` the posting
/// player (none when unknown), `privileges` whether they may chat, `vault`
/// their collectibles (none without a vault), `region_messages` the messages
/// of the region channel. On success, the message to store.
pub fn reduce(
    actor_id: u64,
    text: &str,
    sanitized: String,
    sanitized_valid: bool,
    poster: Option<PosterFacts>,
    privileges: Result<(), String>,
    channel: ChatChannel,
    target_id: u64,
    language_code: &str,
    vault: Option<Vec<CollectibleFacts>>,
    limits: RegionChatLimits,
    region_messages: &Vec<PostedMessage>,
    now: i32,
) -> (r: Result<ChatMessage, String>)
    requires
        !region_checks_fault(
            text@,
            sanitized_valid,
            poster,
            err_view(privileges),
            channel,
            target_id,
            vault_view(vault),
            limits,
            now,
        ),
    ensures
        post_answer(
            r,
            actor_id,
            text@,
            sanitized@,
            sanitized_valid,
            poster,
            err_view(privileges),
            channel,
            target_id,
            language_code@,
            vault_view(vault),
            limits,
            region_messages@,
            now,
        ),
        r matches Ok(m) ==> m.text@ == sanitized@ && m.owner_entity_id == actor_id && m.timestamp == now
            && m.target_id == target_id && m.channel == channel,
{
    if text.unicode_len() == 0 {
        return Err(message("Can't send empty chat message"));
    }
    if !sanitized_valid {
        return Err(message("Failed to send chat messages"));
    }
    let p = match poster {
        Some(p) => p,
        None => return Err(message("Invalid player")),
    };
    if let Err(e) = privileges {
        return Err(e);
    }
    if target_id > 0 && channel != ChatChannel::Local {
        return Err(message("This regional channel shouldn't have a target"));
    }
    let collectibles = match vault {
        Some(v) => v,
        None => return Err(message("Player is missing some components")),
    };
    let title_id = find_title(&collectibles);
    if channel == ChatChannel::Region && title_id.is_none() {
        let min = limits.new_account_min_playtime_sec;
        let window = limits.rate_limit_window_sec;
        let max = limits.max_messages_per_time_period;
        if p.time_signed_in < min {
            let cutoff = now - min;
            if p.sign_in_timestamp > cutoff {
                let hours = quotient_toward_zero(min, 3600);
                let mut m = message("Region chat is unlocked after {0} hours for new accounts.|~");
                push_decimal(&mut m, hours as i64);
                return Err(m);
            }
        }
        if starts_with(p.username.as_str(), "player") {
            return Err(message("You need to set your username to post in Region chat."));
        }
        let since = now - window;
        let count = count_recent(region_messages, actor_id, since);
        if count >= max as usize {
            let mut m = message("You can only send {0} messages per {1} seconds in Region chat|~");
            push_decimal(&mut m, max as i64);
            m.append("|~");
            push_decimal(&mut m, window as i64);
            return Err(m);
        }
    }
    let mut username = String::from_str(language_code);
    username.append("/");
    username.append(p.username.as_str());
    Ok(
        ChatMessage {
            title_id: match title_id {
                Some(t) => t,
                None => 0,
            },
            text: sanitized,
            timestamp: now,
            owner_entity_id: actor_id,
            target_id,
            channel,
            username,
        },
    )
}

/// A player posts a chat message. `actor` is the posting player as the
/// session resolves them, or why they cannot act; the rest is as for
/// `reduce`.
pub fn chat_post_message(
    actor: Result<u64, String>,
    text: &str,
    sanitized: String,
    sanitized_valid: bool,
    poster: Option<PosterFacts>,
    privileges: Result<(), String>,
    channel: ChatChannel,
    target_id: u64,
    language_code: &str,
    vault: Option<Vec<CollectibleFacts>>,
    limits: RegionChatLimits,
    region_messages: &Vec<PostedMessage>,
    now: i32,
) -> (r: Result<ChatMessage, String>)
    requires
        actor is Ok ==> !region_checks_fault(
            text@,
            sanitized_valid,
            poster,
            err_view(privileges),
            channel,
            target_id,
            vault_view(vault),
            limits,
            now,
        ),
    ensures
        actor matches Err(e) ==> (r matches Err(f) && f@ == e@),
        actor matches Ok(actor_id) ==> post_answer(
            r,
            actor_id,
            text@,
            sanitized@,
            sanitized_valid,
            poster,
            err_view(privileges),
            channel,
            target_id,
            language_code@,
            vault_view(vault),
            limits,
            region_messages@,
            now,
        ),
        r matches Ok(m) ==> m.text@ == sanitized@ && actor == Ok::<u64, String>(m.owner_entity_id),
{
    let actor_id = match actor {
        Ok(id) => id,
        Err(e) => return Err(e),
    };
    reduce(
        actor_id,
        text,
        sanitized,
        sanitized_valid,
        poster,
        privileges,
        channel,
        target_id,
        language_code,
        vault,
        limits,
        region_messages,
        now,
    )
}

} // verus!
