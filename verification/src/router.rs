//! The message router: a pure decision function from an incoming message
//! to the set of actions the bot should take, together with the verified
//! substring search it is built on.

use vstd::prelude::*;
use vstd::string::StrSliceExecFns;
use vstd::string::StringExecFns;

use crate::catalog::{in_list, DataError, PollOptions};

verus! {

/// An incoming chat message, as the routing logic sees it.
pub struct Message {
    /// The platform's message id, used as the reply target.
    pub id: i64,
    /// The chat the message arrived in.
    pub chat_id: i64,
    /// The message's text, absent for non-text messages.
    pub text: Option<String>,
}

/// The configurable patterns the router reacts to.
pub struct RouterConfig {
    /// First substring that triggers the animation reaction.
    pub trigger_a: String,
    /// Second substring that triggers the animation reaction.
    pub trigger_b: String,
    /// The exact command text that triggers the reply poll.
    pub command: String,
}

impl RouterConfig {
    /// The patterns the bot ships with: the two spellings of the doubt
    /// reaction as triggers, and the poll command.
    pub fn defaults() -> (c: RouterConfig)
        ensures
            c.trigger_a@ == "doubt"@,
            c.trigger_b@ == "daut"@,
            c.command@ == "/dodo"@,
    {
        RouterConfig {
            trigger_a: String::from_str("doubt"),
            trigger_b: String::from_str("daut"),
            command: String::from_str("/dodo"),
        }
    }
}

/// One outbound action decided by the router; the caller executes it
/// against the transport.
pub enum Action {
    /// Reply to message `reply_to` with the animation stored at `asset`.
    SendAnimation { reply_to: i64, asset: String },
    /// Send a poll with the given question and answer options, replying
    /// to a message when `reply_to` is set.
    SendPoll { reply_to: Option<i64>, question: String, options: Vec<String> },
}

/// Whether `n` occurs in `h` as a contiguous run of characters.
pub open spec fn contains_substring(h: Seq<char>, n: Seq<char>) -> bool {
    exists|i: int|
        0 <= i && i + n.len() <= h.len() && #[trigger] h.subrange(i, i + n.len() as int) == n
}

/// Whether the characters of `n` stand in `h` at position `i`.
fn match_at(h: &str, n: &str, i: usize, hlen: usize, nlen: usize) -> (r: bool)
    requires
        hlen == h@.len(),
        nlen == n@.len(),
        i + nlen <= hlen,
    ensures
        r == (h@.subrange(i as int, i as int + nlen as int) == n@),
{
    let mut j: usize = 0;
    while j < nlen
        invariant
            hlen == h@.len(),
            nlen == n@.len(),
            i + nlen <= hlen,
            j <= nlen,
            forall|k: int| 0 <= k < j ==> h@[i + k] == n@[k],
        decreases nlen - j,
    {
        let hc = h.get_char(i + j);
        let nc = n.get_char(j);
        if hc != nc {
            proof {
                assert(h@.subrange(i as int, i as int + nlen as int)[j as int] == h@[i + j]);
            }
            return false;
        }
        j += 1;
    }
    proof {
        assert(h@.subrange(i as int, i as int + nlen as int) =~= n@);
    }
    true
}

/// Reports whether `n` occurs as a substring of `h`. Total: it never
/// fails, whatever the lengths or contents of the two strings.
pub fn contains_str(h: &str, n: &str) -> (r: bool)
    ensures
        r == contains_substring(h@, n@),
{
    let hlen = h.unicode_len();
    let nlen = n.unicode_len();
    if nlen > hlen {
        proof {
            if contains_substring(h@, n@) {
                let w = choose|w: int|
                    0 <= w && w + n@.len() <= h@.len() && #[trigger] h@.subrange(
                        w,
                        w + n@.len() as int,
                    ) == n@;
            }
        }
        return false;
    }
    if nlen == 0 {
        proof {
            assert(h@.subrange(0, 0 + n@.len() as int) =~= n@);
            assert(0 <= 0int && 0 + n@.len() <= h@.len() && h@.subrange(0, 0 + n@.len() as int)
                == n@);
        }
        return true;
    }
    let mut i: usize = 0;
    while i <= hlen - nlen
        invariant
            hlen == h@.len(),
            nlen == n@.len(),
            1 <= nlen <= hlen,
            i <= hlen - nlen + 1,
            forall|j: int| 0 <= j < i ==> #[trigger] h@.subrange(j, j + nlen as int) != n@,
        decreases hlen - nlen + 1 - i,
    {
        if match_at(h, n, i, hlen, nlen) {
            proof {
                assert(0 <= i as int && i as int + n@.len() <= h@.len() && h@.subrange(
                    i as int,
                    i as int + n@.len() as int,
                ) == n@);
            }
            return true;
        }
        i += 1;
    }
    proof {
        if contains_substring(h@, n@) {
            let w = choose|w: int|
                0 <= w && w + n@.len() <= h@.len() && #[trigger] h@.subrange(
                    w,
                    w + n@.len() as int,
                ) == n@;
            assert(w < i);
            assert(h@.subrange(w, w + nlen as int) != n@);
        }
    }
    false
}

/// The file path of the canned animation sent as the reaction to a
/// recognized trigger substring.
pub open spec fn spec_doubt_asset() -> Seq<char> {
    "resources/i_daut_it.gif"@
}

/// Returns the path of the canned reaction animation.
pub fn doubt_asset() -> (r: &'static str)
    ensures
        r@ == spec_doubt_asset(),
{
    "resources/i_daut_it.gif"
}

/// The fixed question text of the reply-triggered poll, distinct from the
/// day-dependent question of the scheduled poll.
pub open spec fn spec_reply_question() -> Seq<char> {
    "Dodo?"@
}

/// Returns the question text of the reply-triggered poll.
pub fn reply_question() -> (r: &'static str)
    ensures
        r@ == spec_reply_question(),
{
    "Dodo?"
}

/// Whether the message's text calls for the animation reaction: it has a
/// text that contains one of the two configured trigger substrings.
pub open spec fn spec_wants_animation(cfg: RouterConfig, msg: Message) -> bool {
    msg.text matches Some(t) && (contains_substring(t@, cfg.trigger_a@) || contains_substring(
        t@,
        cfg.trigger_b@,
    ))
}

/// Whether the message's text calls for the reply poll: it has a text
/// exactly equal to the configured command string.
pub open spec fn spec_wants_poll(cfg: RouterConfig, msg: Message) -> bool {
    msg.text matches Some(t) && t@ == cfg.command@
}

/// Whether `a` is the animation reaction replying to `msg`.
pub open spec fn spec_is_doubt_animation(a: Action, msg: Message) -> bool {
    a matches Action::SendAnimation { reply_to, asset } && reply_to == msg.id && asset@
        == spec_doubt_asset()
}

/// Whether `a` is the reply poll to `msg`: it replies to the message,
/// carries the fixed reply question, and offers exactly one "yes" and one
/// "no" phrase of the catalog, in that order.
pub open spec fn spec_is_command_poll(a: Action, msg: Message, cat: PollOptions) -> bool {
    a matches Action::SendPoll { reply_to, question, options } && reply_to == Some(msg.id)
        && question@ == spec_reply_question() && options@.len() == 2 && in_list(
        cat.ja@,
        options@[0]@,
    ) && in_list(cat.nein@, options@[1]@)
}

/// Whether some action of `acts` is an animation reaction.
pub open spec fn spec_has_animation(acts: Seq<Action>) -> bool {
    exists|k: int| 0 <= k < acts.len() && acts[k] is SendAnimation
}

/// Whether some action of `acts` is a poll.
pub open spec fn spec_has_poll(acts: Seq<Action>) -> bool {
    exists|k: int| 0 <= k < acts.len() && acts[k] is SendPoll
}

/// Decides what to do about one incoming message. The two rules are
/// checked independently: a text containing a trigger substring yields the
/// animation reaction, and a text exactly equal to the command yields the
/// reply poll, with its two options picked from the catalog. Fails with
/// `EmptyCatalog` exactly when the poll is called for but one of the
/// catalog's lists is empty; the failed poll is then skipped.
pub fn route(cfg: &RouterConfig, msg: &Message, catalog: &PollOptions) -> (r: Result<
    Vec<Action>,
    DataError,
>)
    ensures
        (r is Err) <==> (spec_wants_poll(*cfg, *msg) && (catalog.ja@.len() == 0
            || catalog.nein@.len() == 0)),
        (r matches Err(e) ==> e == DataError::EmptyCatalog),
        (r matches Ok(acts) ==> {
            &&& (spec_has_animation(acts@) <==> spec_wants_animation(*cfg, *msg))
            &&& (spec_has_poll(acts@) <==> spec_wants_poll(*cfg, *msg))
            &&& acts@.len() <= 2
            &&& (spec_wants_animation(*cfg, *msg) ==> spec_is_doubt_animation(acts@[0], *msg))
            &&& (spec_wants_poll(*cfg, *msg) ==> spec_is_command_poll(
                acts@[acts@.len() - 1],
                *msg,
                *catalog,
            ))
        }),
{
    let mut acts: Vec<Action> = Vec::new();
    match &msg.text {
        None => {
            proof {
                assert(!spec_wants_animation(*cfg, *msg));
                assert(!spec_wants_poll(*cfg, *msg));
                assert(acts@.len() == 0);
            }
            Ok(acts)
        },
        Some(text) => {
            let wants_anim = contains_str(text.as_str(), cfg.trigger_a.as_str()) || contains_str(
                text.as_str(),
                cfg.trigger_b.as_str(),
            );
            let wants_cmd = *text == cfg.command;
            proof {
                assert(wants_anim == spec_wants_animation(*cfg, *msg));
                assert(wants_cmd == spec_wants_poll(*cfg, *msg));
            }
            if wants_anim {
                acts.push(
                    Action::SendAnimation {
                        reply_to: msg.id,
                        asset: String::from_str(doubt_asset()),
                    },
                );
                proof {
                    assert(spec_is_doubt_animation(acts@[0], *msg));
                }
            }
            if wants_cmd {
                let yes = match catalog.pick_yes() {
                    Ok(s) => s,
                    Err(e) => {
                        return Err(e);
                    },
                };
                let no = match catalog.pick_no() {
                    Ok(s) => s,
                    Err(e) => {
                        return Err(e);
                    },
                };
                let mut options: Vec<String> = Vec::new();
                options.push(yes);
                options.push(no);
                acts.push(
                    Action::SendPoll {
                        reply_to: Some(msg.id),
                        question: String::from_str(reply_question()),
                        options,
                    },
                );
                proof {
                    assert(spec_is_command_poll(acts@[acts@.len() - 1], *msg, *catalog));
                }
            }
            proof {
                if wants_anim {
                    assert(acts@[0] is SendAnimation);
                } else {
                    assert(forall|k: int| 0 <= k < acts@.len() ==> acts@[k] is SendPoll);
                }
                if wants_cmd {
                    assert(acts@[acts@.len() - 1] is SendPoll);
                } else {
                    assert(forall|k: int|
                        0 <= k < acts@.len() ==> acts@[k] is SendAnimation);
                }
            }
            Ok(acts)
        },
    }
}

} // verus!
