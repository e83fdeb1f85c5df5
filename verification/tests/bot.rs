use dodo_bot::catalog::{DataError, PollOptions};
use dodo_bot::dispatch::{PollLoop, Update};
use dodo_bot::router::{route, Action, Message, RouterConfig};
use dodo_bot::router::contains_str;
use dodo_bot::schedule::{day_prefix, ScheduleGate, Weekday};

fn catalog(yes: Vec<&str>, no: Vec<&str>) -> PollOptions {
    PollOptions {
        ja: yes.into_iter().map(String::from).collect(),
        nein: no.into_iter().map(String::from).collect(),
    }
}

fn message(id: i64, text: Option<&str>) -> Message {
    Message {
        id,
        chat_id: 7,
        text: text.map(String::from),
    }
}

fn is_animation(a: &Action) -> bool {
    matches!(a, Action::SendAnimation { .. })
}

fn is_poll(a: &Action) -> bool {
    matches!(a, Action::SendPoll { .. })
}

#[test]
fn trigger_substring_yields_animation() {
    let cfg = RouterConfig::defaults();
    let cat = catalog(vec!["jo"], vec!["nee"]);
    for text in ["doubt", "I doubt it", "xdauty", "no doubts at all"] {
        let acts = route(&cfg, &message(3, Some(text)), &cat).unwrap();
        assert_eq!(acts.len(), 1, "text {text:?}");
        match &acts[0] {
            Action::SendAnimation { reply_to, asset } => {
                assert_eq!(*reply_to, 3);
                assert_eq!(asset, "resources/i_daut_it.gif");
            }
            _ => panic!("expected an animation for {text:?}"),
        }
    }
}

#[test]
fn no_trigger_no_animation() {
    let cfg = RouterConfig::defaults();
    let cat = catalog(vec!["jo"], vec!["nee"]);
    for text in ["", "hello", "Doubt", "DAUT", "dau t", "dobt"] {
        let acts = route(&cfg, &message(3, Some(text)), &cat).unwrap();
        assert!(acts.iter().all(|a| !is_animation(a)), "text {text:?}");
    }
}

#[test]
fn message_without_text_yields_nothing() {
    let cfg = RouterConfig::defaults();
    let cat = catalog(vec!["jo"], vec!["nee"]);
    let acts = route(&cfg, &message(3, None), &cat).unwrap();
    assert!(acts.is_empty());
}

#[test]
fn very_long_text_is_handled() {
    let cfg = RouterConfig::defaults();
    let cat = catalog(vec!["jo"], vec!["nee"]);
    let long = "a".repeat(20_000);
    let acts = route(&cfg, &message(3, Some(&long)), &cat).unwrap();
    assert!(acts.is_empty());
    let with_hit = format!("{long}daut");
    let acts = route(&cfg, &message(3, Some(&with_hit)), &cat).unwrap();
    assert_eq!(acts.len(), 1);
    assert!(is_animation(&acts[0]));
}

#[test]
fn exact_command_yields_poll() {
    let cfg = RouterConfig::defaults();
    let cat = catalog(vec!["klar", "jo"], vec!["nee", "nie"]);
    let acts = route(&cfg, &message(11, Some("/dodo")), &cat).unwrap();
    assert_eq!(acts.len(), 1);
    match &acts[0] {
        Action::SendPoll {
            reply_to,
            question,
            options,
        } => {
            assert_eq!(*reply_to, Some(11));
            assert_eq!(question, "Dodo?");
            assert_eq!(options.len(), 2);
            assert!(cat.ja.contains(&options[0]));
            assert!(cat.nein.contains(&options[1]));
        }
        _ => panic!("expected a poll"),
    }
}

#[test]
fn near_command_texts_do_not_match() {
    let cfg = RouterConfig::defaults();
    let cat = catalog(vec!["jo"], vec!["nee"]);
    for text in ["/dodo ", "/Dodo", " /dodo", "/dodoo", "dodo"] {
        let acts = route(&cfg, &message(11, Some(text)), &cat).unwrap();
        assert!(acts.iter().all(|a| !is_poll(a)), "text {text:?}");
    }
}

#[test]
fn trigger_inside_command_yields_both_actions() {
    let cfg = RouterConfig {
        trigger_a: String::from("od"),
        trigger_b: String::from("daut"),
        command: String::from("/dodo"),
    };
    let cat = catalog(vec!["jo"], vec!["nee"]);
    let acts = route(&cfg, &message(5, Some("/dodo")), &cat).unwrap();
    assert_eq!(acts.len(), 2);
    assert!(is_animation(&acts[0]));
    assert!(is_poll(&acts[1]));
}

#[test]
fn gate_fires_on_transitions_into_target_day() {
    let days = [
        Weekday::Wed,
        Weekday::Thu,
        Weekday::Thu,
        Weekday::Thu,
        Weekday::Fri,
        Weekday::Thu,
    ];
    let expected = [false, true, false, false, false, true];
    let mut gate = ScheduleGate::new(Weekday::Thu);
    let fired: Vec<bool> = days.iter().map(|d| gate.tick(*d)).collect();
    assert_eq!(fired, expected);
}

#[test]
fn cursor_lands_past_last_update_id() {
    let mut p = PollLoop::new(Weekday::Thu);
    p.cursor = 5;
    let batch = vec![
        Update {
            id: 5,
            message: Some(message(1, Some("hello"))),
        },
        Update {
            id: 6,
            message: None,
        },
        Update {
            id: 9,
            message: Some(message(2, Some("/dodo"))),
        },
    ];
    let msgs = p.ingest(batch);
    assert_eq!(p.cursor, 10);
    assert_eq!(msgs.len(), 2);
    assert_eq!(msgs[0].id, 1);
    assert_eq!(msgs[1].id, 2);
}

#[test]
fn empty_batch_leaves_cursor_unchanged() {
    let mut p = PollLoop::new(Weekday::Thu);
    p.cursor = 42;
    let msgs = p.ingest(Vec::new());
    assert_eq!(p.cursor, 42);
    assert!(msgs.is_empty());
}

#[test]
fn picks_only_return_catalog_values() {
    let cat = catalog(vec!["a", "b", "c"], vec!["x", "y"]);
    for _ in 0..1000 {
        let yes = cat.pick_yes().unwrap();
        assert!(cat.ja.contains(&yes));
        let no = cat.pick_no().unwrap();
        assert!(cat.nein.contains(&no));
    }
}

#[test]
fn single_entry_pick_is_deterministic() {
    let cat = catalog(vec!["only"], vec!["sole"]);
    for _ in 0..100 {
        assert_eq!(cat.pick_yes().unwrap(), "only");
        assert_eq!(cat.pick_no().unwrap(), "sole");
    }
}

#[test]
fn empty_yes_list_fails_with_empty_catalog() {
    let cat = catalog(vec![], vec!["nee"]);
    assert_eq!(cat.pick_yes(), Err(DataError::EmptyCatalog));
}

#[test]
fn empty_catalog_fails_poll_building_without_crashing() {
    let cfg = RouterConfig::defaults();
    let cat = catalog(vec![], vec!["nee"]);
    let r = route(&cfg, &message(11, Some("/dodo")), &cat);
    assert!(matches!(r, Err(DataError::EmptyCatalog)));
    let cat = catalog(vec!["jo"], vec![]);
    let r = route(&cfg, &message(11, Some("/dodo")), &cat);
    assert!(matches!(r, Err(DataError::EmptyCatalog)));
}

#[test]
fn failing_handler_does_not_block_batch_or_cursor() {
    let cfg = RouterConfig::defaults();
    let empty_cat = catalog(vec![], vec![]);
    let good_cat = catalog(vec!["jo"], vec!["nee"]);
    let mut p = PollLoop::new(Weekday::Thu);
    let batch = vec![
        Update {
            id: 1,
            message: Some(message(1, Some("/dodo"))),
        },
        Update {
            id: 2,
            message: Some(message(2, Some("doubt"))),
        },
    ];
    let msgs = p.ingest(batch);
    assert_eq!(p.cursor, 3);
    assert_eq!(msgs.len(), 2);
    // The first handler hits a data error; the second still runs.
    assert!(matches!(
        route(&cfg, &msgs[0], &empty_cat),
        Err(DataError::EmptyCatalog)
    ));
    let acts = route(&cfg, &msgs[1], &good_cat).unwrap();
    assert_eq!(acts.len(), 1);
    assert!(is_animation(&acts[0]));
}

#[test]
fn day_prefixes_are_german_abbreviations() {
    let pairs = [
        (Weekday::Mon, "Mo"),
        (Weekday::Tue, "Di"),
        (Weekday::Wed, "Mi"),
        (Weekday::Thu, "Do"),
        (Weekday::Fri, "Fr"),
        (Weekday::Sat, "Sa"),
        (Weekday::Sun, "So"),
    ];
    for (day, prefix) in pairs {
        assert_eq!(day_prefix(day), prefix);
    }
}

#[test]
fn scheduled_poll_fires_once_with_day_question() {
    let cat = catalog(vec!["jo"], vec!["nee"]);
    let mut p = PollLoop::new(Weekday::Thu);
    let r = p.schedule_tick(Weekday::Wed, &cat).unwrap();
    assert!(r.is_none());
    let r = p.schedule_tick(Weekday::Thu, &cat).unwrap();
    match r {
        Some(Action::SendPoll {
            reply_to,
            question,
            options,
        }) => {
            assert_eq!(reply_to, None);
            assert_eq!(question, "DoDo");
            assert_eq!(options, vec!["jo", "nee"]);
        }
        _ => panic!("expected the scheduled poll"),
    }
    let r = p.schedule_tick(Weekday::Thu, &cat).unwrap();
    assert!(r.is_none());
}

#[test]
fn scheduled_poll_with_empty_catalog_is_skipped_not_retried() {
    let cat = catalog(vec![], vec!["nee"]);
    let mut p = PollLoop::new(Weekday::Thu);
    let r = p.schedule_tick(Weekday::Thu, &cat);
    assert!(matches!(r, Err(DataError::EmptyCatalog)));
    // The schedule has advanced: no second attempt within the same day window.
    let good = catalog(vec!["jo"], vec!["nee"]);
    let r = p.schedule_tick(Weekday::Thu, &good).unwrap();
    assert!(r.is_none());
}

#[test]
fn scheduled_question_depends_on_day() {
    let cat = catalog(vec!["jo"], vec!["nee"]);
    match dodo_bot::dispatch::build_scheduled_poll(Weekday::Fri, &cat) {
        Ok(Action::SendPoll {
            reply_to,
            question,
            options,
        }) => {
            assert_eq!(reply_to, None);
            assert_eq!(question, "DoFr");
            assert_eq!(options.len(), 2);
        }
        _ => panic!("expected a poll"),
    }
}

#[test]
fn substring_search_handles_edges() {
    assert!(contains_str("abc", ""));
    assert!(contains_str("", ""));
    assert!(!contains_str("", "a"));
    assert!(contains_str("abc", "abc"));
    assert!(!contains_str("ab", "abc"));
    assert!(contains_str("ααβγ", "αβ"));
    assert!(!contains_str("ααβγ", "βα"));
}

#[test]
fn clock_tick_reports_only_the_target_day() {
    let targets = [
        Weekday::Mon,
        Weekday::Tue,
        Weekday::Wed,
        Weekday::Thu,
        Weekday::Fri,
        Weekday::Sat,
        Weekday::Sun,
    ];
    let mut fires = 0;
    for target in targets {
        let mut p = PollLoop::new(target);
        if let Some(day) = p.schedule_tick_now() {
            assert_eq!(day, target);
            fires += 1;
        }
        assert_eq!(p.cursor, 0);
    }
    // Whatever day the clock reports, exactly the matching target fires.
    assert!(fires >= 1);
}
