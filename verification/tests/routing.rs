//! Requests between the two bots.

use spotibot::routing::transport::{
    action_limit, cut_reply, frame_length_ok, reply_wait, request, seal, seal_with, unseal,
    Journal, Refusal, Verdict, MAX_FRAME, MAX_RECORDS, RETAIN_MS,
};
use spotibot::routing::{
    choose_bot, Action, CommandMode, ConfigError, Endpoint, Reply, Request, RoutingConfig, Status,
    Target,
};
use spotibot::runtime::{Profile, Settings};

const NOW: u64 = 1_000_000;

fn bot(room: Option<u64>) -> Status {
    Status {
        target: Target { boot: "test".into(), generation: 1, room },
        name: "bot".into(),
        guild: 1,
        bot: 2,
        ready: true,
        media: true,
        now: String::new(),
    }
}

fn endpoint(text: &str, loopback: bool, port: u16) -> Option<Endpoint> {
    Some(Endpoint { text: text.into(), loopback, port })
}

fn settings(profile: Profile, pairs: &[(&str, &str)]) -> Settings {
    let values = pairs.iter().map(|(k, v)| (k.to_string(), v.to_string())).collect();
    Settings::merge(profile, values, Vec::new())
}

fn key() -> String {
    "ab".repeat(32)
}

#[test]
fn existing_room_beats_free_preferred_bot() {
    assert_eq!(choose_bot(Some(10), &[bot(None), bot(Some(10))], true, false), Ok(1));
}

#[test]
fn free_preferred_then_free_second_but_never_another_room() {
    assert_eq!(choose_bot(Some(10), &[bot(None), bot(None)], true, false), Ok(0));
    assert_eq!(choose_bot(Some(10), &[bot(Some(20)), bot(None)], true, false), Ok(1));
    assert!(choose_bot(Some(10), &[bot(Some(20)), bot(Some(30))], true, false).is_err());
}

#[test]
fn transport_and_ambiguity_require_a_real_choice() {
    assert!(choose_bot(Some(10), &[bot(None), bot(None)], false, false).is_err());
    assert!(choose_bot(Some(10), &[bot(Some(10)), bot(Some(10))], false, false).is_err());
    assert!(choose_bot(None, &[bot(None)], true, false).is_err());
}

#[test]
fn only_free_capable_bots_are_recruited() {
    let mut spotify_only = bot(None);
    spotify_only.media = false;
    assert_eq!(choose_bot(Some(10), &[spotify_only.clone(), bot(None)], true, true), Ok(1));
    spotify_only.target.room = Some(10);
    // An existing session remains the user's target; unsupported requests
    // explain the missing capability instead of adding another bot there.
    assert_eq!(choose_bot(Some(10), &[spotify_only, bot(None)], true, true), Ok(0));
}

#[test]
fn a_refused_choice_says_why() {
    let mut unready = bot(None);
    unready.ready = false;
    assert_eq!(
        choose_bot(Some(10), &[unready], true, false).unwrap_err(),
        "Both bots are busy or unavailable. Their other rooms will keep playing."
    );
    assert_eq!(
        choose_bot(Some(10), &[], false, false).unwrap_err(),
        "No music bot is serving your voice room."
    );
    assert_eq!(
        choose_bot(Some(10), &[bot(Some(10)), bot(Some(10))], true, false).unwrap_err(),
        "Both bots are in your room. Choose which one to control."
    );
    assert_eq!(
        choose_bot(None, &[], true, false).unwrap_err(),
        "Join a voice channel, or choose a bot to inspect its music panel."
    );
}

#[test]
fn routing_is_off_by_default() {
    let config = RoutingConfig::load(&settings(Profile::Nob, &[]), None, None).unwrap();
    assert_eq!(config.mode, CommandMode::Standalone);
    assert!(config.listen.is_none() && config.peer.is_none() && config.key.is_none());
    assert_eq!(RoutingConfig::standalone().mode, CommandMode::Standalone);
}

#[test]
fn each_bot_has_its_own_modes() {
    for (profile, mode, fits) in [
        (Profile::Nob, "coordinator", true),
        (Profile::Nob, "worker", false),
        (Profile::Spotibot, "worker", true),
        (Profile::Spotibot, "coordinator", false),
        (Profile::Spotibot, "anything", false),
    ] {
        let key = key();
        let settings = settings(
            profile,
            &[
                ("COMMAND_MODE", mode),
                ("ROUTING_LISTEN", "127.0.0.1:1"),
                ("ROUTING_PEER", "127.0.0.1:2"),
                ("ROUTING_KEY", &key),
            ],
        );
        let loaded = RoutingConfig::load(
            &settings,
            endpoint("127.0.0.1:1", true, 1),
            endpoint("127.0.0.1:2", true, 2),
        );
        match loaded {
            Ok(config) => {
                assert!(fits);
                assert_eq!(config.key.unwrap(), vec![0xab; 32]);
            }
            Err(e) => {
                assert!(!fits);
                assert_eq!(e, ConfigError::Invalid("COMMAND_MODE"));
            }
        }
    }
}

#[test]
fn addresses_must_be_of_this_host() {
    let with = |listen: Option<Endpoint>| {
        RoutingConfig::load(
            &settings(Profile::Nob, &[("ROUTING_LISTEN", "somewhere")]),
            listen,
            None,
        )
    };
    assert!(with(endpoint("127.0.0.1:1", true, 1)).is_ok());
    for wrong in [endpoint("10.0.0.1:1", false, 1), endpoint("127.0.0.1:0", true, 0), None] {
        assert_eq!(with(wrong).err(), Some(ConfigError::Invalid("ROUTING_LISTEN")));
    }
    let blank = settings(Profile::Nob, &[("ROUTING_LISTEN", " ")]);
    assert!(RoutingConfig::load(&blank, None, None).unwrap().listen.is_none());
    let peer = settings(Profile::Nob, &[("ROUTING_PEER", "x")]);
    assert_eq!(
        RoutingConfig::load(&peer, None, None).err(),
        Some(ConfigError::Invalid("ROUTING_PEER"))
    );
}

#[test]
fn keys_are_thirty_two_bytes_and_not_all_zero() {
    for (text, fits) in [
        (key(), true),
        (key().to_uppercase(), true),
        ("00".repeat(32), false),
        ("ab".repeat(31), false),
        ("zz".repeat(32), false),
        (String::new(), false),
    ] {
        let settings = settings(Profile::Nob, &[("ROUTING_KEY", &text)]);
        match RoutingConfig::load(&settings, None, None) {
            Ok(_) => assert!(fits, "{text}"),
            Err(e) => {
                assert!(!fits, "{text}");
                assert_eq!(e, ConfigError::Invalid("ROUTING_KEY"));
            }
        }
    }
}

#[test]
fn a_coordinator_needs_a_key_and_another_process() {
    let key = key();
    let pairs = [
        ("COMMAND_MODE", "coordinator"),
        ("ROUTING_LISTEN", "a"),
        ("ROUTING_PEER", "b"),
        ("ROUTING_KEY", key.as_str()),
    ];
    let a = || endpoint("a", true, 1);
    let no_key = settings(Profile::Nob, &pairs[..3]);
    assert_eq!(
        RoutingConfig::load(&no_key, a(), endpoint("b", true, 2)).err(),
        Some(ConfigError::Missing("ROUTING_LISTEN / ROUTING_KEY"))
    );
    let all = settings(Profile::Nob, &pairs);
    assert_eq!(
        RoutingConfig::load(&all, a(), a()).err(),
        Some(ConfigError::Invalid("ROUTING_PEER"))
    );
    assert!(RoutingConfig::load(&all, a(), endpoint("b", true, 2)).is_ok());
}

#[test]
fn messages_are_bound_to_key_connection_and_direction() {
    let frame = seal(&[1; 32], &[2; 32], 0, b"request").unwrap();
    assert_eq!(unseal(&[1; 32], &[2; 32], 0, &frame).unwrap(), b"request");
    assert!(unseal(&[3; 32], &[2; 32], 0, &frame).is_none());
    assert!(unseal(&[1; 32], &[3; 32], 0, &frame).is_none());
    assert!(unseal(&[1; 32], &[2; 32], 1, &frame).is_none());
}

#[test]
fn frames_are_bounded() {
    let most = vec![7; MAX_FRAME - 40];
    let frame = seal(&[1; 32], &[2; 32], 1, &most).unwrap();
    assert_eq!(frame.len(), MAX_FRAME);
    assert_eq!(unseal(&[1; 32], &[2; 32], 1, &frame).unwrap(), most);
    assert!(seal(&[1; 32], &[2; 32], 1, &vec![7; MAX_FRAME - 39]).is_none());
    assert!(unseal(&[1; 32], &[2; 32], 1, &frame[..39]).is_none());
    let fixed = seal_with(&[1; 32], &[2; 32], 0, b"", &[9; 24]).unwrap();
    assert_eq!(fixed.len(), 40);
    assert_eq!(fixed[..24], [9; 24]);
    assert!(frame_length_ok(40) && frame_length_ok(65536));
    assert!(!frame_length_ok(39) && !frame_length_ok(65537));
}

#[test]
fn a_fresh_request_is_good_for_a_minute() {
    let req = request(1, 2, Action::Logout, NOW);
    assert_eq!(req.expires, NOW + 60_000);
    assert_eq!(req.id.len(), 36);
    assert_ne!(req.id, request(1, 2, Action::Logout, NOW).id);
    let mut journal = Journal::new();
    assert!(matches!(journal.run(&req, b"{}", NOW + 60_000), Verdict::Execute));
    let mut journal = Journal::new();
    assert!(matches!(
        journal.run(&req, b"{}", NOW + 60_001),
        Verdict::Refuse(Refusal::Expired)
    ));
    for broken in [
        Request { id: "not-an-id".into(), ..req.clone() },
        Request { user: 0, ..req.clone() },
        Request { guild: 0, ..req.clone() },
        Request { expires: NOW + 60_001, ..req.clone() },
    ] {
        assert!(matches!(
            journal.run(&broken, b"{}", NOW),
            Verdict::Refuse(Refusal::Expired)
        ));
    }
    for id in [
        "550e8400e29b41d4a716446655440000",
        "{550e8400-e29b-41d4-a716-446655440000}",
        "URN:UUID:550e8400-e29b-41d4-a716-44665544000F",
    ] {
        let req = Request { id: id.into(), ..req.clone() };
        assert!(matches!(journal.run(&req, b"{}", NOW), Verdict::Execute), "{id}");
    }
}

#[test]
fn a_request_is_carried_out_once() {
    let mut journal = Journal::new();
    let req = request(1, 2, Action::Logout, NOW);
    assert!(matches!(journal.run(&req, b"one", NOW), Verdict::Execute));
    assert!(matches!(journal.run(&req, b"one", NOW), Verdict::Wait));
    assert!(matches!(
        journal.run(&req, b"two", NOW),
        Verdict::Refuse(Refusal::Conflict)
    ));
    journal.finish(&req.id, Reply::Text("done".into()));
    match journal.run(&req, b"one", NOW + 1) {
        Verdict::Recorded(reply) => assert!(matches!(&*reply, Reply::Text(t) if t == "done")),
        _ => panic!("a retry gets the outcome of the first execution"),
    }
}

#[test]
fn an_outcome_is_told_to_its_own_caller() {
    let mut journal = Journal::new();
    let req = request(1, 2, Action::Forget, NOW);
    let ask = |user| {
        let action = Action::Outcome { request: req.id.clone() };
        request(1, user, action, NOW)
    };
    assert!(matches!(
        journal.run(&ask(2), b"q", NOW),
        Verdict::Refuse(Refusal::Unavailable)
    ));
    assert!(matches!(journal.run(&req, b"body", NOW), Verdict::Execute));
    assert!(matches!(journal.run(&ask(2), b"q", NOW), Verdict::Pending));
    journal.finish(&req.id, Reply::Text("complete".into()));
    assert!(matches!(journal.run(&ask(2), b"q", NOW), Verdict::Recorded(_)));
    assert!(matches!(
        journal.run(&ask(3), b"q", NOW),
        Verdict::Refuse(Refusal::Unavailable)
    ));
    journal.lose(&req.id);
    assert!(matches!(
        journal.run(&ask(2), b"q", NOW),
        Verdict::Refuse(Refusal::Lost)
    ));
}

#[test]
fn the_journal_is_bounded_and_forgets() {
    let mut journal = Journal::new();
    for _ in 0..MAX_RECORDS {
        let req = request(1, 2, Action::Logout, NOW);
        assert!(matches!(journal.run(&req, b"x", NOW), Verdict::Execute));
    }
    let req = request(1, 2, Action::Logout, NOW);
    assert!(matches!(journal.run(&req, b"x", NOW), Verdict::Refuse(Refusal::Full)));
    let later = NOW + RETAIN_MS;
    let req = request(1, 2, Action::Logout, later);
    assert!(matches!(journal.run(&req, b"x", later), Verdict::Execute));
    let status = request(1, 2, Action::Status, later);
    assert!(matches!(journal.run(&status, b"x", later), Verdict::Status));
}

#[test]
fn long_replies_are_cut_and_refusals_have_words() {
    match cut_reply(Reply::Text("é".repeat(1901))) {
        Reply::Text(text) => assert_eq!(text.chars().count(), 1900),
        _ => panic!("a text stays a text"),
    }
    for refusal in [
        Refusal::Expired,
        Refusal::Unavailable,
        Refusal::Lost,
        Refusal::Conflict,
        Refusal::Full,
        Refusal::TimedOut,
        Refusal::Silent,
    ] {
        assert!(matches!(refusal.reply(), Reply::Error(text) if !text.is_empty()));
    }
    match Refusal::Conflict.reply() {
        Reply::Error(text) => assert_eq!(text, "Request identity conflict."),
        _ => panic!("a refusal is an error"),
    }
    let login = Action::FinishLogin { pairing: "p".into() };
    assert_eq!((action_limit(&login), reply_wait(&login)), (660, 665));
    assert_eq!((action_limit(&Action::Login), reply_wait(&Action::Login)), (60, 65));
}

#[test]
fn a_record_outlives_what_happens_to_others() {
    let mut journal = Journal::new();
    let first = request(1, 2, Action::Logout, NOW);
    let second = request(1, 3, Action::Forget, NOW);
    assert!(matches!(journal.run(&first, b"first", NOW), Verdict::Execute));
    assert!(matches!(journal.run(&second, b"second", NOW), Verdict::Execute));
    journal.finish(&second.id, Reply::Text("other".into()));
    assert!(matches!(journal.run(&first, b"first", NOW + 1), Verdict::Wait));
    journal.finish(&first.id, Reply::Text("own".into()));
    match journal.run(&first, b"first", NOW + 2) {
        Verdict::Recorded(reply) => assert!(matches!(&*reply, Reply::Text(t) if t == "own")),
        _ => panic!("each request keeps its own outcome"),
    }
}
