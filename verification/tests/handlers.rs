//! Handler-level behavior: pattern matching, fixed reply sets, and the
//! example scenarios.

use bingo_bot::handlers::giphy::{get_url, parse_dimension_str, Giphy, MediaFetch};
use bingo_bot::handlers::help::Help;
use bingo_bot::handlers::howdy::Howdy;
use bingo_bot::handlers::python::KyleHatesPython;
use bingo_bot::handlers::rfc::Rfc;
use bingo_bot::handlers::troutslap::TroutSlap;
use bingo_bot::handlers::{bot_mentioned, get_handlers, Config};
use bingo_bot::response::Response;

use sha2::Digest;

fn text_of(r: Option<Response>) -> String {
    match r {
        Some(Response::Text(s)) => s,
        Some(Response::Media { .. }) => panic!("expected a text response"),
        None => panic!("expected a response"),
    }
}

#[test]
fn rfc_edited_message_yields_link() {
    let r = Rfc::new().respond(" * !rfc 8446", 0);
    assert_eq!(text_of(r), "https://tools.ietf.org/html/rfc8446");
}

#[test]
fn rfc_plain_command_yields_link() {
    let r = Rfc::new().respond("!rfc 7230", 2);
    assert_eq!(text_of(r), "https://tools.ietf.org/html/rfc7230");
}

#[test]
fn rfc_colon_form_yields_link() {
    let r = Rfc::new().respond("!rfc: 1149", 1);
    assert_eq!(text_of(r), "https://tools.ietf.org/html/rfc1149");
}

#[test]
fn rfc_without_number_yields_fixed_negative_reply() {
    let expected = [
        "that's not an rfc, my dude",
        "what even is that because it's not an rfc",
        "no. just no",
    ];
    for pick in 0..3u64 {
        let r = Rfc::new().respond("!rfc banana", pick);
        assert_eq!(text_of(r), expected[pick as usize]);
    }
}

#[test]
fn rfc_prefix_gate_is_case_sensitive() {
    assert!(Rfc::new().respond("!RFC 123", 0).is_none());
    assert!(Rfc::new().respond("rfc 123", 0).is_none());
}

#[test]
fn howdy_templates_with_sender_name() {
    // Bot-mention absent, drop gate open (99 >= 60): one of the seven
    // templates, by pick; the last three name the sender.
    let expected = [
        "Hi!".to_string(),
        "Howdy!".to_string(),
        "Hello!".to_string(),
        "HULLO?".to_string(),
        "Hi, Ann!".to_string(),
        "Howdy, Ann!".to_string(),
        "Hello, Ann!".to_string(),
    ];
    for pick in 0..7u64 {
        let r = Howdy::new().respond("Ann", "hello", "Bingo", 99, pick);
        assert_eq!(text_of(r), expected[pick as usize]);
    }
}

#[test]
fn howdy_gate_drops_undirected_greeting() {
    assert!(Howdy::new().respond("Ann", "hello", "Bingo", 0, 0).is_none());
    assert!(Howdy::new().respond("Ann", "hello", "Bingo", 59, 3).is_none());
}

#[test]
fn howdy_mention_overrides_gate() {
    let r = Howdy::new().respond("Ann", "hello Bingo", "Bingo", 0, 0);
    assert_eq!(text_of(r), "Hi!");
}

#[test]
fn howdy_needs_word_boundaries() {
    assert!(Howdy::new().respond("Ann", "this", "Bingo", 99, 0).is_none());
    assert!(Howdy::new().respond("Ann", "chill", "Bingo", 99, 0).is_none());
    let r = Howdy::new().respond("Ann", "oh hai everyone", "Bingo", 99, 1);
    assert_eq!(text_of(r), "Howdy!");
}

#[test]
fn python_replies_when_gate_is_open() {
    let r = KyleHatesPython::new().respond("I love Python", 60, 0);
    assert_eq!(text_of(r), "\"Python sucks\" —Kyle");
    let r = KyleHatesPython::new().respond("PYTHON!", 99, 2);
    assert_eq!(text_of(r), "\"I hate Python\" —Kyle");
}

#[test]
fn python_gate_drops_most_mentions() {
    assert!(KyleHatesPython::new().respond("python", 59, 0).is_none());
}

#[test]
fn python_silent_without_mention() {
    assert!(KyleHatesPython::new().respond("I love Rust", 99, 0).is_none());
}

#[test]
fn slap_narrates() {
    let r = TroutSlap::new().respond("Ann", "!slap Bob", "Bingo");
    assert_eq!(text_of(r), "_Ann slaps Bob around with a large trout_");
}

#[test]
fn slap_of_the_bot_is_refused() {
    let r = TroutSlap::new().respond("Ann", "!slap Bingo", "Bingo");
    assert_eq!(text_of(r), "EXCUSE ME I DON'T THINK SO");
}

#[test]
fn slap_needs_a_target() {
    assert!(TroutSlap::new().respond("Ann", "!slap", "Bingo").is_none());
    assert!(TroutSlap::new().respond("Ann", "!slap ", "Bingo").is_none());
}

#[test]
fn help_lists_documented_handlers() {
    let r = Help::new().respond("!help");
    let expected = "Here's a list of the things I respond to:\n* **!help** - Returns help information\n* **!giphy <keywords>** - Finds a GIF relevant to your interests\n* **hello** - Say hello! (Responds to other greetings, too)\n* **!rfc <number>** - Generates a link to an RFC\n* **!slap** - a good ol' trout slapping";
    assert_eq!(text_of(r), expected);
}

#[test]
fn help_matches_case_insensitively_and_edited() {
    assert!(Help::new().respond(" * !help").is_some());
    assert!(Help::new().respond("!HELP me please").is_some());
    assert!(Help::new().respond("!hel").is_none());
}

#[test]
fn registry_is_in_fixed_priority_order() {
    let handlers = get_handlers(None);
    let cmds: Vec<String> = handlers.iter().map(|h| h.cmd().to_string()).collect();
    assert_eq!(
        cmds,
        vec!["!help", "!giphy <keywords>", "hello", "", "!rfc <number>", "!slap"]
    );
}

#[test]
fn config_lookup_finds_first_match() {
    let mut config = Config::new();
    config.set("giphy_api_key".to_string(), "k1".to_string());
    config.set("giphy_api_key".to_string(), "k2".to_string());
    assert_eq!(config.get("giphy_api_key"), Some("k1".to_string()));
    assert_eq!(config.get("absent"), None);
}

#[test]
fn giphy_without_credential_stays_silent() {
    let g = Giphy::new(None);
    assert!(g.request_url("Ann", "!giphy cats").is_none());
    let config = Config::new();
    let g = Giphy::new(Some(&config));
    assert!(g.request_url("Ann", "!giphy cats").is_none());
}

#[test]
fn giphy_request_url_is_stable_per_sender() {
    let mut config = Config::new();
    config.set("giphy_api_key".to_string(), "secret".to_string());
    let g = Giphy::new(Some(&config));
    let u1 = g.request_url("@ann:example.org", "!giphy slow loris").unwrap().unwrap();
    let u2 = g.request_url("@ann:example.org", " * !gif slow loris").unwrap().unwrap();
    let digest = format!("{:x}", sha2::Sha256::digest("@ann:example.org".as_bytes()));
    let expected = format!(
        "https://api.giphy.com/v1/gifs/translate?api_key=secret&s=slow loris&random_id={}",
        digest
    );
    assert_eq!(u1, expected);
    assert_eq!(u2, expected);
    assert!(url::Url::parse(&u1).is_ok());
}

#[test]
fn giphy_pattern_needs_keywords() {
    let mut config = Config::new();
    config.set("giphy_api_key".to_string(), "secret".to_string());
    let g = Giphy::new(Some(&config));
    assert!(g.request_url("Ann", "!giphy").is_none());
    assert!(g.request_url("Ann", "!gipped cats").is_none());
    assert!(g.request_url("Ann", "cats").is_none());
    assert!(g.request_url("Ann", "!gif: cats").is_some());
}

#[test]
fn dimension_strings_parse_like_the_platform() {
    assert_eq!(parse_dimension_str("200"), 200);
    assert_eq!(parse_dimension_str("0"), 0);
    assert_eq!(parse_dimension_str(""), 0);
    assert_eq!(parse_dimension_str("12a"), 0);
    assert_eq!(parse_dimension_str("-5"), 0);
    assert_eq!(parse_dimension_str("9007199254740991"), 9007199254740991);
    assert_eq!(parse_dimension_str("9007199254740992"), 0);
    assert_eq!(parse_dimension_str("99999999999999999999999"), 0);
}

#[test]
fn media_response_carries_caption_and_metadata() {
    let fetch = MediaFetch {
        gif_id: "abc123".to_string(),
        content_uri: "mxc://example.org/xyz".to_string(),
        width: "480".to_string(),
        height: "270".to_string(),
        size: "123456".to_string(),
    };
    match bingo_bot::handlers::giphy::media_response(&fetch) {
        Response::Media { caption, content_uri, mimetype, width, height, size_bytes } => {
            assert_eq!(caption, "GIPHY id: abc123");
            assert_eq!(content_uri, "mxc://example.org/xyz");
            assert_eq!(mimetype, "image/gif");
            assert_eq!(width, 480);
            assert_eq!(height, 270);
            assert_eq!(size_bytes, 123456);
        },
        _ => panic!("expected a media response"),
    }
}

#[test]
fn giphy_url_rejects_nothing_reasonable_but_errors_are_url_errors() {
    // A URL assembled from ordinary pieces parses.
    let r = get_url("key", "cats", "@ann:example.org");
    assert!(r.is_ok());
    let u = r.unwrap();
    assert!(u.len() > 64);
}

#[test]
fn bot_mention_is_word_bounded_and_case_insensitive() {
    assert!(bot_mentioned("hey Bingo", "Bingo"));
    assert!(bot_mentioned("BINGO?", "Bingo"));
    assert!(bot_mentioned("hi bingo hi", "Bingo"));
    assert!(!bot_mentioned("bingos everywhere", "Bingo"));
    assert!(!bot_mentioned("nothing here", "Bingo"));
}
