use z2p::configuration::{
    ApplicationSettings, DatabaseSettings, EmailClientSettings, Environment, SslMode,
};
use z2p::email_client::{authorization_header, send_email_request, EmailUnit};
use z2p::domain::SubscriberEmail;
use z2p::response::{copy_bytes, HeaderPair, Response};
use z2p::routes::admin::newsletters::success_message;
use z2p::routes::helpers::{e400, e500, error_chain_fmt, get_message, see_other, FlashMessage, Level};
use z2p::routes::newsletters::{get_confirmed_subscribers, send_newsletters, valid_recipients};
use z2p::routes::admin::newsletters::ConfirmedSubscriber;
use z2p::routes::subscriptions::restore_subscriber;
use z2p::secret::Secret;
use z2p::store::{Store, Subscriber, SubscriptionStatus};
use z2p::text::{
    char_is_forbidden, char_is_whitespace, text_equals, text_has_forbidden_char, text_is_blank,
};

#[test]
fn an_error_is_rendered_with_its_causes() {
    assert_eq!(error_chain_fmt("top", &vec![]), "top\n\n");
    assert_eq!(
        error_chain_fmt("Failed to store", &vec!["db gone".to_string(), "io".to_string()]),
        "Failed to store\n\nCaused by:\n\tdb gone\nCaused by:\n\tio\n"
    );
    assert_eq!(error_chain_fmt("", &vec!["".to_string()]), "\n\nCaused by:\n\t\n");
}

#[test]
fn flash_messages_are_joined_line_by_line() {
    let messages = vec![
        FlashMessage::info("first"),
        FlashMessage::error("second"),
        FlashMessage { level: Level::Warning, content: "third".to_string() },
        FlashMessage::error(""),
    ];
    assert_eq!(get_message(&messages, None), "first\nsecond\nthird\n\n");
    assert_eq!(get_message(&messages, Some(Level::Error)), "second\n\n");
    assert_eq!(get_message(&messages, Some(Level::Info)), "first\n");
    assert_eq!(get_message(&messages, Some(Level::Debug)), "");
    assert_eq!(get_message(&messages, Some(Level::Success)), "");
    assert_eq!(get_message(&vec![], None), "");
}

#[test]
fn the_notice_of_an_accepted_issue() {
    let notice = success_message();
    assert_eq!(notice.level, Level::Info);
    assert_eq!(notice.content, "The newsletter issue has been accepted - emails will go out shortly.");
}

#[test]
fn a_redirect_is_a_303_with_a_location() {
    let response = see_other("/login");
    assert_eq!(response.status_code, 303);
    assert_eq!(response.headers.len(), 1);
    assert_eq!(response.headers[0].name, "location");
    assert_eq!(response.headers[0].value, b"/login".to_vec());
    assert!(response.body.is_empty());
    let unicode = see_other("/ä");
    assert_eq!(unicode.headers[0].value, vec![b'/', 0xc3, 0xa4]);
}

#[test]
fn errors_that_end_a_request() {
    let bad = e400("nope".to_string());
    assert_eq!((bad.status_code, bad.message.as_str()), (400, "nope"));
    let broken = e500("boom".to_string());
    assert_eq!((broken.status_code, broken.message.as_str()), (500, "boom"));
}

#[test]
fn a_copy_of_a_response_is_the_same_byte_for_byte() {
    let response = Response {
        status_code: 303,
        headers: vec![
            HeaderPair { name: "location".to_string(), value: b"/a".to_vec() },
            HeaderPair { name: "x".to_string(), value: vec![0, 255] },
        ],
        body: vec![1, 2, 3],
    };
    let copy = response.clone();
    assert_eq!(copy.status_code, 303);
    assert_eq!(copy.body, vec![1, 2, 3]);
    assert_eq!(copy.headers.len(), 2);
    assert_eq!(copy.headers[0].name, "location");
    assert_eq!(copy.headers[0].value, b"/a".to_vec());
    assert_eq!(copy.headers[1].name, "x");
    assert_eq!(copy.headers[1].value, vec![0, 255]);
    assert_eq!(copy_bytes(&vec![9, 8, 7]), vec![9, 8, 7]);
    assert_eq!(Response::bare(204).status_code, 204);
}

#[test]
fn environments_are_named_in_any_case() {
    assert_eq!(Environment::Local.as_str(), "local");
    assert_eq!(Environment::Production.as_str(), "production");
    assert_eq!(Environment::try_from("local".to_string()), Ok(Environment::Local));
    assert_eq!(Environment::try_from("LOCAL".to_string()), Ok(Environment::Local));
    assert_eq!(Environment::try_from("Production".to_string()), Ok(Environment::Production));
    assert_eq!(
        Environment::try_from("Staging".to_string()),
        Err("staging is not supported environment. Try to use `local` or `production`".to_string())
    );
    assert_eq!(
        Environment::try_from("".to_string()),
        Err(" is not supported environment. Try to use `local` or `production`".to_string())
    );
}

#[test]
fn the_address_to_listen_on() {
    let settings = |host: &str, port: u16| ApplicationSettings {
        port,
        host: host.to_string(),
        base_url: "http://127.0.0.1".to_string(),
        hmac_secret: Secret::new("secret".to_string()),
    };
    assert_eq!(settings("127.0.0.1", 8000).address(), "127.0.0.1:8000");
    assert_eq!(settings("0.0.0.0", 0).address(), "0.0.0.0:0");
    assert_eq!(settings("localhost", 65535).address(), "localhost:65535");
    assert_eq!(settings("", 7).address(), ":7");
    assert_eq!(settings("h", 10).address(), "h:10");
    assert_eq!(settings("h", 4096).address(), "h:4096");
}

#[test]
fn the_database_connection_requires_or_prefers_encryption() {
    let settings = |require_ssl: bool| DatabaseSettings {
        username: "postgres".to_string(),
        password: Secret::new("password".to_string()),
        port: 5432,
        host: "localhost".to_string(),
        database_name: "newsletter".to_string(),
        require_ssl,
    };
    assert_eq!(settings(true).ssl_mode(), SslMode::Require);
    assert_eq!(settings(false).ssl_mode(), SslMode::Prefer);
}

#[test]
fn the_sender_of_the_email_client_must_be_an_email_address() {
    let settings = |sender: &str| EmailClientSettings {
        base_url: "http://localhost".to_string(),
        sender_email: sender.to_string(),
        auth_token: Secret::new("token".to_string()),
        timeout_ms: 10_000,
    };
    assert_eq!(settings("news@example.com").sender().unwrap().as_ref(), "news@example.com");
    assert_eq!(settings("news").sender().unwrap_err(), "news is not a valid subscriber email.");
    assert_eq!(settings("news@example.com").timeout(), 10_000);
}

#[test]
fn the_request_to_the_email_transport() {
    let sender = SubscriberEmail::parse("news@example.com".to_string()).unwrap();
    let recipient = SubscriberEmail::parse("ann@example.com".to_string()).unwrap();
    let request = send_email_request(&sender, &recipient, "Subject", "<p>html</p>", "text");
    assert_eq!(request.from.email, "news@example.com");
    assert_eq!(request.to.len(), 1);
    assert_eq!(request.to[0].email, "ann@example.com");
    assert_eq!(request.subject, "Subject");
    assert_eq!(request.html, "<p>html</p>");
    assert_eq!(request.text, "text");
    assert_eq!(EmailUnit::new("x@y.z").email, "x@y.z");
    let header = authorization_header(&Secret::new("t0k3n".to_string()));
    assert_eq!(header.expose(), "Bearer t0k3n");
    assert_eq!(z2p::email_client::EMAIL_ROUTE, "v1/email");
}

#[test]
fn a_secret_keeps_its_text() {
    let secret = Secret::new("hunter2 ü".to_string());
    assert_eq!(secret.expose(), "hunter2 ü");
    assert_eq!(Secret::new(String::new()).expose(), "");
}

#[test]
fn texts_and_characters() {
    assert!(text_equals("", ""));
    assert!(text_equals("añb", "añb"));
    assert!(!text_equals("a", "b"));
    assert!(!text_equals("a", "ab"));
    assert!(!text_equals("ab", "a"));
    for c in ['\t', '\n', '\u{b}', '\u{c}', '\r', ' ', '\u{85}', '\u{a0}', '\u{1680}', '\u{2000}', '\u{200a}', '\u{2028}', '\u{2029}', '\u{202f}', '\u{205f}', '\u{3000}'] {
        assert!(char_is_whitespace(c), "{:?}", c);
    }
    for c in ['a', '\u{8}', '\u{e}', '\u{1f}', '\u{200b}', '\u{180e}', '\u{feff}', '0'] {
        assert!(!char_is_whitespace(c), "{:?}", c);
    }
    for code in 0u32..0x3100 {
        if let Some(c) = char::from_u32(code) {
            assert_eq!(char_is_whitespace(c), c.is_whitespace(), "{:?}", c);
        }
    }
    assert!(text_is_blank(""));
    assert!(text_is_blank(" \t\u{3000}"));
    assert!(!text_is_blank(" a "));
    assert_eq!(text_is_blank(" x"), " x".trim().is_empty());
    for c in ['/', '(', ')', '"', '<', '>', '\\', '{', '}'] {
        assert!(char_is_forbidden(c));
        assert!(text_has_forbidden_char(&format!("ab{}", c)));
    }
    for c in ['a', '[', ']', '\'', '|', ' '] {
        assert!(!char_is_forbidden(c));
    }
    assert!(!text_has_forbidden_char("Ursula Le Guin"));
    assert!(!text_has_forbidden_char(""));
}

fn stored(store: &mut Store, id: u128, email: &str, status: SubscriptionStatus) {
    let row = Subscriber { id, email: email.to_string(), name: "N".to_string(), subscribed_at: 1, status };
    restore_subscriber(store, row).unwrap();
}

#[test]
fn confirmed_subscribers_are_read_with_their_addresses_checked() {
    let mut store = Store::new();
    stored(&mut store, 1, "ann@example.com", SubscriptionStatus::Confirmed);
    stored(&mut store, 2, "bob@example.com", SubscriptionStatus::PendingConfirmation);
    stored(&mut store, 3, "no address", SubscriptionStatus::Confirmed);
    stored(&mut store, 4, "dan@example.com", SubscriptionStatus::Confirmed);
    let rows = get_confirmed_subscribers(&store);
    assert_eq!(rows.len(), 3);
    assert_eq!(rows[0].as_ref().ok().unwrap().email.as_ref(), "ann@example.com");
    assert_eq!(rows[1].as_ref().err().unwrap(), "no address is not a valid subscriber email.");
    assert_eq!(rows[2].as_ref().ok().unwrap().email.as_ref(), "dan@example.com");
    let emails: Vec<String> = valid_recipients(&rows).iter().map(|e| e.as_ref().to_string()).collect();
    assert_eq!(emails, vec!["ann@example.com".to_string(), "dan@example.com".to_string()]);
}

fn rows(n: usize, bad_every: usize) -> Vec<Result<ConfirmedSubscriber, String>> {
    (0..n)
        .map(|i| {
            if bad_every > 0 && i % bad_every == 0 {
                Err(format!("row {} is bad", i))
            } else {
                Ok(ConfirmedSubscriber {
                    email: SubscriberEmail::parse(format!("user{}@example.com", i)).unwrap(),
                })
            }
        })
        .collect()
}

#[test]
fn newsletters_are_sent_in_batches_of_fifty() {
    assert!(send_newsletters(&rows(0, 0)).is_empty());
    let sizes = |n: usize, bad_every: usize| -> Vec<usize> {
        send_newsletters(&rows(n, bad_every)).iter().map(|b| b.len()).collect()
    };
    assert_eq!(sizes(1, 0), vec![1]);
    assert_eq!(sizes(49, 0), vec![49]);
    assert_eq!(sizes(50, 0), vec![50]);
    assert_eq!(sizes(51, 0), vec![50, 1]);
    assert_eq!(sizes(100, 0), vec![50, 50]);
    assert_eq!(sizes(125, 0), vec![50, 50, 25]);
    // every second row is bad: 60 good ones among 120
    assert_eq!(sizes(120, 2), vec![50, 10]);
    assert_eq!(sizes(3, 1), Vec::<usize>::new());
    let batches = send_newsletters(&rows(120, 2));
    let all: Vec<String> = batches.iter().flatten().map(|e| e.as_ref().to_string()).collect();
    let expected: Vec<String> = (0..120).filter(|i| i % 2 == 1).map(|i| format!("user{}@example.com", i)).collect();
    assert_eq!(all, expected);
}

#[test]
fn logging_out_ends_the_session_of_a_user_who_is_logged_in() {
    let step = z2p::routes::admin::logout::logout(Some(7));
    assert!(step.end_session);
    let notice = step.notice.unwrap();
    assert_eq!(notice.level, Level::Info);
    assert_eq!(notice.content, "You have successfully logged out.");
    assert_eq!(step.response.status_code, 303);
    assert_eq!(step.response.headers[0].value, b"/login".to_vec());

    let step = z2p::routes::admin::logout::logout(None);
    assert!(!step.end_session);
    assert!(step.notice.is_none());
    assert_eq!(step.response.status_code, 303);
    assert_eq!(step.response.headers[0].value, b"/login".to_vec());
}
