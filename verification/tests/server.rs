use utc_fetcher::http::ReadError;
use utc_fetcher::server::{
    accepts, credentials_from_pairs, decode_credentials, escape, generate_wifi_selector, page_sent,
    render_page, select_wifi, setup_wifi_setup_server, wifi_selected, Error, FormError,
    HandoffSlot, Method, Responded, Route, ServerAction, ServerEvent, ServerPhase, CONFIRMATION,
    PAGE_HEAD, PAGE_TAIL, SUBMISSION_BUFFER_LEN,
};
use utc_fetcher::wifi::{AccessPointInfo, Credentials};

fn network(name: &str) -> AccessPointInfo {
    AccessPointInfo { name: name.to_string(), signal_strength: -60, protected: true }
}

fn credentials(name: &str, secret: &str) -> Credentials {
    Credentials::new(name.to_string(), secret.to_string()).unwrap()
}

fn pairs(list: &[(&str, &str)]) -> Vec<(String, String)> {
    list.iter().map(|(k, v)| (k.to_string(), v.to_string())).collect()
}

#[test]
fn each_network_is_one_option_in_scan_order() {
    let found = vec![network("Cafe"), network("Home")];
    assert_eq!(generate_wifi_selector(&found), "<option>Cafe</option><option>Home</option>");
}

#[test]
fn a_name_that_holds_markup_is_one_option() {
    let found = vec![network("a</option><option>b")];
    let markup = generate_wifi_selector(&found);
    assert_eq!(markup, "<option>a&lt;/option&gt;&lt;option&gt;b</option>");
    assert_eq!(markup.matches("<option>").count(), 1);
    assert_eq!(markup.matches('<').count(), 2);
}

#[test]
fn the_characters_of_markup_are_written_as_entities() {
    assert_eq!(escape("Home"), "Home");
    assert_eq!(escape(""), "");
    assert_eq!(escape("Tom & Jerry's"), "Tom &amp; Jerry's");
    assert_eq!(escape("<>\"&"), "&lt;&gt;\"&amp;");
    assert_eq!(escape("a\"b"), "a\"b");
    assert_eq!(escape("it's \"ours\""), "it's \"ours\"");
    assert_eq!(escape("&amp;"), "&amp;amp;");
    assert_eq!(escape("Caf\u{e9} <1>"), "Caf\u{e9} &lt;1&gt;");
}

#[test]
fn a_name_without_markup_stands_in_the_page_as_it_is() {
    let found = vec![network("a\"b"), network("Caf\u{e9} 'du' coin"), network("a\"b"), network("")];
    assert_eq!(
        generate_wifi_selector(&found),
        "<option>a\"b</option><option>Caf\u{e9} 'du' coin</option><option>a\"b</option><option></option>"
    );
}

#[test]
fn no_network_gives_no_option() {
    assert_eq!(generate_wifi_selector(&[]), "");
}

#[test]
fn the_page_wraps_the_options_in_its_form() {
    let found = vec![network("Cafe"), network("Home")];
    let page = render_page(&found);
    assert_eq!(
        page,
        format!("{}<option>Cafe</option><option>Home</option>{}", PAGE_HEAD, PAGE_TAIL)
    );
    let cafe = page.find("<option>Cafe</option>").unwrap();
    let home = page.find("<option>Home</option>").unwrap();
    assert!(cafe < home);
    assert_eq!(page.matches("<option>").count(), 2);
    assert!(page.contains("action=\"/wifi_select\""));
    assert!(page.contains("method=\"post\""));
    assert!(page.contains("name=\"name\""));
    assert!(page.contains("name=\"secret\""));
}

#[test]
fn the_selection_page_is_made_of_the_scan() {
    let page = select_wifi(Ok(vec![network("Cafe")]));
    assert_eq!(page, Ok(render_page(&[network("Cafe")])));
    assert_eq!(
        select_wifi(Err(utc_fetcher::wifi::Error::Scan(12))),
        Err(Error::Scan(utc_fetcher::wifi::Error::Scan(12)))
    );
}

#[test]
fn a_page_that_did_not_go_out_fails_its_request() {
    assert_eq!(page_sent(Responded::Sent), Ok(()));
    assert_eq!(page_sent(Responded::NotOpened(3)), Err(Error::OkResp(3)));
    assert_eq!(page_sent(Responded::NotWritten(4)), Err(Error::Write(4)));
}

#[test]
fn a_plain_form_gives_its_credentials() {
    let got = decode_credentials(b"name=Home&secret=abc123");
    assert_eq!(got, Ok(credentials("Home", "abc123")));
    let c = got.unwrap();
    assert_eq!(c.name(), "Home");
    assert_eq!(c.secret(), "abc123");
}

#[test]
fn an_encoded_form_gives_back_what_was_encoded() {
    let body = serde_urlencoded::to_string([("name", "Home WiFi"), ("secret", "s3cr3t!")]).unwrap();
    assert_ne!(body, "name=Home WiFi&secret=s3cr3t!");
    let got = decode_credentials(body.as_bytes()).unwrap();
    assert_eq!(got.name(), "Home WiFi");
    assert_eq!(got.secret(), "s3cr3t!");
}

#[test]
fn percent_and_plus_are_decoded() {
    let got = decode_credentials(b"name=Caf%C3%A9+du+coin&secret=a%26b%3Dc%25").unwrap();
    assert_eq!(got.name(), "Caf\u{e9} du coin");
    assert_eq!(got.secret(), "a&b=c%");
}

#[test]
fn the_order_of_the_fields_does_not_matter_and_others_are_passed_over() {
    let got = decode_credentials(b"submit=Connect&secret=abc123&x=1&name=Home");
    assert_eq!(got, Ok(credentials("Home", "abc123")));
}

#[test]
fn an_empty_secret_is_a_secret() {
    assert_eq!(decode_credentials(b"name=Open&secret="), Ok(credentials("Open", "")));
    assert_eq!(decode_credentials(b"name=Open&secret"), Ok(credentials("Open", "")));
}

#[test]
fn a_form_without_a_field_is_rejected() {
    assert_eq!(decode_credentials(b"secret=abc123"), Err(FormError::MissingName));
    assert_eq!(decode_credentials(b"name=Home"), Err(FormError::MissingSecret));
    assert_eq!(decode_credentials(b""), Err(FormError::MissingName));
    assert_eq!(decode_credentials(b"&&&"), Err(FormError::MissingName));
    assert_eq!(decode_credentials(b"Name=Home&secret=x"), Err(FormError::MissingName));
}

#[test]
fn a_field_that_comes_twice_is_rejected() {
    assert_eq!(
        decode_credentials(b"name=Home&name=Cafe&secret=x"),
        Err(FormError::DuplicateName)
    );
    assert_eq!(
        decode_credentials(b"name=Home&secret=x&secret=y"),
        Err(FormError::DuplicateSecret)
    );
}

#[test]
fn the_first_fault_in_the_form_is_the_one_reported() {
    let long = "n".repeat(33);
    let body = format!("secret=x&secret=y&name={}", long);
    assert_eq!(decode_credentials(body.as_bytes()), Err(FormError::DuplicateSecret));
    let body = format!("name={}&secret=x&secret=y", long);
    assert_eq!(decode_credentials(body.as_bytes()), Err(FormError::NameTooLong));
}

#[test]
fn names_and_secrets_are_held_to_their_limits() {
    let name32 = "n".repeat(32);
    let secret64 = "s".repeat(64);
    let body = format!("name={}&secret={}", name32, secret64);
    assert_eq!(decode_credentials(body.as_bytes()), Ok(credentials(&name32, &secret64)));
    let body = format!("name={}n&secret={}", name32, secret64);
    assert_eq!(decode_credentials(body.as_bytes()), Err(FormError::NameTooLong));
    let body = format!("name={}&secret={}s", name32, secret64);
    assert_eq!(decode_credentials(body.as_bytes()), Err(FormError::SecretTooLong));
}

#[test]
fn the_limits_count_bytes_not_letters() {
    let sixteen = "%C3%A9".repeat(16);
    let body = format!("name={}&secret=x", sixteen);
    assert_eq!(
        decode_credentials(body.as_bytes()).map(|c| c.name().len()),
        Ok(32)
    );
    let body = format!("name={}%C3%A9&secret=x", sixteen);
    assert_eq!(decode_credentials(body.as_bytes()), Err(FormError::NameTooLong));
}

#[test]
fn pairs_give_credentials_as_the_form_does() {
    assert_eq!(
        credentials_from_pairs(pairs(&[("name", "Home"), ("secret", "abc123")])),
        Ok(credentials("Home", "abc123"))
    );
    assert_eq!(credentials_from_pairs(pairs(&[])), Err(FormError::MissingName));
    assert_eq!(
        credentials_from_pairs(pairs(&[("name", "a"), ("other", "b")])),
        Err(FormError::MissingSecret)
    );
    assert_eq!(
        credentials_from_pairs(pairs(&[("name", "a"), ("name", "a")])),
        Err(FormError::DuplicateName)
    );
    assert_eq!(
        credentials_from_pairs(pairs(&[("secret", "a"), ("secret", "b")])),
        Err(FormError::DuplicateSecret)
    );
    assert_eq!(
        credentials_from_pairs(pairs(&[("secret", &"s".repeat(65))])),
        Err(FormError::SecretTooLong)
    );
}

#[test]
fn a_submission_is_read_from_its_body() {
    let got = wifi_selected(Ok(b"name=Home&secret=abc123".to_vec())).unwrap();
    assert_eq!(got.page(), CONFIRMATION);
    assert!(got.page().contains("Submitted!"));
}

#[test]
fn a_body_that_could_not_be_read_fails_the_request() {
    assert_eq!(wifi_selected(Err(ReadError::Empty)), Err(Error::Read(ReadError::Empty)));
    assert_eq!(wifi_selected(Err(ReadError::Source)), Err(Error::Read(ReadError::Source)));
}

#[test]
fn a_body_without_credentials_fails_the_request() {
    assert_eq!(
        wifi_selected(Ok(b"hello".to_vec())),
        Err(Error::Serialize(FormError::MissingName))
    );
    assert_eq!(
        wifi_selected(Ok(b"name=a&name=b".to_vec())),
        Err(Error::Serialize(FormError::DuplicateName))
    );
}

#[test]
fn the_room_for_a_submission_is_that_of_a_short_form() {
    assert_eq!(SUBMISSION_BUFFER_LEN, 40);
}

#[test]
fn a_new_slot_is_empty_and_gives_no_credentials() {
    let slot = HandoffSlot::new();
    assert!(!slot.is_filled());
    assert_eq!(slot.take(), Err(Error::NoCredentials));
}

#[test]
fn the_first_credentials_stay_in_the_slot() {
    let mut slot = HandoffSlot::new();
    assert!(slot.deliver(credentials("Home", "abc123")));
    assert!(slot.is_filled());
    assert!(!slot.deliver(credentials("Cafe", "latte")));
    assert!(!slot.deliver(credentials("Home", "other")));
    assert_eq!(slot.take(), Ok(credentials("Home", "abc123")));
}

#[test]
fn credentials_reach_the_slot_only_after_the_answer_went_out() {
    let mut slot = HandoffSlot::new();
    let first = wifi_selected(Ok(b"name=Home&secret=abc123".to_vec())).unwrap();
    assert_eq!(first.complete(Responded::NotOpened(7), &mut slot), Err(Error::OkResp(7)));
    assert!(!slot.is_filled());
    let second = wifi_selected(Ok(b"name=Home&secret=abc123".to_vec())).unwrap();
    assert_eq!(second.complete(Responded::NotWritten(8), &mut slot), Err(Error::Write(8)));
    assert!(!slot.is_filled());
    let third = wifi_selected(Ok(b"name=Home&secret=abc123".to_vec())).unwrap();
    assert_eq!(third.complete(Responded::Sent, &mut slot), Ok(true));
    assert!(slot.is_filled());
}

#[test]
fn a_later_submission_does_not_replace_the_first() {
    let mut slot = HandoffSlot::new();
    let bodies: [&[u8]; 4] =
        [b"nothing", b"name=Home&secret=abc123", b"name=Cafe&secret=latte", b"name=Bar&secret="];
    let mut stored = vec![];
    for body in bodies {
        if let Ok(submission) = wifi_selected(Ok(body.to_vec())) {
            stored.push(submission.complete(Responded::Sent, &mut slot));
        }
    }
    assert_eq!(stored, vec![Ok(true), Ok(false), Ok(false)]);
    assert_eq!(slot.take(), Ok(credentials("Home", "abc123")));
}

#[test]
fn rejected_submissions_leave_the_controller_without_credentials() {
    let slot = HandoffSlot::new();
    assert!(wifi_selected(Ok(b"name=Home".to_vec())).is_err());
    assert!(wifi_selected(Err(ReadError::Empty)).is_err());
    assert_eq!(slot.take(), Err(Error::NoCredentials));
}

#[test]
fn the_portal_has_its_two_pages() {
    assert_eq!(Route::Selection.path(), "/");
    assert_eq!(Route::Selection.method(), Method::Get);
    assert_eq!(Route::Submission.path(), "/wifi_select");
    assert_eq!(Route::Submission.method(), Method::Post);
}

#[test]
fn the_portal_comes_up_waits_and_hands_over_what_arrived() {
    let (phase, action) = setup_wifi_setup_server(ServerPhase::Idle, ServerEvent::Begin);
    assert_eq!((phase, action), (ServerPhase::Opening, ServerAction::Open));
    let (phase, action) = setup_wifi_setup_server(phase, ServerEvent::Opened);
    assert_eq!(
        (phase, action),
        (ServerPhase::Registering(Route::Selection), ServerAction::Register(Route::Selection))
    );
    let (phase, action) = setup_wifi_setup_server(phase, ServerEvent::Registered);
    assert_eq!(
        (phase, action),
        (ServerPhase::Registering(Route::Submission), ServerAction::Register(Route::Submission))
    );
    let (phase, action) = setup_wifi_setup_server(phase, ServerEvent::Registered);
    assert_eq!((phase, action), (ServerPhase::Waiting, ServerAction::Wait));
    let (phase, action) = setup_wifi_setup_server(phase, ServerEvent::Woken);
    assert_eq!((phase, action), (ServerPhase::Closing, ServerAction::Close));
    let mut slot = HandoffSlot::new();
    slot.deliver(credentials("Home", "abc123"));
    let (phase, action) = setup_wifi_setup_server(phase, ServerEvent::Down(slot));
    assert_eq!(phase, ServerPhase::Closed);
    assert_eq!(action, ServerAction::Return(Ok(credentials("Home", "abc123"))));
}

#[test]
fn a_portal_that_goes_down_without_a_submission_gives_no_credentials() {
    let (phase, action) =
        setup_wifi_setup_server(ServerPhase::Closing, ServerEvent::Down(HandoffSlot::new()));
    assert_eq!(phase, ServerPhase::Closed);
    assert_eq!(action, ServerAction::Return(Err(Error::NoCredentials)));
}

#[test]
fn a_server_that_does_not_come_up_ends_the_portal() {
    let (phase, action) = setup_wifi_setup_server(ServerPhase::Opening, ServerEvent::OpenFailed(5));
    assert_eq!(phase, ServerPhase::Closed);
    assert_eq!(action, ServerAction::Return(Err(Error::SetupEspServer(5))));
}

#[test]
fn a_page_that_is_refused_ends_the_portal() {
    for route in [Route::Selection, Route::Submission] {
        let (phase, action) =
            setup_wifi_setup_server(ServerPhase::Registering(route), ServerEvent::RegisterFailed(9));
        assert_eq!(phase, ServerPhase::Closed);
        assert_eq!(action, ServerAction::Return(Err(Error::HttpHandle(9))));
    }
}

#[test]
fn the_portal_takes_only_the_answer_to_what_it_asked() {
    assert!(accepts(ServerPhase::Idle, &ServerEvent::Begin));
    assert!(accepts(ServerPhase::Opening, &ServerEvent::Opened));
    assert!(accepts(ServerPhase::Opening, &ServerEvent::OpenFailed(1)));
    assert!(accepts(ServerPhase::Registering(Route::Selection), &ServerEvent::Registered));
    assert!(accepts(ServerPhase::Registering(Route::Submission), &ServerEvent::RegisterFailed(1)));
    assert!(accepts(ServerPhase::Waiting, &ServerEvent::Woken));
    assert!(accepts(ServerPhase::Closing, &ServerEvent::Down(HandoffSlot::new())));
    assert!(!accepts(ServerPhase::Idle, &ServerEvent::Woken));
    assert!(!accepts(ServerPhase::Waiting, &ServerEvent::Begin));
    assert!(!accepts(ServerPhase::Closed, &ServerEvent::Begin));
    assert!(!accepts(ServerPhase::Waiting, &ServerEvent::Down(HandoffSlot::new())));
    assert!(!accepts(ServerPhase::Opening, &ServerEvent::Registered));
}
