use beer_log::auth::{
    begin_auth, begin_auth_reply, AuthForm, BeginCommand, ProviderError, Verification, VerifyCommand,
    VerifyEvent, VerifyStep,
};
use beer_log::drinks::{delete_reply, drinks_reply, DrinkCommand, DrinkEvent, DrinkFlow, DrinkForm, DrinkStep};
use beer_log::models::{Beer, Brewery, Date, Drink, ExpandedDrink, Identity, Person, Session, StoreError};
use beer_log::phone::{identifier_for, phone_number_ok};
use beer_log::reply::{index, test_auth, wakeup, Notice, Reply, ResponseStatus};
use beer_log::search::{search_beer, search_brewery, search_reply, BrewerySearchResult, SearchCommand};
use beer_log::session::{
    bearer_token, new_session, resolve_person, resolve_person_now, session_for, Credential, Rejection, SESSION_LIFETIME,
};
use beer_log::text::{blank, decimal_string, nat_string, white_space};

fn date(y: i32, m: u32, d: u32) -> Date {
    Date::from_ymd(y, m, d).unwrap()
}

fn form(code: Option<&str>, phone: &str) -> AuthForm {
    AuthForm { country_code: 1, phone_number: phone.to_string(), code: code.map(|c| c.to_string()) }
}

fn session(person_id: i32, expires_at: i64) -> Session {
    Session { id: "tok".to_string(), person_id, created_at: 0, updated_at: 0, expires_at }
}

fn pliny_form() -> DrinkForm {
    DrinkForm {
        drank_on: date(2024, 1, 5),
        beer: "Pliny".to_string(),
        brewery: "Russian River".to_string(),
        rating: 5,
        comment: None,
    }
}

fn respond<T>(c: BeginCommand) -> Reply<()> {
    match c {
        BeginCommand::Respond(r) => r,
        other => panic!("expected a reply, got {:?}", other),
    }
}

#[test]
fn new_drink_with_unknown_names_creates_both() {
    let (f, c) = DrinkFlow::start(7, pliny_form());
    assert!(matches!(c, DrinkCommand::FindBrewery { ref name } if name == "Russian River"));
    let (f, c) = f.advance(DrinkEvent::BreweryFound(Ok(None)));
    assert!(matches!(c, DrinkCommand::CreateBrewery(ref b) if b.name == "Russian River"));
    let brewery = Brewery { id: 3, name: "Russian River".to_string(), created_at: 0, updated_at: 0 };
    let (f, c) = f.advance(DrinkEvent::BreweryCreated(Ok(brewery.clone())));
    assert!(matches!(c, DrinkCommand::FindBeer { ref name, brewery_id: 3 } if name == "Pliny"));
    let (f, c) = f.advance(DrinkEvent::BeerFound(Ok(None)));
    assert!(matches!(c, DrinkCommand::CreateBeer(ref b) if b.name == "Pliny" && b.brewery_id == 3));
    let beer = Beer { id: 11, name: "Pliny".to_string(), brewery_id: 3, created_at: 0, updated_at: 0 };
    let (f, c) = f.advance(DrinkEvent::BeerCreated(Ok(beer.clone())));
    match c {
        DrinkCommand::Record(ref d) => {
            assert_eq!(d.person_id, 7);
            assert_eq!(d.beer_id, 11);
            assert_eq!(d.rating, 5);
            assert_eq!(d.drank_on, date(2024, 1, 5));
            assert_eq!(d.comment, None);
        },
        other => panic!("expected a record command, got {:?}", other),
    }
    let drink = Drink {
        id: 40,
        person_id: 7,
        drank_on: date(2024, 1, 5),
        beer_id: 11,
        rating: 5,
        comment: None,
        created_at: 0,
        updated_at: 0,
    };
    let (f, c) = f.advance(DrinkEvent::Recorded(Ok(drink)));
    assert!(matches!(c, DrinkCommand::Fetch { drink_id: 40 }));
    let expanded = ExpandedDrink { id: 40, drank_on: date(2024, 1, 5), rating: 5, comment: None, beer, brewery };
    let (f, c) = f.advance(DrinkEvent::Fetched(Ok(expanded)));
    assert_eq!(f.step, DrinkStep::Finished);
    match c {
        DrinkCommand::Respond(r) => {
            assert_eq!(r.code, 200);
            assert_eq!(r.status, ResponseStatus::Success);
            let d = r.data.unwrap();
            assert_eq!(d.beer.name, "Pliny");
            assert_eq!(d.brewery.name, "Russian River");
        },
        other => panic!("expected a reply, got {:?}", other),
    }
}

#[test]
fn new_drink_with_known_names_inserts_nothing_but_the_drink() {
    let (f, _) = DrinkFlow::start(7, pliny_form());
    let brewery = Brewery { id: 3, name: "Russian River".to_string(), created_at: 0, updated_at: 0 };
    let (f, c) = f.advance(DrinkEvent::BreweryFound(Ok(Some(brewery))));
    assert!(matches!(c, DrinkCommand::FindBeer { brewery_id: 3, .. }));
    let beer = Beer { id: 12, name: "Pliny".to_string(), brewery_id: 3, created_at: 0, updated_at: 0 };
    let (_, c) = f.advance(DrinkEvent::BeerFound(Ok(Some(beer))));
    assert!(matches!(c, DrinkCommand::Record(ref d) if d.beer_id == 12));
}

#[test]
fn brewery_insert_conflict_looks_the_name_up_again() {
    let (f, _) = DrinkFlow::start(7, pliny_form());
    let (f, _) = f.advance(DrinkEvent::BreweryFound(Ok(None)));
    let (f, c) = f.advance(DrinkEvent::BreweryCreated(Err(StoreError::Conflict)));
    assert_eq!(f.step, DrinkStep::RefindingBrewery);
    assert!(matches!(c, DrinkCommand::FindBrewery { ref name } if name == "Russian River"));
    let brewery = Brewery { id: 9, name: "Russian River".to_string(), created_at: 0, updated_at: 0 };
    let (f, c) = f.advance(DrinkEvent::BreweryFound(Ok(Some(brewery))));
    assert!(matches!(c, DrinkCommand::FindBeer { brewery_id: 9, .. }));
    let (f, _) = f.advance(DrinkEvent::BeerFound(Ok(None)));
    let (f, c) = f.advance(DrinkEvent::BeerCreated(Err(StoreError::Conflict)));
    assert_eq!(f.step, DrinkStep::RefindingBeer { brewery_id: 9 });
    assert!(matches!(c, DrinkCommand::FindBeer { brewery_id: 9, .. }));
    let (_, c) = f.advance(DrinkEvent::BeerFound(Ok(None)));
    assert!(matches!(c, DrinkCommand::Respond(ref r) if r.code == 500 && r.bare));
}

#[test]
fn new_drink_failure_is_a_bare_internal_error() {
    let (f, _) = DrinkFlow::start(7, pliny_form());
    let (f, c) = f.advance(DrinkEvent::BreweryFound(Err(StoreError::Pool)));
    assert_eq!(f.step, DrinkStep::Finished);
    assert!(matches!(c, DrinkCommand::Respond(ref r) if r.code == 500 && r.bare && r.data.is_none()));
    let (f, _) = DrinkFlow::start(7, pliny_form());
    let (_, c) = f.advance(DrinkEvent::Recorded(Err(StoreError::Query)));
    assert!(matches!(c, DrinkCommand::Respond(ref r) if r.code == 500));
}

#[test]
fn delete_replies_by_count() {
    let r = delete_reply(Ok(0));
    assert_eq!(r.code, 404);
    assert_eq!(r.status, ResponseStatus::Fail);
    assert_eq!(r.notice.unwrap().text(), "Could not find that drink");
    let r = delete_reply(Ok(1));
    assert_eq!(r.code, 200);
    assert_eq!(r.notice.unwrap().text(), "Deleted");
    let r = delete_reply(Ok(2));
    assert_eq!(r.code, 500);
    assert_eq!(r.status, ResponseStatus::Error);
    assert_eq!(r.notice.unwrap().text(), "An unexpected error occurred");
    assert_eq!(delete_reply(Err(StoreError::Query)).code, 500);
}

#[test]
fn drinks_listing_reply() {
    let r = drinks_reply(Ok(vec![]));
    assert_eq!(r.code, 200);
    assert_eq!(r.data, Some(vec![]));
    let r = drinks_reply(Err(StoreError::Pool));
    assert_eq!(r.code, 500);
    assert!(r.bare);
}

#[test]
fn verify_with_malformed_phone_is_bad_request_before_provider() {
    let (v, c) = Verification::start(form(Some("123456"), "12-34"));
    assert_eq!(v.step, VerifyStep::Finished);
    match c {
        VerifyCommand::Respond(r) => {
            assert_eq!(r.code, 400);
            assert_eq!(r.status, ResponseStatus::Fail);
            assert_eq!(r.notice.unwrap().text(), "Invalid phone number!");
        },
        other => panic!("expected a reply, got {:?}", other),
    }
}

#[test]
fn verify_without_code_is_bad_request() {
    let (_, c) = Verification::start(form(None, "555-123-4567"));
    assert!(matches!(c, VerifyCommand::Respond(ref r) if r.code == 400 && r.notice == Some(Notice::MissingCode)));
}

#[test]
fn verify_new_number_creates_person_identity_and_session() {
    let (v, c) = Verification::start(form(Some("123456"), "555-123-4567"));
    assert!(matches!(c, VerifyCommand::CheckCode { country_code: 1, ref phone_number, ref code }
        if phone_number == "555-123-4567" && code == "123456"));
    assert_eq!(v.identifier, "1555-123-4567");
    let (v, c) = v.advance(VerifyEvent::CodeChecked(Ok(true)));
    assert!(matches!(c, VerifyCommand::FindIdentity { ref identifier } if identifier == "1555-123-4567"));
    let (v, c) = v.advance(VerifyEvent::IdentityFound(Ok(None)));
    assert!(matches!(c, VerifyCommand::CreatePerson));
    let (v, c) = v.advance(VerifyEvent::PersonCreated(Ok(Person { id: 5, created_at: 0, updated_at: 0 })));
    assert!(matches!(c, VerifyCommand::CreateIdentity(ref i) if i.person_id == 5 && i.identifier == "1555-123-4567"));
    let ident = Identity { identifier: "1555-123-4567".to_string(), person_id: 5, created_at: 0, updated_at: 0 };
    let (v, c) = v.advance(VerifyEvent::IdentityCreated(Ok(ident)));
    assert!(matches!(c, VerifyCommand::OpenSession { person_id: 5 }));
    let (v, c) = v.advance(VerifyEvent::SessionOpened(Ok(session(5, 100))));
    assert_eq!(v.step, VerifyStep::Finished);
    assert!(matches!(c, VerifyCommand::Respond(ref r) if r.code == 200 && r.data == Some(session(5, 100))));
}

#[test]
fn verify_known_number_opens_session_for_its_person() {
    let (v, _) = Verification::start(form(Some("1"), "5551234567"));
    let (v, _) = v.advance(VerifyEvent::CodeChecked(Ok(true)));
    let ident = Identity { identifier: "15551234567".to_string(), person_id: 8, created_at: 0, updated_at: 0 };
    let (_, c) = v.advance(VerifyEvent::IdentityFound(Ok(Some(ident))));
    assert!(matches!(c, VerifyCommand::OpenSession { person_id: 8 }));
}

#[test]
fn verify_code_outcomes() {
    let cases = [
        (Ok(false), 403, Notice::InvalidCode),
        (Err(ProviderError::UnauthorizedKey), 403, Notice::InvalidCode),
        (Err(ProviderError::Io), 500, Notice::InternalError),
        (Err(ProviderError::Request), 500, Notice::InternalError),
        (Err(ProviderError::JsonParse), 500, Notice::InternalError),
        (Err(ProviderError::TooManyRequests), 403, Notice::CodeNotVerified),
        (Err(ProviderError::BadRequest), 400, Notice::CodeNotVerified),
        (Err(ProviderError::ServiceUnavailable), 403, Notice::CodeNotVerified),
    ];
    for (outcome, code, notice) in cases {
        let (v, _) = Verification::start(form(Some("1"), "5551234567"));
        let (v, c) = v.advance(VerifyEvent::CodeChecked(outcome));
        assert_eq!(v.step, VerifyStep::Finished);
        match c {
            VerifyCommand::Respond(r) => {
                assert_eq!(r.code, code);
                assert_eq!(r.notice, Some(notice));
            },
            other => panic!("expected a reply, got {:?}", other),
        }
    }
}

#[test]
fn verify_store_failure_is_internal_error() {
    let (v, _) = Verification::start(form(Some("1"), "5551234567"));
    let (v, _) = v.advance(VerifyEvent::CodeChecked(Ok(true)));
    let (_, c) = v.advance(VerifyEvent::IdentityFound(Err(StoreError::Pool)));
    assert!(matches!(c, VerifyCommand::Respond(ref r) if r.code == 500 && r.status == ResponseStatus::Error));
}

#[test]
fn begin_auth_checks_phone_shape() {
    let r = respond::<()>(begin_auth(form(None, "not a phone")));
    assert_eq!(r.code, 400);
    assert_eq!(r.notice.unwrap().text(), "Invalid phone number");
    match begin_auth(form(None, "555 123 4567")) {
        BeginCommand::SendCode { country_code, phone_number } => {
            assert_eq!(country_code, 1);
            assert_eq!(phone_number, "555 123 4567");
        },
        other => panic!("expected a send, got {:?}", other),
    }
}

#[test]
fn begin_auth_replies() {
    let r = begin_auth_reply(Ok("Text message sent".to_string()));
    assert_eq!(r.code, 200);
    assert_eq!(r.status, ResponseStatus::Success);
    assert_eq!(r.notice.unwrap().text(), "Text message sent");
    let r = begin_auth_reply(Err(ProviderError::BadRequest));
    assert_eq!(r.code, 400);
    assert_eq!(r.status, ResponseStatus::Error);
    assert_eq!(r.notice.unwrap().text(), "That phone number didn't work :(");
    for e in [ProviderError::Io, ProviderError::Request, ProviderError::JsonParse] {
        let r = begin_auth_reply(Err(e));
        assert_eq!(r.code, 500);
        assert_eq!(r.status, ResponseStatus::Error);
        assert_eq!(r.notice.unwrap().text(), "Internal server error");
    }
    assert_eq!(begin_auth_reply(Err(ProviderError::TooManyRequests)).code, 400);
}

#[test]
fn phone_shapes() {
    assert!(phone_number_ok("5551234567"));
    assert!(phone_number_ok("555-123-4567"));
    assert!(phone_number_ok("555 123"));
    assert!(phone_number_ok("555.123.45678"));
    assert!(!phone_number_ok("55512"));
    assert!(!phone_number_ok("555-123-456789"));
    assert!(!phone_number_ok("abc-def-ghij"));
    assert!(!phone_number_ok(""));
}

#[test]
fn identifier_joins_country_code_and_number() {
    assert_eq!(identifier_for(1, "5551234567"), "15551234567");
    assert_eq!(identifier_for(44, "7700900123"), "447700900123");
    assert_eq!(identifier_for(65535, ""), "65535");
}

#[test]
fn decimal_forms() {
    assert_eq!(decimal_string(0), "0");
    assert_eq!(decimal_string(-42), "-42");
    assert_eq!(decimal_string(i64::MAX), i64::MAX.to_string());
    assert_eq!(decimal_string(i64::MIN + 1), (i64::MIN + 1).to_string());
    assert_eq!(nat_string(1000), "1000");
}

#[test]
fn blank_queries() {
    assert!(blank(""));
    assert!(blank(" \t\n"));
    assert!(blank("\u{3000}\u{a0}"));
    assert!(!blank(" a "));
    assert!(!blank("IPA"));
}

#[test]
fn white_space_agrees_with_std() {
    for u in 0u32..0x3100 {
        if let Some(c) = char::from_u32(u) {
            assert_eq!(white_space(c), c.is_whitespace(), "{:x}", u);
        }
    }
}

#[test]
fn empty_search_is_bad_request() {
    for q in ["", "   "] {
        match search_beer(q.to_string()) {
            SearchCommand::Respond(r) => {
                assert_eq!(r.code, 400);
                assert_eq!(r.status, ResponseStatus::Fail);
                assert_eq!(r.notice.unwrap().text(), "Empty search query");
            },
            SearchCommand::Search { .. } => panic!("a blank query must not be run"),
        }
        assert!(matches!(search_brewery(q.to_string()), SearchCommand::Respond(ref r) if r.code == 400));
    }
    assert!(matches!(search_beer(" pliny ".to_string()), SearchCommand::Search { ref query } if query == " pliny "));
    assert!(matches!(search_brewery("river".to_string()), SearchCommand::Search { .. }));
}

#[test]
fn search_replies() {
    let found = vec![BrewerySearchResult { id: 1, name: "Russian River".to_string() }];
    let r = search_reply(Ok(found.clone()));
    assert_eq!(r.code, 200);
    assert_eq!(r.data, Some(found));
    let r: Reply<Vec<BrewerySearchResult>> = search_reply(Err(StoreError::Query));
    assert_eq!(r.code, 500);
    assert!(r.bare);
}

#[test]
fn expired_session_is_unauthorized() {
    let p = Person { id: 5, created_at: 0, updated_at: 0 };
    assert_eq!(resolve_person(Ok(Some((session(5, 100), p))), 100), Err(Rejection::Unauthorized));
    assert_eq!(resolve_person(Ok(Some((session(5, 100), p))), 150), Err(Rejection::Unauthorized));
    assert_eq!(resolve_person(Ok(Some((session(5, 100), p))), 99), Ok(p));
    assert_eq!(resolve_person(Ok(Some((session(6, 100), p))), 99), Err(Rejection::Unauthorized));
    assert_eq!(resolve_person(Ok(None), 0), Err(Rejection::Unauthorized));
    assert_eq!(resolve_person(Err(StoreError::Pool), 0), Err(Rejection::Unavailable));
    assert_eq!(resolve_person(Err(StoreError::Query), 0), Err(Rejection::Internal));
    assert_eq!(resolve_person(Err(StoreError::Conflict), 0), Err(Rejection::Internal));
}

#[test]
fn gate_at_present_time() {
    let p = Person { id: 5, created_at: 0, updated_at: 0 };
    assert_eq!(resolve_person_now(Ok(Some((session(5, i64::MAX), p)))), Ok(p));
    assert_eq!(resolve_person_now(Ok(Some((session(5, 1000), p)))), Err(Rejection::Unauthorized));
    assert_eq!(resolve_person_now(Ok(None)), Err(Rejection::Unauthorized));
}

#[test]
fn bearer_tokens() {
    assert_eq!(bearer_token(Credential::Missing), Err(Rejection::Unauthorized));
    assert_eq!(bearer_token(Credential::Unreadable), Err(Rejection::BadRequest));
    assert_eq!(bearer_token(Credential::Token("abc".to_string())), Ok("abc".to_string()));
    assert_eq!(Rejection::Unauthorized.code(), 401);
    assert_eq!(Rejection::BadRequest.code(), 400);
    assert_eq!(Rejection::Unavailable.code(), 503);
    assert_eq!(Rejection::Internal.code(), 500);
}

#[test]
fn session_expiry() {
    let s = session_for("t".to_string(), 5, 1000);
    assert_eq!(s.expires_at, 1000 + SESSION_LIFETIME);
    assert_eq!(s.expires_at, 1000 + 30 * 24 * 60 * 60);
    assert_eq!(s.person_id, 5);
    assert_eq!(s.id, "t");
    assert_eq!(session_for("t".to_string(), 5, i64::MAX - 1).expires_at, i64::MAX);
}

#[test]
fn fresh_sessions_have_distinct_tokens() {
    let a = new_session(5).unwrap();
    let b = new_session(5).unwrap();
    assert_eq!(a.person_id, 5);
    assert_eq!(a.id.chars().count(), 32);
    assert_ne!(a.id, b.id);
    assert!(a.expires_at > SESSION_LIFETIME);
}

#[test]
fn calendar_dates() {
    assert!(Date::from_ymd(2024, 2, 29).is_some());
    assert!(Date::from_ymd(2023, 2, 29).is_none());
    assert!(Date::from_ymd(2000, 2, 29).is_some());
    assert!(Date::from_ymd(1900, 2, 29).is_none());
    assert!(Date::from_ymd(2024, 4, 31).is_none());
    assert!(Date::from_ymd(2024, 13, 1).is_none());
    assert!(Date::from_ymd(2024, 1, 0).is_none());
    assert_eq!(Date::from_ymd(262143, 12, 31), Some(Date { year: 262143, month: 12, day: 31 }));
    assert!(Date::from_ymd(262144, 1, 1).is_none());
    assert!(Date::from_ymd(-262144, 1, 1).is_some());
    assert!(Date::from_ymd(-262145, 12, 31).is_none());
    assert!(Date::from_ymd(2024, 16, 1).is_none());
    assert!(Date::from_ymd(2024, 1, 40).is_none());
}

#[test]
fn fixed_routes() {
    assert_eq!(index().data.unwrap().text(), "Hello world!");
    assert_eq!(wakeup().data.unwrap().text(), "\u{1F44D}");
    let r = test_auth(42);
    assert_eq!(r.code, 200);
    assert_eq!(r.data.unwrap().text(), "Hello person 42");
    assert_eq!(Notice::Hello { person_id: -3 }.text(), "Hello person -3");
}
