use reminders::error::Error;
use reminders::store::{is_success, Credential, Firebase, Method, StoreOp, StoreStep};

fn client(expires_at: i64) -> Firebase {
    let cred = Credential { token: "tok".into(), expires_at };
    Firebase::new(Some("https://db.example/".into()), Some(cred)).unwrap()
}

#[test]
fn new_needs_uri_then_credential() {
    let cred = Credential { token: "t".into(), expires_at: 0 };
    assert_eq!(Firebase::new(None, Some(cred.clone())).unwrap_err(), Error::URINotSet);
    assert_eq!(Firebase::new(None, None).unwrap_err(), Error::URINotSet);
    assert_eq!(Firebase::new(Some("u".into()), None).unwrap_err(), Error::Authentication);
    let db = Firebase::new(Some("u".into()), Some(cred)).unwrap();
    assert_eq!(db.uri, "u");
    assert_eq!(db.credential.token, "t");
}

#[test]
fn expiry_has_a_twenty_second_margin() {
    let c = Credential { token: "t".into(), expires_at: 100 };
    assert!(!c.has_expired(79));
    assert!(c.has_expired(80));
    assert!(c.has_expired(1000));
    assert!(Credential { token: "t".into(), expires_at: i64::MAX }.has_expired(i64::MAX));
    assert!(!Credential { token: "t".into(), expires_at: i64::MAX }.has_expired(i64::MIN));
}

#[test]
fn requests_address_path_dot_json_with_bearer() {
    let db = client(i64::MAX);
    let r = db.get("reminders/v2");
    assert_eq!(r.method, Method::Get);
    assert_eq!(r.url, "https://db.example/reminders/v2.json");
    assert_eq!(r.bearer, "tok");
    assert!(r.body.is_none());
    let r = db.post("reminders/v2", "{}".into());
    assert_eq!((r.method, r.body.as_deref()), (Method::Post, Some("{}")));
    let r = db.put("reminders/v2/a", "{\"x\":1}".into());
    assert_eq!(r.url, "https://db.example/reminders/v2/a.json");
    assert_eq!(r.method, Method::Put);
    let r = db.delete("reminders/v2/a");
    assert_eq!(r.method, Method::Delete);
    assert!(r.body.is_none());
}

#[test]
fn fresh_credential_sends_at_once() {
    let db = client(10_000);
    let op = StoreOp { method: Method::Get, path: "p".into(), body: None };
    match db.begin(&op, 0) {
        StoreStep::Send(r) => assert_eq!(r.url, "https://db.example/p.json"),
        _ => panic!("expected a send"),
    }
}

#[test]
fn renewal_replaces_the_credential_and_sends() {
    let mut db = client(0);
    let op = StoreOp { method: Method::Post, path: "p".into(), body: Some("{}".into()) };
    assert!(db.needs_refresh(100));
    assert!(matches!(db.begin(&op, 100), StoreStep::Renew));
    let fresh = Credential { token: "new".into(), expires_at: 5000 };
    match db.resume(&op, Some(fresh)) {
        StoreStep::Send(r) => assert_eq!(r.bearer, "new"),
        _ => panic!("expected a send"),
    }
    assert_eq!(db.credential.token, "new");
    assert!(!db.needs_refresh(100));
}

#[test]
fn failed_renewal_keeps_the_stale_credential() {
    let mut db = client(0);
    assert_eq!(db.refresh(None), Err(Error::Authentication));
    assert_eq!(db.credential.token, "tok");
    assert_eq!(db.refresh(Some(Credential { token: "n".into(), expires_at: 1 })), Ok(()));
    assert_eq!(db.credential.token, "n");
}

#[test]
fn outcomes_map_to_the_error_taxonomy() {
    assert_eq!(Firebase::settle(Method::Get, Some(200)), Ok(()));
    assert_eq!(Firebase::settle(Method::Put, Some(204)), Ok(()));
    assert_eq!(Firebase::settle(Method::Get, Some(404)), Err(Error::NotFound));
    assert_eq!(Firebase::settle(Method::Post, Some(500)), Err(Error::PostData));
    assert_eq!(Firebase::settle(Method::Put, Some(300)), Err(Error::PostData));
    assert_eq!(Firebase::settle(Method::Delete, Some(199)), Err(Error::DeleteData));
    assert_eq!(Firebase::settle(Method::Delete, None), Err(Error::Authentication));
    assert!(is_success(200) && is_success(299) && !is_success(300) && !is_success(199));
}

#[test]
fn error_messages() {
    assert_eq!(Error::URINotSet.message(), "FIREBASE_URI not set");
    assert_eq!(Error::Authentication.message(), "Authentication error");
    assert_eq!(Error::NotFound.message(), "Not found");
    assert_eq!(Error::PostData.message(), "Error posting data");
    assert_eq!(Error::DeleteData.message(), "Error deleting data");
}
