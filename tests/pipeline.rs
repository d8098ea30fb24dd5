use reminders::codec::{JsonField, RawMapping, RawRecord};
use reminders::error::Error;
use reminders::pipeline::{
    auth, authorize_current_user, finish_listing, finish_message, router, Payload, Plan, Request,
    Success, Verb,
};
use reminders::reminder::Reminder;
use reminders::response::{handle_404, ResponseMessage};
use reminders::store::{Credential, Firebase, Method, StoreStep};

const SECRET: &str = "s3cret";

fn request(verb: Verb, header: Option<&str>, payload: Payload) -> Request {
    Request {
        verb,
        path: "/reminders".into(),
        authorization: header.map(|h| h.to_string()),
        payload,
    }
}

fn good_header() -> Option<&'static str> {
    Some("Bearer s3cret")
}

fn reminder(id: Option<&str>) -> Reminder {
    Reminder {
        id: id.map(|s| s.to_string()),
        title: "x".into(),
        due: 5,
        priority: 1,
        assignee: Some("sam".into()),
    }
}

fn reply_of(plan: Plan) -> (u16, String) {
    match plan {
        Plan::Reply(r) => (r.status, r.body),
        Plan::Call(_) => panic!("expected an immediate reply"),
    }
}

#[test]
fn missing_or_wrong_secret_is_refused_before_the_store() {
    let secret = SECRET.to_string();
    let mut store_calls = 0;
    for header in [None, Some("Bearer wrong"), Some("s3cret"), Some("bearer s3cret"), Some("Bearer s3cret ")] {
        for verb in [Verb::Get, Verb::Post, Verb::Put, Verb::Delete, Verb::Patch] {
            let plan = router(request(verb, header, Payload::Record(reminder(Some("a")))), &secret);
            if let Plan::Call(_) = plan {
                store_calls += 1;
                continue;
            }
            let (status, body) = reply_of(plan);
            assert_eq!(status, 401);
            assert_eq!(body, r#"{"message":"Unauthorized"}"#);
        }
    }
    assert_eq!(store_calls, 0);
}

#[test]
fn gate_accepts_the_bearer_secret() {
    let secret = SECRET.to_string();
    assert!(authorize_current_user(&"Bearer s3cret".to_string(), &secret));
    assert!(!authorize_current_user(&"Bearer s3cre".to_string(), &secret));
    assert!(auth(&Some("Bearer s3cret".to_string()), &secret).is_ok());
    let refused = auth(&None, &secret).unwrap_err();
    assert_eq!(refused.status, 401);
}

#[test]
fn put_and_delete_without_id_are_bad_requests() {
    let secret = SECRET.to_string();
    for verb in [Verb::Put, Verb::Delete] {
        let (status, body) = reply_of(router(request(verb, good_header(), Payload::Record(reminder(None))), &secret));
        assert_eq!(status, 400);
        assert_eq!(body, r#"{"message":"Reminder is missing the id field"}"#);
    }
}

#[test]
fn get_lists_decoded_records() {
    let secret = SECRET.to_string();
    let plan = router(request(Verb::Get, good_header(), Payload::Unreadable), &secret);
    let call = match plan {
        Plan::Call(c) => c,
        Plan::Reply(_) => panic!("expected a store call"),
    };
    assert_eq!(call.op.method, Method::Get);
    assert_eq!(call.op.path, "reminders/v2");
    assert!(matches!(call.success, Success::Listing));

    let mut inner = RawRecord::new();
    inner.insert("title".into(), JsonField::Text("hello".into()));
    inner.insert("due".into(), JsonField::Unsigned(1234));
    let mut raw = RawMapping::new();
    raw.insert("abc".into(), inner);
    let reply = finish_listing(Ok(raw));
    assert_eq!(reply.status, 200);
    assert_eq!(
        reply.body,
        r#"[{"id":"abc","title":"Hello","due":1234,"priority":0,"assignee":null}]"#
    );
}

#[test]
fn empty_listing_is_an_empty_array() {
    let reply = finish_listing(Ok(RawMapping::new()));
    assert_eq!((reply.status, reply.body.as_str()), (200, "[]"));
}

#[test]
fn post_writes_without_id_and_answers_created() {
    let secret = SECRET.to_string();
    let plan = router(request(Verb::Post, good_header(), Payload::Record(reminder(None))), &secret);
    let call = match plan {
        Plan::Call(c) => c,
        Plan::Reply(_) => panic!("expected a store call"),
    };
    assert_eq!(call.op.method, Method::Post);
    assert_eq!(call.op.path, "reminders/v2");
    let body = call.op.body.clone().unwrap();
    assert_eq!(body, r#"{"title":"x","due":5,"priority":1,"assignee":"sam"}"#);
    assert!(!body.contains("\"id\""));
    let message = match call.success {
        Success::Message(m) => m,
        Success::Listing => panic!("expected a message"),
    };
    let reply = finish_message(message, Ok(()));
    assert_eq!(reply.status, 201);
    assert_eq!(reply.body, r#"{"message":"Created reminder"}"#);
}

#[test]
fn put_clears_id_and_targets_record_path() {
    let secret = SECRET.to_string();
    let plan = router(request(Verb::Put, good_header(), Payload::Record(reminder(Some("abc")))), &secret);
    let call = match plan {
        Plan::Call(c) => c,
        Plan::Reply(_) => panic!("expected a store call"),
    };
    assert_eq!(call.op.method, Method::Put);
    assert_eq!(call.op.path, "reminders/v2/abc");
    assert_eq!(
        call.op.body.as_deref(),
        Some(r#"{"title":"x","due":5,"priority":1,"assignee":"sam"}"#)
    );
    let message = match call.success {
        Success::Message(m) => m,
        Success::Listing => panic!("expected a message"),
    };
    assert_eq!(message.message(), "Updated reminder");
    assert_eq!(message.status(), 200);
}

#[test]
fn delete_targets_record_path() {
    let secret = SECRET.to_string();
    let plan = router(request(Verb::Delete, good_header(), Payload::Record(reminder(Some("abc")))), &secret);
    match plan {
        Plan::Call(c) => {
            assert_eq!(c.op.method, Method::Delete);
            assert_eq!(c.op.path, "reminders/v2/abc");
            assert!(c.op.body.is_none());
        }
        Plan::Reply(_) => panic!("expected a store call"),
    }
}

#[test]
fn patch_with_two_missing_ids_is_refused() {
    let secret = SECRET.to_string();
    let payload = Payload::Records(vec![reminder(None), reminder(None), reminder(Some("a"))]);
    let (status, body) = reply_of(router(request(Verb::Patch, good_header(), payload), &secret));
    assert_eq!(status, 400);
    assert_eq!(body, r#"{"message":"Reminder is missing id field"}"#);
}

#[test]
fn patch_with_one_missing_id_overwrites_collection() {
    let secret = SECRET.to_string();
    let payload = Payload::Records(vec![reminder(None), reminder(Some("a"))]);
    match router(request(Verb::Patch, good_header(), payload), &secret) {
        Plan::Call(c) => {
            assert_eq!(c.op.method, Method::Put);
            assert_eq!(c.op.path, "reminders/v2");
            assert_eq!(
                c.op.body.as_deref(),
                Some(
                    r#"{"":{"title":"x","due":5,"priority":1,"assignee":"sam"},"a":{"title":"x","due":5,"priority":1,"assignee":"sam"}}"#
                )
            );
        }
        Plan::Reply(_) => panic!("expected a store call"),
    }
}

#[test]
fn unmatched_path_or_method_is_not_found() {
    let secret = SECRET.to_string();
    let mut req = request(Verb::Get, good_header(), Payload::Unreadable);
    req.path = "/elsewhere".into();
    let (status, body) = reply_of(router(req, &secret));
    assert_eq!((status, body.as_str()), (404, r#"{"message":"Not found"}"#));
    let (status, _) = reply_of(router(request(Verb::Other, good_header(), Payload::Unreadable), &secret));
    assert_eq!(status, 404);
    let reply = handle_404();
    assert_eq!((reply.status, reply.body.as_str()), (404, r#"{"message":"Not found"}"#));
}

#[test]
fn unreadable_body_is_unprocessable() {
    let secret = SECRET.to_string();
    for verb in [Verb::Post, Verb::Put, Verb::Delete, Verb::Patch] {
        let (status, body) = reply_of(router(request(verb, good_header(), Payload::Unreadable), &secret));
        assert_eq!(status, 422);
        assert_eq!(body, r#"{"message":"Invalid request body"}"#);
    }
}

#[test]
fn store_failures_keep_the_success_status() {
    let cases = [
        (Error::NotFound, r#"{"message":"Not found"}"#),
        (Error::PostData, r#"{"message":"Error posting data"}"#),
        (Error::DeleteData, r#"{"message":"Error deleting data"}"#),
        (Error::Authentication, r#"{"message":"Authentication error"}"#),
    ];
    for (e, text) in cases {
        let mut m = ResponseMessage::from_text("Created reminder");
        let m = m.with_status(201);
        let reply = finish_message(m, Err(e));
        assert_eq!((reply.status, reply.body.as_str()), (201, text));
        let reply = finish_listing(Err(e));
        assert_eq!((reply.status, reply.body.as_str()), (200, text));
    }
}

#[test]
fn lapsed_credential_with_failed_renewal_never_reaches_the_store() {
    let secret = SECRET.to_string();
    let now: i64 = 1_000_000;
    let stale = Credential { token: "old".into(), expires_at: now - 5 };
    let mut db = Firebase::new(Some("https://db.example/".into()), Some(stale)).unwrap();
    let mut sends = 0;
    for verb in [Verb::Get, Verb::Post, Verb::Put, Verb::Delete, Verb::Patch] {
        let payload = if verb == Verb::Patch {
            Payload::Records(vec![reminder(Some("a"))])
        } else {
            Payload::Record(reminder(Some("a")))
        };
        let call = match router(request(verb, good_header(), payload), &secret) {
            Plan::Call(c) => c,
            Plan::Reply(_) => panic!("expected a store call"),
        };
        assert!(matches!(db.begin(&call.op, now), StoreStep::Renew));
        let outcome = match db.resume(&call.op, None) {
            StoreStep::Done(r) => r,
            StoreStep::Send(_) => {
                sends += 1;
                continue;
            }
            StoreStep::Renew => panic!("renewal asked twice"),
        };
        assert_eq!(outcome, Err(Error::Authentication));
        assert_eq!(db.credential.token, "old");
        let reply = match call.success {
            Success::Listing => finish_listing(Err(Error::Authentication)),
            Success::Message(m) => finish_message(m, outcome),
        };
        assert_eq!(reply.body, r#"{"message":"Authentication error"}"#);
        let expected = if verb == Verb::Post { 201 } else { 200 };
        assert_eq!(reply.status, expected);
    }
    assert_eq!(sends, 0);
}
