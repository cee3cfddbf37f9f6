use shopfront::auth::{bearer_token, check_password, require_admin_role, require_user};
use shopfront::config::cors_origin;
use shopfront::error::{found_or_bad_request, AppError};
use shopfront::instant::Instant;
use shopfront::notification::{email_body, email_subject, notification_reply, product_email};
use shopfront::order_status::{is_final, Fulfillment, StatusWatch, WatchStep, WATCH_MAX_POLLS};
use shopfront::pagination::page_bounds;
use shopfront::rpc::{RpcCode, RpcStatus};

#[test]
fn order_service_errors_become_api_errors() {
    for code in [RpcCode::InvalidArgument, RpcCode::FailedPrecondition, RpcCode::NotFound] {
        let e = AppError::from_rpc_status(RpcStatus::new(code, "nope".to_string()));
        assert!(matches!(e, AppError::BadRequest(m) if m == "nope"));
    }
    for code in [RpcCode::Internal, RpcCode::Unavailable, RpcCode::Unknown] {
        let e = AppError::from_rpc_status(RpcStatus::new(code, "x".to_string()));
        assert!(matches!(e, AppError::InternalServerError));
    }
}

#[test]
fn errors_answer_with_status_and_message() {
    assert_eq!(AppError::Database("boom".to_string()).status_and_message(), (500, "Database Error".to_string()));
    assert_eq!(AppError::Unauthorized.status_and_message(), (401, "Unauthorized".to_string()));
    assert_eq!(AppError::Forbidden.status_and_message(), (403, "Forbidden".to_string()));
    assert_eq!(AppError::BadRequest("bad".to_string()).status_and_message(), (400, "bad".to_string()));
    assert_eq!(AppError::InternalServerError.status_and_message(), (500, "Internal Server Error".to_string()));
}

#[test]
fn insert_conflicts_are_bad_requests() {
    let e = AppError::from_insert_failure(true, "Username already exists", "dup".to_string());
    assert!(matches!(e, AppError::BadRequest(m) if m == "Username already exists"));
    let e = AppError::from_insert_failure(false, "Username already exists", "io".to_string());
    assert!(matches!(e, AppError::Database(d) if d == "io"));
}

#[test]
fn missing_records_are_bad_requests() {
    assert_eq!(found_or_bad_request(Some(3), "Post not found").unwrap(), 3);
    assert!(matches!(found_or_bad_request::<u8>(None, "Post not found"), Err(AppError::BadRequest(m)) if m == "Post not found"));
}

#[test]
fn bearer_tokens() {
    assert_eq!(bearer_token(Some("Bearer abc.def".to_string())).unwrap(), "abc.def");
    assert_eq!(bearer_token(Some("Bearer ".to_string())).unwrap(), "");
    assert!(matches!(bearer_token(Some("Basic abc".to_string())), Err(AppError::Unauthorized)));
    assert!(matches!(bearer_token(Some("bearer abc".to_string())), Err(AppError::Unauthorized)));
    assert!(matches!(bearer_token(Some("Bear".to_string())), Err(AppError::Unauthorized)));
    assert!(matches!(bearer_token(None), Err(AppError::Unauthorized)));
}

#[test]
fn only_admins_pass() {
    assert!(require_admin_role(Some("admin".to_string())).is_ok());
    assert!(matches!(require_admin_role(Some("user".to_string())), Err(AppError::Forbidden)));
    assert!(matches!(require_admin_role(None), Err(AppError::BadRequest(m)) if m == "User not found"));
}

#[test]
fn logins() {
    assert!(matches!(require_user::<u8>(None), Err(AppError::Unauthorized)));
    assert_eq!(require_user(Some(1)).unwrap(), 1);
    assert!(check_password(true).is_ok());
    assert!(matches!(check_password(false), Err(AppError::Unauthorized)));
}

#[test]
fn pages_default_to_ten_from_the_start() {
    assert_eq!(page_bounds(None, None), (10, 0));
    assert_eq!(page_bounds(Some(5), Some(20)), (5, 20));
}

#[test]
fn cors_default() {
    assert_eq!(cors_origin(None), "http://localhost:5173");
    assert_eq!(cors_origin(Some("https://shop.example".to_string())), "https://shop.example");
}

#[test]
fn fulfillment_moves_through_the_stages() {
    let mut f = Fulfillment::new();
    let mut seen = Vec::new();
    while let Some(s) = f.next_status() {
        seen.push(s);
    }
    assert_eq!(seen, vec!["paid", "shipped", "delivered"]);
    assert_eq!(f.next_status(), None);
}

#[test]
fn final_statuses() {
    assert!(is_final(&"delivered".to_string()));
    assert!(is_final(&"cancelled".to_string()));
    assert!(!is_final(&"shipped".to_string()));
}

#[test]
fn watch_sends_changes_only_and_stops_when_delivered() {
    let t = Instant::new(1_700_000_000, 0).unwrap();
    let mut w = StatusWatch::new(1);
    assert!(w.should_poll());
    match w.on_poll(Some(("created".to_string(), t))) {
        WatchStep::Send(u) => {
            assert_eq!(u.status, "created");
            assert_eq!(u.order_id, "00000000-0000-0000-0000-000000000001");
            assert_eq!(u.updated_at, "2023-11-14T22:13:20+00:00");
        },
        _ => panic!("expected an update"),
    }
    assert!(!w.should_poll());
    w.on_sent(true);
    assert!(w.should_poll());
    assert!(matches!(w.on_poll(Some(("created".to_string(), t))), WatchStep::Wait));
    assert!(matches!(w.on_poll(Some(("delivered".to_string(), t))), WatchStep::Send(_)));
    w.on_sent(true);
    assert!(!w.should_poll());
}

#[test]
fn watch_stops_when_the_order_or_the_subscriber_is_gone() {
    let t = Instant::new(0, 0).unwrap();
    let mut w = StatusWatch::new(1);
    assert!(matches!(w.on_poll(None), WatchStep::Stop));
    assert!(!w.should_poll());

    let mut w = StatusWatch::new(1);
    assert!(matches!(w.on_poll(Some(("paid".to_string(), t))), WatchStep::Send(_)));
    w.on_sent(false);
    assert!(!w.should_poll());
}

#[test]
fn watch_gives_up_after_its_polls() {
    let t = Instant::new(0, 0).unwrap();
    let mut w = StatusWatch::new(1);
    let mut polls = 0;
    while w.should_poll() {
        if let WatchStep::Send(_) = w.on_poll(Some(("paid".to_string(), t))) {
            w.on_sent(true);
        }
        polls += 1;
    }
    assert_eq!(polls, WATCH_MAX_POLLS);
}

#[test]
fn notification_texts() {
    assert_eq!(email_subject("Lamp"), "New Product Created: Lamp");
    let t = Instant::new(1_700_000_000, 5).unwrap();
    assert_eq!(
        email_body("Lamp", &t),
        "Your company has created a new product.\n\nProduct Name: Lamp\nCreated At: 2023-11-14 22:13:20 UTC\n\nThis is an automated notification."
    );
    assert_eq!(notification_reply("Lamp"), (true, "Notification received for product: Lamp".to_string()));
}

#[test]
fn product_email_addresses() {
    let t = Instant::new(1_700_000_000, 0).unwrap();
    let e = product_email("not an address", "a@b.example", "Lamp", &t).err().unwrap();
    assert_eq!(e.code, RpcCode::Internal);
    assert!(e.message.starts_with("invalid from address: "));
    let e = product_email("shop@b.example", "???", "Lamp", &t).err().unwrap();
    assert!(e.message.starts_with("invalid recipient address: "));
    assert!(product_email("shop@b.example", "alice@b.example", "Lamp", &t).is_ok());
}

#[test]
fn product_email_carries_sender_recipient_and_subject() {
    let t = Instant::new(1_700_000_000, 0).unwrap();
    let m = product_email("shop@b.example", "alice@b.example", "Lamp", &t).ok().unwrap().into_message();
    let text = String::from_utf8(m.formatted()).unwrap();
    assert!(text.contains("From: shop@b.example\r\n"));
    assert!(text.contains("To: alice@b.example\r\n"));
    assert!(text.contains("Subject: New Product Created: Lamp\r\n"));
    assert!(text.contains("Product Name: Lamp"));
    assert_eq!(m.envelope().to().len(), 1);
    assert_eq!(m.envelope().to()[0].to_string(), "alice@b.example");
    assert_eq!(m.envelope().from().unwrap().to_string(), "shop@b.example");
}

#[test]
fn representable_instants_follow_chrono() {
    assert!(Instant::new(-8_334_601_228_800, 0).is_some());
    assert!(Instant::new(-8_334_601_228_801, 999_999_999).is_none());
    assert!(Instant::new(8_210_266_876_799, 999_999_999).is_some());
    assert!(Instant::new(8_210_266_876_800, 0).is_none());
    assert!(Instant::new(1_483_228_799, 1_999_999_999).is_some());
    assert!(Instant::new(1_483_228_798, 1_000_000_000).is_none());
    assert!(Instant::new(-1, 1_000_000_000).is_some());
}

#[test]
fn instants_outside_chrono_are_refused() {
    assert!(Instant::new(i64::MAX, 0).is_none());
    assert!(Instant::new(0, 2_000_000_000).is_none());
    assert!(Instant::parse_rfc3339("2024-02-30T00:00:00Z").is_err());
    let t = Instant::parse_rfc3339("2023-11-14T23:13:20+01:00").unwrap();
    assert_eq!((t.secs(), t.nanos()), (1_700_000_000, 0));
}
