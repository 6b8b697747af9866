use ticket_grab::login::{join_cookies, qrcode_poll_move, QrCodeLoginStatus, QrPollMove};
use ticket_grab::account::extract_csrf;
use ticket_grab::input::{check_input_ticket, parses_as_u32};

#[test]
fn csrf_from_cookie() {
    assert_eq!(extract_csrf("SESSDATA=abc; bili_jct=0123abcd; DedeUserID=42"), "0123abcd");
    assert_eq!(extract_csrf("bili_jct=first;bili_jct=second"), "first");
    assert_eq!(extract_csrf("  bili_jct=padded  "), "padded");
    assert_eq!(extract_csrf("SESSDATA=abc"), "");
    assert_eq!(extract_csrf(""), "");
}

#[test]
fn u32_parsing_rules() {
    assert!(parses_as_u32("12345"));
    assert!(parses_as_u32("+7"));
    assert!(parses_as_u32("4294967295"));
    assert!(!parses_as_u32("4294967296"));
    assert!(!parses_as_u32("-1"));
    assert!(!parses_as_u32("+"));
    assert!(!parses_as_u32(""));
    assert!(!parses_as_u32("12a"));
}

#[test]
fn bare_ticket_id() {
    let mut s = "85939".to_string();
    assert!(check_input_ticket(&mut s));
    assert_eq!(s, "85939");
    let mut e = String::new();
    assert!(!check_input_ticket(&mut e));
    let mut bad = "abc".to_string();
    assert!(!check_input_ticket(&mut bad));
    assert_eq!(bad, "abc");
}

#[test]
fn ticket_link_id() {
    let mut s = "https://show.bilibili.com/platform/detail.html?id=85939&from=pc".to_string();
    assert!(check_input_ticket(&mut s));
    assert_eq!(s, "85939");
    let mut t = "https://show.bilibili.com/platform/detail.html?id=102194".to_string();
    assert!(check_input_ticket(&mut t));
    assert_eq!(t, "102194");
}

#[test]
fn ticket_link_refused() {
    let mut s = "https://show.bilibili.com/platform/detail.html?id=12&x=1".to_string();
    assert!(!check_input_ticket(&mut s));
    assert_eq!(s, "https://show.bilibili.com/platform/detail.html?id=");
    let mut short = "https://b23.tv/abcdef".to_string();
    assert!(!check_input_ticket(&mut short));
    assert_eq!(short, "https://b23.tv/abcdef");
}


#[test]
fn cookies_joined() {
    assert_eq!(join_cookies(&vec![]), "");
    assert_eq!(join_cookies(&vec!["a=1".to_string()]), "a=1");
    assert_eq!(join_cookies(&vec!["a=1".to_string(), "b=2".to_string(), "c=3".to_string()]), "a=1; b=2; c=3");
}

#[test]
fn qrcode_poll_moves() {
    assert!(matches!(
        qrcode_poll_move(0, 1, "a=1".to_string(), String::new()),
        QrPollMove::Done(QrCodeLoginStatus::Success(c)) if c == "a=1"
    ));
    assert!(matches!(qrcode_poll_move(0, 1, String::new(), String::new()), QrPollMove::Done(QrCodeLoginStatus::Failed(_))));
    assert!(matches!(qrcode_poll_move(86038, 1, String::new(), String::new()), QrPollMove::Done(QrCodeLoginStatus::Expired)));
    assert!(matches!(qrcode_poll_move(86101, 1, String::new(), String::new()), QrPollMove::Wait(1000)));
    assert!(matches!(qrcode_poll_move(86090, 59, String::new(), String::new()), QrPollMove::Done(QrCodeLoginStatus::Expired)));
    assert!(matches!(
        qrcode_poll_move(-3, 1, String::new(), "bad".to_string()),
        QrPollMove::Done(QrCodeLoginStatus::Failed(m)) if m == "bad"
    ));
}
