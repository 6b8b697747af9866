use ticket_grab::config::CustomConfig;
use ticket_grab::ctoken::CTokenGenerator;
use ticket_grab::grab::{grab_mode_from, grab_result, params_for, start_grab, stop_result, GrabMode};
use ticket_grab::log_collector::LogCollector;
use ticket_grab::login::{password_login, QrCodeLoginStatus};
use ticket_grab::pipeline::{FailReason, Outcome};
use ticket_grab::push::PushConfig;
use ticket_grab::salvage::SalvageStop;
use ticket_grab::tasks::qrcode_login_result;
use ticket_grab::text::text_contains;
use ticket_grab::ui::{check_default, get_id_hint, mask_id};

#[test]
fn zero_ctoken_payload() {
    let g = CTokenGenerator::new(1, 2, 3);
    assert_eq!(g.payload(), vec![0u8; 32]);
    let expected = format!("{}=", "A".repeat(43));
    assert_eq!(g.encode(), expected);
}

#[test]
fn ctoken_layout_saturates() {
    let mut g = CTokenGenerator::new(0, 0, 300);
    g.set_stage(false, 0, 2000, 50, 7);
    let p = g.payload();
    assert_eq!(p[0], 7);
    assert_eq!(p[2 * 2], 2);
    assert_eq!(p[2 * 4], 255);
    assert_eq!(p[2 * 8], 1);
    assert_eq!(p[2 * 9], 44);
    assert!(p.iter().skip(1).step_by(2).all(|&b| b == 0));
}

#[test]
fn ctoken_create_stage() {
    let mut g = CTokenGenerator::new(1000, 10, 5);
    g.set_stage(true, 1100, 1500, 9, 0);
    assert_eq!(g.touch_event, 255);
    assert_eq!(g.time_difference, 110);
    assert_eq!(g.timer, 115);
    assert_eq!(g.page_unload, 25);
}

#[test]
fn generated_ctoken_in_range() {
    let mut g = CTokenGenerator::new(0, 0, 10);
    let t = g.generate_ctoken(false);
    assert_eq!(t.len(), 44);
    assert!((1000..=3000).contains(&g.screen_height));
    assert!((3..=10).contains(&g.touch_event));
}

#[test]
fn masks_identity_numbers() {
    assert_eq!(mask_id("123456"), "123456");
    assert_eq!(mask_id("1234567"), "123*567");
    assert_eq!(mask_id("110101199001011234"), "110******234");
}

#[test]
fn form_helpers() {
    assert_eq!(check_default(true), "1");
    assert_eq!(check_default(false), "0");
    assert_eq!(get_id_hint(1), "请输入护照号码");
    assert_eq!(get_id_hint(9), "请输入证件号码");
}

#[test]
fn password_login_points_to_scan_page() {
    assert!(password_login("u", "p").unwrap().contains("qrcode_key="));
}

#[test]
fn log_collector_drains() {
    let mut c = LogCollector::new();
    assert!(c.get_logs().is_none());
    c.add("one".to_string());
    c.add("two".to_string());
    assert_eq!(c.get_logs().unwrap(), vec!["one".to_string(), "two".to_string()]);
    assert!(c.get_logs().is_none());
    c.add("x".to_string());
    c.clear_logs();
    assert!(c.logs.is_empty());
}

#[test]
fn default_configs() {
    let c = CustomConfig::new();
    assert!(c.open_custom_ua && c.enable_token_verify);
    assert_eq!(c.captcha_mode, 0);
    let p = PushConfig::new();
    assert!(!p.enabled);
    assert!(p.smtp_config.smtp_server.is_empty());
}

#[test]
fn substring_search() {
    assert!(text_contains("hello world", "o w"));
    assert!(text_contains("abc", ""));
    assert!(!text_contains("abc", "abcd"));
    assert!(!text_contains("abc", "cb"));
}

#[test]
fn grab_modes() {
    assert_eq!(grab_mode_from(0), Some(GrabMode::Scheduled));
    assert_eq!(grab_mode_from(2), Some(GrabMode::Salvage));
    assert_eq!(grab_mode_from(3), None);
}

#[test]
fn results_carry_outcome() {
    let ok = Outcome::Success {
        order_id: 3,
        pay_token: "pt".to_string(),
        pay_param: "{\"code_url\":\"x\"}".to_string(),
        confirm_details: "{\"count\":1}".to_string(),
    };
    let r = grab_result("t".to_string(), 9, &ok);
    assert!(r.success);
    assert_eq!(r.order_id, Some(3));
    assert_eq!(r.pay_param.as_deref(), Some("{\"code_url\":\"x\"}"));
    assert_eq!(r.confirm_details.as_deref(), Some("{\"count\":1}"));
    let f = grab_result("t".to_string(), 9, &Outcome::Failure(FailReason::Cancelled));
    assert!(!f.success && !f.message.is_empty());
    assert!(f.pay_param.is_none() && f.confirm_details.is_none());
    let s = stop_result("t".to_string(), 9, SalvageStop::NotOnSale);
    assert!(!s.success && !s.message.is_empty());
}

#[test]
fn qrcode_result_fields() {
    let r = qrcode_login_result("t".to_string(), QrCodeLoginStatus::Success("ck".to_string()));
    assert_eq!(r.cookie.as_deref(), Some("ck"));
    assert!(r.error.is_none());
    let r = qrcode_login_result("t".to_string(), QrCodeLoginStatus::Expired);
    assert!(r.cookie.is_none() && r.error.is_none());
}

#[test]
fn mode_limits() {
    let s = params_for(GrabMode::Salvage);
    assert_eq!(s.max_order_retries, Some(30));
    assert_eq!(s.max_token_retries, 1);
    let i = params_for(GrabMode::Immediate);
    assert_eq!(i.max_order_retries, None);
    assert_eq!(i.max_token_retries, 5);
    assert_eq!(i.order_delay_ms, 400);
}

#[test]
fn unknown_mode_gives_one_failed_result() {
    assert_eq!(start_grab("t".to_string(), 1, 1).ok(), Some(GrabMode::Immediate));
    match start_grab("t".to_string(), 1, 7) {
        Err(r) => {
            assert!(!r.success);
            assert_eq!(r.task_id, "t");
            assert_eq!(r.message, "unknown grab mode");
        }
        Ok(_) => panic!("expected a failed result"),
    }
}
