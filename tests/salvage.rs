use ticket_grab::classify::FatalKind;
use ticket_grab::pipeline::{FailReason, Outcome};
use ticket_grab::salvage::{
    after_candidate, first_move, salvage_candidates, should_skip_ticket, Candidate, ProjectSnapshot,
    SalvageMove, SalvageStop,
};
use ticket_grab::ticket::{SaleFlag, ScreenInfo, ScreenTicketInfo};

fn flag() -> SaleFlag {
    SaleFlag { number: 2, display_name: "on sale".to_string() }
}

fn ticket(id: usize, desc: &str, screen_name: &str, clickable: bool) -> ScreenTicketInfo {
    ScreenTicketInfo {
        saleStart: 0,
        saleEnd: 0,
        id,
        project_id: 1,
        price: 100,
        desc: desc.to_string(),
        sale_start: String::new(),
        sale_end: String::new(),
        ticket_type: 1,
        sale_type: 1,
        is_sale: 0,
        num: 1,
        sale_flag: flag(),
        clickable,
        sale_flag_number: 2,
        screen_name: screen_name.to_string(),
    }
}

fn screen(id: usize, name: &str, clickable: bool, tickets: Vec<ScreenTicketInfo>) -> ScreenInfo {
    ScreenInfo {
        sale_flag: flag(),
        id,
        start_time: 0,
        name: name.to_string(),
        ticket_type: 1,
        screen_type: 1,
        delivery_type: 1,
        pick_seat: 0,
        ticket_list: tickets,
        clickable,
        sale_end: 0,
        sale_start: 0,
        sale_flag_number: 2,
        show_date: String::new(),
    }
}

fn two_by_two() -> ProjectSnapshot {
    ProjectSnapshot {
        sale_flag_number: 2,
        id_bind: 1,
        screen_list: vec![
            screen(10, "Day 1", true, vec![
                ticket(101, "Standard pass", "Day 1", true),
                ticket(102, "VIP pass with gifts", "Day 1", true),
            ]),
            screen(20, "Day 2", true, vec![
                ticket(201, "Standard pass", "Day 2", true),
                ticket(202, "VIP pass with gifts", "Day 2", true),
            ]),
        ],
    }
}

#[test]
fn skip_keyword_leaves_ticket_type_out() {
    let words = Some(vec!["vip".to_string()]);
    let cands = salvage_candidates(&two_by_two(), &words).unwrap();
    let ids: Vec<usize> = cands.iter().map(|c| c.ticket_id).collect();
    assert_eq!(ids, vec![101, 201]);
    assert!(cands.iter().all(|c| c.ticket_id != 102 && c.ticket_id != 202));
}

#[test]
fn no_skip_words_tries_everything() {
    let cands = salvage_candidates(&two_by_two(), &None).unwrap();
    assert_eq!(
        cands,
        vec![
            Candidate { screen_index: 0, ticket_index: 0, screen_id: 10, ticket_id: 101 },
            Candidate { screen_index: 0, ticket_index: 1, screen_id: 10, ticket_id: 102 },
            Candidate { screen_index: 1, ticket_index: 0, screen_id: 20, ticket_id: 201 },
            Candidate { screen_index: 1, ticket_index: 1, screen_id: 20, ticket_id: 202 },
        ]
    );
}

#[test]
fn skip_matches_ignore_case() {
    let t = ticket(1, "Early BIRD", "Saturday", true);
    assert!(should_skip_ticket(&t, &Some(vec!["bird".to_string()])));
    assert!(should_skip_ticket(&t, &Some(vec!["SATUR".to_string()])));
    assert!(!should_skip_ticket(&t, &Some(vec!["vip".to_string()])));
    assert!(!should_skip_ticket(&t, &None));
    assert!(!should_skip_ticket(&t, &Some(vec![])));
}

#[test]
fn unsellable_entries_are_not_tried() {
    let mut p = two_by_two();
    p.screen_list[0].clickable = false;
    p.screen_list[1].ticket_list[0].clickable = false;
    let cands = salvage_candidates(&p, &None).unwrap();
    let ids: Vec<usize> = cands.iter().map(|c| c.ticket_id).collect();
    assert_eq!(ids, vec![202]);
}

#[test]
fn project_off_sale_stops() {
    let mut p = two_by_two();
    p.sale_flag_number = 3;
    assert_eq!(salvage_candidates(&p, &None).unwrap_err(), SalvageStop::NotOnSale);
    p.sale_flag_number = 8;
    assert!(salvage_candidates(&p, &None).is_ok());
}

#[test]
fn unbound_project_stops() {
    let mut p = two_by_two();
    p.id_bind = 0;
    assert_eq!(salvage_candidates(&p, &None).unwrap_err(), SalvageStop::UnsupportedBindType);
}

#[test]
fn fatal_code_skips_rest_of_session() {
    let cands = salvage_candidates(&two_by_two(), &None).unwrap();
    let fatal = Outcome::Failure(FailReason::Fatal(FatalKind::Unsellable));
    assert!(matches!(after_candidate(&cands, 0, &fatal), SalvageMove::Run(2)));
    assert!(matches!(after_candidate(&cands, 2, &fatal), SalvageMove::Rescan { delay_ms: 2000 }));
}

#[test]
fn exhausted_candidate_moves_on() {
    let cands = salvage_candidates(&two_by_two(), &None).unwrap();
    let tired = Outcome::Failure(FailReason::OrderRetriesExhausted);
    assert!(matches!(after_candidate(&cands, 0, &tired), SalvageMove::Run(1)));
    assert!(matches!(after_candidate(&cands, 3, &tired), SalvageMove::Rescan { delay_ms: 2000 }));
}

#[test]
fn success_stops_salvage() {
    let cands = salvage_candidates(&two_by_two(), &None).unwrap();
    let ok = Outcome::Success {
        order_id: 5,
        pay_token: "p".to_string(),
        pay_param: "{}".to_string(),
        confirm_details: "{}".to_string(),
    };
    match after_candidate(&cands, 1, &ok) {
        SalvageMove::Stop(Outcome::Success { order_id, .. }) => assert_eq!(order_id, 5),
        _ => panic!("expected stop"),
    }
}

#[test]
fn empty_scan_rescans() {
    assert!(matches!(first_move(&vec![]), SalvageMove::Rescan { delay_ms: 2000 }));
}

#[test]
fn cancel_and_unsupported_challenge_moves() {
    let cands = salvage_candidates(&two_by_two(), &None).unwrap();
    let cancelled = Outcome::Failure(FailReason::Cancelled);
    assert!(matches!(after_candidate(&cands, 1, &cancelled), SalvageMove::Stop(Outcome::Failure(FailReason::Cancelled))));
    let unsupported = Outcome::Failure(FailReason::UnsupportedChallenge);
    assert!(matches!(after_candidate(&cands, 1, &unsupported), SalvageMove::Rescan { delay_ms: 2000 }));
}

#[test]
fn first_move_runs_first_candidate() {
    let cands = salvage_candidates(&two_by_two(), &None).unwrap();
    assert!(matches!(first_move(&cands), SalvageMove::Run(0)));
}
