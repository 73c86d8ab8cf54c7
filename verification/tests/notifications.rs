use service_vendor::balance::{
    balance_kind, byte_borders, bytes_balance_outcome, find_crossed_border, first_crossed, plan_balance_notification,
    round_through_f64, BalanceKind, BalanceOutcome, BalancePlan,
};
use service_vendor::decimal::parse_u128;
use service_vendor::location::{
    location_outcome, roaming_alert_due, roaming_check_needed, roaming_warning_message, LocationOutcome,
};

fn bytes_alert(current: &str, last: &str, package_bytes: Option<u128>) -> Option<(String, String, String)> {
    assert_eq!(balance_kind(current), BalanceKind::Bytes);
    let current = parse_u128(current).unwrap();
    let borders = byte_borders(package_bytes);
    match bytes_balance_outcome(current, Some(last), &borders).unwrap() {
        BalanceOutcome::Checked(Some(alert)) => Some((alert.balance_less, alert.balance_lable, alert.balance_type)),
        BalanceOutcome::Checked(None) => None,
        BalanceOutcome::NoPreviousBalance => panic!("a balance was on record"),
    }
}

#[test]
fn test_send_telegram_notification_balance_euro() {
    let border_euro = 10.0_f64;
    let border = border_euro.to_string();
    let border_less = "9.0".to_owned();
    let border_more = "11.0".to_owned();
    assert_eq!(balance_kind(&border_less), BalanceKind::Euro);
    assert!(matches!(plan_balance_notification(&border_less, Some(&border_more), None), BalancePlan::Euro));
    let current: f64 = border_less.parse().unwrap();
    let last: f64 = border_more.parse().unwrap();
    let borders_euro = [(5.0_f64, "fix"), (10.0_f64, "fix")];
    let flags: Vec<bool> = borders_euro.iter().map(|(b, _)| last >= *b && current < *b).collect();
    let i = first_crossed(&flags).unwrap();
    assert_eq!(borders_euro[i].0.to_string(), border);
    assert_eq!(borders_euro[i].1, "fix");
    assert_eq!(BalanceKind::Euro.type_label(), "euro");
}

#[test]
fn test_send_telegram_notification_balance_bytes() {
    let border_bytes: u128 = 200 * 1024 * 1024;
    let border = border_bytes.to_string();
    let border_less = (border_bytes - 1).to_string();
    let border_more = (border_bytes + 1).to_string();
    let package_bytes = 1024 * 1024 * 1024;
    let alert = bytes_alert(&border_less, &border_more, Some(package_bytes)).unwrap();
    assert_eq!(alert, (border, "fix".to_owned(), "bytes".to_owned()));
}

#[test]
fn test_send_telegram_notification_balance_bytes_percent() {
    let current_balance: u128 = 107_374_182;
    let current_balance_less = (current_balance - 10).to_string();
    let current_balance_more = (current_balance + 10).to_string();
    let alert = bytes_alert(&current_balance_less, &current_balance_more, Some(1024 * 1024 * 1024)).unwrap();
    assert_eq!(alert, (current_balance.to_string(), "10%".to_owned(), "bytes".to_owned()));
}

#[test]
fn balance_without_previous_answers_500() {
    let borders = byte_borders(None);
    let outcome = bytes_balance_outcome(5, None, &borders).unwrap();
    assert!(matches!(outcome, BalanceOutcome::NoPreviousBalance));
    let reply = outcome.reply();
    assert_eq!((reply.status, reply.body.as_str()), (500, "Something went wrong"));
}

#[test]
fn balance_on_record_that_is_not_a_number_is_refused() {
    let borders = byte_borders(None);
    assert!(bytes_balance_outcome(5, Some("abc"), &borders).is_err());
}

#[test]
fn balance_that_did_not_drop_raises_no_alert() {
    assert_eq!(bytes_alert("300000000", "100", None), None);
    assert_eq!(bytes_alert("209715200", "209715200", None), None);
    let borders = byte_borders(None);
    let outcome = bytes_balance_outcome(209715200, Some("209715200"), &borders).unwrap();
    let reply = outcome.reply();
    assert_eq!((reply.status, reply.body.as_str()), (200, "Ok"));
}

#[test]
fn only_the_first_crossed_border_alerts() {
    // Both fixed borders are crossed: the 200 MiB one comes first.
    let alert = bytes_alert("1", "2000000000", None).unwrap();
    assert_eq!(alert.0, "209715200");
    let borders = byte_borders(None);
    assert_eq!(find_crossed_border(2_000_000_000, 300_000_000, &borders), Some(1));
    assert_eq!(first_crossed(&vec![false, true, true]), Some(1));
    assert_eq!(first_crossed(&vec![false, false]), None);
}

#[test]
fn byte_borders_in_order() {
    let borders = byte_borders(Some(1_073_741_824));
    let view: Vec<(u128, String)> = borders.iter().map(|b| (b.value, b.label.clone())).collect();
    assert_eq!(
        view,
        vec![
            (209_715_200, "fix".to_owned()),
            (1_073_741_824, "fix".to_owned()),
            (107_374_182, "10%".to_owned()),
        ]
    );
    assert_eq!(byte_borders(None).len(), 2);
}

#[test]
fn percent_border_goes_through_f64() {
    let exact: u128 = 1 << 53;
    assert_eq!(round_through_f64(exact + 1), exact);
    assert_eq!(round_through_f64(exact + 3), exact + 4);
    assert_eq!(round_through_f64(12345), 12345);
    for n in [0u128, 7, exact - 1, exact + 1, exact + 3, (1u128 << 70) + 12345, 1u128 << 100, 1u128 << 127, u128::MAX - 5, u128::MAX] {
        assert_eq!(round_through_f64(n), (n as f64).round() as u128);
    }
    // A package of 2^60 bytes: its tenth is beyond 2^53 and is rounded as f64 rounds it.
    let package: u128 = 1 << 60;
    let borders = byte_borders(Some(package));
    assert_eq!(borders[2].value, (((package * 10) / 100) as f64).round() as u128);
}

#[test]
fn test_send_telegram_notification_location() {
    let last_location = "Russia".to_owned();
    let current_location = "Portugal".to_owned();
    let outcome = location_outcome(Some(&last_location), &current_location);
    assert_eq!(outcome, LocationOutcome::Checked { notify: true });
    assert_eq!(outcome.reply().status, 200);
    assert_eq!(
        location_outcome(Some(&current_location), &current_location),
        LocationOutcome::Checked { notify: false }
    );
}

#[test]
fn location_without_previous_answers_500() {
    let outcome = location_outcome(None, "Portugal");
    assert_eq!(outcome, LocationOutcome::NoPreviousLocation);
    let reply = outcome.reply();
    assert_eq!((reply.status, reply.body.as_str()), (500, "Something went wrong"));
}

fn states(items: &[&str]) -> Vec<String> {
    items.iter().map(|s| s.to_string()).collect()
}

#[test]
fn test_send_support_warning_if_roaming_not_allowed1() {
    let current_state = "plmnRoamingNotAllowed";
    assert!(roaming_check_needed(current_state));
    let last_states1 = states(&["plmnRoamingNotAllowed", "plmnRoamingNotAllowed", "ALLOW"]);
    assert!(!roaming_alert_due(&last_states1));
}

#[test]
fn test_send_support_warning_if_roaming_not_allowed2() {
    let current_state = "plmnRoamingNotAllowed";
    assert!(roaming_check_needed(current_state));
    let last_states2 = states(&["plmnRoamingNotAllowed", "plmnRoamingNotAllowed", "plmnRoamingNotAllowed"]);
    assert!(roaming_alert_due(&last_states2));
}

#[test]
fn test_send_support_warning_if_roaming_not_allowed3() {
    let current_state = "plmnRoamingNotAllowed";
    assert!(roaming_check_needed(current_state));
    let last_states3 = states(&["ALLOW"]);
    assert!(!roaming_alert_due(&last_states3));
}

#[test]
fn test_send_support_warning_if_roaming_not_allowed4() {
    let current_state = "plmnRoamingNotAllowed";
    assert!(roaming_check_needed(current_state));
    let last_states4 = states(&["plmnRoamingNotAllowed"]);
    assert!(!roaming_alert_due(&last_states4));
}

#[test]
fn roaming_only_checked_on_refusal() {
    assert!(!roaming_check_needed("ALLOW"));
    assert!(!roaming_check_needed(""));
    assert!(!roaming_alert_due(&states(&[])));
    assert!(!roaming_alert_due(&states(&["plmnRoamingNotAllowed", "ALLOW", "plmnRoamingNotAllowed"])));
    assert!(roaming_alert_due(&states(&["plmnRoamingNotAllowed", "other", "plmnRoamingNotAllowed"])));
}

#[test]
fn roaming_warning_text() {
    assert_eq!(
        roaming_warning_message("250011234567890"),
        "WARNING: IMSI 250011234567890 could not connect to roaming during 30 min"
    );
}

fn planned_alert(balance: &str, last: Option<&str>, package_bytes: Option<u128>) -> Option<(String, String, String)> {
    match plan_balance_notification(balance, last, package_bytes) {
        BalancePlan::Decided(BalanceOutcome::Checked(Some(alert))) => {
            Some((alert.balance_less, alert.balance_lable, alert.balance_type))
        },
        BalancePlan::Decided(BalanceOutcome::Checked(None)) => None,
        BalancePlan::Decided(BalanceOutcome::NoPreviousBalance) => panic!("a balance was on record"),
        BalancePlan::Euro => panic!("a balance in bytes"),
    }
}

#[test]
fn planned_balance_notifications() {
    assert_eq!(
        planned_alert("107374172", Some("107374192"), Some(1 << 30)),
        Some(("107374182".to_owned(), "10%".to_owned(), "bytes".to_owned()))
    );
    assert_eq!(
        planned_alert("209715199", Some("209715201"), None),
        Some(("209715200".to_owned(), "fix".to_owned(), "bytes".to_owned()))
    );
    assert_eq!(planned_alert("5", Some("4"), None), None);
    match plan_balance_notification("5", None, None) {
        BalancePlan::Decided(outcome) => assert_eq!(outcome.reply().status, 500),
        BalancePlan::Euro => panic!("a balance in bytes"),
    }
    assert!(matches!(
        plan_balance_notification("9.0", None, None),
        BalancePlan::Decided(BalanceOutcome::NoPreviousBalance)
    ));
    assert!(matches!(plan_balance_notification("9.0", Some("11.0"), None), BalancePlan::Euro));
}

#[test]
fn euro_balance_without_previous_answers_500() {
    match plan_balance_notification("9.0", None, None) {
        BalancePlan::Decided(outcome) => {
            let reply = outcome.reply();
            assert_eq!((reply.status, reply.body.as_str()), (500, "Something went wrong"));
        },
        BalancePlan::Euro => panic!("nothing to compare"),
    }
}
