use flight_tracker::errors::AppError;
use flight_tracker::notify::{
    batch_alert_message, notification_title, price_alert_message, price_alert_outcome,
    send_batch_alerts,
};
use flight_tracker::types::PriceAlert;

fn alert(route: &str, old_price: u64, new_price: u64) -> PriceAlert {
    PriceAlert {
        id: String::from("a-1"),
        route: String::from(route),
        old_price,
        new_price,
        triggered_at: String::from("2024-01-01T00:00:00Z"),
    }
}

#[test]
fn price_alert_message_exact() {
    let m = price_alert_message("NYC-LAX", 300, 250);
    assert_eq!(m, "NYC-LAX dropped from $300 to $250!");
}

#[test]
fn batch_alert_message_exact() {
    let a = alert("MAD-BCN", 120, 80);
    assert_eq!(batch_alert_message(&a), "MAD-BCN dropped to $80!");
}

#[test]
fn notification_title_fixed() {
    assert_eq!(notification_title(), "\u{1F514} Price Alert");
}

#[test]
fn batch_counts_three_of_five() {
    let alerts = vec![
        alert("A-B", 100, 90),
        alert("C-D", 200, 150),
        alert("E-F", 300, 250),
        alert("G-H", 400, 350),
        alert("I-J", 500, 450),
    ];
    // Two of the five dispatches fail; the batch neither aborts nor errors.
    let delivered = vec![true, false, true, false, true];
    let n = send_batch_alerts(&alerts, &delivered);
    assert_eq!(n, 3);
}

#[test]
fn batch_counts_all_and_none() {
    let alerts = vec![alert("A-B", 100, 90), alert("C-D", 200, 150)];
    assert_eq!(send_batch_alerts(&alerts, &vec![true, true]), 2);
    assert_eq!(send_batch_alerts(&alerts, &vec![false, false]), 0);
    let empty: Vec<PriceAlert> = Vec::new();
    assert_eq!(send_batch_alerts(&empty, &Vec::new()), 0);
}

#[test]
fn single_failure_propagates() {
    let r = price_alert_outcome(Err(String::from("permission denied")));
    match r {
        Err(AppError::Notification(m)) => assert_eq!(m, "permission denied"),
        _ => panic!("expected a notification error"),
    }
}

#[test]
fn single_success_is_ok() {
    assert!(price_alert_outcome(Ok(())).is_ok());
}

#[test]
fn error_messages_exact() {
    assert_eq!(
        AppError::Database(String::from("locked")).message(),
        "Database error: locked"
    );
    assert_eq!(
        AppError::Notification(String::from("denied")).message(),
        "Notification error: denied"
    );
    assert_eq!(AppError::Io(String::from("missing")).message(), "IO error: missing");
    assert_eq!(AppError::Config(String::from("bad")).message(), "Config error: bad");
}
