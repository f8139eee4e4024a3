use edge_studio::ditto_app_config::DittoAppConfig;
use edge_studio::document::{Field, Row};
use edge_studio::live_query::{Phase, SubscriptionHandle};
use edge_studio::logging::{LogCache, LogLevel};

fn sample(id: &str, name: &str) -> DittoAppConfig {
    DittoAppConfig {
        id: id.to_string(),
        name: name.to_string(),
        app_id: "app".to_string(),
        auth_token: "token".to_string(),
        auth_url: String::new(),
        websocket_url: "wss://ws".to_string(),
        http_api_url: "https://api".to_string(),
        http_api_key: "key".to_string(),
        mongo_db_connection_string: String::new(),
        mode: "offline".to_string(),
        allow_untrusted_certs: true,
    }
}

fn rows(names: &[&str]) -> Vec<Row> {
    names.iter().map(|name| sample(name, name).to_row()).collect()
}

fn names(delivery: Option<Vec<DittoAppConfig>>) -> Option<Vec<String>> {
    delivery.map(|configs| configs.into_iter().map(|c| c.name).collect())
}

fn some(list: &[&str]) -> Option<Vec<String>> {
    Some(list.iter().map(|name| name.to_string()).collect())
}

fn messages(log: &LogCache) -> Vec<(LogLevel, String)> {
    log.get_entries()
        .into_iter()
        .map(|e| {
            assert_eq!(e.target, "observer");
            (e.level, e.message)
        })
        .collect()
}

fn info(message: &str) -> (LogLevel, String) {
    (LogLevel::Info, message.to_string())
}

fn error(message: &str) -> (LogLevel, String) {
    (LogLevel::Error, message.to_string())
}

#[test]
fn new_subscription_is_idle() {
    let handle = SubscriptionHandle::new("things", "SELECT * FROM things");
    assert_eq!(handle.collection(), "things");
    assert_eq!(handle.query(), "SELECT * FROM things");
    assert_eq!(handle.phase(), Phase::Idle);
    assert!(handle.is_active());
}

#[test]
fn change_on_an_idle_subscription_is_delivered_at_once() {
    let mut log = LogCache::new(20);
    let mut handle = SubscriptionHandle::new("c", "q");
    let delivery = handle.on_change(&mut log, rows(&["Alpha", "Beta"]));
    assert_eq!(names(delivery), some(&["Alpha", "Beta"]));
    assert_eq!(handle.phase(), Phase::Delivering);
    assert_eq!(
        messages(&log),
        vec![
            info("App config observer triggered - data changed"),
            info("Observer parsed app config: Alpha"),
            info("Observer parsed app config: Beta"),
            info("Observer emitting 2 app configs"),
        ]
    );
}

#[test]
fn update_after_an_upsert_is_delivered_exactly_once() {
    let mut log = LogCache::new(20);
    let mut handle = SubscriptionHandle::new("c", "q");
    let mut deliveries = Vec::new();
    if let Some(records) = handle.on_change(&mut log, rows(&["Alpha"])) {
        deliveries.push(records);
    }
    let mut next = handle.on_delivered(&mut log, &Ok(()));
    while let Some(records) = next {
        deliveries.push(records);
        next = handle.on_delivered(&mut log, &Ok(()));
    }
    assert_eq!(deliveries, vec![vec![sample("Alpha", "Alpha")]]);
    assert_eq!(handle.phase(), Phase::Idle);
    assert_eq!(handle.on_delivered(&mut log, &Ok(())), None);
}

#[test]
fn changes_during_a_delivery_are_held_back_and_the_latest_wins() {
    let mut log = LogCache::new(50);
    let mut handle = SubscriptionHandle::new("c", "q");
    assert_eq!(names(handle.on_change(&mut log, rows(&["one"]))), some(&["one"]));
    assert_eq!(handle.on_change(&mut log, rows(&["two"])), None);
    assert_eq!(handle.on_change(&mut log, rows(&["two", "three"])), None);
    assert_eq!(handle.phase(), Phase::Delivering);
    let next = handle.on_delivered(&mut log, &Ok(()));
    assert_eq!(names(next), some(&["two", "three"]));
    assert_eq!(handle.phase(), Phase::Delivering);
    assert_eq!(handle.on_delivered(&mut log, &Ok(())), None);
    assert_eq!(handle.phase(), Phase::Idle);
    assert_eq!(
        messages(&log),
        vec![
            info("App config observer triggered - data changed"),
            info("Observer parsed app config: one"),
            info("Observer emitting 1 app configs"),
            info("App config observer triggered - data changed"),
            info("App config observer triggered - data changed"),
            info("Successfully emitted app configs update to frontend"),
            info("Observer parsed app config: two"),
            info("Observer parsed app config: three"),
            info("Observer emitting 2 app configs"),
            info("Successfully emitted app configs update to frontend"),
        ]
    );
}

#[test]
fn failed_delivery_is_logged_and_the_subscription_goes_on() {
    let mut log = LogCache::new(20);
    let mut handle = SubscriptionHandle::new("c", "q");
    handle.on_change(&mut log, rows(&["one"]));
    log.clear();
    assert_eq!(handle.on_delivered(&mut log, &Err("window closed".to_string())), None);
    assert_eq!(messages(&log), vec![error("Failed to emit app configs update: window closed")]);
    assert!(handle.is_active());
    assert_eq!(handle.phase(), Phase::Idle);
    assert_eq!(names(handle.on_change(&mut log, rows(&["two"]))), some(&["two"]));
}

#[test]
fn malformed_rows_are_left_out_of_a_delivery() {
    let mut log = LogCache::new(20);
    let mut handle = SubscriptionHandle::new("c", "q");
    let mut result_set = rows(&["Alpha"]);
    result_set.insert(0, Row { fields: vec![Field::text("name", "x")] });
    let delivery = handle.on_change(&mut log, result_set);
    assert_eq!(names(delivery), some(&["Alpha"]));
    assert_eq!(
        messages(&log),
        vec![
            info("App config observer triggered - data changed"),
            error("Observer failed to deserialize app config: missing field `_id`"),
            info("Observer parsed app config: Alpha"),
            info("Observer emitting 1 app configs"),
        ]
    );
}

#[test]
fn empty_result_set_is_delivered_too() {
    let mut log = LogCache::new(20);
    let mut handle = SubscriptionHandle::new("c", "q");
    assert_eq!(handle.on_change(&mut log, Vec::new()), Some(Vec::new()));
    assert_eq!(
        messages(&log),
        vec![
            info("App config observer triggered - data changed"),
            info("Observer emitting 0 app configs"),
        ]
    );
}

#[test]
fn nothing_is_delivered_after_cancel() {
    let mut log = LogCache::new(20);
    let mut handle = SubscriptionHandle::new("c", "q");
    handle.on_change(&mut log, rows(&["one"]));
    handle.on_change(&mut log, rows(&["two"]));
    handle.cancel();
    log.clear();
    assert!(!handle.is_active());
    assert_eq!(handle.phase(), Phase::Cancelled);
    assert_eq!(handle.on_delivered(&mut log, &Ok(())), None);
    assert_eq!(handle.on_change(&mut log, rows(&["three"])), None);
    assert_eq!(handle.on_delivered(&mut log, &Err("late".to_string())), None);
    assert_eq!(handle.phase(), Phase::Cancelled);
    assert!(log.is_empty());
    handle.cancel();
    assert_eq!(handle.phase(), Phase::Cancelled);
}

#[test]
fn spurious_completion_on_an_idle_subscription_does_nothing() {
    let mut log = LogCache::new(20);
    let mut handle = SubscriptionHandle::new("c", "q");
    assert_eq!(handle.on_delivered(&mut log, &Ok(())), None);
    assert_eq!(handle.phase(), Phase::Idle);
    assert!(log.is_empty());
}

#[test]
fn run_of_changes_ends_with_the_last_result_set() {
    for completions_between in 0..3usize {
        let mut log = LogCache::new(500);
        let mut handle = SubscriptionHandle::new("c", "q");
        let sets: Vec<Vec<&str>> =
            vec![vec!["a"], vec!["a", "b"], vec![], vec!["c"], vec!["c", "d", "e"]];
        let mut deliveries: Vec<Vec<String>> = Vec::new();
        let mut under_way = false;
        for set in &sets {
            if let Some(records) = handle.on_change(&mut log, rows(set)) {
                assert!(!under_way);
                under_way = true;
                deliveries.push(records.into_iter().map(|c| c.name).collect());
            }
            for _ in 0..completions_between {
                let next = handle.on_delivered(&mut log, &Ok(()));
                under_way = next.is_some();
                if let Some(records) = next {
                    deliveries.push(records.into_iter().map(|c| c.name).collect());
                }
            }
        }
        for _ in 0..2 {
            if let Some(records) = handle.on_delivered(&mut log, &Ok(())) {
                deliveries.push(records.into_iter().map(|c| c.name).collect());
            }
        }
        assert_eq!(handle.phase(), Phase::Idle);
        assert!(deliveries.len() <= sets.len());
        assert_eq!(
            deliveries.last().unwrap(),
            &vec!["c".to_string(), "d".to_string(), "e".to_string()]
        );
        let mut place = 0;
        for delivery in &deliveries {
            let found = sets[place..]
                .iter()
                .position(|set| set.iter().map(|n| n.to_string()).collect::<Vec<_>>() == *delivery);
            place += found.unwrap() + 1;
        }
        assert_eq!(handle.on_delivered(&mut log, &Ok(())), None);
    }
}
