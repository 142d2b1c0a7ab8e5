use unseen_mail::account::Account;
use unseen_mail::backoff::Backoff;
use unseen_mail::fleet::Fleet;
use unseen_mail::watcher::Action;
use unseen_mail::watcher::ErrorKind;
use unseen_mail::watcher::Event;
use unseen_mail::watcher::Phase;

fn account(name: &str) -> Account {
    Account {
        name: String::from(name),
        server: String::from("imap.example.org"),
        port: 993,
        username: String::from(name),
        password: String::from("correct horse"),
        ntfy_url: String::from("https://ntfy.example.org"),
        ntfy_topic: String::from("mail"),
        ntfy_clickable_url: None,
    }
}

fn failed() -> Event {
    Event::Failed { kind: ErrorKind::Network, text: String::from("down") }
}

#[test]
fn one_watcher_for_each_account() {
    let fleet = Fleet::new(&vec![account("a"), account("b"), account("c")]);
    assert_eq!(fleet.len(), 3);
    let names: Vec<&str> = fleet.watchers.iter().map(|w| w.account.name.as_str()).collect();
    assert_eq!(names, vec!["a", "b", "c"]);
    for w in fleet.watchers.iter() {
        assert_eq!(w.watermark, 0);
        assert_eq!(w.phase, Phase::Disconnected);
        assert_eq!(w.backoff, Backoff::standard());
    }
}

#[test]
fn empty_fleet() {
    let mut fleet = Fleet::new(&vec![]);
    assert_eq!(fleet.len(), 0);
    assert!(fleet.deliver(0, Event::Start).is_none());
    assert!(fleet.into_watchers().is_empty());
}

#[test]
fn failure_of_one_account_leaves_the_other_alone() {
    let mut fleet = Fleet::new(&vec![account("a"), account("b")]);
    for index in 0..2 {
        assert!(matches!(fleet.deliver(index, Event::Start), Some(Action::Connect)));
    }
    let connected = Event::Connected { push_wait: true };
    assert!(matches!(fleet.deliver(1, connected), Some(Action::Select)));
    assert!(matches!(fleet.deliver(1, Event::Selected), Some(Action::Search)));
    assert!(matches!(fleet.deliver(1, Event::Found(vec![4, 5])), Some(Action::Fetch(_))));

    for _ in 0..10 {
        assert!(matches!(fleet.deliver(0, failed()), Some(Action::Backoff { .. })));
        assert_eq!(fleet.watchers[1].watermark, 5);
        assert_eq!(fleet.watchers[1].phase, Phase::Fetching);
        assert_eq!(fleet.watchers[1].backoff, Backoff::standard());
        assert!(matches!(fleet.deliver(0, Event::Slept), Some(Action::Connect)));
    }
    assert_eq!(fleet.watchers[0].backoff.delay, 1024);
    assert_eq!(fleet.watchers[0].watermark, 0);

    let blocks = vec![Some(b"Subject: for b\r\n\r\n".to_vec())];
    match fleet.deliver(1, Event::Fetched(blocks)) {
        Some(Action::Notify(list)) => {
            assert_eq!(list.len(), 1);
            assert_eq!(list[0].title, "@b has new mail");
            assert_eq!(list[0].message, "for b");
        }
        other => panic!("unexpected answer: {:?}", other),
    }
}

#[test]
fn index_without_watcher_changes_nothing() {
    let mut fleet = Fleet::new(&vec![account("a")]);
    assert!(fleet.deliver(1, Event::Start).is_none());
    assert!(fleet.deliver(usize::MAX, Event::Start).is_none());
    assert_eq!(fleet.watchers[0].phase, Phase::Disconnected);
}

#[test]
fn taking_the_fleet_apart_keeps_the_watchers() {
    let mut fleet = Fleet::new(&vec![account("a"), account("b")]);
    assert!(matches!(fleet.deliver(1, Event::Start), Some(Action::Connect)));
    let watchers = fleet.into_watchers();
    assert_eq!(watchers.len(), 2);
    assert_eq!(watchers[0].phase, Phase::Disconnected);
    assert_eq!(watchers[1].phase, Phase::Connecting);
    assert_eq!(watchers[1].account.name, "b");
}
