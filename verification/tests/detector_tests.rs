use unseen_mail::account::Account;
use unseen_mail::detector::announce;
use unseen_mail::detector::survey;
use unseen_mail::detector::uid_set_text;
use unseen_mail::notification::Priority;

fn account() -> Account {
    Account {
        name: String::from("work"),
        server: String::from("imap.example.org"),
        port: 993,
        username: String::from("me"),
        password: String::from("correct horse"),
        ntfy_url: String::from("https://ntfy.example.org"),
        ntfy_topic: String::from("mail"),
        ntfy_clickable_url: Some(String::from("https://mail.example.org/")),
    }
}

#[test]
fn watermark_ten_with_uids_5_8_11_12() {
    let s = survey(10, &vec![5, 8, 11, 12]);
    assert_eq!(s.watermark, 12);
    assert_eq!(s.fetch, vec![11, 12]);
}

#[test]
fn nothing_above_the_watermark_fetches_nothing() {
    let s = survey(10, &vec![5, 8, 10]);
    assert_eq!(s.watermark, 10);
    assert!(s.fetch.is_empty());
}

#[test]
fn empty_search_leaves_the_watermark() {
    let s = survey(42, &vec![]);
    assert_eq!(s.watermark, 42);
    assert!(s.fetch.is_empty());
    let s = survey(0, &vec![]);
    assert_eq!(s.watermark, 0);
}

#[test]
fn order_of_the_search_does_not_matter_to_the_watermark() {
    let s = survey(3, &vec![9, 2, 7, 4]);
    assert_eq!(s.watermark, 9);
    assert_eq!(s.fetch, vec![9, 7, 4]);
}

#[test]
fn watermark_over_several_passes_never_falls() {
    let passes: Vec<Vec<u32>> =
        vec![vec![1, 2, 3], vec![], vec![2, 3], vec![3, 7], vec![5], vec![7, 8]];
    let expected: Vec<u32> = vec![3, 3, 3, 7, 7, 8];
    let mut watermark = 0;
    for (pass, want) in passes.iter().zip(expected.iter()) {
        let s = survey(watermark, pass);
        assert!(s.watermark >= watermark);
        assert_eq!(s.watermark, *want);
        watermark = s.watermark;
    }
}

#[test]
fn no_uid_is_fetched_twice() {
    let passes: Vec<Vec<u32>> = vec![vec![1, 2, 3], vec![1, 2, 3, 4], vec![4, 3, 9], vec![9, 4]];
    let mut watermark = 0;
    let mut fetched: Vec<u32> = Vec::new();
    for pass in passes.iter() {
        let s = survey(watermark, pass);
        for uid in s.fetch.iter() {
            assert!(*uid > watermark);
            assert!(!fetched.contains(uid));
            fetched.push(*uid);
        }
        watermark = s.watermark;
    }
    assert_eq!(fetched, vec![1, 2, 3, 4, 9]);
}

#[test]
fn repeated_pass_is_quiet() {
    let uids = vec![4, 6, 5];
    let first = survey(1, &uids);
    assert_eq!(first.fetch, vec![4, 6, 5]);
    let second = survey(first.watermark, &uids);
    assert_eq!(second.watermark, first.watermark);
    assert!(second.fetch.is_empty());
}

#[test]
fn highest_uid_value_is_handled() {
    let s = survey(u32::MAX - 1, &vec![u32::MAX, 1]);
    assert_eq!(s.watermark, u32::MAX);
    assert_eq!(s.fetch, vec![u32::MAX]);
    let s = survey(u32::MAX, &vec![u32::MAX, 1]);
    assert!(s.fetch.is_empty());
}

#[test]
fn uid_set_of_nothing_is_empty() {
    assert_eq!(uid_set_text(&vec![]), "");
}

#[test]
fn uid_set_of_one_has_no_comma() {
    assert_eq!(uid_set_text(&vec![7]), "7");
}

#[test]
fn uid_set_joins_with_commas() {
    assert_eq!(uid_set_text(&vec![11, 12]), "11,12");
    assert_eq!(uid_set_text(&vec![0, 10, 4294967295]), "0,10,4294967295");
}

#[test]
fn announce_skips_missing_and_broken_blocks() {
    let blocks: Vec<Option<Vec<u8>>> = vec![
        Some(b"Subject: first\r\nFrom: a@example.org\r\n\r\n".to_vec()),
        None,
        Some(b" not a header\r\n\r\n".to_vec()),
        Some(b"From: b@example.org\r\n\r\n".to_vec()),
        Some(b"From: c@example.org\r\nsubject: last\r\n\r\n".to_vec()),
    ];
    let out = announce(&account(), &blocks);
    assert_eq!(out.len(), 3);
    assert_eq!(out[0].message, "first");
    assert_eq!(out[1].message, "<no subject>");
    assert_eq!(out[2].message, "last");
    for n in out.iter() {
        assert_eq!(n.title, "@work has new mail");
        assert_eq!(n.priority, Priority::Default);
        assert_eq!(n.click.as_deref(), Some("https://mail.example.org/"));
        assert!(n.tags.is_empty());
    }
}

#[test]
fn announce_of_nothing_is_nothing() {
    assert!(announce(&account(), &vec![]).is_empty());
    assert!(announce(&account(), &vec![None, None]).is_empty());
}
