use unseen_mail::headers::subject_of;
use unseen_mail::headers::subject_or_default;
use unseen_mail::headers::HeaderParseError;

#[test]
fn plain_subject_is_read() {
    assert_eq!(subject_of(b"Subject: Hello there\r\n\r\n"), Ok(String::from("Hello there")));
}

#[test]
fn subject_is_not_the_input_handed_back() {
    let raw = b"From: a@example.org\r\nSubject: Invoice\r\nTo: b@example.org\r\n\r\n";
    let subject = subject_of(raw).unwrap();
    assert_eq!(subject, "Invoice");
    assert_ne!(subject.as_bytes(), &raw[..]);
}

#[test]
fn header_name_is_matched_without_regard_to_case() {
    assert_eq!(subject_of(b"SUBJECT: loud\r\n\r\n"), Ok(String::from("loud")));
    assert_eq!(subject_of(b"subject: quiet\n\n"), Ok(String::from("quiet")));
}

#[test]
fn first_subject_wins() {
    assert_eq!(subject_of(b"Subject: one\r\nSubject: two\r\n\r\n"), Ok(String::from("one")));
}

#[test]
fn encoded_words_are_decoded() {
    assert_eq!(
        subject_of(b"Subject: =?utf-8?B?aGVsbG8gd29ybGQ=?=\r\n\r\n"),
        Ok(String::from("hello world"))
    );
    assert_eq!(
        subject_of(b"Subject: =?iso-8859-1?Q?=A1Hola,_se=F1or!?=\r\n\r\n"),
        Ok(String::from("\u{a1}Hola, se\u{f1}or!"))
    );
}

#[test]
fn folded_subject_is_joined() {
    assert_eq!(
        subject_of(b"Subject: Hello, sir,\n   I am multiline\nNext: Header\n\n"),
        Ok(String::from("Hello, sir, I am multiline"))
    );
}

#[test]
fn missing_subject_gives_the_placeholder() {
    assert_eq!(subject_of(b"From: a@example.org\r\n\r\n"), Ok(String::from("<no subject>")));
    assert_eq!(subject_of(b""), Ok(String::from("<no subject>")));
}

#[test]
fn empty_subject_is_kept_empty() {
    assert_eq!(subject_of(b"Subject:\r\n\r\n"), Ok(String::new()));
}

#[test]
fn block_that_starts_with_a_space_is_refused() {
    assert_eq!(subject_of(b" Subject: x\r\n\r\n"), Err(HeaderParseError));
}

#[test]
fn lone_carriage_return_after_the_headers_is_refused() {
    assert_eq!(subject_of(b"Subject: x\r\n\rbody"), Err(HeaderParseError));
}

#[test]
fn default_applies_only_where_nothing_was_found() {
    assert_eq!(subject_or_default(None), "<no subject>");
    assert_eq!(subject_or_default(Some(String::from("x"))), "x");
    assert_eq!(subject_or_default(Some(String::new())), "");
}
