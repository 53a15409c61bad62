use frunze_api::errors::Error;
use frunze_api::remote::body_text;

#[test]
fn body_text_reads_utf8() {
    assert_eq!(body_text(Ok(b"{\"a\":1}".to_vec())), Ok("{\"a\":1}".to_string()));
    assert_eq!(body_text(Ok("µA741 Ω".as_bytes().to_vec())), Ok("µA741 Ω".to_string()));
}

#[test]
fn body_text_of_an_empty_body_is_empty() {
    assert_eq!(body_text(Ok(vec![])), Ok(String::new()));
}

#[test]
fn body_that_is_not_utf8_is_a_failure_to_decode() {
    assert_eq!(body_text(Ok(vec![0xff, 0xfe])), Err(Error::Decode));
    assert_eq!(body_text(Ok(vec![b'a', 0xc3])), Err(Error::Decode));
    assert_eq!(body_text(Ok(vec![0xed, 0xa0, 0x80])), Err(Error::Decode));
}

#[test]
fn failed_exchange_is_handed_on() {
    assert_eq!(body_text(Err(Error::Transport)), Err(Error::Transport));
    assert_eq!(body_text(Err(Error::NotFound)), Err(Error::NotFound));
}

#[test]
fn address_under_a_base_has_one_slash_between_the_two() {
    assert_eq!(frunze_api::remote::under("http://h", "/p"), "http://h/p");
    assert_eq!(frunze_api::remote::under("http://h/", "/p"), "http://h/p");
    assert_eq!(frunze_api::remote::under("http://h/a/", "/p/q"), "http://h/a/p/q");
    assert_eq!(frunze_api::remote::under("", "/p"), "/p");
    assert_eq!(frunze_api::remote::under("/", "/p"), "/p");
    assert_eq!(frunze_api::remote::under("http://é/", "/ü"), "http://é/ü");
}
