use cis_client::client::change_url;

fn sent_id(id: &str) -> String {
    let url = change_url("app://change.example.org/user", id).ok().unwrap();
    let prefix = "app://change.example.org/user?user_id=";
    assert!(url.starts_with(prefix));
    String::from(&url[prefix.len()..])
}

fn received(sent: &str) -> Vec<u8> {
    percent_encoding::percent_decode(sent.as_bytes()).collect()
}

#[test]
fn encoded_id_decodes_to_the_id() {
    for id in [
        "a/b c",
        "ad|Mozilla-LDAP|fiji",
        "fiji@example.org",
        "100% sure",
        "%",
        "%%",
        "%4",
        "%g1",
        "%/41",
        "a=b&c=d",
        "\u{fc}ber",
        "\u{65e5}\u{672c}",
        "",
        "..",
        "tab\there",
        "line\nbreak",
    ] {
        assert_eq!(received(&sent_id(id)), id.as_bytes());
    }
}

#[test]
fn encoded_id_holds_nothing_reserved() {
    let reserved = " \"#<>`?{}/:;=@[\\]^|";
    for id in ["a/b c", "x?y#z", "[1]:{2}", "a\\b^c|d", "p;q=r@s", "<tag>\u{7f}\u{1}"] {
        let sent = sent_id(id);
        for c in sent.chars() {
            assert!(c.is_ascii());
            assert!(c > ' ' && c < '\u{7f}');
            assert!(!reserved.contains(c));
        }
        assert!(!sent.contains(id));
    }
}

#[test]
fn escapes_are_upper_case_hexadecimal() {
    assert_eq!(sent_id("/"), "%2F");
    assert_eq!(sent_id(" "), "%20");
    assert_eq!(sent_id("|"), "%7C");
    assert_eq!(sent_id("\u{7f}"), "%7F");
    assert_eq!(sent_id("\u{0}"), "%00");
    assert_eq!(sent_id("\u{ff}"), "%C3%BF");
    assert_eq!(sent_id("~"), "~");
    assert_eq!(sent_id("!$&'()*+,-._"), "!$&'()*+,-._");
    assert_eq!(sent_id("azAZ09"), "azAZ09");
}

#[test]
fn id_with_an_escape_of_its_own_is_misread() {
    assert_eq!(sent_id("%41"), "%41");
    assert_eq!(received(&sent_id("%41")), b"A");
    assert_eq!(sent_id("a%2fb"), "a%2fb");
    assert_eq!(received(&sent_id("a%2fb")), b"a/b");
}
