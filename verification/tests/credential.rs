use proxy_server::credential::Credential;

#[test]
fn parses_hyphenated_text() {
    let c = Credential::parse("936DA01F-9ABD-4D9D-80C7-02AF85C822A8").unwrap();
    assert_eq!(c.key, 0x936DA01F9ABD4D9D80C702AF85C822A8);
}

#[test]
fn parses_simple_and_urn_text() {
    let simple = Credential::parse("936da01f9abd4d9d80c702af85c822a8").unwrap();
    let urn = Credential::parse("urn:uuid:936da01f-9abd-4d9d-80c7-02af85c822a8").unwrap();
    assert_eq!(simple.key, 0x936DA01F9ABD4D9D80C702AF85C822A8);
    assert_eq!(urn, simple);
}

#[test]
fn rejects_text_that_is_no_credential() {
    assert_eq!(Credential::parse(""), None);
    assert_eq!(Credential::parse("Bearer 936da01f-9abd-4d9d-80c7-02af85c822a8"), None);
    assert_eq!(Credential::parse("936da01f-9abd-4d9d-80c7-02af85c822a"), None);
    assert_eq!(Credential::parse("936da01f-9abd-4d9d-80c7-02af85c822ag"), None);
    assert_eq!(Credential::parse(" 936da01f-9abd-4d9d-80c7-02af85c822a8"), None);
}

#[test]
fn writes_lower_case_hyphenated_text() {
    let c = Credential { key: 0x936DA01F9ABD4D9D80C702AF85C822A8 };
    assert_eq!(c.to_hyphenated(), "936da01f-9abd-4d9d-80c7-02af85c822a8");
    let ones = Credential { key: 0x11111111_1111_1111_1111_111111111111 };
    assert_eq!(ones.to_hyphenated(), "11111111-1111-1111-1111-111111111111");
    let digits = Credential { key: 0x01234567_89ab_cdef_0123_456789abcdef };
    assert_eq!(digits.to_hyphenated(), "01234567-89ab-cdef-0123-456789abcdef");
}

#[test]
fn hyphenated_text_of_the_extremes() {
    assert_eq!(Credential { key: 0 }.to_hyphenated(), "00000000-0000-0000-0000-000000000000");
    assert_eq!(
        Credential { key: u128::MAX }.to_hyphenated(),
        "ffffffff-ffff-ffff-ffff-ffffffffffff"
    );
    assert_eq!(Credential { key: 1 }.to_hyphenated(), "00000000-0000-0000-0000-000000000001");
    assert_eq!(
        Credential { key: 1u128 << 127 }.to_hyphenated(),
        "80000000-0000-0000-0000-000000000000"
    );
}

#[test]
fn hyphenated_text_reads_back() {
    for key in [0u128, 1, 0x936DA01F9ABD4D9D80C702AF85C822A8, u128::MAX] {
        let c = Credential { key };
        assert_eq!(Credential::parse(&c.to_hyphenated()), Some(c));
    }
}

#[test]
fn generated_credential_has_random_form() {
    let a = Credential::generate();
    let b = Credential::generate();
    assert_eq!((a.key >> 76) & 0xf, 4);
    let variant = (a.key >> 60) & 0xf;
    assert!((8..=11).contains(&variant));
    assert_ne!(a, b);
}
