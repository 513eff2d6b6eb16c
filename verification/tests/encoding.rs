use wifi_qr_code::AuthenticationType;
use wifi_qr_code::Visibility;
use wifi_qr_code::WifiCredentials;
use wifi_qr_code::escape;
use wifi_qr_code::unescape;

#[test]
fn it_encodes_valid_wifi_forms() {
    // WIFI:S:<SSID>;T:<WPA|WEP|>;P:<password>;H:<true|false|>;
    let wifi_credentials = WifiCredentials {
        ssid: String::from("test ssid"),
        authentication_type: AuthenticationType::WEP(String::from("test password")),
        visibility: Visibility::Visible,
    };
    assert_eq!(
        "WIFI:S:test ssid;T:WEP;P:test password;H:false;;",
        &wifi_credentials.encode()
    );
    let wifi_credentials = WifiCredentials {
        ssid: String::from("test ssid"),
        authentication_type: AuthenticationType::WPA(String::from("test password")),
        visibility: Visibility::Hidden,
    };
    assert_eq!(
        "WIFI:S:test ssid;T:WPA;P:test password;H:true;;",
        &wifi_credentials.encode()
    );
    let wifi_credentials = WifiCredentials {
        ssid: String::from("test ssid"),
        authentication_type: AuthenticationType::NoPassword,
        visibility: Visibility::Visible,
    };
    assert_eq!(
        "WIFI:S:test ssid;T:nopass;H:false;;",
        &wifi_credentials.encode()
    );
}

#[test]
fn it_properly_handles_escaped_characters() {
    let wifi_credentials = WifiCredentials {
        ssid: String::from(r#"special_characters ";,:\"#),
        authentication_type: AuthenticationType::WEP(String::from(r#"special_characters ";,:\"#)),
        visibility: Visibility::Visible,
    };
    assert_eq!(
        r#"WIFI:S:special_characters \"\;\,\:\\;T:WEP;P:special_characters \"\;\,\:\\;H:false;;"#,
        &wifi_credentials.encode()
    );
}

#[test]
fn empty_ssid_and_password_encode_to_empty_segments() {
    let wifi_credentials = WifiCredentials {
        ssid: String::new(),
        authentication_type: AuthenticationType::WEP(String::new()),
        visibility: Visibility::Visible,
    };
    assert_eq!("WIFI:S:;T:WEP;P:;H:false;;", &wifi_credentials.encode());
    let wifi_credentials = WifiCredentials {
        ssid: String::new(),
        authentication_type: AuthenticationType::NoPassword,
        visibility: Visibility::Hidden,
    };
    assert_eq!("WIFI:S:;T:nopass;H:true;;", &wifi_credentials.encode());
}

#[test]
fn output_is_always_framed_by_marker_and_double_semicolon() {
    let ssids = ["plain", "", "with ; and : inside", "unicode café ☕"];
    for ssid in ssids {
        let auths = [
            AuthenticationType::WEP(String::from(r#"p@ss;word"#)),
            AuthenticationType::WPA(String::from("")),
            AuthenticationType::NoPassword,
        ];
        for auth in auths {
            for hidden in [false, true] {
                let wifi_credentials = WifiCredentials {
                    ssid: String::from(ssid),
                    authentication_type: match &auth {
                        AuthenticationType::WEP(p) => AuthenticationType::WEP(p.clone()),
                        AuthenticationType::WPA(p) => AuthenticationType::WPA(p.clone()),
                        AuthenticationType::NoPassword => AuthenticationType::NoPassword,
                    },
                    visibility: if hidden { Visibility::Hidden } else { Visibility::Visible },
                };
                let encoded = wifi_credentials.encode();
                assert!(encoded.starts_with("WIFI:"));
                assert!(encoded.ends_with(";;"));
            }
        }
    }
}

#[test]
fn encoding_equal_values_twice_gives_identical_bytes() {
    let make = || WifiCredentials {
        ssid: String::from(r#"net " name"#),
        authentication_type: AuthenticationType::WPA(String::from(r#"pw:with,stuff"#)),
        visibility: Visibility::Hidden,
    };
    let first = make().encode();
    let second = make().encode();
    assert_eq!(first.as_bytes(), second.as_bytes());
    let again = make();
    assert_eq!(again.encode().as_bytes(), again.encode().as_bytes());
}

#[test]
fn escape_prefixes_each_reserved_character() {
    assert_eq!(r#"\\\"\;\,\:"#, &escape(r#"\";,:"#));
    assert_eq!("", &escape(""));
    assert_eq!("plain text", &escape("plain text"));
    assert_eq!(r#"a\;b"#, &escape("a;b"));
}

#[test]
fn unescape_recovers_escaped_text() {
    let samples = [
        r#"\";,:"#,
        r#"special_characters ";,:\"#,
        "",
        "no reserved characters",
        r#";;;;"#,
        r#"\\"#,
        r#"mixed \ and " and , text:"#,
    ];
    for sample in samples {
        assert_eq!(sample, &unescape(&escape(sample)));
    }
}

#[test]
fn segment_encoders_match_the_grammar() {
    assert_eq!("T:WEP;P:pw;", &AuthenticationType::WEP(String::from("pw")).encode());
    assert_eq!("T:WPA;P:pw;", &AuthenticationType::WPA(String::from("pw")).encode());
    assert_eq!("T:nopass;", &AuthenticationType::NoPassword.encode());
    assert_eq!("H:false;", &Visibility::Visible.encode());
    assert_eq!("H:true;", &Visibility::Hidden.encode());
    let wifi_credentials = WifiCredentials {
        ssid: String::from("a:b"),
        authentication_type: AuthenticationType::NoPassword,
        visibility: Visibility::Visible,
    };
    assert_eq!(r#"S:a\:b;"#, &wifi_credentials.encode_ssid());
}
