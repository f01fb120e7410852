use aegis_otp::export::{algo_name, export_record, export_records, url_line, url_lines};
use aegis_otp::otp::{Algo, Entry, TotpParams, MAX_PERIOD};

fn mk_entry(issuer: &str, name: &str, secret: &str, algo: Algo, digits: i32, period: i32) -> Entry {
    Entry {
        issuer: issuer.to_string(),
        name: name.to_string(),
        params: TotpParams { secret: secret.to_string(), algo, digits, period },
    }
}

#[test]
fn exported_record_fields() {
    let e = mk_entry("Google", "me@x.com", "ABC123", Algo::Sha256, 6, 30);
    let r = export_record(&e);
    assert_eq!(r.kind, "totp");
    assert_eq!(r.name, "me@x.com");
    assert_eq!(r.issuer, "Google");
    assert!(r.uuid.is_none());
    assert!(r.note.is_none());
    assert!(r.icon.is_none());
    assert!(r.icon_mime.is_none());
    assert!(r.icon_hash.is_none());
    assert!(!r.favorite);
    assert!(r.groups.is_none());
    assert_eq!(r.info.secret, "ABC123");
    // The export format always labels the algorithm SHA1.
    assert_eq!(r.info.algo, "SHA1");
    assert_eq!(r.info.digits, 6);
    assert_eq!(r.info.period, 30);
}

#[test]
fn exported_records_keep_order() {
    let entries = vec![
        mk_entry("A", "a", "S1", Algo::Sha1, 6, 30),
        mk_entry("B", "b", "S2", Algo::Sha1, 8, 60),
    ];
    let records = export_records(&entries);
    assert_eq!(records.len(), 2);
    assert_eq!(records[0].issuer, "A");
    assert_eq!(records[1].issuer, "B");
    assert_eq!(records[1].info.digits, 8);
    assert_eq!(records[1].info.period, 60);
}

#[test]
fn url_line_layout() {
    let e = mk_entry("Google", "me@x.com", "ABC", Algo::Sha1, 6, 30);
    assert_eq!(
        url_line(&e),
        "otpauth://totp/me%40x.com?secret=ABC&algorithm=SHA1&digits=6&period=30&issuer=Google"
    );
}

#[test]
fn url_line_encodes_spaces_and_strips_quotes() {
    let e = mk_entry("My Bank", "first last", "\"AB\"C", Algo::Sha512, 8, 60);
    assert_eq!(
        url_line(&e),
        "otpauth://totp/first%20last?secret=ABC&algorithm=SHA512&digits=8&period=60&issuer=My%20Bank"
    );
}

#[test]
fn url_lines_keep_order() {
    let entries = vec![
        mk_entry("A", "a", "S1", Algo::Sha1, 6, 30),
        mk_entry("B", "b", "S2", Algo::Sha256, 7, 45),
    ];
    let lines = url_lines(&entries);
    assert_eq!(lines.len(), 2);
    assert_eq!(lines[0], "otpauth://totp/a?secret=S1&algorithm=SHA1&digits=6&period=30&issuer=A");
    assert_eq!(lines[1], "otpauth://totp/b?secret=S2&algorithm=SHA256&digits=7&period=45&issuer=B");
}

#[test]
fn algorithm_labels() {
    assert_eq!(algo_name(&Algo::Sha1), "SHA1");
    assert_eq!(algo_name(&Algo::Sha256), "SHA256");
    assert_eq!(algo_name(&Algo::Sha512), "SHA512");
}

#[test]
fn params_constructor_checks_period() {
    let ok = TotpParams::new("S".to_string(), Algo::Sha1, 6, 30);
    assert!(ok.is_some());
    let p = ok.unwrap();
    assert_eq!(p.period, 30);
    assert_eq!(p.digits, 6);
    assert!(TotpParams::new("S".to_string(), Algo::Sha1, 6, 0).is_none());
    assert!(TotpParams::new("S".to_string(), Algo::Sha1, 6, -5).is_none());
    assert!(TotpParams::new("S".to_string(), Algo::Sha1, 6, MAX_PERIOD).is_some());
}
