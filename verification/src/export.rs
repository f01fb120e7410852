//! Plain exports of the vault entries: the records serialized to JSON
//! outside the library, and the `otpauth` URL lines.

use vstd::prelude::*;
use vstd::string::StringExecFns;
use crate::otp::{Algo, Entry};
use crate::text::{i32_to_string, int_rep, strip_quotes, without_quotes};

verus! {

/// The TOTP parameters of one exported record. The algorithm field of
/// the export format is the fixed label `SHA1`.
pub struct ExportInfo {
    pub secret: String,
    pub algo: String,
    pub digits: i32,
    pub period: i32,
}

/// One exported record in the plain vault layout. The serialization to
/// JSON happens outside the library on a mirror of this struct.
pub struct ExportRecord {
    /// The entry kind; always the label `totp`.
    pub kind: String,
    pub name: String,
    pub uuid: Option<String>,
    pub issuer: String,
    pub note: Option<String>,
    pub icon: Option<String>,
    pub icon_mime: Option<String>,
    pub icon_hash: Option<String>,
    pub favorite: bool,
    pub info: ExportInfo,
    pub groups: Option<String>,
}

/// The record exported for an entry: its name, issuer and TOTP
/// parameters, every optional field empty, not a favorite, and the fixed
/// labels for the kind and the algorithm.
pub open spec fn is_export_of(r: ExportRecord, e: Entry) -> bool {
    &&& r.kind@ == "totp"@
    &&& r.name@ == e.name@
    &&& r.uuid is None
    &&& r.issuer@ == e.issuer@
    &&& r.note is None
    &&& r.icon is None
    &&& r.icon_mime is None
    &&& r.icon_hash is None
    &&& r.favorite == false
    &&& r.info.secret@ == e.params.secret@
    &&& r.info.algo@ == "SHA1"@
    &&& r.info.digits == e.params.digits
    &&& r.info.period == e.params.period
    &&& r.groups is None
}

/// Builds the exported record of one entry.
pub fn export_record(e: &Entry) -> (r: ExportRecord)
    ensures
        is_export_of(r, *e),
{
    ExportRecord {
        kind: "totp".to_owned(),
        name: e.name.clone(),
        uuid: None,
        issuer: e.issuer.clone(),
        note: None,
        icon: None,
        icon_mime: None,
        icon_hash: None,
        favorite: false,
        info: ExportInfo {
            secret: e.params.secret.clone(),
            algo: "SHA1".to_owned(),
            digits: e.params.digits,
            period: e.params.period,
        },
        groups: None,
    }
}

/// Builds the exported records of all entries, in order.
pub fn export_records(entries: &Vec<Entry>) -> (r: Vec<ExportRecord>)
    ensures
        r@.len() == entries@.len(),
        forall|i: int| 0 <= i < entries@.len() ==> is_export_of(#[trigger] r@[i], entries@[i]),
{
    let mut out: Vec<ExportRecord> = Vec::new();
    let mut i: usize = 0;
    while i < entries.len()
        invariant
            i <= entries@.len(),
            out@.len() == i as int,
            forall|k: int| 0 <= k < i as int ==> is_export_of(#[trigger] out@[k], entries@[k]),
        decreases entries@.len() - i,
    {
        out.push(export_record(&entries[i]));
        i = i + 1;
    }
    out
}

/// The URL label of the hash algorithm.
pub open spec fn algo_label(a: Algo) -> Seq<char> {
    match a {
        Algo::Sha1 => "SHA1"@,
        Algo::Sha256 => "SHA256"@,
        Algo::Sha512 => "SHA512"@,
    }
}

/// Renders the URL label of the hash algorithm.
pub fn algo_name(a: &Algo) -> (r: String)
    ensures
        r@ == algo_label(*a),
{
    match a {
        Algo::Sha1 => "SHA1".to_owned(),
        Algo::Sha256 => "SHA256".to_owned(),
        Algo::Sha512 => "SHA512".to_owned(),
    }
}

/// What `urlencoding::encode` returns; it depends on the input
/// characters alone.
pub uninterp spec fn url_encoded(s: Seq<char>) -> Seq<char>;

/// Relies on urlencoding::encode: it percent-encodes every byte except
/// ASCII alphanumerics and `-`, `_`, `.`, `~`; the result is a function
/// of the input characters alone.
#[verifier::external_body]
fn url_encode(s: &str) -> (r: String)
    ensures
        r@ == url_encoded(s@),
{
    urlencoding::encode(s).into_owned()
}

/// The `otpauth` URL line of one entry: the encoded name, the secret
/// with double quotes removed, the algorithm label, the digit count, the
/// period and the encoded issuer.
pub open spec fn url_line_of(e: Entry) -> Seq<char> {
    "otpauth://totp/"@ + url_encoded(e.name@) + "?secret="@ + without_quotes(e.params.secret@)
        + "&algorithm="@ + algo_label(e.params.algo) + "&digits="@ + int_rep(e.params.digits as int)
        + "&period="@ + int_rep(e.params.period as int) + "&issuer="@ + url_encoded(e.issuer@)
}

/// Builds the `otpauth` URL line of one entry.
pub fn url_line(e: &Entry) -> (r: String)
    ensures
        r@ == url_line_of(*e),
{
    let mut s = "otpauth://totp/".to_owned();
    s.append(url_encode(e.name.as_str()).as_str());
    s.append("?secret=");
    s.append(strip_quotes(e.params.secret.as_str()).as_str());
    s.append("&algorithm=");
    s.append(algo_name(&e.params.algo).as_str());
    s.append("&digits=");
    s.append(i32_to_string(e.params.digits).as_str());
    s.append("&period=");
    s.append(i32_to_string(e.params.period).as_str());
    s.append("&issuer=");
    s.append(url_encode(e.issuer.as_str()).as_str());
    proof {
        assert(s@ =~= url_line_of(*e));
    }
    s
}

/// Builds the `otpauth` URL lines of all entries, in order.
pub fn url_lines(entries: &Vec<Entry>) -> (r: Vec<String>)
    ensures
        r@.len() == entries@.len(),
        forall|i: int| 0 <= i < entries@.len() ==> (#[trigger] r@[i])@ == url_line_of(entries@[i]),
{
    let mut out: Vec<String> = Vec::new();
    let mut i: usize = 0;
    while i < entries.len()
        invariant
            i <= entries@.len(),
            out@.len() == i as int,
            forall|k: int| 0 <= k < i as int ==> (#[trigger] out@[k])@ == url_line_of(entries@[k]),
        decreases entries@.len() - i,
    {
        out.push(url_line(&entries[i]));
        i = i + 1;
    }
    out
}

} // verus!
