//! The entry model and the one-time-password source.
//!
//! An entry holds the TOTP parameters of one vault record as plain
//! values. The code and remaining-time queries are delegated to the
//! `aegis_vault_utils` crate behind trusted wrappers.

use vstd::prelude::*;
use vstd::string::StringExecFns;
use aegis_vault_utils::otp::{calculate_remaining_time, generate_otp, EntryInfo, EntryInfoTotp,
    HashAlgorithm};

verus! {

/// The hash algorithm of a TOTP entry.
#[derive(Clone, Copy, Debug, PartialEq, Eq, Structural)]
pub enum Algo {
    Sha1,
    Sha256,
    Sha512,
}

/// Periods above this bound are rejected: the remaining-time formula of
/// the OTP source subtracts a remainder from the period, and the bound
/// keeps that subtraction inside `i32` for every clock value.
pub const MAX_PERIOD: i32 = 1073741824;

/// The TOTP parameters of one entry, as plain values.
pub struct TotpParams {
    /// Base32 encoded secret material.
    pub secret: String,
    pub algo: Algo,
    pub digits: i32,
    pub period: i32,
}

impl TotpParams {
    /// The period is positive and small enough for the remaining-time
    /// arithmetic of the OTP source.
    pub open spec fn wf(&self) -> bool {
        1 <= self.period <= MAX_PERIOD
    }

    /// Builds parameters, rejecting a period outside the supported range.
    pub fn new(secret: String, algo: Algo, digits: i32, period: i32) -> (r: Option<TotpParams>)
        ensures
            r is Some <==> 1 <= period <= MAX_PERIOD,
            r matches Some(p) ==> p.secret == secret && p.algo == algo && p.digits == digits
                && p.period == period && p.wf(),
    {
        if 1 <= period && period <= MAX_PERIOD {
            Some(TotpParams { secret, algo, digits, period })
        } else {
            None
        }
    }
}

/// One vault entry: the account metadata and its TOTP parameters.
pub struct Entry {
    pub issuer: String,
    pub name: String,
    pub params: TotpParams,
}

/// A failure reported by the OTP source.
#[derive(Debug)]
pub struct OtpError {
    pub message: String,
}

impl OtpError {
    /// The failure text, for reporting outside the library.
    pub fn text(&self) -> (r: String)
        ensures
            r@ == self.message@,
    {
        self.message.clone()
    }
}

/// Relies on aegis_vault_utils::otp::calculate_remaining_time: for a TOTP
/// entry it returns `period - (now mod period)`, which for a positive
/// period lies strictly between 0 and twice the period, and it never
/// fails on a TOTP entry.
#[verifier::external_body]
pub(crate) fn poll_remaining(p: &TotpParams) -> (r: Result<i32, OtpError>)
    requires
        p.wf(),
    ensures
        r is Ok,
        r matches Ok(v) ==> 1 <= v < 2 * p.period,
{
    let algo = match p.algo {
        Algo::Sha1 => HashAlgorithm::Sha1,
        Algo::Sha256 => HashAlgorithm::Sha256,
        Algo::Sha512 => HashAlgorithm::Sha512,
    };
    let info = EntryInfo::Totp(EntryInfoTotp {
        secret: p.secret.clone(),
        algo,
        digits: p.digits,
        period: p.period,
    });
    match calculate_remaining_time(&info) {
        Ok(v) => Ok(v),
        Err(e) => Err(OtpError { message: e.to_string() }),
    }
}

/// Relies on aegis_vault_utils::otp::generate_otp: it derives the current
/// code from the secret, the algorithm, the digit count, the period and
/// the wall clock, and reports bad parameters as an error. Nothing is
/// assumed of the outcome.
#[verifier::external_body]
pub(crate) fn generate_code(p: &TotpParams) -> (r: Result<String, OtpError>)
    requires
        p.wf(),
{
    let algo = match p.algo {
        Algo::Sha1 => HashAlgorithm::Sha1,
        Algo::Sha256 => HashAlgorithm::Sha256,
        Algo::Sha512 => HashAlgorithm::Sha512,
    };
    let info = EntryInfo::Totp(EntryInfoTotp {
        secret: p.secret.clone(),
        algo,
        digits: p.digits,
        period: p.period,
    });
    match generate_otp(&info) {
        Ok(code) => Ok(code),
        Err(e) => Err(OtpError { message: e.to_string() }),
    }
}

/// The plain-text listing line of one entry: the code, two spaces, then
/// `issuer:name`.
pub open spec fn report_line_of(code: Seq<char>, e: Entry) -> Seq<char> {
    code + "  "@ + e.issuer@ + ":"@ + e.name@
}

/// Builds the listing line for one entry around a generated code.
pub fn report_line(code: &str, e: &Entry) -> (r: String)
    ensures
        r@ == report_line_of(code@, *e),
{
    let mut s = code.to_owned();
    s.append("  ");
    s.append(e.issuer.as_str());
    s.append(":");
    s.append(e.name.as_str());
    s
}

/// Every line is the listing line of its entry, around the code of
/// `codes` at the same position.
pub open spec fn lines_are(lines: Seq<String>, codes: Seq<Seq<char>>, entries: Seq<Entry>) -> bool {
    &&& lines.len() == entries.len()
    &&& codes.len() == entries.len()
    &&& forall|k: int|
        0 <= k < entries.len() ==> (#[trigger] lines[k])@ == report_line_of(codes[k], entries[k])
}

/// Generates the current code of every entry and builds one listing line
/// per entry, together with the remaining seconds reported after the last
/// entry (zero when there are none). The first OTP source failure aborts
/// the listing; with no entries nothing can fail and the listing always
/// succeeds.
pub fn otp_report(entries: &Vec<Entry>) -> (r: Result<(Vec<String>, i32), OtpError>)
    requires
        forall|i: int| 0 <= i < entries@.len() ==> (#[trigger] entries@[i]).params.wf(),
    ensures
        entries@.len() == 0 ==> r is Ok,
        r matches Ok((lines, rem)) ==> lines@.len() == entries@.len(),
        r matches Ok((lines, rem)) ==> (entries@.len() == 0 ==> rem == 0),
        r matches Ok((lines, rem)) ==> (entries@.len() > 0 ==> 1 <= rem && rem < 2
            * entries@[entries@.len() - 1].params.period),
        r matches Ok((lines, rem)) ==> exists|codes: Seq<Seq<char>>|
            lines_are(lines@, codes, entries@),
{
    let mut lines: Vec<String> = Vec::new();
    let mut rem: i32 = 0;
    let mut i: usize = 0;
    let ghost mut codes_seen: Seq<Seq<char>> = Seq::empty();
    while i < entries.len()
        invariant
            forall|k: int| 0 <= k < entries@.len() ==> (#[trigger] entries@[k]).params.wf(),
            i <= entries@.len(),
            lines@.len() == i as int,
            i == 0 ==> rem == 0,
            i > 0 ==> 1 <= rem && rem < 2 * entries@[i as int - 1].params.period,
            codes_seen.len() == i as int,
            forall|k: int|
                0 <= k < i as int ==> (#[trigger] lines@[k])@ == report_line_of(
                    codes_seen[k],
                    entries@[k],
                ),
        decreases entries@.len() - i,
    {
        let entry = &entries[i];
        let code = match generate_code(&entry.params) {
            Ok(code) => code,
            Err(e) => {
                return Err(e);
            },
        };
        lines.push(report_line(code.as_str(), entry));
        proof {
            codes_seen = codes_seen.push(code@);
        }
        rem = match poll_remaining(&entry.params) {
            Ok(v) => v,
            Err(e) => {
                return Err(e);
            },
        };
        i = i + 1;
    }
    let r: Result<(Vec<String>, i32), OtpError> = Ok((lines, rem));
    proof {
        let produced = (r->Ok_0).0;
        assert(lines_are(produced@, codes_seen, entries@));
        assert(exists|codes: Seq<Seq<char>>| lines_are(produced@, codes, entries@));
    }
    r
}

} // verus!
