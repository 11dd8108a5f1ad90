use vstd::prelude::*;
use crate::ipv4::{Ipv4Address, ipv4_of, ipv4_text, lemma_ipv4_of_text, parse_ipv4_chars};
use crate::text::{chars_of, equals_text, matches_at, slice_chars};

verus! {

/// What the dy.fi update endpoint answered.
#[derive(Clone, Copy, Debug, PartialEq, Eq, Structural)]
pub enum DdnsStatus {
    /// Credentials rejected.
    BadAuth,
    /// Hostname unknown to the provider.
    NoHost,
    /// Hostname not fully qualified.
    NotFqdn,
    /// The provider rejected the address it saw.
    BadIp(Ipv4Address),
    /// Accepted, address unchanged.
    NoChg,
    /// Accepted, record now points at the address.
    Good(Ipv4Address),
    /// Provider-side DNS error.
    DnsErr,
    /// Client banned for excessive updates.
    Abuse,
}

/// A body that is not in the provider's vocabulary.
#[derive(Clone, Debug, PartialEq, Eq)]
pub enum ClassifyError {
    InvalidResponse(String),
}

/// How loudly an outcome is reported.
#[derive(Clone, Copy, Debug, PartialEq, Eq, Structural)]
pub enum LogLevel {
    Info,
    Warn,
    Error,
}

/// Classification of a response body, applied top to bottom: the exact
/// tokens, then `badip <address>`, then `good <address>`.
pub open spec fn status_of(body: Seq<char>) -> Option<DdnsStatus> {
    if body == "badauth"@ {
        Some(DdnsStatus::BadAuth)
    } else if body == "nohost"@ {
        Some(DdnsStatus::NoHost)
    } else if body == "notfqdn"@ {
        Some(DdnsStatus::NotFqdn)
    } else if body == "nochg"@ {
        Some(DdnsStatus::NoChg)
    } else if body == "dnserr"@ {
        Some(DdnsStatus::DnsErr)
    } else if body == "abuse"@ {
        Some(DdnsStatus::Abuse)
    } else if body.len() >= 6 && body.subrange(0, 6) == "badip "@ {
        match ipv4_of(body.subrange(6, body.len() as int)) {
            Some(ip) => Some(DdnsStatus::BadIp(ip)),
            None => None,
        }
    } else if body.len() >= 5 && body.subrange(0, 5) == "good "@ {
        match ipv4_of(body.subrange(5, body.len() as int)) {
            Some(ip) => Some(DdnsStatus::Good(ip)),
            None => None,
        }
    } else {
        None
    }
}

/// The body that the provider sends for a status.
pub open spec fn response_text(st: DdnsStatus) -> Seq<char> {
    match st {
        DdnsStatus::BadAuth => "badauth"@,
        DdnsStatus::NoHost => "nohost"@,
        DdnsStatus::NotFqdn => "notfqdn"@,
        DdnsStatus::NoChg => "nochg"@,
        DdnsStatus::DnsErr => "dnserr"@,
        DdnsStatus::Abuse => "abuse"@,
        DdnsStatus::BadIp(ip) => "badip "@ + ipv4_text(ip),
        DdnsStatus::Good(ip) => "good "@ + ipv4_text(ip),
    }
}

/// Outcomes that count as a successful touch of the record.
pub open spec fn is_success_spec(st: DdnsStatus) -> bool {
    st is Good || st is NoChg
}

pub open spec fn level_spec(st: DdnsStatus) -> LogLevel {
    match st {
        DdnsStatus::Good(_) | DdnsStatus::NoChg => LogLevel::Info,
        DdnsStatus::DnsErr | DdnsStatus::BadIp(_) => LogLevel::Warn,
        _ => LogLevel::Error,
    }
}

/// Every status is read back from the body the provider sends for it: the
/// six plain tokens give their tag, `good <x>` gives `Good(x)` and
/// `badip <x>` gives `BadIp(x)` for every address `x`.
pub proof fn lemma_status_round_trip(st: DdnsStatus)
    ensures
        status_of(response_text(st)) == Some(st),
{
    reveal_strlit("badauth");
    reveal_strlit("nohost");
    reveal_strlit("notfqdn");
    reveal_strlit("nochg");
    reveal_strlit("dnserr");
    reveal_strlit("abuse");
    reveal_strlit("badip ");
    reveal_strlit("good ");
    match st {
        DdnsStatus::BadIp(ip) => {
            let b = response_text(st);
            lemma_ipv4_of_text(ip);
            assert(b.subrange(0, 6) =~= "badip "@);
            assert(b.subrange(6, b.len() as int) =~= ipv4_text(ip));
            assert(b[0] == 'b' && b[3] == 'i');
            assert(b != "badauth"@ && b != "nohost"@ && b != "notfqdn"@ && b != "nochg"@);
            assert(b != "dnserr"@ && b != "abuse"@);
        },
        DdnsStatus::Good(ip) => {
            let b = response_text(st);
            lemma_ipv4_of_text(ip);
            assert(b.subrange(0, 5) =~= "good "@);
            assert(b.subrange(5, b.len() as int) =~= ipv4_text(ip));
            assert(b[0] == 'g');
            assert(b != "badauth"@ && b != "nohost"@ && b != "notfqdn"@ && b != "nochg"@);
            assert(b != "dnserr"@ && b != "abuse"@);
        },
        DdnsStatus::BadAuth => {},
        DdnsStatus::NoHost => {
            assert("nohost"@ != "badauth"@);
        },
        DdnsStatus::NotFqdn => {
            assert("notfqdn"@[0] != "badauth"@[0]);
            assert("notfqdn"@ != "badauth"@);
            assert("notfqdn"@ != "nohost"@);
        },
        DdnsStatus::NoChg => {
            assert("nochg"@ != "badauth"@);
            assert("nochg"@ != "nohost"@);
            assert("nochg"@ != "notfqdn"@);
        },
        DdnsStatus::DnsErr => {
            assert("dnserr"@ != "badauth"@);
            assert("dnserr"@[0] != "nohost"@[0]);
            assert("dnserr"@ != "nohost"@);
            assert("dnserr"@ != "notfqdn"@);
            assert("dnserr"@ != "nochg"@);
        },
        DdnsStatus::Abuse => {
            assert("abuse"@ != "badauth"@);
            assert("abuse"@ != "nohost"@);
            assert("abuse"@ != "notfqdn"@);
            assert("abuse"@[0] != "nochg"@[0]);
            assert("abuse"@ != "nochg"@);
            assert("abuse"@ != "dnserr"@);
        },
    }
}

impl DdnsStatus {
    /// Classifies a response body of the update endpoint.
    pub fn from_response(body: &str) -> (r: Result<DdnsStatus, ClassifyError>)
        ensures
            match r {
                Ok(st) => status_of(body@) == Some(st),
                Err(ClassifyError::InvalidResponse(b)) => status_of(body@).is_none() && b@
                    == body@,
            },
    {
        let t = chars_of(body);
        let n = t.len();
        if equals_text(&t, "badauth") {
            Ok(DdnsStatus::BadAuth)
        } else if equals_text(&t, "nohost") {
            Ok(DdnsStatus::NoHost)
        } else if equals_text(&t, "notfqdn") {
            Ok(DdnsStatus::NotFqdn)
        } else if equals_text(&t, "nochg") {
            Ok(DdnsStatus::NoChg)
        } else if equals_text(&t, "dnserr") {
            Ok(DdnsStatus::DnsErr)
        } else if equals_text(&t, "abuse") {
            Ok(DdnsStatus::Abuse)
        } else if matches_at(&t, 0, "badip ") {
            proof {
                reveal_strlit("badip ");
            }
            let rest = slice_chars(&t, 6, n);
            match parse_ipv4_chars(&rest) {
                Some(ip) => Ok(DdnsStatus::BadIp(ip)),
                None => Err(ClassifyError::InvalidResponse(body.to_owned())),
            }
        } else if matches_at(&t, 0, "good ") {
            proof {
                reveal_strlit("badip ");
                reveal_strlit("good ");
            }
            let rest = slice_chars(&t, 5, n);
            match parse_ipv4_chars(&rest) {
                Some(ip) => Ok(DdnsStatus::Good(ip)),
                None => Err(ClassifyError::InvalidResponse(body.to_owned())),
            }
        } else {
            proof {
                reveal_strlit("badip ");
                reveal_strlit("good ");
            }
            Err(ClassifyError::InvalidResponse(body.to_owned()))
        }
    }

    /// `Good` and `NoChg` touch the record; every other status does not.
    pub fn is_success(&self) -> (r: bool)
        ensures
            r == is_success_spec(*self),
    {
        match self {
            DdnsStatus::Good(_) | DdnsStatus::NoChg => true,
            _ => false,
        }
    }

    /// Success is info, provider-side soft failures are warnings, policy and
    /// configuration failures are errors.
    pub fn level(&self) -> (r: LogLevel)
        ensures
            r == level_spec(*self),
    {
        match self {
            DdnsStatus::Good(_) | DdnsStatus::NoChg => LogLevel::Info,
            DdnsStatus::DnsErr | DdnsStatus::BadIp(_) => LogLevel::Warn,
            _ => LogLevel::Error,
        }
    }
}

} // verus!
