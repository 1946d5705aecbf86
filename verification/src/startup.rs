//! The address the server binds to.

use crate::configuration::Settings;
use crate::text::{decimal, is_digit, lemma_decimal_reads_back, numeral_value, push_decimal};
use vstd::prelude::*;
use vstd::string::StringExecFns;

verus! {

/// The address text for a host and a port: `{host}:{port}`, the port in
/// decimal.
pub open spec fn address_text(host: Seq<char>, port: u16) -> Seq<char> {
    host + ":"@ + decimal(port as nat)
}

/// The address the application binds its listener to: the configured host
/// and port joined by a colon.
pub fn listen_address(settings: &Settings) -> (a: String)
    ensures
        a@ == address_text(settings.application.host@, settings.application.port),
        a@.subrange(0, settings.application.host@.len() as int) == settings.application.host@,
        a@[settings.application.host@.len() as int] == ':',
        numeral_value(a@.subrange(settings.application.host@.len() as int + 1, a@.len() as int))
            == settings.application.port,
        forall|i: int|
            settings.application.host@.len() < i < a@.len() ==> is_digit(#[trigger] a@[i]),
{
    let mut a = String::from_str(settings.application.host.as_str());
    a.append(":");
    push_decimal(&mut a, settings.application.port);
    proof {
        let host = settings.application.host@;
        let port = settings.application.port;
        assert(a@ =~= address_text(host, port));
        reveal_strlit(":");
        lemma_decimal_reads_back(port as nat);
        assert(a@.subrange(0, host.len() as int) =~= host);
        assert(a@.subrange(host.len() as int + 1, a@.len() as int) =~= decimal(port as nat));
        assert forall|i: int| host.len() < i < a@.len() implies is_digit(#[trigger] a@[i]) by {
            assert(a@[i] == decimal(port as nat)[i - host.len() - 1]);
        }
    }
    a
}

} // verus!
