use libp2p::Multiaddr;
use vstd::prelude::*;

verus! {

#[verifier::external_type_specification]
#[verifier::external_body]
pub struct ExMultiaddr(Multiaddr);

/// A multiaddress together with the text it was parsed from. Only `parse_multiaddr`
/// makes one, so the address is always the parse of its recorded text.
pub struct ParsedMultiaddr {
    addr: Multiaddr,
    text: String,
}

impl ParsedMultiaddr {
    /// The text that the address was parsed from.
    pub closed spec fn text(&self) -> Seq<char> {
        self.text@
    }

    /// The text that the address was parsed from.
    pub fn source_text(&self) -> (s: &str)
        ensures
            s@ == self.text(),
    {
        self.text.as_str()
    }

    /// The parsed address.
    pub fn multiaddr(&self) -> &Multiaddr {
        &self.addr
    }

    /// The parsed address, for dialling or listening.
    pub fn into_multiaddr(self) -> Multiaddr {
        self.addr
    }
}

/// Whether `<Multiaddr as FromStr>::from_str` accepts the text.
pub uninterp spec fn multiaddr_parses(text: Seq<char>) -> bool;

/// Calls `<libp2p::Multiaddr as FromStr>::from_str`. Trusted: it succeeds exactly on the
/// texts that `multiaddr_parses` names, and the address is recorded with its text.
#[verifier::external_body]
pub(crate) fn parse_multiaddr(text: &str) -> (r: Option<ParsedMultiaddr>)
    ensures
        r is Some == multiaddr_parses(text@),
        r matches Some(a) ==> a.text() == text@,
{
    text.parse::<Multiaddr>().ok().map(|addr| ParsedMultiaddr { addr, text: text.to_string() })
}

} // verus!
