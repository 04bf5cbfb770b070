//! Listen addresses: the binary form of a transport address.
use vstd::prelude::*;

verus! {

/// The binary form of the address that `text` denotes, or `None` where `text`
/// denotes none.
pub uninterp spec fn multiaddr_encoding(text: Seq<char>) -> Option<Seq<u8>>;

/// Parses `text` with `<multiaddr::Multiaddr as FromStr>::from_str` and copies
/// the bytes out with `Multiaddr::to_vec`. The parser reads nothing but its
/// argument, so the bytes are named as a function of the text; a text that the
/// parser rejects gives `None`.
#[verifier::external_body]
fn encode_multiaddr(text: &str) -> (bytes: Option<Vec<u8>>)
    ensures
        match bytes {
            Some(b) => multiaddr_encoding(text@) == Some(b@),
            None => multiaddr_encoding(text@).is_none(),
        },
{
    match text.parse::<libp2p::Multiaddr>() {
        Ok(address) => Some(address.to_vec()),
        Err(_) => None,
    }
}

/// A transport address, held in its binary form.
#[derive(Debug)]
pub struct ListenAddress {
    bytes: Vec<u8>,
}

impl View for ListenAddress {
    type V = Seq<u8>;

    closed spec fn view(&self) -> Seq<u8> {
        self.bytes@
    }
}

/// The text of the address that asks for any port on every interface.
pub open spec fn ephemeral_text() -> Seq<char> {
    "/ip4/0.0.0.0/tcp/0"@
}

impl ListenAddress {
    /// The address with the given binary form.
    pub fn from_bytes(bytes: Vec<u8>) -> (address: ListenAddress)
        ensures
            address@ == bytes@,
    {
        ListenAddress { bytes }
    }

    /// The binary form.
    pub fn as_bytes(&self) -> (bytes: &Vec<u8>)
        ensures
            bytes@ == self@,
    {
        &self.bytes
    }

    /// The address that `text` denotes, if it denotes one.
    pub fn parse(text: &str) -> (address: Option<ListenAddress>)
        ensures
            match address {
                Some(a) => multiaddr_encoding(text@) == Some(a@),
                None => multiaddr_encoding(text@).is_none(),
            },
    {
        match encode_multiaddr(text) {
            Some(bytes) => Some(ListenAddress { bytes }),
            None => None,
        }
    }

    /// The address that asks for any port on every interface.
    pub fn ephemeral() -> (address: Option<ListenAddress>)
        ensures
            match address {
                Some(a) => multiaddr_encoding(ephemeral_text()) == Some(a@),
                None => multiaddr_encoding(ephemeral_text()).is_none(),
            },
    {
        ListenAddress::parse("/ip4/0.0.0.0/tcp/0")
    }

    /// Whether two addresses are the same address.
    pub fn same_as(&self, other: &ListenAddress) -> (same: bool)
        ensures
            same == (self@ == other@),
    {
        if self.bytes.len() != other.bytes.len() {
            return false;
        }
        let mut i: usize = 0;
        while i < self.bytes.len()
            invariant
                i <= self.bytes.len(),
                self.bytes.len() == other.bytes.len(),
                forall|j: int| 0 <= j < i ==> self.bytes@[j] == other.bytes@[j],
            decreases self.bytes.len() - i,
        {
            if self.bytes[i] != other.bytes[i] {
                return false;
            }
            i += 1;
        }
        assert(self.bytes@ =~= other.bytes@);
        true
    }

    /// A copy of this address.
    pub fn duplicate(&self) -> (copy: ListenAddress)
        ensures
            copy@ == self@,
    {
        let mut bytes: Vec<u8> = Vec::new();
        let mut i: usize = 0;
        while i < self.bytes.len()
            invariant
                i <= self.bytes.len(),
                bytes@ == self.bytes@.take(i as int),
            decreases self.bytes.len() - i,
        {
            bytes.push(self.bytes[i]);
            assert(self.bytes@.take(i + 1) =~= self.bytes@.take(i as int).push(self.bytes@[i as int]));
            i += 1;
        }
        assert(self.bytes@.take(i as int) =~= self.bytes@);
        ListenAddress { bytes }
    }
}

} // verus!
