//! What a caller asks for when creating an instance, and the hardware
//! address that a new instance gets.

use crate::models::opt_text;
use rand::Rng;
use vstd::prelude::*;

verus! {

/// A creation request. Everything but the host and the distro may be left
/// out.
#[derive(Clone, Debug)]
pub struct NewInstance {
    pub name: Option<String>,
    pub memory_mb: Option<i32>,
    pub cpus: Option<i32>,
    pub host: String,
    pub disk_size_gb: Option<i32>,
    pub volume_prefix: Option<String>,
    pub distro: String,
    pub sata: Option<bool>,
    pub user_data: Option<String>,
    pub join_network: Option<bool>,
}

/// What a `NewInstance` holds, with its texts as sequences of characters.
pub struct NewInstanceView {
    pub name: Option<Seq<char>>,
    pub memory_mb: Option<i32>,
    pub cpus: Option<i32>,
    pub host: Seq<char>,
    pub disk_size_gb: Option<i32>,
    pub volume_prefix: Option<Seq<char>>,
    pub distro: Seq<char>,
    pub sata: Option<bool>,
    pub user_data: Option<Seq<char>>,
    pub join_network: Option<bool>,
}

impl View for NewInstance {
    type V = NewInstanceView;

    open spec fn view(&self) -> NewInstanceView {
        NewInstanceView {
            name: opt_text(self.name),
            memory_mb: self.memory_mb,
            cpus: self.cpus,
            host: self.host@,
            disk_size_gb: self.disk_size_gb,
            volume_prefix: opt_text(self.volume_prefix),
            distro: self.distro@,
            sata: self.sata,
            user_data: opt_text(self.user_data),
            join_network: self.join_network,
        }
    }
}

/// The character of one hexadecimal digit, in upper case.
pub open spec fn hex_upper(d: int) -> char {
    if d == 0 {
        '0'
    } else if d == 1 {
        '1'
    } else if d == 2 {
        '2'
    } else if d == 3 {
        '3'
    } else if d == 4 {
        '4'
    } else if d == 5 {
        '5'
    } else if d == 6 {
        '6'
    } else if d == 7 {
        '7'
    } else if d == 8 {
        '8'
    } else if d == 9 {
        '9'
    } else if d == 10 {
        'A'
    } else if d == 11 {
        'B'
    } else if d == 12 {
        'C'
    } else if d == 13 {
        'D'
    } else if d == 14 {
        'E'
    } else {
        'F'
    }
}

/// The two hexadecimal digits of a byte.
pub open spec fn byte_text(b: u8) -> Seq<char> {
    seq![hex_upper(b as int / 16), hex_upper(b as int % 16)]
}

/// The text of a hardware address: six bytes in upper-case hexadecimal
/// with colons between them.
pub open spec fn mac_text(addr: Seq<u8>) -> Seq<char> {
    byte_text(addr[0]) + seq![':'] + byte_text(addr[1]) + seq![':'] + byte_text(addr[2]) + seq![
        ':',
    ] + byte_text(addr[3]) + seq![':'] + byte_text(addr[4]) + seq![':'] + byte_text(addr[5])
}

/// The first byte of an address with the locally-administered bit set and
/// the multicast bit cleared.
pub open spec fn local_unicast(first: u8) -> u8 {
    (first | 2) & 0xfe
}

/// Whether a byte can start a locally administered unicast address.
pub open spec fn is_local_unicast(first: u8) -> bool {
    first & 3 == 2
}

/// Forcing the two bits makes any byte the start of a locally administered
/// unicast address, and changes no other bit.
pub proof fn lemma_local_unicast(first: u8)
    ensures
        is_local_unicast(local_unicast(first)),
        local_unicast(first) & 0xfc == first & 0xfc,
        is_local_unicast(first) ==> local_unicast(first) == first,
{
    assert(((first | 2) & 0xfe) & 3 == 2) by (bit_vector);
    assert(((first | 2) & 0xfe) & 0xfc == first & 0xfc) by (bit_vector);
    assert(first & 3 == 2 ==> (first | 2) & 0xfe == first) by (bit_vector);
}

/// Calls `Rng::gen::<[u8; 6]>` on `rand::thread_rng()`: six random bytes,
/// of which nothing is claimed.
#[verifier::external_body]
fn random_bytes() -> (out: [u8; 6]) {
    rand::thread_rng().gen::<[u8; 6]>()
}

/// Calls `Display` of `mac_address::MacAddress` on the address made by
/// `MacAddress::new`: each byte as two upper-case hexadecimal digits, with
/// colons between the bytes.
#[verifier::external_body]
fn mac_string(addr: [u8; 6]) -> (out: String)
    ensures
        out@ == mac_text(addr@),
{
    mac_address::MacAddress::new(addr).to_string()
}

/// The text of the locally administered unicast address that these six
/// bytes give: the first byte is forced, the others are kept.
pub fn local_mac(addr: [u8; 6]) -> (out: String)
    ensures
        out@ == mac_text(addr@.update(0, local_unicast(addr[0]))),
{
    let mut addr = addr;
    let first = (addr[0] | 2) & 0xfe;
    addr.set(0, first);
    mac_string(addr)
}

/// A random locally administered unicast hardware address, as text.
pub fn random_mac() -> (out: String)
    ensures
        exists|addr: Seq<u8>|
            addr.len() == 6 && is_local_unicast(#[trigger] addr[0]) && out@ == mac_text(addr),
        out@.len() == 17,
{
    let bytes = random_bytes();
    let out = local_mac(bytes);
    proof {
        let addr = bytes@.update(0, local_unicast(bytes[0]));
        lemma_local_unicast(bytes[0]);
        assert(addr.len() == 6);
        assert(is_local_unicast(addr[0]));
    }
    out
}

} // verus!
