//! The values the engine hands to, or takes from, the collaborators around
//! it: the names of an advertised network service, and the description of a
//! wireless interface.
use vstd::prelude::*;

verus! {

/// The host name a service instance is advertised under: `<instance>.local.`.
pub fn mdns_host_name(instance_name: &str) -> (r: String)
    ensures
        r@ == instance_name@ + ".local."@,
{
    String::from_str(instance_name).concat(".local.")
}

/// The full name of a registered service instance: `<instance>.<service type>`,
/// by which it is unregistered.
pub fn mdns_fullname(instance_name: &str, service_type: &str) -> (r: String)
    ensures
        r@ == instance_name@ + "."@ + service_type@,
{
    String::from_str(instance_name).concat(".").concat(service_type)
}

/// A wireless network interface: its identifier and its description.
pub struct WlanInterface {
    pub guid: String,
    pub description: String,
}

/// The text of UTF-16 code units, with each unpaired surrogate replaced by
/// U+FFFD.
pub uninterp spec fn utf16_lossy(units: Seq<u16>) -> Seq<char>;

/// Relies on `String::from_utf16_lossy`: decodes UTF-16, replacing each unpaired
/// surrogate; the text depends on the code units alone, and no code units give
/// no text.
#[verifier::external_body]
fn decode_utf16_lossy(units: &[u16]) -> (r: String)
    ensures
        r@ == utf16_lossy(units@),
        units@.len() == 0 ==> r@.len() == 0,
{
    String::from_utf16_lossy(units)
}

/// The length of a NUL-terminated buffer: up to its first NUL, or all of it.
pub open spec fn nul_terminated_len(units: Seq<u16>) -> int {
    if exists|i: int| 0 <= i < units.len() && units[i] == 0 {
        choose|i: int| 0 <= i < units.len() && units[i] == 0 && forall|j: int| 0 <= j < i ==> units[j] != 0
    } else {
        units.len() as int
    }
}

/// The description of an interface, from the fixed-size UTF-16 buffer the
/// platform fills: the text up to the first NUL, or the whole buffer if it
/// holds none.
pub fn interface_description(buffer: &[u16]) -> (r: String)
    ensures
        r@ == utf16_lossy(buffer@.take(nul_terminated_len(buffer@))),
{
    let mut n: usize = 0;
    while n < buffer.len() && buffer[n] != 0
        invariant
            n <= buffer@.len(),
            forall|j: int| 0 <= j < n ==> buffer@[j] != 0,
        decreases buffer@.len() - n,
    {
        n = n + 1;
    }
    proof {
        if n < buffer@.len() {
            let c = choose|i: int| 0 <= i < buffer@.len() && buffer@[i] == 0 && forall|j: int| 0 <= j < i ==> buffer@[j] != 0;
            assert(buffer@[n as int] == 0);
            if c < n {
                assert(buffer@[c] != 0);
            }
            if n < c {
                assert(buffer@[n as int] != 0);
            }
        }
    }
    let text = &buffer[0..n];
    assert(text@ =~= buffer@.take(n as int));
    decode_utf16_lossy(text)
}

} // verus!
