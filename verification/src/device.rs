//! The device id: the MD5 digest, in hex, of the machine's MAC address as
//! text. Looking the address up is the shell's part; the text is made by
//! `mac_address` and the digest by `md5`.

use vstd::prelude::*;

verus! {

/// Why there is no device id.
#[derive(Clone, Copy, Debug, PartialEq, Eq, Structural)]
pub enum DeviceIdError {
    /// The lookup of the address failed.
    Lookup,
    /// The machine has no network device with an address.
    NoMacAddress,
}

/// The upper-case hexadecimal digit for a value below sixteen.
pub open spec fn upper_hex_digit(value: int) -> char
    recommends
        0 <= value < 16,
{
    seq!['0', '1', '2', '3', '4', '5', '6', '7', '8', '9', 'A', 'B', 'C', 'D', 'E', 'F'][value]
}

/// A MAC address as text: its six bytes as two upper-case hex digits each,
/// with a colon between one byte and the next.
pub open spec fn mac_text(bytes: Seq<u8>) -> Seq<char>
    recommends
        bytes.len() == 6,
{
    Seq::new(
        17,
        |i: int|
            if i % 3 == 2 {
                ':'
            } else if i % 3 == 0 {
                upper_hex_digit(bytes[i / 3] as int / 16)
            } else {
                upper_hex_digit(bytes[i / 3] as int % 16)
            },
    )
}

/// The MD5 digest of a text's UTF-8 bytes, as `md5` computes it, written as
/// `md5` writes a digest in lower-case hex.
pub uninterp spec fn md5_hex(text: Seq<char>) -> Seq<char>;

/// `mac_address::MacAddress::new` followed by the address's `to_string`.
/// The claim: the text is the six bytes in order, each as two upper-case
/// hex digits, separated by colons.
#[verifier::external_body]
fn address_text(bytes: [u8; 6]) -> (r: String)
    ensures
        r@ == mac_text(bytes@),
{
    mac_address::MacAddress::new(bytes).to_string()
}

/// `md5::compute` on the text's bytes, the digest formatted with `{:x}`.
/// The claim: the result depends on the text alone.
#[verifier::external_body]
fn digest_hex(text: &str) -> (r: String)
    ensures
        r@ == md5_hex(text@),
{
    format!("{:x}", md5::compute(text))
}

/// The device id for what the lookup of the MAC address yielded: the
/// bytes of the address, none, or a failure.
pub fn get_device_id(address: Result<Option<[u8; 6]>, DeviceIdError>) -> (r: Result<
    String,
    DeviceIdError,
>)
    ensures
        match address {
            Ok(Some(bytes)) => r matches Ok(id) && id@ == md5_hex(mac_text(bytes@)),
            Ok(None) => r == Err::<String, DeviceIdError>(DeviceIdError::NoMacAddress),
            Err(e) => r == Err::<String, DeviceIdError>(e),
        },
{
    match address {
        Ok(Some(bytes)) => {
            let text = address_text(bytes);
            Ok(digest_hex(text.as_str()))
        },
        Ok(None) => Err(DeviceIdError::NoMacAddress),
        Err(e) => Err(e),
    }
}

} // verus!
