//! Plugin messages passed between a player and a backend server, and the client brand that
//! the proxy marks with its own name on the way.

use crate::text::{push_str, str_eq};
use crate::wire::{lemma_string_roundtrip, read_string, spec_read_string, spec_string, string_fits, write_string, WireError};
use vstd::prelude::*;

verus! {

/// The longest brand string, in characters.
pub const BRAND_MAX_CHARS: usize = 32767;

/// Whether a plugin channel carries the client or server brand (its current or legacy name).
pub open spec fn spec_is_brand(identifier: Seq<char>) -> bool {
    identifier == "minecraft:brand"@ || identifier == "MC|Brand"@
}

/// Whether a plugin channel carries the brand.
pub fn is_brand(identifier: &str) -> (r: bool)
    ensures
        r == spec_is_brand(identifier@),
{
    str_eq(identifier, "minecraft:brand") || str_eq(identifier, "MC|Brand")
}

/// A brand with the proxy's name appended: `<brand> (Nitrogen)`.
pub open spec fn marked_brand(brand: Seq<char>) -> Seq<char> {
    brand + " ("@ + "Nitrogen"@ + ")"@
}

/// The payload of a brand message after the proxy marks it: the brand string read from the
/// start of the payload (what follows it is dropped), with the proxy's name appended, written
/// back as a string; or why that cannot be done.
pub open spec fn spec_rewrite_brand(data: Seq<u8>) -> Result<Seq<u8>, WireError> {
    match spec_read_string(data, BRAND_MAX_CHARS as nat) {
        Err(e) => Err(e),
        Ok((brand, _)) => if string_fits(marked_brand(brand), BRAND_MAX_CHARS as nat) {
            Ok(spec_string(marked_brand(brand)))
        } else {
            Err(WireError::StringTooLong)
        },
    }
}

/// Marks the brand in a brand message's payload with the proxy's name.
pub fn rewrite_brand(data: &[u8]) -> (r: Result<Vec<u8>, WireError>)
    ensures
        match r {
            Ok(d) => spec_rewrite_brand(data@) == Ok::<Seq<u8>, WireError>(d@),
            Err(e) => spec_rewrite_brand(data@) == Err::<Seq<u8>, WireError>(e),
        },
{
    assert(crate::wire::from(data@, 0) == data@);
    let (mut brand, _) = read_string(data, 0, BRAND_MAX_CHARS)?;
    push_str(&mut brand, " (");
    push_str(&mut brand, "Nitrogen");
    push_str(&mut brand, ")");
    let mut out: Vec<u8> = Vec::new();
    write_string(&mut out, brand.as_str(), BRAND_MAX_CHARS)?;
    assert(out@ == Seq::<u8>::empty() + spec_string(brand@));
    Ok(out)
}

/// The payload forwarded for a plugin message on `channel`: a brand payload marked with the
/// proxy's name, any other payload unchanged.
pub open spec fn spec_relay_payload(channel: Seq<char>, data: Seq<u8>) -> Result<Seq<u8>, WireError> {
    if spec_is_brand(channel) {
        spec_rewrite_brand(data)
    } else {
        Ok(data)
    }
}

/// The payload forwarded for a plugin message, in either direction.
pub fn relay_plugin_message(channel: &str, data: Vec<u8>) -> (r: Result<Vec<u8>, WireError>)
    ensures
        match r {
            Ok(d) => spec_relay_payload(channel@, data@) == Ok::<Seq<u8>, WireError>(d@),
            Err(e) => spec_relay_payload(channel@, data@) == Err::<Seq<u8>, WireError>(e),
        },
{
    if is_brand(channel) {
        rewrite_brand(data.as_slice())
    } else {
        Ok(data)
    }
}

/// Marking a well-formed brand message gives a payload from which the marked brand reads
/// back, whatever followed the brand it started from.
pub proof fn lemma_rewrite_brand_reads_back(brand: Seq<char>, rest: Seq<u8>)
    requires
        string_fits(marked_brand(brand), BRAND_MAX_CHARS as nat),
    ensures
        spec_rewrite_brand(spec_string(brand) + rest) == Ok::<Seq<u8>, WireError>(
            spec_string(marked_brand(brand)),
        ),
        spec_read_string(spec_string(marked_brand(brand)), BRAND_MAX_CHARS as nat) == Ok::<
            (Seq<char>, nat),
            WireError,
        >((marked_brand(brand), spec_string(marked_brand(brand)).len())),
{
    crate::wire::lemma_utf8_len(brand);
    crate::wire::lemma_utf8_len(marked_brand(brand));
    assert(brand.len() <= marked_brand(brand).len());
    assert(crate::wire::utf8(brand).len() <= crate::wire::utf8(marked_brand(brand)).len()) by {
        lemma_utf8_prefix_len(brand, " ("@ + "Nitrogen"@ + ")"@);
        assert(marked_brand(brand) == brand + (" ("@ + "Nitrogen"@ + ")"@));
    }
    lemma_string_roundtrip(brand, BRAND_MAX_CHARS as nat, rest);
    lemma_string_roundtrip(marked_brand(brand), BRAND_MAX_CHARS as nat, Seq::empty());
    assert(spec_string(marked_brand(brand)) + Seq::<u8>::empty() == spec_string(marked_brand(brand)));
}

/// A payload that does not start with a well-formed brand string is refused, with the
/// error that reading the string gives.
pub proof fn lemma_rewrite_brand_refuses_malformed(data: Seq<u8>)
    ensures
        spec_read_string(data, BRAND_MAX_CHARS as nat) matches Err(e) ==> spec_rewrite_brand(data)
            == Err::<Seq<u8>, WireError>(e),
{
}

/// The UTF-8 encoding of a concatenation is the concatenation of the encodings.
pub proof fn lemma_utf8_concat(a: Seq<char>, b: Seq<char>)
    ensures
        crate::wire::utf8(a + b) == crate::wire::utf8(a) + crate::wire::utf8(b),
    decreases a.len(),
{
    if a.len() > 0 {
        assert((a + b).drop_first() == a.drop_first() + b);
        lemma_utf8_concat(a.drop_first(), b);
        assert(crate::wire::utf8(a + b) == vstd::utf8::encode_scalar((a + b)[0] as u32)
            + crate::wire::utf8(a.drop_first() + b));
    } else {
        assert(a + b == b);
    }
}

proof fn lemma_utf8_prefix_len(a: Seq<char>, b: Seq<char>)
    ensures
        crate::wire::utf8(a).len() <= crate::wire::utf8(a + b).len(),
{
    lemma_utf8_concat(a, b);
}

} // verus!
