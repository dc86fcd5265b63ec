//! A player's game profile as the session server returns it, and how it is handed on to a
//! backend server.

use crate::config::ForwardingMode;
use crate::text::{hex_bytes, push_char, push_hex_bytes, push_str};
use crate::wire::{
    from, lemma_string_roundtrip, lemma_varint_roundtrip, spec_bool, spec_read_string,
    spec_read_varint, spec_string, spec_varint, string_fits, write_bool, write_bytes,
    write_string, write_varint, WireError,
};
use vstd::prelude::*;

verus! {

/// A signed or unsigned property of a profile, such as the player's skin.
#[derive(Clone)]
pub struct Property {
    pub name: String,
    pub value: String,
    pub signature: Option<String>,
}

/// A player's identity: UUID (sixteen bytes, most significant first), name and properties.
#[derive(Clone)]
pub struct GameProfile {
    pub id: [u8; 16],
    pub name: String,
    pub properties: Vec<Property>,
}

/// The UUID in its simple form: thirty-two lowercase hexadecimal digits.
pub fn uuid_simple(id: &[u8; 16]) -> (r: String)
    ensures
        r@ == hex_bytes(id@),
{
    let mut s = String::new();
    push_hex_bytes(&mut s, id.as_slice());
    assert(s@ == Seq::<char>::empty() + hex_bytes(id@));
    s
}

/// Every byte of a UUID gives two hexadecimal characters.
pub proof fn lemma_hex_bytes_len(b: Seq<u8>)
    ensures
        hex_bytes(b).len() == 2 * b.len(),
    decreases b.len(),
{
    if b.len() > 0 {
        lemma_hex_bytes_len(b.drop_last());
    }
}

/// Only legacy forwarding puts player data into the host field: with any other mode the
/// host field is the server's address alone. With legacy forwarding it starts with the
/// server's address, followed by a NUL, and holds the player's address, the thirty-two UUID
/// characters and the profile JSON, with three NULs in all.
pub proof fn lemma_create_address_only_legacy_forwards(
    address: Seq<char>,
    user_address: Seq<char>,
    forwarding: ForwardingMode,
    id: Seq<u8>,
    profile_json: Seq<char>,
)
    requires
        id.len() == 16,
    ensures
        !(forwarding is Legacy) ==> spec_create_address(address, user_address, forwarding, id, profile_json)
            == address,
        forwarding is Legacy ==> ({
            let r = spec_create_address(address, user_address, forwarding, id, profile_json);
            let la = address.len() as int;
            let lu = user_address.len() as int;
            &&& r.len() == la + lu + 32 + profile_json.len() + 3
            &&& r.subrange(0, la) == address
            &&& r[la] == '\0'
            &&& r.subrange(la + 1, la + 1 + lu) == user_address
            &&& r.subrange(r.len() - profile_json.len(), r.len() as int) == profile_json
        }),
{
    lemma_hex_bytes_len(id);
    if forwarding is Legacy {
        let r = spec_create_address(address, user_address, forwarding, id, profile_json);
        assert(r == address + (seq!['\0'] + user_address + seq!['\0'] + hex_bytes(id) + seq!['\0']
            + profile_json));
        assert(r.subrange(0, address.len() as int) == address);
        let la = address.len() as int;
        let lu = user_address.len() as int;
        assert(r.subrange(la + 1, la + 1 + lu) == user_address);
        assert(r.subrange(r.len() - profile_json.len(), r.len() as int) == profile_json);
    }
}

/// Whether two UUIDs are equal.
pub fn uuid_eq(a: &[u8; 16], b: &[u8; 16]) -> (r: bool)
    ensures
        r == (a@ == b@),
{
    let mut i: usize = 0;
    while i < 16
        invariant
            i <= 16,
            a@.len() == 16,
            b@.len() == 16,
            forall|j: int| 0 <= j < i ==> a@[j] == b@[j],
        decreases 16 - i,
    {
        if a[i] != b[i] {
            return false;
        }
        i = i + 1;
    }
    assert(a@ == b@);
    true
}

/// The host field of the handshake sent to a backend server. With legacy forwarding it is the
/// server's address, the player's address, the player's UUID in simple form and the profile as
/// JSON, joined by NUL characters; otherwise the server's address alone.
pub open spec fn spec_create_address(
    address: Seq<char>,
    user_address: Seq<char>,
    forwarding: ForwardingMode,
    id: Seq<u8>,
    profile_json: Seq<char>,
) -> Seq<char> {
    if forwarding is Legacy {
        address.push('\0') + user_address + seq!['\0'] + hex_bytes(id) + seq!['\0'] + profile_json
    } else {
        address
    }
}

/// Builds the host field of the handshake sent to a backend server.
pub fn create_address(
    address: String,
    user_address: &str,
    forwarding: &ForwardingMode,
    profile: &GameProfile,
    profile_json: &str,
) -> (r: String)
    ensures
        r@ == spec_create_address(address@, user_address@, *forwarding, profile.id@, profile_json@),
{
    if let ForwardingMode::Legacy = forwarding {
        let mut s = address;
        push_char(&mut s, '\0');
        push_str(&mut s, user_address);
        push_char(&mut s, '\0');
        push_hex_bytes(&mut s, profile.id.as_slice());
        push_char(&mut s, '\0');
        push_str(&mut s, profile_json);
        s
    } else {
        address
    }
}

/// The channel on which Velocity asks for the player's data.
pub open spec fn velocity_channel() -> Seq<char> {
    "velocity:player_info"@
}

/// The version of Velocity's forwarding format that the proxy writes.
pub const VELOCITY_FORWARDING_VERSION: i32 = 1;

/// One property on the wire: name, value, whether it is signed, and the signature if so;
/// `None` when a string is too long for its field.
pub open spec fn spec_property(p: Property) -> Option<Seq<u8>> {
    if !string_fits(p.name@, 32767) || !string_fits(p.value@, 32767) {
        None
    } else {
        match p.signature {
            Some(sig) => if string_fits(sig@, 32767) {
                Some(spec_string(p.name@) + spec_string(p.value@) + spec_bool(true) + spec_string(sig@))
            } else {
                None
            },
            None => Some(spec_string(p.name@) + spec_string(p.value@) + spec_bool(false)),
        }
    }
}

/// The properties on the wire, one after the other; `None` when one cannot be written.
pub open spec fn spec_properties(ps: Seq<Property>) -> Option<Seq<u8>>
    decreases ps.len(),
{
    if ps.len() == 0 {
        Some(Seq::empty())
    } else {
        match (spec_properties(ps.drop_last()), spec_property(ps.last())) {
            (Some(a), Some(b)) => Some(a + b),
            _ => None,
        }
    }
}

/// The player data Velocity asks for: the format version, the player's address, UUID and
/// name, the property count and the properties; or the reason it cannot be written.
pub open spec fn spec_velocity_data(user_address: Seq<char>, profile: GameProfile) -> Result<Seq<u8>, WireError> {
    if !string_fits(user_address, 255) || !string_fits(profile.name@, 16) {
        Err(WireError::StringTooLong)
    } else if profile.properties@.len() > i32::MAX {
        Err(WireError::CountTooLarge)
    } else {
        match spec_properties(profile.properties@) {
            None => Err(WireError::StringTooLong),
            Some(props) => Ok(
                spec_varint(VELOCITY_FORWARDING_VERSION) + spec_string(user_address) + profile.id@
                    + spec_string(profile.name@) + spec_varint(profile.properties@.len() as i32)
                    + props,
            ),
        }
    }
}

/// Velocity's player data reads back field by field: the format version `1`, the player's
/// address, the sixteen UUID bytes, the player's name, and then, always, the number of
/// properties as a VarInt (a zero when there are none).
pub proof fn lemma_velocity_data_reads_back(user_address: Seq<char>, profile: GameProfile)
    requires
        spec_velocity_data(user_address, profile) is Ok,
    ensures
        ({
            let d = spec_velocity_data(user_address, profile)->Ok_0;
            let n1 = spec_string(user_address).len() as int;
            let n2 = spec_string(profile.name@).len() as int;
            let at_count = 1 + n1 + 16 + n2;
            &&& spec_read_varint(d) == Some((1int, 1nat))
            &&& spec_read_string(from(d, 1), 255) == Ok::<(Seq<char>, nat), WireError>(
                (user_address, n1 as nat),
            )
            &&& d.subrange(1 + n1, 1 + n1 + 16) == profile.id@
            &&& spec_read_string(from(d, 1 + n1 + 16), 16) == Ok::<(Seq<char>, nat), WireError>(
                (profile.name@, n2 as nat),
            )
            &&& spec_read_varint(from(d, at_count)) matches Some((count, _)) && count
                == profile.properties@.len()
        }),
{
    let props = spec_properties(profile.properties@)->Some_0;
    let v = spec_varint(VELOCITY_FORWARDING_VERSION);
    let a = spec_string(user_address);
    let na: int = a.len() as int;
    let id = profile.id@;
    let nm = spec_string(profile.name@);
    let c = spec_varint(profile.properties@.len() as i32);
    let d = spec_velocity_data(user_address, profile)->Ok_0;
    assert(d == v + a + id + nm + c + props);
    reveal_with_fuel(crate::wire::varint_bytes, 2);
    assert(v == seq![1u8]);
    lemma_varint_roundtrip(VELOCITY_FORWARDING_VERSION, a + id + nm + c + props);
    assert(d == v + (a + id + nm + c + props));
    assert(from(d, 1) == a + (id + nm + c + props));
    lemma_string_roundtrip(user_address, 255, id + nm + c + props);
    assert(d.subrange(1 + na, 1 + na + 16) == id);
    assert(from(d, 1 + na + 16) == nm + (c + props));
    lemma_string_roundtrip(profile.name@, 16, c + props);
    assert(from(d, 1 + na + 16 + nm.len()) == c + props);
    lemma_varint_roundtrip(profile.properties@.len() as i32, props);
}

fn write_property(out: &mut Vec<u8>, p: &Property) -> (r: Result<(), WireError>)
    ensures
        r is Ok <==> spec_property(*p) is Some,
        r is Ok ==> final(out)@ == old(out)@ + spec_property(*p)->Some_0,
        r is Err ==> r == Err::<(), WireError>(WireError::StringTooLong),
{
    let ghost start = out@;
    write_string(out, p.name.as_str(), 32767)?;
    write_string(out, p.value.as_str(), 32767)?;
    match &p.signature {
        Some(sig) => {
            if !crate::wire::fits_field(sig.as_str(), 32767) {
                return Err(WireError::StringTooLong);
            }
            write_bool(out, true);
            let r = write_string(out, sig.as_str(), 32767);
            assert(r is Ok);
            assert(out@ == start + spec_property(*p)->Some_0);
        },
        None => {
            write_bool(out, false);
            assert(out@ == start + spec_property(*p)->Some_0);
        },
    }
    Ok(())
}

/// Writes the player data that Velocity asks for.
pub fn velocity_forwarding_data(user_address: &str, profile: &GameProfile) -> (r: Result<Vec<u8>, WireError>)
    ensures
        match r {
            Ok(d) => spec_velocity_data(user_address@, *profile) == Ok::<Seq<u8>, WireError>(d@),
            Err(e) => spec_velocity_data(user_address@, *profile) == Err::<Seq<u8>, WireError>(e),
        },
{
    let mut data: Vec<u8> = Vec::new();
    write_varint(&mut data, VELOCITY_FORWARDING_VERSION);
    write_string(&mut data, user_address, 255)?;
    write_bytes(&mut data, profile.id.as_slice());
    write_string(&mut data, profile.name.as_str(), 16)?;
    let count = profile.properties.len();
    if count > 0x7fff_ffff {
        return Err(WireError::CountTooLarge);
    }
    write_varint(&mut data, count as i32);
    let ghost head = data@;
    let mut i: usize = 0;
    while i < count
        invariant
            i <= count == profile.properties@.len(),
            count <= i32::MAX,
            string_fits(user_address@, 255),
            string_fits(profile.name@, 16),
            spec_properties(profile.properties@.subrange(0, i as int)) matches Some(pb) && data@ == head + pb,
        decreases count - i,
    {
        proof {
            assert(profile.properties@.subrange(0, i + 1).drop_last() == profile.properties@.subrange(0, i as int));
            assert(profile.properties@.subrange(0, i + 1).last() == profile.properties@[i as int]);
        }
        match write_property(&mut data, &profile.properties[i]) {
            Ok(()) => {},
            Err(e) => {
                proof {
                    lemma_properties_none_extends(profile.properties@, (i + 1) as nat);
                }
                return Err(e);
            },
        }
        i = i + 1;
    }
    assert(profile.properties@.subrange(0, i as int) == profile.properties@);
    Ok(data)
}

proof fn lemma_properties_none_extends(ps: Seq<Property>, k: nat)
    requires
        k <= ps.len(),
        spec_properties(ps.subrange(0, k as int)) is None,
    ensures
        spec_properties(ps) is None,
    decreases ps.len() - k,
{
    if k < ps.len() {
        assert(ps.subrange(0, (k + 1) as int).drop_last() == ps.subrange(0, k as int));
        lemma_properties_none_extends(ps, k + 1);
    } else {
        assert(ps.subrange(0, k as int) == ps);
    }
}

} // verus!
