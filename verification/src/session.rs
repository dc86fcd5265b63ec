//! Authentication against the session server, and the messages a refused client is shown.

use crate::text::{decimal, push_char, push_decimal, push_str};
use crate::wire::utf8;
use rsa::pkcs1::DecodeRsaPrivateKey;
use sha1::Digest;
use vstd::prelude::*;
use vstd::string::StringSliceAdditionalSpecFns;

verus! {

/// The SHA-1 digest of `data` (twenty bytes).
pub uninterp spec fn sha1_of(data: Seq<u8>) -> Seq<u8>;

/// `sha1::Sha1::digest`: the SHA-1 digest of `data`, which is twenty bytes long.
#[verifier::external_body]
fn sha1_digest(data: &[u8]) -> (r: Vec<u8>)
    ensures
        r@ == sha1_of(data@),
        r@.len() == 20,
{
    sha1::Sha1::digest(data).to_vec()
}

/// The PKCS#1 v1.5 decryption of `ciphertext` under the RSA private key whose PKCS#1 DER
/// encoding is `key_der`; `None` when the key does not parse or the ciphertext does not
/// decrypt.
pub uninterp spec fn pkcs1v15_decryption(key_der: Seq<u8>, ciphertext: Seq<u8>) -> Option<Seq<u8>>;

/// `rsa::RsaPrivateKey::from_pkcs1_der` followed by `RsaPrivateKey::decrypt` with
/// `Pkcs1v15Encrypt`: the decrypted bytes, or `None` where either call fails. Decryption
/// draws no random numbers, so the result depends on the key and the ciphertext alone; what
/// the bytes are is left unsaid (the PKCS#1 v1.5 algorithm is not restated here).
#[verifier::external_body]
pub(crate) fn pkcs1v15_decrypt(key_der: &[u8], ciphertext: &[u8]) -> (r: Option<Vec<u8>>)
    ensures
        match r {
            Some(v) => pkcs1v15_decryption(key_der@, ciphertext@) == Some(v@),
            None => pkcs1v15_decryption(key_der@, ciphertext@) is None,
        },
{
    match rsa::RsaPrivateKey::from_pkcs1_der(key_der) {
        Ok(key) => key.decrypt(rsa::Pkcs1v15Encrypt, ciphertext).ok(),
        Err(_) => None,
    }
}

/// `256` to the power `n`.
pub open spec fn pow256(n: nat) -> nat
    decreases n,
{
    if n == 0 {
        1
    } else {
        256 * pow256((n - 1) as nat)
    }
}

/// The unsigned big-endian value of `b`.
pub open spec fn be_value(b: Seq<u8>) -> nat
    decreases b.len(),
{
    if b.len() == 0 {
        0
    } else {
        be_value(b.drop_last()) * 256 + b.last() as nat
    }
}

/// The value of `b` read as a big-endian two's complement integer.
pub open spec fn signed_be_value(b: Seq<u8>) -> int {
    if b.len() > 0 && b[0] >= 128 {
        be_value(b) - pow256(b.len())
    } else {
        be_value(b) as int
    }
}

/// The lowercase hexadecimal digits of `n`, with no leading zero (`0` for zero).
pub open spec fn hex_nat(n: nat) -> Seq<char>
    decreases n,
{
    if n < 16 {
        seq![crate::text::hex_char(n)]
    } else {
        hex_nat(n / 16).push(crate::text::hex_char(n % 16))
    }
}

/// An integer in lowercase hexadecimal, with a `-` before a negative one.
pub open spec fn signed_hex(v: int) -> Seq<char> {
    if v < 0 {
        seq!['-'] + hex_nat((-v) as nat)
    } else {
        hex_nat(v as nat)
    }
}

/// `num_bigint::BigInt::from_signed_bytes_be` written with `{:x}`: the bytes read as a
/// big-endian two's complement integer (zero for no bytes), in lowercase hexadecimal with a
/// leading `-` when negative.
#[verifier::external_body]
fn signed_be_hex(bytes: &[u8]) -> (r: String)
    ensures
        r@ == signed_hex(signed_be_value(bytes@)),
{
    format!("{:x}", num_bigint::BigInt::from_signed_bytes_be(bytes))
}

/// The hexadecimal form of a digest that the session server expects: the bytes as a
/// big-endian two's complement integer, in lowercase hexadecimal, negative ones with a `-`.
pub fn digest(bytes: &[u8]) -> (r: String)
    ensures
        r@ == signed_hex(signed_be_value(bytes@)),
{
    signed_be_hex(bytes)
}

/// The bytes that the server id hash is taken over.
pub open spec fn server_id_input(server_id: Seq<char>, shared_secret: Seq<u8>, public_key: Seq<u8>) -> Seq<u8> {
    utf8(server_id) + shared_secret + public_key
}

/// The server id hash that the session server checks: SHA-1 over the server id's UTF-8
/// bytes, the shared secret and the public key, in the signed hexadecimal form of [`digest`].
pub open spec fn spec_server_hash(server_id: Seq<char>, shared_secret: Seq<u8>, public_key: Seq<u8>) -> Seq<char> {
    signed_hex(signed_be_value(sha1_of(server_id_input(server_id, shared_secret, public_key))))
}

/// The server id hash depends only on the bytes hashed: splitting them differently among
/// the server id, the shared secret and the public key gives the same hash.
pub proof fn lemma_server_hash_depends_on_bytes(
    s1: Seq<char>,
    b1: Seq<u8>,
    k1: Seq<u8>,
    s2: Seq<char>,
    b2: Seq<u8>,
    k2: Seq<u8>,
)
    requires
        server_id_input(s1, b1, k1) == server_id_input(s2, b2, k2),
    ensures
        spec_server_hash(s1, b1, k1) == spec_server_hash(s2, b2, k2),
{
}

/// The hash is taken over every byte of its three inputs in order: the server id's UTF-8
/// bytes, then the whole shared secret, then the whole public key, whatever their lengths.
/// So moving the key into the secret, or everything into the key, gives the same hash.
pub proof fn lemma_server_hash_covers_all_bytes(server_id: Seq<char>, shared_secret: Seq<u8>, public_key: Seq<u8>)
    ensures
        ({
            let input = server_id_input(server_id, shared_secret, public_key);
            let n = utf8(server_id).len() as int;
            let m = shared_secret.len() as int;
            &&& input.len() == n + m + public_key.len()
            &&& input.subrange(0, n) == utf8(server_id)
            &&& input.subrange(n, n + m) == shared_secret
            &&& input.subrange(n + m, input.len() as int) == public_key
        }),
        spec_server_hash(server_id, shared_secret, public_key) == spec_server_hash(
            server_id,
            shared_secret + public_key,
            Seq::empty(),
        ),
        spec_server_hash(server_id, shared_secret, public_key) == spec_server_hash(
            Seq::empty(),
            Seq::empty(),
            utf8(server_id) + shared_secret + public_key,
        ),
{
    let input = server_id_input(server_id, shared_secret, public_key);
    assert(input.subrange(0, utf8(server_id).len() as int) == utf8(server_id));
    assert(server_id_input(server_id, shared_secret + public_key, Seq::empty()) == input);
    assert(utf8(Seq::<char>::empty()) == Seq::<u8>::empty());
    assert(server_id_input(Seq::empty(), Seq::empty(), utf8(server_id) + shared_secret + public_key)
        == input);
}

/// Computes the server id hash.
pub fn hash_server_id(server_id: &str, shared_secret: &[u8], public_key: &[u8]) -> (r: String)
    ensures
        r@ == spec_server_hash(server_id@, shared_secret@, public_key@),
{
    let mut data: Vec<u8> = Vec::new();
    crate::wire::write_bytes(&mut data, server_id.as_bytes());
    crate::wire::write_bytes(&mut data, shared_secret);
    crate::wire::write_bytes(&mut data, public_key);
    proof {
        assert(server_id.spec_bytes() == utf8(server_id@));
        assert(data@ == server_id_input(server_id@, shared_secret@, public_key@));
    }
    let hash = sha1_digest(data.as_slice());
    digest(hash.as_slice())
}

/// The session server query for a player: `<server>?username=<name>&serverId=<hash>`.
pub open spec fn spec_session_url(session_server: Seq<char>, username: Seq<char>, hash: Seq<char>) -> Seq<char> {
    session_server + "?username="@ + username + "&serverId="@ + hash
}

/// Builds the session server query for a player.
pub fn session_url(session_server: &str, username: &str, hash: &str) -> (r: String)
    ensures
        r@ == spec_session_url(session_server@, username@, hash@),
{
    let mut s = String::new();
    push_str(&mut s, session_server);
    push_str(&mut s, "?username=");
    push_str(&mut s, username);
    push_str(&mut s, "&serverId=");
    push_str(&mut s, hash);
    s
}

/// The default session server.
pub fn default_session_server() -> (r: String)
    ensures
        r@ == "https://sessionserver.mojang.com/session/minecraft/hasJoined"@,
{
    String::from_str("https://sessionserver.mojang.com/session/minecraft/hasJoined")
}

/// What a session server reply with HTTP status `status` means: `None` when the player is
/// authenticated (200), otherwise the reason to disconnect the player with.
pub open spec fn spec_session_refusal(status: u16, reason: Seq<char>) -> Option<Seq<char>> {
    if status == 204 {
        Some("Failed to authenticate with Mojang."@)
    } else if status != 200 {
        Some("Received "@ + decimal(status as nat) + "("@ + reason + ") from Mojang authentication."@)
    } else {
        None
    }
}

/// Judges a session server reply; `reason` is the status's canonical reason phrase
/// (`Unknown` where it has none).
pub fn session_refusal(status: u16, reason: &str) -> (r: Option<String>)
    ensures
        match r {
            Some(m) => spec_session_refusal(status, reason@) == Some(m@),
            None => spec_session_refusal(status, reason@) is None,
        },
{
    if status == 204 {
        Some(String::from_str("Failed to authenticate with Mojang."))
    } else if status != 200 {
        let mut s = String::new();
        push_str(&mut s, "Received ");
        push_decimal(&mut s, status as u64);
        push_str(&mut s, "(");
        push_str(&mut s, reason);
        push_str(&mut s, ") from Mojang authentication.");
        Some(s)
    } else {
        None
    }
}

/// `n` spaces.
pub open spec fn spaces(n: nat) -> Seq<char> {
    Seq::new(n, |i: int| ' ')
}

/// Appends `n` spaces.
fn push_spaces(s: &mut String, n: usize)
    ensures
        final(s)@ == old(s)@ + spaces(n as nat),
{
    let ghost start = s@;
    let mut i: usize = 0;
    while i < n
        invariant
            i <= n,
            s@ == start + spaces(i as nat),
        decreases n - i,
    {
        push_char(s, ' ');
        i = i + 1;
        assert(s@ == start + spaces(i as nat));
    }
}

/// A red chat message whose `text` member is the JSON string `text_json`, laid out as the
/// proxy writes it.
pub open spec fn chat_frame(text_json: Seq<char>) -> Seq<char> {
    "{\n"@ + spaces(28) + "\"text\": "@ + text_json + ",\n"@ + spaces(28) + "\"color\": \"red\"\n"@
        + spaces(24) + "}"@
}

/// Appends a red chat message around `text_json`.
fn push_chat_frame(s: &mut String, text_json: &str)
    ensures
        final(s)@ == old(s)@ + chat_frame(text_json@),
{
    let ghost start = s@;
    push_str(s, "{\n");
    push_spaces(s, 28);
    push_str(s, "\"text\": ");
    push_str(s, text_json);
    push_str(s, ",\n");
    push_spaces(s, 28);
    push_str(s, "\"color\": \"red\"\n");
    push_spaces(s, 24);
    push_str(s, "}");
    assert(s@ == start + chat_frame(text_json@));
}

/// The red chat message whose `text` member is the JSON string `text_json`.
pub fn chat_message(text_json: &str) -> (r: String)
    ensures
        r@ == chat_frame(text_json@),
{
    let mut s = String::new();
    push_chat_frame(&mut s, text_json);
    assert(s@ == Seq::<char>::empty() + chat_frame(text_json@));
    s
}

/// `s` with every double quote turned into a single quote.
pub open spec fn replace_quotes(s: Seq<char>) -> Seq<char> {
    s.map_values(|c: char| if c == '"' { '\'' } else { c })
}

/// Turns every double quote of `s` into a single quote.
pub fn quotes_to_apostrophes(s: &str) -> (r: String)
    ensures
        r@ == replace_quotes(s@),
{
    broadcast use vstd::string::axiom_spec_iter;

    let mut out = String::new();
    for c in it: s.chars()
        invariant
            it.seq() == s@,
            out@ == replace_quotes(s@.subrange(0, it.index())),
    {
        let ghost i = it.index();
        push_char(&mut out, if c == '"' { '\'' } else { c });
        assert(replace_quotes(s@.subrange(0, i + 1)) == replace_quotes(s@.subrange(0, i)).push(
            if c == '"' { '\'' } else { c },
        ));
    }
    assert(s@.subrange(0, s@.len() as int) == s@);
    out
}

/// The `Debug` form of a string: the string in double quotes, with characters escaped as
/// the standard library escapes them.
pub uninterp spec fn debug_quoted(s: Seq<char>) -> Seq<char>;

/// `format!("{:?}", s)` for a string slice: its `Debug` form.
#[verifier::external_body]
fn debug_quote(s: &str) -> (r: String)
    ensures
        r@ == debug_quoted(s@),
{
    format!("{:?}", s)
}

/// The chat message a client is disconnected with: `reason`, its double quotes turned into
/// single quotes, quoted as `Debug` quotes a string, as the red `text` of a chat message.
pub open spec fn spec_disconnect_message(reason: Seq<char>) -> Seq<char> {
    chat_frame(debug_quoted(replace_quotes(reason)))
}

/// Builds the chat message a client is disconnected with.
pub fn disconnect_message(reason: &str) -> (r: String)
    ensures
        r@ == spec_disconnect_message(reason@),
{
    let plain = quotes_to_apostrophes(reason);
    let quoted = debug_quote(plain.as_str());
    chat_message(quoted.as_str())
}

/// The chat message a client whose protocol the proxy cannot speak is disconnected with;
/// `protocol` is the protocol as the codec names it.
pub open spec fn spec_unsupported_version_message(protocol: Seq<char>) -> Seq<char> {
    chat_frame("\"Your current client version ("@ + protocol + ") is not supported by the server.\""@)
}

/// Builds the message for a client whose protocol the proxy cannot speak.
pub fn unsupported_version_message(protocol: &str) -> (r: String)
    ensures
        r@ == spec_unsupported_version_message(protocol@),
{
    let mut text = String::new();
    push_str(&mut text, "\"Your current client version (");
    push_str(&mut text, protocol);
    push_str(&mut text, ") is not supported by the server.\"");
    chat_message(text.as_str())
}

} // verus!
