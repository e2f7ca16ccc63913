//! Random identifiers for the MQTT client session and for WebSocket clients.

use vstd::prelude::*;
use vstd::string::StringExecFns;

verus! {

/// Prefix of the MQTT client id of this service.
pub const MQTT_CLIENT_PREFIX: &'static str = "clepsydra-backend-";

/// Whether `c` is a lower-case hexadecimal digit.
pub open spec fn is_lower_hex(c: char) -> bool {
    ('0' <= c && c <= '9') || ('a' <= c && c <= 'f')
}

/// Whether `s` is a random (version 4) UUID in hyphenated lower-case form,
/// such as `67e55044-10b1-426f-9247-bb680e5fe0c8`.
pub open spec fn is_uuid_v4_text(s: Seq<char>) -> bool {
    &&& s.len() == 36
    &&& forall|i: int| 0 <= i < 36 ==> {
        if i == 8 || i == 13 || i == 18 || i == 23 {
            #[trigger] s[i] == '-'
        } else {
            is_lower_hex(s[i])
        }
    }
    &&& s[14] == '4'
    &&& (s[19] == '8' || s[19] == '9' || s[19] == 'a' || s[19] == 'b')
}

/// The lower-case hexadecimal digit of `n`, for `n` below 16.
pub open spec fn hex_digit(n: int) -> char {
    if n < 10 {
        ('0' as int + n) as char
    } else {
        ('a' as int + (n - 10)) as char
    }
}

/// Byte `i` of the random (version 4, RFC 4122 variant) UUID made of
/// `bytes`: byte 6 takes version 4 in its high nibble, byte 8 takes the
/// variant bits `10` in its two high bits, the others stay as they are.
pub open spec fn v4_byte(bytes: Seq<u8>, i: int) -> int {
    if i == 6 {
        bytes[6] % 16 + 0x40
    } else if i == 8 {
        bytes[8] % 64 + 0x80
    } else {
        bytes[i] as int
    }
}

/// How many hyphens stand before position `p` of a hyphenated UUID.
pub open spec fn hyphens_before(p: int) -> int {
    if p < 8 {
        0
    } else if p < 13 {
        1
    } else if p < 18 {
        2
    } else if p < 23 {
        3
    } else {
        4
    }
}

/// The hyphenated lower-case text of the random UUID made of `bytes`:
/// two hexadecimal digits per byte, high nibble first, with hyphens after
/// the 4th, 6th, 8th and 10th bytes.
pub open spec fn uuid_v4_text_of(bytes: Seq<u8>) -> Seq<char> {
    Seq::new(
        36,
        |p: int|
            if p == 8 || p == 13 || p == 18 || p == 23 {
                '-'
            } else {
                let h = p - hyphens_before(p);
                if h % 2 == 0 {
                    hex_digit(v4_byte(bytes, h / 2) / 16)
                } else {
                    hex_digit(v4_byte(bytes, h / 2) % 16)
                }
            },
    )
}

/// Sixteen random bytes from `getrandom::fill`, or `None` where the
/// operating system cannot supply them (the `getrandom::Error` case).
/// Which bytes come back is chance: nothing is claimed of them.
#[verifier::external_body]
fn random_bytes() -> Option<[u8; 16]> {
    let mut bytes = [0u8; 16];
    match getrandom::fill(&mut bytes) {
        Ok(()) => Some(bytes),
        Err(_) => None,
    }
}

/// The text of the UUID that `uuid::Builder::from_random_bytes(bytes)`
/// builds: it sets version 4 in byte 6 and the RFC 4122 variant in byte 8
/// (`with_version`, `with_variant`), and `Uuid`'s `Display` writes the
/// hyphenated lower-case form (`format_hyphenated` with `upper == false`).
#[verifier::external_body]
fn uuid_text_from_random_bytes(bytes: [u8; 16]) -> (text: String)
    ensures
        text@ == uuid_v4_text_of(bytes@),
{
    uuid::Builder::from_random_bytes(bytes).into_uuid().to_string()
}

/// The text of a random UUID always has the version 4 form.
pub proof fn uuid_text_has_v4_form(bytes: Seq<u8>)
    requires
        bytes.len() == 16,
    ensures
        is_uuid_v4_text(uuid_v4_text_of(bytes)),
{
    let s = uuid_v4_text_of(bytes);
    assert forall|p: int| 0 <= p < 36 implies {
        if p == 8 || p == 13 || p == 18 || p == 23 {
            #[trigger] s[p] == '-'
        } else {
            is_lower_hex(s[p])
        }
    } by {
        if !(p == 8 || p == 13 || p == 18 || p == 23) {
            let h = p - hyphens_before(p);
            let b = v4_byte(bytes, h / 2);
            assert(0 <= h / 2 < 16);
            assert(0 <= b < 256);
            assert(0 <= b / 16 < 16);
        }
    }
    assert(v4_byte(bytes, 6) / 16 == 4);
    let b8 = v4_byte(bytes, 8);
    assert(8 <= b8 / 16 < 12);
}

/// Different random bytes give different ids: the text of a random UUID
/// determines every byte it is made of, apart from the version and variant
/// bits that it sets.
pub proof fn uuid_text_keeps_the_bytes(a: Seq<u8>, b: Seq<u8>)
    requires
        a.len() == 16,
        b.len() == 16,
        uuid_v4_text_of(a) == uuid_v4_text_of(b),
    ensures
        forall|k: int| 0 <= k < 16 ==> #[trigger] v4_byte(a, k) == v4_byte(b, k),
{
    assert forall|k: int| 0 <= k < 16 implies #[trigger] v4_byte(a, k) == v4_byte(b, k) by {
        let h = 2 * k;
        let p = h + (if h < 8 { 0int } else if h < 12 { 1int } else if h < 16 { 2int } else if h < 20 { 3int } else { 4int });
        assert(p - hyphens_before(p) == h);
        assert(p + 1 - hyphens_before(p + 1) == h + 1);
        assert(!(p == 8 || p == 13 || p == 18 || p == 23));
        assert(!(p + 1 == 8 || p + 1 == 13 || p + 1 == 18 || p + 1 == 23));
        assert(h % 2 == 0 && h / 2 == k && (h + 1) % 2 == 1 && (h + 1) / 2 == k);
        let x = v4_byte(a, k);
        let y = v4_byte(b, k);
        assert(uuid_v4_text_of(a)[p] == hex_digit(x / 16));
        assert(uuid_v4_text_of(b)[p] == hex_digit(y / 16));
        assert(uuid_v4_text_of(a)[p + 1] == hex_digit(x % 16));
        assert(uuid_v4_text_of(b)[p + 1] == hex_digit(y % 16));
        assert(0 <= x < 256 && 0 <= y < 256);
        lemma_hex_digit_injective(x / 16, y / 16);
        lemma_hex_digit_injective(x % 16, y % 16);
        assert(x == 16 * (x / 16) + x % 16);
        assert(y == 16 * (y / 16) + y % 16);
    }
}

/// Distinct nibbles have distinct hexadecimal digits.
proof fn lemma_hex_digit_injective(x: int, y: int)
    requires
        0 <= x < 16,
        0 <= y < 16,
        hex_digit(x) == hex_digit(y),
    ensures
        x == y,
{
    assert(('0' as int) == 48 && ('a' as int) == 97);
    assert((hex_digit(x) as int) == (if x < 10 { 48 + x } else { 87 + x }));
    assert((hex_digit(y) as int) == (if y < 10 { 48 + y } else { 87 + y }));
}

/// The client id made of sixteen random bytes: the text of the random UUID
/// that they make.
pub fn client_id_from_bytes(bytes: [u8; 16]) -> (id: String)
    ensures
        id@ == uuid_v4_text_of(bytes@),
        is_uuid_v4_text(id@),
{
    proof { uuid_text_has_v4_form(bytes@); }
    uuid_text_from_random_bytes(bytes)
}

/// A fresh id for a WebSocket client, or `None` where no random bytes can
/// be had.
pub fn new_client_id() -> (id: Option<String>)
    ensures
        id matches Some(t) ==> is_uuid_v4_text(t@),
{
    match random_bytes() {
        Some(bytes) => Some(client_id_from_bytes(bytes)),
        None => None,
    }
}

/// The MQTT client id made of `uuid`: the service's prefix, then `uuid`.
pub fn mqtt_client_id_for(uuid: &str) -> (id: String)
    ensures
        id@ == MQTT_CLIENT_PREFIX@ + uuid@,
{
    MQTT_CLIENT_PREFIX.to_owned().concat(uuid)
}

/// A fresh MQTT client id for this service: its prefix, then a random
/// UUID; `None` where no random bytes can be had.
pub fn new_mqtt_client_id() -> (id: Option<String>)
    ensures
        id matches Some(t) ==> {
            &&& t@.len() == MQTT_CLIENT_PREFIX@.len() + 36
            &&& t@.subrange(0, MQTT_CLIENT_PREFIX@.len() as int) == MQTT_CLIENT_PREFIX@
            &&& is_uuid_v4_text(t@.subrange(MQTT_CLIENT_PREFIX@.len() as int, t@.len() as int))
        },
{
    match new_client_id() {
        Some(uuid) => {
            let id = mqtt_client_id_for(uuid.as_str());
            assert(id@.subrange(0, MQTT_CLIENT_PREFIX@.len() as int) =~= MQTT_CLIENT_PREFIX@);
            assert(id@.subrange(MQTT_CLIENT_PREFIX@.len() as int, id@.len() as int) =~= uuid@);
            Some(id)
        },
        None => None,
    }
}

} // verus!
