use vstd::prelude::*;
use vstd::string::StringExecFns;
use vstd::utf8::{encode_utf8, is_ascii_chars, is_ascii_chars_encode_utf8};

use crate::errors::EncryptionError;
use crate::numfmt::{append_dec_u64, dec_digits, digit_char};

use base64::Engine;

verus! {

/// The cipher key for a tick count: the top 16 bits of the count, with the
/// bottom 16 zeroed.
pub open spec fn key_of(ticks: u32) -> u32 {
    ticks & 0xFFFF0000
}

/// The index of a key's checksum character in the fixed table.
pub open spec fn checksum_index(key: u32) -> u32 {
    (key & 0x000F0000) >> 16
}

/// The fixed 16-entry checksum table.
pub open spec fn checksum_table() -> Seq<char> {
    seq!['f', 'X', '1', 'p', 'G', 't', 'd', 'S', '5', 'C', 'A', 'P', '4', '_', 'V', 'L']
}

/// The checksum character of a key.
pub open spec fn checksum_char_of(key: u32) -> char {
    checksum_table()[checksum_index(key) as int]
}

/// The eight lowercase hexadecimal digits of a 32-bit key, most significant
/// first; the raw bytes of this string are the cipher key material.
pub open spec fn hex8(k: u32) -> Seq<char> {
    Seq::new(8, |i: int| digit_char(((k >> ((28 - 4 * i) as u32)) & 0xF) as int))
}

/// The plaintext handed to the cipher: a leading ` /T =` entry carrying the
/// decimal tick count, followed by the argument string.
pub open spec fn plaintext_of(ticks: u32, arg: Seq<char>) -> Seq<char> {
    " /T ="@ + dec_digits(ticks as nat) + arg
}

/// What the cipher returns for a tick count and an argument string.
pub open spec fn cipher_of(ticks: u32, arg: Seq<char>) -> Option<Seq<u8>> {
    blowfish_of(encode_utf8(hex8(key_of(ticks))), encode_utf8(plaintext_of(ticks, arg)))
}

/// The full wire token for a tick count and an argument string, defined when
/// the cipher succeeds.
pub open spec fn token_of(ticks: u32, arg: Seq<char>) -> Seq<char> {
    "//**sqex0003"@ + b64_url_of(cipher_of(ticks, arg).unwrap())
        + seq![checksum_char_of(key_of(ticks))] + "**//"@
}

/// Whether a plaintext of `n` bytes can be padded, encrypted and
/// base64-framed within the machine's address-space limits.
pub open spec fn fits_encoding(n: nat) -> bool {
    &&& n + 7 <= usize::MAX
    &&& 8 * ((n + 7) / 8) + 2 <= usize::MAX
    &&& (8 * ((n + 7) / 8) + 2) / 3 <= usize::MAX as nat / 4
}

/// A character the URL-safe base64 encoding can produce: the 64-symbol
/// alphabet with `-` and `_`, or the `=` padding symbol.
pub open spec fn is_b64_url_char(c: char) -> bool {
    ('A' <= c && c <= 'Z') || ('a' <= c && c <= 'z') || ('0' <= c && c <= '9') || c == '-'
        || c == '_' || c == '='
}

/// The fixed shape of the wire token: the 12-character opening marker, a
/// URL-safe base64 body, exactly one checksum character of the fixed table,
/// and the 4-character closing marker.
pub open spec fn token_shape(tok: Seq<char>) -> bool {
    &&& tok.len() >= 17
    &&& tok.subrange(0, 12) == "//**sqex0003"@
    &&& (forall|i: int| 12 <= i < tok.len() - 5 ==> is_b64_url_char(#[trigger] tok[i]))
    &&& checksum_table().contains(tok[tok.len() - 5])
    &&& tok.subrange(tok.len() - 4, tok.len() as int) == "**//"@
}

/// What the Blowfish cipher returns for a key and an input buffer.
pub uninterp spec fn blowfish_of(key: Seq<u8>, data: Seq<u8>) -> Option<Seq<u8>>;

/// What the URL-safe base64 encoding of a byte buffer reads as.
pub uninterp spec fn b64_url_of(data: Seq<u8>) -> Seq<char>;

/// Relies on physis's `SqexArgBlowfish::new` and `SqexArgBlowfish::encrypt`:
/// the Blowfish variant used for game-argument obfuscation. `new` reads the
/// first eight key bytes cyclically, so the key must hold at least eight
/// bytes; `encrypt` pads its input with zero bytes up to the 8-byte block
/// size, and its result is a function of the key and the input alone.
#[verifier::external_body]
fn blowfish_encrypt(key: &[u8], data: &[u8]) -> (r: Option<Vec<u8>>)
    requires
        key@.len() >= 8,
        data@.len() + 7 <= usize::MAX,
    ensures
        blowfish_of(key@, data@) == (match r {
            Some(v) => Some(v@),
            None => None::<Seq<u8>>,
        }),
        r matches Some(v) ==> v@.len() == 8 * ((data@.len() + 7) / 8),
{
    let cipher = physis::blowfish::SqexArgBlowfish::new(key);
    cipher.encrypt(data)
}

/// Relies on base64's `Engine::encode` with the `URL_SAFE` engine: the
/// URL-safe alphabet with `=` padding, four output characters for every
/// started group of three input bytes, a function of the input bytes alone.
#[verifier::external_body]
fn b64_url_encode(data: &[u8]) -> (r: String)
    requires
        4 * ((data@.len() + 2) / 3) <= usize::MAX,
    ensures
        r@ == b64_url_of(data@),
        r@.len() == 4 * ((data@.len() + 2) / 3),
        forall|i: int| 0 <= i < r@.len() ==> is_b64_url_char(#[trigger] r@[i]),
{
    base64::engine::general_purpose::URL_SAFE.encode(data)
}

/// Relies on sysinfo's `System::uptime`: seconds since the host booted. The
/// value depends on the machine and the moment, so nothing is promised of it.
#[verifier::external_body]
fn uptime_seconds() -> u64 {
    sysinfo::System::uptime()
}

/// The tick count a seconds reading yields: the uptime in milliseconds,
/// truncated to 32 bits.
pub open spec fn ticks_of_uptime(secs: u64) -> nat {
    (secs as nat * 1000) % 0x1_0000_0000
}

/// Turns a seconds reading into the tick count: milliseconds, truncated to
/// 32 bits.
pub fn ticks_from_uptime(secs: u64) -> (r: u32)
    ensures
        r as nat == ticks_of_uptime(secs),
{
    let ms: u128 = (secs as u128) * 1000;
    (ms % 0x1_0000_0000) as u32
}

/// The current tick count: the host clock's uptime reading, in milliseconds
/// truncated to 32 bits. The clock decides the reading, so the result is the
/// tick value of some seconds reading.
pub fn current_tick_count() -> (r: u32)
    ensures
        exists|secs: u64| r as nat == ticks_of_uptime(secs),
{
    let secs = uptime_seconds();
    let r = ticks_from_uptime(secs);
    proof {
        assert(r as nat == ticks_of_uptime(secs));
    }
    r
}

/// Derives the cipher key from a tick count.
pub fn derive_key(ticks: u32) -> (k: u32)
    ensures
        k == key_of(ticks),
{
    ticks & 0xFFFF0000
}

/// The checksum character of a key: the entry of the fixed table picked by
/// bits 16 to 19 of the key.
pub fn get_checksum(key: u32) -> (r: char)
    ensures
        r == checksum_char_of(key),
{
    proof {
        assert((key & 0x000F0000) >> 16 < 16) by (bit_vector);
    }
    let index = ((key & 0x000F0000) >> 16) as usize;
    match index {
        0 => 'f',
        1 => 'X',
        2 => '1',
        3 => 'p',
        4 => 'G',
        5 => 't',
        6 => 'd',
        7 => 'S',
        8 => '5',
        9 => 'C',
        10 => 'A',
        11 => 'P',
        12 => '4',
        13 => '_',
        14 => 'V',
        _ => 'L',
    }
}

fn checksum_str(key: u32) -> (r: &'static str)
    ensures
        r@ == seq![checksum_char_of(key)],
{
    proof {
        assert((key & 0x000F0000) >> 16 < 16) by (bit_vector);
        reveal_strlit("f");
        reveal_strlit("X");
        reveal_strlit("1");
        reveal_strlit("p");
        reveal_strlit("G");
        reveal_strlit("t");
        reveal_strlit("d");
        reveal_strlit("S");
        reveal_strlit("5");
        reveal_strlit("C");
        reveal_strlit("A");
        reveal_strlit("P");
        reveal_strlit("4");
        reveal_strlit("_");
        reveal_strlit("V");
        reveal_strlit("L");
    }
    let index = ((key & 0x000F0000) >> 16) as usize;
    let s: &'static str = match index {
        0 => "f",
        1 => "X",
        2 => "1",
        3 => "p",
        4 => "G",
        5 => "t",
        6 => "d",
        7 => "S",
        8 => "5",
        9 => "C",
        10 => "A",
        11 => "P",
        12 => "4",
        13 => "_",
        14 => "V",
        _ => "L",
    };
    proof {
        assert(s@ =~= seq![checksum_char_of(key)]);
    }
    s
}

/// The eight lowercase hex digits of a key, as the string whose bytes key the
/// cipher.
fn key_hex_string(key: u32) -> (r: String)
    ensures
        r@ == hex8(key),
{
    let mut out = String::new();
    let mut i: u32 = 0;
    while i < 8
        invariant
            i <= 8,
            out@ =~= hex8(key).subrange(0, i as int),
        decreases 8 - i,
    {
        let sh: u32 = 28 - 4 * i;
        let d: u32 = (key >> sh) & 0xF;
        proof {
            assert((key >> sh) & 0xF < 16) by (bit_vector);
        }
        crate::numfmt::append_digit(&mut out, d as u64);
        proof {
            assert(out@ =~= hex8(key).subrange(0, i + 1 as int));
        }
        i = i + 1;
    }
    proof {
        assert(out@ =~= hex8(key));
    }
    out
}

/// Every character of the hex key string is ASCII, so its UTF-8 bytes are the
/// digits' code points, eight of them.
proof fn lemma_hex8_ascii(k: u32)
    ensures
        is_ascii_chars(hex8(k)),
        encode_utf8(hex8(k)).len() == 8,
{
    assert forall|i: int| 0 <= i < hex8(k).len() implies '\0' <= #[trigger] hex8(k)[i]
        <= '\u{7f}' by {
        assert(hex8(k)[i] == digit_char(((k >> ((28 - 4 * i) as u32)) & 0xF) as int));
    }
    is_ascii_chars_encode_utf8(hex8(k));
}

/// Builds the plaintext the cipher consumes: ` /T =` with the decimal tick
/// count, then the argument string.
fn build_plaintext(ticks: u32, arg: &str) -> (r: String)
    ensures
        r@ == plaintext_of(ticks, arg@),
{
    let mut out = " /T =".to_owned();
    append_dec_u64(&mut out, ticks as u64);
    out.append(arg);
    proof {
        assert(out@ =~= plaintext_of(ticks, arg@));
    }
    out
}

/// Encodes an argument string into the wire token for a given tick count:
/// derives the 16-bit time key, encrypts ` /T =<ticks><arg>` with Blowfish
/// under the key's hex rendering, base64-encodes the ciphertext with the
/// URL-safe alphabet, and frames the result between the fixed markers with
/// the key's checksum character.
pub fn encode_game_arg(ticks: u32, arg: &str) -> (r: Result<String, EncryptionError>)
    ensures
        r is Ok <==> fits_encoding(encode_utf8(plaintext_of(ticks, arg@)).len())
            && cipher_of(ticks, arg@) is Some,
        r matches Ok(s) ==> s@ == token_of(ticks, arg@),
        r matches Ok(s) ==> token_shape(s@),
{
    let key = derive_key(ticks);
    let key_str = key_hex_string(key);
    let plaintext = build_plaintext(ticks, arg);
    let pt_bytes: &[u8] = plaintext.as_str().as_bytes();
    let n = pt_bytes.len();
    if usize::MAX - n < 7 {
        return Err(EncryptionError);
    }
    let padded = ((n + 7) / 8) * 8;
    proof {
        assert(((n + 7) / 8) * 8 <= n + 7) by (nonlinear_arith);
    }
    if usize::MAX - padded < 2 || (padded + 2) / 3 > usize::MAX / 4 {
        return Err(EncryptionError);
    }
    proof {
        lemma_hex8_ascii(key);
    }
    let kb: &[u8] = key_str.as_str().as_bytes();
    let cipher = match blowfish_encrypt(kb, pt_bytes) {
        Some(c) => c,
        None => {
            return Err(EncryptionError);
        },
    };
    proof {
        assert(4 * ((cipher@.len() + 2) / 3) <= 4 * (usize::MAX as nat / 4)) by (nonlinear_arith)
            requires
                (cipher@.len() + 2) / 3 <= usize::MAX as nat / 4,
        ;
        assert(4 * (usize::MAX as nat / 4) <= usize::MAX) by (nonlinear_arith);
    }
    let body = b64_url_encode(cipher.as_slice());
    let mut token = "//**sqex0003".to_owned();
    token.append(body.as_str());
    token.append(checksum_str(key));
    token.append("**//");
    proof {
        assert(checksum_table().contains(checksum_char_of(key))) by {
            assert(checksum_index(key) < 16) by (bit_vector);
        }
        assert(token@ =~= "//**sqex0003"@ + body@ + seq![checksum_char_of(key)] + "**//"@);
        lemma_token_shape_holds(body@, checksum_char_of(key), token@);
        assert(token@ == token_of(ticks, arg@));
    }
    Ok(token)
}

/// A string framed as the wire format frames it — the two markers around a
/// base64 body and one character of the checksum table — has the fixed token
/// shape.
proof fn lemma_token_shape_holds(body: Seq<char>, c: char, tok: Seq<char>)
    requires
        tok == "//**sqex0003"@ + body + seq![c] + "**//"@,
        forall|i: int| 0 <= i < body.len() ==> is_b64_url_char(#[trigger] body[i]),
        checksum_table().contains(c),
    ensures
        token_shape(tok),
{
    reveal_strlit("//**sqex0003");
    reveal_strlit("**//");
    assert(tok.subrange(0, 12) =~= "//**sqex0003"@);
    assert(tok.subrange(tok.len() - 4, tok.len() as int) =~= "**//"@);
    assert(tok[tok.len() - 5] == c);
}

/// Encodes the argument string with a tick count read from the host clock
/// at the moment of the call. The clock decides the key, so a success is
/// the exact token for some tick value, in the fixed wire shape.
pub fn encrypt_game_arg(arg: &str) -> (r: Result<String, EncryptionError>)
    ensures
        r matches Ok(s) ==> token_shape(s@) && (exists|t: u32| s@ == token_of(t, arg@)),
{
    let ticks = current_tick_count();
    match encode_game_arg(ticks, arg) {
        Ok(s) => {
            proof {
                assert(s@ == token_of(ticks, arg@));
            }
            Ok(s)
        },
        Err(e) => Err(e),
    }
}

/// Law: the encoder is deterministic. With the tick count and the argument
/// string fixed, there is exactly one token.
pub proof fn lemma_encoder_deterministic(ticks: u32, arg: Seq<char>, t1: Seq<char>, t2: Seq<char>)
    requires
        t1 == token_of(ticks, arg),
        t2 == token_of(ticks, arg),
    ensures
        t1 == t2,
{
}

} // verus!
