//! The ClientHello parser: a pure, bounds-checked walk over the TLS
//! plaintext record, the handshake message it carries, and the extensions
//! block, recovering the first Server Name Indication (SNI) hostname.
//!
//! The wire layout, all lengths big-endian:
//! - record: content type (1), protocol version (2), length (2), payload;
//! - handshake message: type (1; 1 = ClientHello), length (3), body;
//! - ClientHello body: version (2), random (32), session-id (1 + n),
//!   cipher suites (2 + n), compression methods (1 + n), and an optional
//!   extensions block (2-byte total length, then extensions);
//! - extension: type (2; 0 = SNI), length (2), payload;
//! - SNI payload: list length (2), then entries of name type (1;
//!   0 = hostname), length (2), name bytes.
//!
//! A buffer shorter than the record header plus the declared record length
//! is `Truncated`; any length field inside a fully present record that is
//! inconsistent with its enclosing structure is `Malformed`.  A record that
//! carries no ClientHello, or a ClientHello without a usable SNI hostname,
//! yields `Ok(None)`: absence of SNI is a valid outcome, not an error.
//! Encrypted-SNI-style extensions carry an undecodable payload and are
//! scanned over like any other non-SNI extension.  An SNI entry whose name
//! bytes are not valid UTF-8 is skipped and scanning continues.

use vstd::prelude::*;
use vstd::slice::{slice_subrange, slice_to_vec};
use vstd::utf8::valid_utf8;

verus! {

/// Record content type carrying handshake messages.
pub const CONTENT_TYPE_HANDSHAKE: u8 = 22;

/// Handshake message type of a ClientHello.
pub const HANDSHAKE_TYPE_CLIENT_HELLO: u8 = 1;

/// Extension type of Server Name Indication.
pub const EXTENSION_TYPE_SNI: u16 = 0;

/// Server-name entry type of a hostname.
pub const NAME_TYPE_HOSTNAME: u8 = 0;

/// Why a buffer failed to parse.
#[derive(Clone, Copy, Debug, PartialEq, Eq, Structural)]
pub enum ParseError {
    /// Fewer bytes are present than the record header and its declared
    /// length require.
    Truncated,
    /// A length field inside the fully present record is inconsistent with
    /// its enclosing structure.
    Malformed,
}

/// The big-endian 16-bit value at offset `i`.
pub open spec fn be16(b: Seq<u8>, i: int) -> int {
    b[i] * 256 + b[i + 1]
}

/// The big-endian 24-bit value at offset `i`.
pub open spec fn be24(b: Seq<u8>, i: int) -> int {
    b[i] * 65536 + b[i + 1] * 256 + b[i + 2]
}

/// Scans the server-name entries in `b[off..end]` for the first
/// hostname-type entry whose name bytes are valid UTF-8.
pub open spec fn spec_scan_entries(b: Seq<u8>, off: int, end: int) -> Result<
    Option<Seq<u8>>,
    ParseError,
>
    decreases end - off,
{
    if off >= end {
        Ok(None)
    } else if end - off < 3 {
        Err(ParseError::Malformed)
    } else {
        let name_len = be16(b, off + 1);
        if end - (off + 3) < name_len {
            Err(ParseError::Malformed)
        } else if b[off] == NAME_TYPE_HOSTNAME && valid_utf8(
            b.subrange(off + 3, off + 3 + name_len),
        ) {
            Ok(Some(b.subrange(off + 3, off + 3 + name_len)))
        } else {
            spec_scan_entries(b, off + 3 + name_len, end)
        }
    }
}

/// Scans an SNI extension payload `b[off..end]`: a 2-byte list length that
/// must fill the payload exactly, then the server-name entries.
pub open spec fn spec_scan_server_names(b: Seq<u8>, off: int, end: int) -> Result<
    Option<Seq<u8>>,
    ParseError,
> {
    if end - off < 2 {
        Err(ParseError::Malformed)
    } else if end != off + 2 + be16(b, off) {
        Err(ParseError::Malformed)
    } else {
        spec_scan_entries(b, off + 2, end)
    }
}

/// Scans the extensions in `b[off..end]` for the first SNI extension that
/// yields a hostname; extensions of any other type are skipped.
pub open spec fn spec_scan_extensions(b: Seq<u8>, off: int, end: int) -> Result<
    Option<Seq<u8>>,
    ParseError,
>
    decreases end - off,
{
    if off >= end {
        Ok(None)
    } else if end - off < 4 {
        Err(ParseError::Malformed)
    } else {
        let ext_len = be16(b, off + 2);
        if end - (off + 4) < ext_len {
            Err(ParseError::Malformed)
        } else if be16(b, off) == EXTENSION_TYPE_SNI {
            match spec_scan_server_names(b, off + 4, off + 4 + ext_len) {
                Ok(None) => spec_scan_extensions(b, off + 4 + ext_len, end),
                r => r,
            }
        } else {
            spec_scan_extensions(b, off + 4 + ext_len, end)
        }
    }
}

/// Parses a ClientHello body `b[off..end]`: the fixed fields, the three
/// variable-length lists, and the optional extensions block, which when
/// present must fill the remainder of the body exactly.
pub open spec fn spec_scan_client_hello(b: Seq<u8>, off: int, end: int) -> Result<
    Option<Seq<u8>>,
    ParseError,
> {
    if end - off < 35 {
        Err(ParseError::Malformed)
    } else {
        let sid_end = off + 35 + b[off + 34];
        if end - sid_end < 2 {
            Err(ParseError::Malformed)
        } else {
            let cs_end = sid_end + 2 + be16(b, sid_end);
            if end - cs_end < 1 {
                Err(ParseError::Malformed)
            } else {
                let comp_end = cs_end + 1 + b[cs_end];
                if comp_end > end {
                    Err(ParseError::Malformed)
                } else if comp_end == end {
                    Ok(None)
                } else if end - comp_end < 2 {
                    Err(ParseError::Malformed)
                } else if end != comp_end + 2 + be16(b, comp_end) {
                    Err(ParseError::Malformed)
                } else {
                    spec_scan_extensions(b, comp_end + 2, end)
                }
            }
        }
    }
}

/// Parses the handshake message in the record payload `b[off..end]`: a
/// non-ClientHello message yields no hostname.
pub open spec fn spec_scan_handshake(b: Seq<u8>, off: int, end: int) -> Result<
    Option<Seq<u8>>,
    ParseError,
> {
    if end - off < 4 {
        Err(ParseError::Malformed)
    } else if end - (off + 4) < be24(b, off + 1) {
        Err(ParseError::Malformed)
    } else if b[off] != HANDSHAKE_TYPE_CLIENT_HELLO {
        Ok(None)
    } else {
        spec_scan_client_hello(b, off + 4, off + 4 + be24(b, off + 1))
    }
}

/// Parses exactly one TLS plaintext record from the front of `b` and
/// recovers the first SNI hostname it carries, if any.  Bytes after the
/// declared record end are ignored.
pub open spec fn spec_extract_sni(b: Seq<u8>) -> Result<Option<Seq<u8>>, ParseError> {
    if b.len() < 5 {
        Err(ParseError::Truncated)
    } else if b.len() < 5 + be16(b, 3) {
        Err(ParseError::Truncated)
    } else if b[0] != CONTENT_TYPE_HANDSHAKE {
        Ok(None)
    } else {
        spec_scan_handshake(b, 5, 5 + be16(b, 3))
    }
}

/// End of the session-id field; the ClientHello body starts at offset 9.
pub open spec fn spec_sid_end(b: Seq<u8>) -> int {
    44 + b[43]
}

/// End of the cipher-suite list.
pub open spec fn spec_cs_end(b: Seq<u8>) -> int {
    spec_sid_end(b) + 2 + be16(b, spec_sid_end(b))
}

/// End of the compression-method list.
pub open spec fn spec_comp_end(b: Seq<u8>) -> int {
    spec_cs_end(b) + 1 + b[spec_cs_end(b)]
}

/// Start of the first extension.
pub open spec fn spec_exts_start(b: Seq<u8>) -> int {
    spec_comp_end(b) + 2
}

/// A buffer holding exactly one full record that carries a ClientHello
/// whose extensions block fills the rest of the body.  The bytes of the
/// version, random, session-id, cipher-suite and compression-method
/// fields are arbitrary.
pub open spec fn wf_hello_framing(b: Seq<u8>) -> bool {
    &&& b[0] == CONTENT_TYPE_HANDSHAKE
    &&& be16(b, 3) == b.len() - 5
    &&& b[5] == HANDSHAKE_TYPE_CLIENT_HELLO
    &&& be24(b, 6) == b.len() - 9
    &&& spec_sid_end(b) + 2 <= b.len()
    &&& spec_cs_end(b) + 1 <= b.len()
    &&& spec_exts_start(b) <= b.len()
    &&& be16(b, spec_comp_end(b)) == b.len() - spec_comp_end(b) - 2
}

/// The bytes `b[off..end)` form a run of extensions none of which yields
/// a hostname: each is either not an SNI extension, or an SNI extension
/// whose well-formed server-name list holds no usable hostname entry.
pub open spec fn skippable_extensions(b: Seq<u8>, off: int, end: int) -> bool
    decreases end - off,
{
    ||| off >= end
    ||| (end - off >= 4 && {
        let ext_len = be16(b, off + 2);
        &&& end - (off + 4) >= ext_len
        &&& (be16(b, off) == EXTENSION_TYPE_SNI ==> spec_scan_server_names(
            b,
            off + 4,
            off + 4 + ext_len,
        ) == Ok::<Option<Seq<u8>>, ParseError>(None))
        &&& skippable_extensions(b, off + 4 + ext_len, end)
    })
}

/// The bytes `b[off..end)` form a run of server-name entries none of
/// which is a hostname-type entry with valid UTF-8 content.
pub open spec fn skippable_entries(b: Seq<u8>, off: int, end: int) -> bool
    decreases end - off,
{
    ||| off >= end
    ||| (end - off >= 3 && {
        let name_len = be16(b, off + 1);
        &&& end - (off + 3) >= name_len
        &&& !(b[off] == NAME_TYPE_HOSTNAME && valid_utf8(b.subrange(off + 3, off + 3 + name_len)))
        &&& skippable_entries(b, off + 3 + name_len, end)
    })
}

/// An SNI extension standing at `ext0` whose server-name list holds, at
/// `entry0`, the one hostname-type entry with valid UTF-8 content, namely
/// `host`; the entries before it match nothing, and what follows the
/// entry is further entries of the exactly-filled list.
pub open spec fn sni_extension_at(b: Seq<u8>, ext0: int, entry0: int, host: Seq<u8>) -> bool {
    let ext_end = ext0 + 4 + be16(b, ext0 + 2);
    &&& be16(b, ext0) == EXTENSION_TYPE_SNI
    &&& ext_end <= b.len()
    &&& be16(b, ext0 + 4) == ext_end - (ext0 + 6)
    &&& ext0 + 6 <= entry0
    &&& skippable_entries(b, ext0 + 6, entry0)
    &&& entry0 + 3 + host.len() <= ext_end
    &&& b[entry0] == NAME_TYPE_HOSTNAME
    &&& be16(b, entry0 + 1) == host.len()
    &&& b.subrange(entry0 + 3, entry0 + 3 + host.len()) == host
    &&& valid_utf8(host)
}

/// Scanning a run of extensions that yields no hostname lands where the
/// run ends.
proof fn lemma_extensions_skip(b: Seq<u8>, off: int, mid: int, end: int)
    requires
        off <= mid <= end,
        skippable_extensions(b, off, mid),
    ensures
        spec_scan_extensions(b, off, end) == spec_scan_extensions(b, mid, end),
    decreases mid - off,
{
    if off < mid {
        let ext_len = be16(b, off + 2);
        if be16(b, off) == EXTENSION_TYPE_SNI {
            assert(spec_scan_server_names(b, off + 4, off + 4 + ext_len)
                == Ok::<Option<Seq<u8>>, ParseError>(None));
        }
        lemma_extensions_skip(b, off + 4 + ext_len, mid, end);
    }
}

/// Scanning a run of server-name entries that match nothing lands where
/// the run ends.
proof fn lemma_entries_skip(b: Seq<u8>, off: int, mid: int, end: int)
    requires
        off <= mid <= end,
        skippable_entries(b, off, mid),
    ensures
        spec_scan_entries(b, off, end) == spec_scan_entries(b, mid, end),
    decreases mid - off,
{
    if off < mid {
        let name_len = be16(b, off + 1);
        lemma_entries_skip(b, off + 3 + name_len, mid, end);
    }
}

/// Law: a well-formed ClientHello containing exactly one SNI hostname
/// entry — at any position among the extensions, behind any run of
/// non-matching entries — parses to exactly that hostname, byte-for-byte.
pub proof fn lemma_single_sni_parses(b: Seq<u8>, host: Seq<u8>, ext0: int, entry0: int)
    requires
        wf_hello_framing(b),
        spec_exts_start(b) <= ext0,
        skippable_extensions(b, spec_exts_start(b), ext0),
        sni_extension_at(b, ext0, entry0, host),
    ensures
        spec_extract_sni(b) == Ok::<Option<Seq<u8>>, ParseError>(Some(host)),
{
    let ext_end = ext0 + 4 + be16(b, ext0 + 2);
    lemma_entries_skip(b, ext0 + 6, entry0, ext_end);
    assert(spec_scan_entries(b, entry0, ext_end) == Ok::<Option<Seq<u8>>, ParseError>(Some(host)));
    assert(spec_scan_server_names(b, ext0 + 4, ext_end) == Ok::<Option<Seq<u8>>, ParseError>(
        Some(host),
    ));
    lemma_extensions_skip(b, spec_exts_start(b), ext0, b.len() as int);
    assert(spec_scan_extensions(b, ext0, b.len() as int) == Ok::<Option<Seq<u8>>, ParseError>(
        Some(host),
    ));
    assert(spec_scan_client_hello(b, 9, b.len() as int) == Ok::<Option<Seq<u8>>, ParseError>(
        Some(host),
    ));
    assert(spec_scan_handshake(b, 5, b.len() as int) == Ok::<Option<Seq<u8>>, ParseError>(
        Some(host),
    ));
}

/// Law, specialized to the common layout: a ClientHello whose extensions
/// open with an SNI extension holding exactly one hostname entry parses
/// to that hostname.
pub proof fn lemma_leading_single_entry_sni_parses(b: Seq<u8>, host: Seq<u8>)
    requires
        wf_hello_framing(b),
        ({
            let ext0 = spec_exts_start(b);
            &&& ext0 + 9 + host.len() <= b.len()
            &&& be16(b, ext0) == EXTENSION_TYPE_SNI
            &&& be16(b, ext0 + 2) == host.len() + 5
            &&& be16(b, ext0 + 4) == host.len() + 3
            &&& b[ext0 + 6] == NAME_TYPE_HOSTNAME
            &&& be16(b, ext0 + 7) == host.len()
            &&& b.subrange(ext0 + 9, ext0 + 9 + host.len()) == host
            &&& valid_utf8(host)
        }),
    ensures
        spec_extract_sni(b) == Ok::<Option<Seq<u8>>, ParseError>(Some(host)),
{
    let ext0 = spec_exts_start(b);
    assert(sni_extension_at(b, ext0, ext0 + 6, host));
    lemma_single_sni_parses(b, host, ext0, ext0 + 6);
}

/// Law: a strict prefix of a buffer holding exactly one full record — a
/// valid ClientHello in particular — cut at any byte offset before the
/// declared end, parses as `Truncated`; never a hostname and never a
/// panic.
pub proof fn lemma_truncated_prefix_fails(b: Seq<u8>, i: int)
    requires
        b.len() >= 5,
        b.len() == 5 + be16(b, 3),
        0 <= i < b.len(),
    ensures
        spec_extract_sni(b.take(i)) == Err::<Option<Seq<u8>>, ParseError>(ParseError::Truncated),
{
    let p = b.take(i);
    if i >= 5 {
        assert(p[3] == b[3]);
        assert(p[4] == b[4]);
        assert(p.len() < 5 + be16(p, 3));
    }
}

/// Whether the executable outcome agrees with the specification-level one.
pub open spec fn outcome_matches(
    r: Result<Option<Vec<u8>>, ParseError>,
    s: Result<Option<Seq<u8>>, ParseError>,
) -> bool {
    match r {
        Ok(Some(v)) => s == Ok::<Option<Seq<u8>>, ParseError>(Some(v@)),
        Ok(None) => s == Ok::<Option<Seq<u8>>, ParseError>(None),
        Err(e) => s == Err::<Option<Seq<u8>>, ParseError>(e),
    }
}

/// Relies on std::str::from_utf8: it returns `Ok` exactly when the bytes
/// are valid UTF-8, which vstd's `valid_utf8` models.
#[verifier::external_body]
fn utf8_check(bytes: &[u8]) -> (r: bool)
    ensures
        r == valid_utf8(bytes@),
{
    core::str::from_utf8(bytes).is_ok()
}

/// The big-endian 16-bit value at offset `i`.
fn be16_at(b: &[u8], i: usize) -> (r: usize)
    requires
        i + 1 < b@.len(),
    ensures
        r == be16(b@, i as int),
        r < 65536,
{
    (b[i] as usize) * 256 + (b[i + 1] as usize)
}

/// The big-endian 24-bit value at offset `i`.
fn be24_at(b: &[u8], i: usize) -> (r: usize)
    requires
        i + 2 < b@.len(),
    ensures
        r == be24(b@, i as int),
        r < 16777216,
{
    (b[i] as usize) * 65536 + (b[i + 1] as usize) * 256 + (b[i + 2] as usize)
}

fn scan_entries(b: &[u8], off: usize, end: usize) -> (r: Result<Option<Vec<u8>>, ParseError>)
    requires
        off <= end <= b@.len(),
    ensures
        outcome_matches(r, spec_scan_entries(b@, off as int, end as int)),
        r matches Ok(Some(h)) ==> valid_utf8(h@),
    decreases end - off,
{
    if off >= end {
        return Ok(None);
    }
    if end - off < 3 {
        return Err(ParseError::Malformed);
    }
    let name_len = be16_at(b, off + 1);
    if end - (off + 3) < name_len {
        return Err(ParseError::Malformed);
    }
    if b[off] == NAME_TYPE_HOSTNAME {
        let name = slice_subrange(b, off + 3, off + 3 + name_len);
        if utf8_check(name) {
            return Ok(Some(slice_to_vec(name)));
        }
    }
    scan_entries(b, off + 3 + name_len, end)
}

fn scan_server_names(b: &[u8], off: usize, end: usize) -> (r: Result<Option<Vec<u8>>, ParseError>)
    requires
        off <= end <= b@.len(),
    ensures
        outcome_matches(r, spec_scan_server_names(b@, off as int, end as int)),
        r matches Ok(Some(h)) ==> valid_utf8(h@),
{
    if end - off < 2 {
        return Err(ParseError::Malformed);
    }
    let list_len = be16_at(b, off);
    if end - (off + 2) != list_len {
        return Err(ParseError::Malformed);
    }
    scan_entries(b, off + 2, end)
}

fn scan_extensions(b: &[u8], off: usize, end: usize) -> (r: Result<Option<Vec<u8>>, ParseError>)
    requires
        off <= end <= b@.len(),
    ensures
        outcome_matches(r, spec_scan_extensions(b@, off as int, end as int)),
        r matches Ok(Some(h)) ==> valid_utf8(h@),
    decreases end - off,
{
    if off >= end {
        return Ok(None);
    }
    if end - off < 4 {
        return Err(ParseError::Malformed);
    }
    let ext_type = be16_at(b, off);
    let ext_len = be16_at(b, off + 2);
    if end - (off + 4) < ext_len {
        return Err(ParseError::Malformed);
    }
    if ext_type == EXTENSION_TYPE_SNI as usize {
        match scan_server_names(b, off + 4, off + 4 + ext_len) {
            Ok(None) => scan_extensions(b, off + 4 + ext_len, end),
            r => r,
        }
    } else {
        scan_extensions(b, off + 4 + ext_len, end)
    }
}

fn scan_client_hello(b: &[u8], off: usize, end: usize) -> (r: Result<Option<Vec<u8>>, ParseError>)
    requires
        off <= end <= b@.len(),
    ensures
        outcome_matches(r, spec_scan_client_hello(b@, off as int, end as int)),
        r matches Ok(Some(h)) ==> valid_utf8(h@),
{
    if end - off < 35 {
        return Err(ParseError::Malformed);
    }
    let sid_len = b[off + 34] as usize;
    // sid_end = off + 35 + sid_len
    if end - (off + 35) < sid_len + 2 {
        return Err(ParseError::Malformed);
    }
    let cs_len = be16_at(b, off + 35 + sid_len);
    // cs_end = off + 35 + sid_len + 2 + cs_len
    if end - (off + 35 + sid_len + 2) < cs_len + 1 {
        return Err(ParseError::Malformed);
    }
    let cs_end = off + 35 + sid_len + 2 + cs_len;
    let comp_len = b[cs_end] as usize;
    let after_comp = end - (cs_end + 1);
    if comp_len > after_comp {
        return Err(ParseError::Malformed);
    }
    let comp_end = cs_end + 1 + comp_len;
    if comp_end == end {
        return Ok(None);
    }
    if end - comp_end < 2 {
        return Err(ParseError::Malformed);
    }
    let ext_block_len = be16_at(b, comp_end);
    if end - (comp_end + 2) != ext_block_len {
        return Err(ParseError::Malformed);
    }
    scan_extensions(b, comp_end + 2, end)
}

fn scan_handshake(b: &[u8], off: usize, end: usize) -> (r: Result<Option<Vec<u8>>, ParseError>)
    requires
        off <= end <= b@.len(),
    ensures
        outcome_matches(r, spec_scan_handshake(b@, off as int, end as int)),
        r matches Ok(Some(h)) ==> valid_utf8(h@),
{
    if end - off < 4 {
        return Err(ParseError::Malformed);
    }
    let hs_len = be24_at(b, off + 1);
    if end - (off + 4) < hs_len {
        return Err(ParseError::Malformed);
    }
    if b[off] != HANDSHAKE_TYPE_CLIENT_HELLO {
        return Ok(None);
    }
    scan_client_hello(b, off + 4, off + 4 + hs_len)
}

/// Parses exactly one TLS plaintext record from the front of `buffer` and
/// returns the first SNI hostname of its ClientHello, if any.
///
/// Returns `Err(Truncated)` when fewer bytes are present than the record
/// header and its declared length require; `Err(Malformed)` when a length
/// field inside the fully present record is inconsistent; `Ok(None)` when
/// the record carries no ClientHello or the ClientHello carries no usable
/// SNI hostname; and `Ok(Some(h))` with the first hostname-type entry whose
/// name bytes are valid UTF-8, byte-for-byte as it stands in the buffer.
/// Never reads past the buffer bound and never panics.
pub fn extract_sni_from_header(buffer: &[u8]) -> (r: Result<Option<Vec<u8>>, ParseError>)
    ensures
        outcome_matches(r, spec_extract_sni(buffer@)),
        r matches Ok(Some(h)) ==> valid_utf8(h@),
{
    if buffer.len() < 5 {
        return Err(ParseError::Truncated);
    }
    let rec_len = be16_at(buffer, 3);
    if buffer.len() - 5 < rec_len {
        return Err(ParseError::Truncated);
    }
    if buffer[0] != CONTENT_TYPE_HANDSHAKE {
        return Ok(None);
    }
    scan_handshake(buffer, 5, 5 + rec_len)
}

} // verus!
