//! A bounded structure scan over CBOR bytes.
//!
//! The claim-set decoder trusts lengths declared inside its input: a few
//! bytes can declare a huge array (the decoder pre-allocates its capacity and
//! aborts) or nest items deeper than the stack.  Attacker bytes reach the
//! decoder straight from the request body and the export surface, and this
//! library promises its verified functions do not abort, so nothing is
//! forwarded to the decoder until this scan approves it.
//!
//! The scan is conservative: it accepts only definite-length items whose
//! declared lengths fit inside the remaining input (an element takes at
//! least one byte, a map entry at least two) and whose nesting stays under a
//! fixed depth.  Anything else is refused as malformed; on such input the
//! decoder itself either errors or aborts, so a refusal never hides a token
//! the runtime was going to accept.

use vstd::prelude::*;

verus! {

/// The deepest nesting the scan admits; far above any real claim set, far
/// below any stack limit.
pub const CBOR_MAX_DEPTH: usize = 32;

/// One parsed item header: its major type, its argument (a small value or a
/// declared length) and the position just past the header.  Indefinite
/// lengths and reserved forms are refused.
pub open spec fn spec_header(bytes: Seq<u8>, pos: int) -> Option<(int, int, int)> {
    if !(0 <= pos < bytes.len()) {
        None
    } else {
        let b = bytes[pos] as int;
        let major = b / 32;
        let ai = b % 32;
        let len = bytes.len() as int;
        if ai < 24 {
            Some((major, ai, pos + 1))
        } else if ai == 24 {
            if len - pos >= 2 {
                Some((major, bytes[pos + 1] as int, pos + 2))
            } else {
                None
            }
        } else if ai == 25 {
            if len - pos >= 3 {
                Some((major, bytes[pos + 1] as int * 256 + bytes[pos + 2] as int, pos + 3))
            } else {
                None
            }
        } else if ai == 26 {
            if len - pos >= 5 {
                Some(
                    (
                        major,
                        ((bytes[pos + 1] as int * 256 + bytes[pos + 2] as int) * 256 + bytes[pos
                            + 3] as int) * 256 + bytes[pos + 4] as int,
                        pos + 5,
                    ),
                )
            } else {
                None
            }
        } else if ai == 27 {
            if len - pos >= 9 {
                let hi = ((bytes[pos + 1] as int * 256 + bytes[pos + 2] as int) * 256 + bytes[pos
                    + 3] as int) * 256 + bytes[pos + 4] as int;
                let lo = ((bytes[pos + 5] as int * 256 + bytes[pos + 6] as int) * 256 + bytes[pos
                    + 7] as int) * 256 + bytes[pos + 8] as int;
                Some((major, hi * 4294967296 + lo, pos + 9))
            } else {
                None
            }
        } else {
            None
        }
    }
}

/// Where one bounded item ends, or `None` when the scan refuses it.
pub open spec fn spec_scan_item(bytes: Seq<u8>, pos: int, depth: int) -> Option<int>
    decreases depth, 0int,
{
    if depth <= 0 {
        None
    } else {
        match spec_header(bytes, pos) {
            None => None,
            Some((major, value, hend)) => {
                if major == 0 || major == 1 || major == 7 {
                    Some(hend)
                } else if major == 2 || major == 3 {
                    if value <= bytes.len() - hend {
                        Some(hend + value)
                    } else {
                        None
                    }
                } else if major == 4 {
                    if value <= bytes.len() - hend {
                        spec_scan_items(bytes, hend, value, depth - 1)
                    } else {
                        None
                    }
                } else if major == 5 {
                    if value * 2 <= bytes.len() - hend {
                        spec_scan_items(bytes, hend, value * 2, depth - 1)
                    } else {
                        None
                    }
                } else {
                    spec_scan_item(bytes, hend, depth - 1)
                }
            },
        }
    }
}

/// Where `count` consecutive bounded items end.
pub open spec fn spec_scan_items(bytes: Seq<u8>, pos: int, count: int, depth: int) -> Option<int>
    decreases depth, count + 1,
{
    if count <= 0 {
        Some(pos)
    } else {
        match spec_scan_item(bytes, pos, depth) {
            None => None,
            Some(e) => spec_scan_items(bytes, e, count - 1, depth),
        }
    }
}

/// Parses one item header.
fn cbor_header(bytes: &[u8], pos: usize) -> (r: Option<(u8, u64, usize)>)
    ensures
        match r {
            Some((major, value, hend)) => spec_header(bytes@, pos as int) == Some(
                (major as int, value as int, hend as int),
            ) && pos < hend <= bytes@.len() && major < 8,
            None => spec_header(bytes@, pos as int) is None,
        },
{
    let len = bytes.len();
    if pos >= len {
        return None;
    }
    let b = bytes[pos];
    let major = b / 32;
    let ai = b % 32;
    let remaining = len - pos;
    if ai < 24 {
        Some((major, ai as u64, pos + 1))
    } else if ai == 24 {
        if remaining >= 2 {
            Some((major, bytes[pos + 1] as u64, pos + 2))
        } else {
            None
        }
    } else if ai == 25 {
        if remaining >= 3 {
            let v = (bytes[pos + 1] as u64) * 256 + (bytes[pos + 2] as u64);
            Some((major, v, pos + 3))
        } else {
            None
        }
    } else if ai == 26 {
        if remaining >= 5 {
            let v = (((bytes[pos + 1] as u64) * 256 + (bytes[pos + 2] as u64)) * 256 + (bytes[pos
                + 3] as u64)) * 256 + (bytes[pos + 4] as u64);
            Some((major, v, pos + 5))
        } else {
            None
        }
    } else if ai == 27 {
        if remaining >= 9 {
            let v = ((((((bytes[pos + 1] as u64) * 256 + (bytes[pos + 2] as u64)) * 256 + (
            bytes[pos + 3] as u64)) * 256 + (bytes[pos + 4] as u64)) * 256 + (bytes[pos
                + 5] as u64)) * 256 + (bytes[pos + 6] as u64)) * 256 + (bytes[pos + 7] as u64);
            let v = v * 256 + (bytes[pos + 8] as u64);
            Some((major, v, pos + 9))
        } else {
            None
        }
    } else {
        None
    }
}

/// Scans one bounded item, giving its end position.
pub fn scan_cbor_item(bytes: &[u8], pos: usize, depth: usize) -> (r: Option<usize>)
    ensures
        match r {
            Some(e) => spec_scan_item(bytes@, pos as int, depth as int) == Some(e as int) && e
                <= bytes@.len(),
            None => spec_scan_item(bytes@, pos as int, depth as int) is None,
        },
    decreases depth, 0int,
{
    if depth == 0 {
        return None;
    }
    let (major, value, hend) = match cbor_header(bytes, pos) {
        Some(h) => h,
        None => {
            return None;
        },
    };
    let len = bytes.len();
    if major == 0 || major == 1 || major == 7 {
        Some(hend)
    } else if major == 2 || major == 3 {
        if value <= (len - hend) as u64 {
            Some(hend + (value as usize))
        } else {
            None
        }
    } else if major == 4 {
        if value <= (len - hend) as u64 {
            scan_cbor_items(bytes, hend, value as usize, depth - 1)
        } else {
            None
        }
    } else if major == 5 {
        if value <= ((len - hend) / 2) as u64 {
            proof {
                assert((value * 2) as int == value as int * 2);
            }
            scan_cbor_items(bytes, hend, (value as usize) * 2, depth - 1)
        } else {
            None
        }
    } else {
        scan_cbor_item(bytes, hend, depth - 1)
    }
}

/// Scans `count` consecutive bounded items.
fn scan_cbor_items(bytes: &[u8], pos: usize, count: usize, depth: usize) -> (r: Option<usize>)
    requires
        pos <= bytes@.len(),
    ensures
        match r {
            Some(e) => spec_scan_items(bytes@, pos as int, count as int, depth as int) == Some(
                e as int,
            ) && e <= bytes@.len(),
            None => spec_scan_items(bytes@, pos as int, count as int, depth as int) is None,
        },
    decreases depth, count,
{
    let mut p = pos;
    let mut i: usize = 0;
    while i < count
        invariant
            i <= count,
            p <= bytes@.len(),
            spec_scan_items(bytes@, pos as int, count as int, depth as int) == spec_scan_items(
                bytes@,
                p as int,
                count - i,
                depth as int,
            ),
        decreases count - i,
    {
        match scan_cbor_item(bytes, p, depth) {
            Some(e) => {
                p = e;
            },
            None => {
                return None;
            },
        }
        i = i + 1;
    }
    Some(p)
}


/// Position of the claim-set envelope's top array, past at most two leading
/// tags, as the decoder skips them.
pub open spec fn spec_after_tags(bytes: Seq<u8>, pos: int, allowed: int) -> Option<int>
    decreases allowed,
{
    match spec_header(bytes, pos) {
        None => None,
        Some((major, value, hend)) => {
            if major != 6 {
                Some(pos)
            } else if allowed <= 0 {
                None
            } else {
                spec_after_tags(bytes, hend, allowed - 1)
            }
        },
    }
}

/// A definite byte-string item at `pos` whose content lies inside the input:
/// the content's start and end.
pub open spec fn spec_bstr_region(bytes: Seq<u8>, pos: int) -> Option<(int, int)> {
    match spec_header(bytes, pos) {
        None => None,
        Some((major, value, hend)) => {
            if major == 2 && value <= bytes.len() - hend {
                Some((hend, hend + value))
            } else {
                None
            }
        },
    }
}

/// Whether these bytes are a bounded claim-set envelope: at most two tags,
/// then a four-item array of protected-header bytes, an inline header map, a
/// claims byte string and an opaque signature byte string.  The two embedded
/// byte strings must themselves scan as bounded items that stay inside their
/// regions, and the inline map must scan as a bounded item, because the
/// decoder recurses into exactly those three places.
pub open spec fn spec_envelope_ok(bytes: Seq<u8>) -> bool {
    let depth = CBOR_MAX_DEPTH as int;
    match spec_after_tags(bytes, 0, 2) {
        None => false,
        Some(top) => match spec_header(bytes, top) {
            None => false,
            Some((major, value, hend)) => major == 4 && value == 4 && (match spec_bstr_region(
                bytes,
                hend,
            ) {
                None => false,
                Some((s1, e1)) => (match spec_scan_item(bytes, s1, depth) {
                    None => false,
                    Some(c1) => c1 <= e1,
                }) && (match spec_scan_item(bytes, e1, depth) {
                    None => false,
                    Some(p3) => match spec_bstr_region(bytes, p3) {
                        None => false,
                        Some((s3, e3)) => (match spec_scan_item(bytes, s3, depth) {
                            None => false,
                            Some(c3) => c3 <= e3,
                        }) && (spec_bstr_region(bytes, e3) is Some),
                    },
                }),
            }),
        },
    }
}

/// Reads a byte-string item's content region.
fn bstr_region(bytes: &[u8], pos: usize) -> (r: Option<(usize, usize)>)
    ensures
        match r {
            Some((s, e)) => spec_bstr_region(bytes@, pos as int) == Some((s as int, e as int)) && s
                <= e <= bytes@.len(),
            None => spec_bstr_region(bytes@, pos as int) is None,
        },
{
    match cbor_header(bytes, pos) {
        None => None,
        Some((major, value, hend)) => {
            if major == 2 && value <= (bytes.len() - hend) as u64 {
                Some((hend, hend + (value as usize)))
            } else {
                None
            }
        },
    }
}

/// Walks past at most `allowed` leading tags.
fn skip_tags(bytes: &[u8], pos: usize, allowed: usize) -> (r: Option<usize>)
    ensures
        match r {
            Some(t) => spec_after_tags(bytes@, pos as int, allowed as int) == Some(t as int) && t
                <= bytes@.len(),
            None => spec_after_tags(bytes@, pos as int, allowed as int) is None,
        },
    decreases allowed,
{
    match cbor_header(bytes, pos) {
        None => None,
        Some((major, _value, hend)) => {
            if major != 6 {
                Some(pos)
            } else if allowed == 0 {
                None
            } else {
                skip_tags(bytes, hend, allowed - 1)
            }
        },
    }
}

/// Decides `spec_envelope_ok`: every buffer must satisfy it before it is
/// handed to the claim-set decoder.
pub fn envelope_scan_ok(bytes: &[u8]) -> (r: bool)
    ensures
        r == spec_envelope_ok(bytes@),
{
    let top = match skip_tags(bytes, 0, 2) {
        None => {
            return false;
        },
        Some(t) => t,
    };
    let items_start = match cbor_header(bytes, top) {
        None => {
            return false;
        },
        Some((major, value, hend)) => {
            if major != 4 || value != 4 {
                return false;
            }
            hend
        },
    };
    let (s1, e1) = match bstr_region(bytes, items_start) {
        None => {
            return false;
        },
        Some(region) => region,
    };
    match scan_cbor_item(bytes, s1, CBOR_MAX_DEPTH) {
        None => {
            return false;
        },
        Some(c1) => {
            if c1 > e1 {
                return false;
            }
        },
    }
    let p3 = match scan_cbor_item(bytes, e1, CBOR_MAX_DEPTH) {
        None => {
            return false;
        },
        Some(p3) => p3,
    };
    let (s3, e3) = match bstr_region(bytes, p3) {
        None => {
            return false;
        },
        Some(region) => region,
    };
    match scan_cbor_item(bytes, s3, CBOR_MAX_DEPTH) {
        None => {
            return false;
        },
        Some(c3) => {
            if c3 > e3 {
                return false;
            }
        },
    }
    match bstr_region(bytes, e3) {
        None => false,
        Some(_) => true,
    }
}

} // verus!
