//! Wire-format reading for the encoded contract payloads.
//!
//! A payload is a sequence of records, each a varint tag (field number and
//! wire type) followed by the field data. The extractors only ever need one
//! length-delimited (`bytes`) field of a message, so this module offers a
//! single operation: scan the whole payload and return the content of the
//! last record carrying the wanted field number, or the empty value when the
//! payload is well-formed but never mentions the field. Any payload that
//! cannot be read record by record — a truncated varint, a length that runs
//! past the end, a group or unknown wire type, a field number of zero, a
//! record tag beyond the 32-bit range, or the wanted field under a wire
//! type other than length-delimited — yields no value at all.

use vstd::prelude::*;

verus! {

/// One more than the largest value a varint may decode to.
pub open spec fn varint_limit() -> nat {
    0x1_0000_0000_0000_0000
}

/// Parses a base-128 varint at `i`: each byte contributes seven low bits,
/// least significant first; a high bit set means another byte follows. At
/// most `fuel` bytes are read, and a value at or above `varint_limit()`
/// fails, as does running past the end of the buffer.
pub open spec fn parse_varint(s: Seq<u8>, i: int, fuel: nat) -> Option<(nat, int)>
    decreases fuel,
{
    if fuel == 0 || i < 0 || i >= s.len() {
        None
    } else if s[i] < 128 {
        Some((s[i] as nat, i + 1))
    } else {
        match parse_varint(s, i + 1, (fuel - 1) as nat) {
            None => None,
            Some((v, j)) => {
                let val = ((s[i] - 128) as nat + 128 * v) as nat;
                if val < varint_limit() {
                    Some((val, j))
                } else {
                    None
                }
            },
        }
    }
}

/// Scans records from `i` to the end of the payload, carrying in `acc` the
/// content of the last record seen so far whose field number is `field`.
/// `None` means the payload is not well-formed; `Some(acc)` means the scan
/// reached the end.
pub open spec fn scan_fields(s: Seq<u8>, i: int, field: nat, acc: Option<Seq<u8>>) -> Option<
    Option<Seq<u8>>,
>
    decreases s.len() - i,
{
    if i < 0 || i > s.len() {
        None
    } else if i == s.len() {
        Some(acc)
    } else {
        match parse_varint(s, i, 10) {
            None => None,
            Some((tag, j)) => {
                let f = tag / 8;
                let w = tag % 8;
                if f == 0 || tag > 0xFFFF_FFFF {
                    None
                } else if w == 0 {
                    match parse_varint(s, j, 10) {
                        None => None,
                        Some((_, k)) => {
                            if f == field || !(i < k <= s.len()) {
                                None
                            } else {
                                scan_fields(s, k, field, acc)
                            }
                        },
                    }
                } else if w == 1 {
                    if f == field || !(i < j && j + 8 <= s.len()) {
                        None
                    } else {
                        scan_fields(s, j + 8, field, acc)
                    }
                } else if w == 2 {
                    match parse_varint(s, j, 10) {
                        None => None,
                        Some((len, k)) => {
                            if !(i < k && k + len <= s.len()) {
                                None
                            } else if f == field {
                                scan_fields(
                                    s,
                                    k + len,
                                    field,
                                    Some(s.subrange(k, k + len)),
                                )
                            } else {
                                scan_fields(s, k + len, field, acc)
                            }
                        },
                    }
                } else if w == 5 {
                    if f == field || !(i < j && j + 4 <= s.len()) {
                        None
                    } else {
                        scan_fields(s, j + 4, field, acc)
                    }
                } else {
                    None
                }
            },
        }
    }
}

/// The `bytes` field `field` of the payload `s`: the content of its last
/// record when present, the empty sequence when the payload is well-formed
/// but never carries the field (its schema default), and nothing when the
/// payload cannot be decoded.
pub open spec fn spec_bytes_field(s: Seq<u8>, field: nat) -> Option<Seq<u8>> {
    match scan_fields(s, 0, field, None) {
        None => None,
        Some(None) => Some(Seq::empty()),
        Some(Some(v)) => Some(v),
    }
}

/// Reads the varint at `i`, mirroring `parse_varint` with fuel 10.
fn read_varint(data: &Vec<u8>, i: usize, fuel: u8) -> (r: Option<(u64, usize)>)
    requires
        i <= data@.len(),
    ensures
        match r {
            None => parse_varint(data@, i as int, fuel as nat) is None,
            Some((v, j)) => parse_varint(data@, i as int, fuel as nat) == Some::<(nat, int)>(
                (v as nat, j as int),
            ) && i < j && j <= data@.len(),
        },
    decreases fuel,
{
    if fuel == 0 || i >= data.len() {
        None
    } else {
        let b = data[i];
        if b < 128 {
            Some((b as u64, i + 1))
        } else {
            match read_varint(data, i + 1, fuel - 1) {
                None => None,
                Some((v, j)) => {
                    let low: u64 = (b - 128) as u64;
                    if v <= (u64::MAX - low) / 128 {
                        let val: u64 = low + 128 * v;
                        proof {
                            assert(low + 128 * (v as nat) < varint_limit()) by (nonlinear_arith)
                                requires
                                    v <= (u64::MAX - low) / 128,
                                    low < 128,
                            ;
                        }
                        Some((val, j))
                    } else {
                        proof {
                            assert(low + 128 * (v as nat) >= varint_limit()) by (nonlinear_arith)
                                requires
                                    v > (u64::MAX - low) / 128,
                                    low < 128,
                                    v < varint_limit(),
                            ;
                        }
                        None
                    }
                },
            }
        }
    }
}

/// Copies `data[start..end]`.
fn bytes_range(data: &Vec<u8>, start: usize, end: usize) -> (r: Vec<u8>)
    requires
        start <= end,
        end <= data@.len(),
    ensures
        r@ == data@.subrange(start as int, end as int),
{
    let mut r: Vec<u8> = Vec::new();
    let mut i: usize = start;
    while i < end
        invariant
            start <= i <= end <= data@.len(),
            r@ == data@.subrange(start as int, i as int),
        decreases end - i,
    {
        r.push(data[i]);
        proof {
            assert(r@ =~= data@.subrange(start as int, i + 1));
        }
        i = i + 1;
    }
    r
}

/// Scans the whole payload for the `bytes` field `field`, as
/// `spec_bytes_field` describes.
pub fn find_bytes_field(data: &Vec<u8>, field: u64) -> (r: Option<Vec<u8>>)
    ensures
        match r {
            None => spec_bytes_field(data@, field as nat) is None,
            Some(v) => spec_bytes_field(data@, field as nat) == Some(v@),
        },
{
    let ghost s = data@;
    let ghost fd = field as nat;
    let mut i: usize = 0;
    let mut acc: Option<Vec<u8>> = None;
    let ghost mut gacc: Option<Seq<u8>> = None;
    loop
        invariant
            i <= s.len(),
            data@ == s,
            match acc {
                None => gacc is None,
                Some(v) => gacc == Some(v@),
            },
            scan_fields(s, 0, fd, None) == scan_fields(s, i as int, fd, gacc),
            fd == field as nat,
        decreases s.len() - i,
    {
        if i == data.len() {
            proof {
                assert(scan_fields(s, i as int, fd, gacc) == Some(gacc));
            }
            return match acc {
                None => Some(Vec::new()),
                Some(v) => Some(v),
            };
        }
        let ghost i0 = i as int;
        let tag_r = read_varint(data, i, 10);
        match tag_r {
            None => {
                proof {
                    assert(scan_fields(s, i0, fd, gacc) is None);
                }
                return None;
            },
            Some((tag, j)) => {
                let f: u64 = tag / 8;
                let w: u64 = tag % 8;
                if f == 0 || tag > 0xFFFF_FFFF {
                    proof {
                        assert(scan_fields(s, i0, fd, gacc) is None);
                    }
                    return None;
                } else if w == 0 {
                    match read_varint(data, j, 10) {
                        None => {
                            proof {
                                assert(scan_fields(s, i0, fd, gacc) is None);
                            }
                            return None;
                        },
                        Some((_, k)) => {
                            if f == field {
                                proof {
                                    assert(scan_fields(s, i0, fd, gacc) is None);
                                }
                                return None;
                            }
                            proof {
                                assert(scan_fields(s, i0, fd, gacc) == scan_fields(
                                    s,
                                    k as int,
                                    fd,
                                    gacc,
                                ));
                            }
                            i = k;
                        },
                    }
                } else if w == 1 {
                    if f == field || data.len() - j < 8 {
                        proof {
                            assert(scan_fields(s, i0, fd, gacc) is None);
                        }
                        return None;
                    }
                    proof {
                        assert(scan_fields(s, i0, fd, gacc) == scan_fields(
                            s,
                            j + 8,
                            fd,
                            gacc,
                        ));
                    }
                    i = j + 8;
                } else if w == 2 {
                    match read_varint(data, j, 10) {
                        None => {
                            proof {
                                assert(scan_fields(s, i0, fd, gacc) is None);
                            }
                            return None;
                        },
                        Some((len, k)) => {
                            if len > (data.len() - k) as u64 {
                                proof {
                                    assert(scan_fields(s, i0, fd, gacc) is None);
                                }
                                return None;
                            }
                            let end: usize = k + len as usize;
                            if f == field {
                                let v = bytes_range(data, k, end);
                                proof {
                                    assert(scan_fields(s, i0, fd, gacc) == scan_fields(
                                        s,
                                        end as int,
                                        fd,
                                        Some(s.subrange(k as int, end as int)),
                                    ));
                                    gacc = Some(v@);
                                }
                                acc = Some(v);
                            } else {
                                proof {
                                    assert(scan_fields(s, i0, fd, gacc) == scan_fields(
                                        s,
                                        end as int,
                                        fd,
                                        gacc,
                                    ));
                                }
                            }
                            i = end;
                        },
                    }
                } else if w == 5 {
                    if f == field || data.len() - j < 4 {
                        proof {
                            assert(scan_fields(s, i0, fd, gacc) is None);
                        }
                        return None;
                    }
                    proof {
                        assert(scan_fields(s, i0, fd, gacc) == scan_fields(
                            s,
                            j + 4,
                            fd,
                            gacc,
                        ));
                    }
                    i = j + 4;
                } else {
                    proof {
                        assert(scan_fields(s, i0, fd, gacc) is None);
                    }
                    return None;
                }
            },
        }
    }
}

} // verus!
