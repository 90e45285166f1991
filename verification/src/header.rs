//! Header decoders: one function per wire format (OGC WKB, EWKB, GPKG),
//! each consuming a stream prefix and returning a normalized
//! [`GeometryHeader`]. Each decoder's behaviour is pinned down by a spec
//! function that computes the exact outcome for any input.

use vstd::prelude::*;

use crate::bytes::{
    i32_at, i32_bytes, in_bounds, lemma_i32_bytes_roundtrip, lemma_u32_bytes_roundtrip, read_i32,
    read_u32, read_u8, read_f64_bits, u32_at, u32_bytes, u64_at,
};
use crate::error::GeoError;
use crate::types::{kind_of_code, ByteOrder, GeometryHeader, HeaderFormat, WKBGeometryType};

verus! {

/// What a header decoder does on a given input: either the decoded fields
/// and the cursor position just past the header, or the error raised.
#[verifier::ext_equal]
pub ghost enum HeaderOutcome {
    Hdr {
        order: ByteOrder,
        kind: WKBGeometryType,
        has_z: bool,
        has_m: bool,
        srid: Option<i32>,
        env: Seq<u64>,
        end: int,
    },
    Fail { err: GeoError },
}

/// The byte order a WKB/EWKB leading byte selects: 0 is big endian, any
/// nonzero value is little endian.
pub open spec fn order_of_flag(b: u8) -> ByteOrder {
    if b == 0 {
        ByteOrder::BigEndian
    } else {
        ByteOrder::LittleEndian
    }
}

/// Whether an OGC type code's dimension indicator (code / 1000) declares
/// a Z ordinate.
pub open spec fn wkb_dim_z(code: u32) -> bool {
    code / 1000 == 1 || code / 1000 == 3
}

/// Whether an OGC type code's dimension indicator (code / 1000) declares
/// an M ordinate.
pub open spec fn wkb_dim_m(code: u32) -> bool {
    code / 1000 == 2 || code / 1000 == 3
}

/// The outcome of decoding an OGC WKB header at `pos`: a byte order flag
/// followed by a 32-bit type code; base kind is the code modulo 1000 and
/// the Z/M flags come from the code divided by 1000. Never carries an
/// SRID or an envelope.
pub open spec fn wkb_header_out(d: Seq<u8>, pos: int) -> HeaderOutcome {
    if !in_bounds(d, pos, 1) {
        HeaderOutcome::Fail { err: GeoError::Io }
    } else {
        let order = order_of_flag(d[pos]);
        if !in_bounds(d, pos + 1, 4) {
            HeaderOutcome::Fail { err: GeoError::Io }
        } else {
            let code = u32_at(d, pos + 1, order);
            HeaderOutcome::Hdr {
                order,
                kind: kind_of_code(code % 1000),
                has_z: wkb_dim_z(code),
                has_m: wkb_dim_m(code),
                srid: None,
                env: Seq::empty(),
                end: pos + 5,
            }
        }
    }
}

/// The outcome of decoding an EWKB header at `pos`: a byte order flag and
/// a 32-bit type code whose low byte is the base kind; bits 0x80000000
/// and 0x40000000 declare Z and M, and bit 0x20000000 declares a signed
/// 32-bit SRID read immediately after the code, under the same order.
pub open spec fn ewkb_header_out(d: Seq<u8>, pos: int) -> HeaderOutcome {
    if !in_bounds(d, pos, 1) {
        HeaderOutcome::Fail { err: GeoError::Io }
    } else {
        let order = order_of_flag(d[pos]);
        if !in_bounds(d, pos + 1, 4) {
            HeaderOutcome::Fail { err: GeoError::Io }
        } else {
            let code = u32_at(d, pos + 1, order);
            let kind = kind_of_code(code & 0xFF);
            let has_z = code & 0x80000000 == 0x80000000;
            let has_m = code & 0x40000000 == 0x40000000;
            if code & 0x20000000 == 0x20000000 {
                if !in_bounds(d, pos + 5, 4) {
                    HeaderOutcome::Fail { err: GeoError::Io }
                } else {
                    HeaderOutcome::Hdr {
                        order,
                        kind,
                        has_z,
                        has_m,
                        srid: Some(i32_at(d, pos + 5, order)),
                        env: Seq::empty(),
                        end: pos + 9,
                    }
                }
            } else {
                HeaderOutcome::Hdr {
                    order,
                    kind,
                    has_z,
                    has_m,
                    srid: None,
                    env: Seq::empty(),
                    end: pos + 5,
                }
            }
        }
    }
}

/// The envelope length (in doubles) a GPKG flags selector chooses: the
/// settings 0 to 4 choose 0, 4, 6, 6 and 8 doubles; anything else is a
/// format error.
pub open spec fn env_len_of(sel: u8) -> Option<usize> {
    if sel == 0 {
        Some(0usize)
    } else if sel == 1 {
        Some(4usize)
    } else if sel == 2 {
        Some(6usize)
    } else if sel == 3 {
        Some(6usize)
    } else if sel == 4 {
        Some(8usize)
    } else {
        None
    }
}

/// The `n` doubles at `pos` under `order`, as their bit patterns.
pub open spec fn f64s_at(d: Seq<u8>, pos: int, n: int, order: ByteOrder) -> Seq<u64> {
    Seq::new(n as nat, |i: int| u64_at(d, pos + 8 * i, order))
}

/// The outcome of decoding a GPKG header at `pos`: the two magic bytes
/// "GP", a version byte (ignored), a flags byte (bit 0 selects the byte
/// order, bits 1-3 the envelope length, bits 4 and 5 are recorded flags),
/// a signed 32-bit SRID, the envelope doubles, and then the embedded OGC
/// WKB header. The merged header takes kind/Z/M from the embedded OGC
/// header and byte order, SRID and envelope from the GPKG fields.
pub open spec fn gpkg_header_out(d: Seq<u8>, pos: int) -> HeaderOutcome {
    if !in_bounds(d, pos, 2) {
        HeaderOutcome::Fail { err: GeoError::Io }
    } else if d[pos] != 0x47 || d[pos + 1] != 0x50 {
        HeaderOutcome::Fail { err: GeoError::GeometryFormat }
    } else if !in_bounds(d, pos + 2, 2) {
        HeaderOutcome::Fail { err: GeoError::Io }
    } else {
        let flags = d[pos + 3];
        let sel = (flags & 0x0E) >> 1;
        match env_len_of(sel) {
            None => HeaderOutcome::Fail { err: GeoError::GeometryFormat },
            Some(env_n) => {
                let order = if flags & 0x01 == 0 {
                    ByteOrder::BigEndian
                } else {
                    ByteOrder::LittleEndian
                };
                if !in_bounds(d, pos + 4, 4) {
                    HeaderOutcome::Fail { err: GeoError::Io }
                } else {
                    let srid = i32_at(d, pos + 4, order);
                    if !in_bounds(d, pos + 8, 8 * (env_n as int)) {
                        HeaderOutcome::Fail { err: GeoError::Io }
                    } else {
                        let env = f64s_at(d, pos + 8, env_n as int, order);
                        match wkb_header_out(d, pos + 8 + 8 * (env_n as int)) {
                            HeaderOutcome::Hdr { kind, has_z, has_m, end, .. } =>
                                HeaderOutcome::Hdr {
                                    order,
                                    kind,
                                    has_z,
                                    has_m,
                                    srid: Some(srid),
                                    env,
                                    end,
                                },
                            HeaderOutcome::Fail { err } => HeaderOutcome::Fail { err },
                        }
                    }
                }
            }
        }
    }
}

/// The outcome of decoding a child header under the given strategy.
pub open spec fn header_out(d: Seq<u8>, pos: int, fmt: HeaderFormat) -> HeaderOutcome {
    match fmt {
        HeaderFormat::Ogc => wkb_header_out(d, pos),
        HeaderFormat::Ewkb => ewkb_header_out(d, pos),
    }
}

/// Decode an OGC WKB header, advancing the cursor past it.
pub fn read_wkb_header(data: &Vec<u8>, pos: &mut usize) -> (r: Result<GeometryHeader, GeoError>)
    ensures
        r matches Ok(h) ==> (wkb_header_out(data@, *old(pos) as int) matches HeaderOutcome::Hdr {
            order,
            kind,
            has_z,
            has_m,
            srid,
            env,
            end,
        } && h.byte_order == order && h.kind == kind && h.has_z == has_z && h.has_m == has_m
            && h.srid == srid && h.envelope@ == env && *final(pos) as int == end),
        r matches Err(e) ==> wkb_header_out(data@, *old(pos) as int) == (HeaderOutcome::Fail {
            err: e,
        }),
{
    let flag = match read_u8(data, pos) {
        Ok(b) => b,
        Err(e) => return Err(e),
    };
    let order = if flag == 0 {
        ByteOrder::BigEndian
    } else {
        ByteOrder::LittleEndian
    };
    let code = match read_u32(data, pos, order) {
        Ok(v) => v,
        Err(e) => return Err(e),
    };
    let kind = WKBGeometryType::from_u32(code % 1000);
    let dim = code / 1000;
    let h = GeometryHeader {
        byte_order: order,
        kind,
        has_z: dim == 1 || dim == 3,
        has_m: dim == 2 || dim == 3,
        srid: None,
        envelope: Vec::new(),
    };
    assert(h.envelope@ =~= Seq::<u64>::empty());
    Ok(h)
}

/// Decode an EWKB header, advancing the cursor past it (and past the SRID
/// when the SRID bit is set).
pub fn read_ewkb_header(data: &Vec<u8>, pos: &mut usize) -> (r: Result<GeometryHeader, GeoError>)
    ensures
        r matches Ok(h) ==> (ewkb_header_out(data@, *old(pos) as int) matches HeaderOutcome::Hdr {
            order,
            kind,
            has_z,
            has_m,
            srid,
            env,
            end,
        } && h.byte_order == order && h.kind == kind && h.has_z == has_z && h.has_m == has_m
            && h.srid == srid && h.envelope@ == env && *final(pos) as int == end),
        r matches Err(e) ==> ewkb_header_out(data@, *old(pos) as int) == (HeaderOutcome::Fail {
            err: e,
        }),
{
    let flag = match read_u8(data, pos) {
        Ok(b) => b,
        Err(e) => return Err(e),
    };
    let order = if flag == 0 {
        ByteOrder::BigEndian
    } else {
        ByteOrder::LittleEndian
    };
    let code = match read_u32(data, pos, order) {
        Ok(v) => v,
        Err(e) => return Err(e),
    };
    let kind = WKBGeometryType::from_u32(code & 0xFF);
    let has_z = code & 0x80000000 == 0x80000000;
    let has_m = code & 0x40000000 == 0x40000000;
    let srid = if code & 0x20000000 == 0x20000000 {
        match read_i32(data, pos, order) {
            Ok(v) => Some(v),
            Err(e) => return Err(e),
        }
    } else {
        None
    };
    let h = GeometryHeader {
        byte_order: order,
        kind,
        has_z,
        has_m,
        srid,
        envelope: Vec::new(),
    };
    assert(h.envelope@ =~= Seq::<u64>::empty());
    Ok(h)
}

/// Decode a GPKG header, advancing the cursor past it and past the
/// embedded OGC header, so that the cursor rests on the geometry body.
#[verifier::loop_isolation(false)]
pub fn read_gpkg_header(data: &Vec<u8>, pos: &mut usize) -> (r: Result<GeometryHeader, GeoError>)
    ensures
        r matches Ok(h) ==> (gpkg_header_out(data@, *old(pos) as int) matches HeaderOutcome::Hdr {
            order,
            kind,
            has_z,
            has_m,
            srid,
            env,
            end,
        } && h.byte_order == order && h.kind == kind && h.has_z == has_z && h.has_m == has_m
            && h.srid == srid && h.envelope@ == env && *final(pos) as int == end),
        r matches Err(e) ==> gpkg_header_out(data@, *old(pos) as int) == (HeaderOutcome::Fail {
            err: e,
        }),
{
    let magic0 = match read_u8(data, pos) {
        Ok(b) => b,
        Err(e) => return Err(e),
    };
    let magic1 = match read_u8(data, pos) {
        Ok(b) => b,
        Err(e) => return Err(e),
    };
    if magic0 != 0x47 || magic1 != 0x50 {
        // the magic bytes must spell "GP"
        return Err(GeoError::GeometryFormat);
    }
    let _version = match read_u8(data, pos) {
        Ok(b) => b,
        Err(e) => return Err(e),
    };
    let flags = match read_u8(data, pos) {
        Ok(b) => b,
        Err(e) => return Err(e),
    };
    let sel = (flags & 0x0E) >> 1;
    let env_n: usize = match sel {
        0 => 0,
        1 => 4,
        2 => 6,
        3 => 6,
        4 => 8,
        _ => return Err(GeoError::GeometryFormat),
    };
    let order = if flags & 0x01 == 0 {
        ByteOrder::BigEndian
    } else {
        ByteOrder::LittleEndian
    };
    let srid = match read_i32(data, pos, order) {
        Ok(v) => v,
        Err(e) => return Err(e),
    };
    let ghost env_start = *pos as int;
    let mut envelope: Vec<u64> = Vec::new();
    let mut j: usize = 0;
    while j < env_n
        invariant
            j <= env_n,
            env_n <= 8,
            *pos as int == env_start + 8 * j,
            envelope@ =~= f64s_at(data@, env_start, j as int, order),
            in_bounds(data@, env_start, 8 * (j as int)),
        decreases env_n - j,
    {
        let bits = match read_f64_bits(data, pos, order) {
            Ok(v) => v,
            Err(e) => return Err(e),
        };
        envelope.push(bits);
        j = j + 1;
        assert(envelope@ =~= f64s_at(data@, env_start, j as int, order));
    }
    let ogc = match read_wkb_header(data, pos) {
        Ok(h) => h,
        Err(e) => return Err(e),
    };
    Ok(
        GeometryHeader {
            byte_order: order,
            kind: ogc.kind,
            has_z: ogc.has_z,
            has_m: ogc.has_m,
            srid: Some(srid),
            envelope,
        },
    )
}

/// Decode a child header under the given strategy.
pub fn read_child_header(data: &Vec<u8>, pos: &mut usize, fmt: HeaderFormat) -> (r: Result<
    GeometryHeader,
    GeoError,
>)
    ensures
        r matches Ok(h) ==> (header_out(data@, *old(pos) as int, fmt)
            matches HeaderOutcome::Hdr {
            order,
            kind,
            has_z,
            has_m,
            srid,
            env,
            end,
        } && h.byte_order == order && h.kind == kind && h.has_z == has_z && h.has_m == has_m
            && h.srid == srid && h.envelope@ == env && *final(pos) as int == end),
        r matches Err(e) ==> header_out(data@, *old(pos) as int, fmt) == (HeaderOutcome::Fail {
            err: e,
        }),
{
    match fmt {
        HeaderFormat::Ogc => read_wkb_header(data, pos),
        HeaderFormat::Ewkb => read_ewkb_header(data, pos),
    }
}

} // verus!
