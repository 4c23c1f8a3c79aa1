//! The ICO/CUR container: directory entries, payload framing, encoding and
//! decoding.
use crate::bytes::{
    be32_at, le16_at, le16_bytes, le32_at, le32_bytes, lemma_le16_roundtrip, lemma_le32_roundtrip, push_le16, push_le32, read_u16_le, read_u32_be,
    read_u32_le,
};
use vstd::arithmetic::power2::pow2;
use vstd::prelude::*;

verus! {

broadcast use vstd::string::group_string_axioms;

// ---------------------------------------------------------------------------
// Signature test
// ---------------------------------------------------------------------------

/// The four signature bytes that start every PNG stream.
pub open spec fn png_sig(d: Seq<u8>) -> bool {
    d[0] == 0x89 && d[1] == 0x50 && d[2] == 0x4E && d[3] == 0x47
}

/// The signature test reads bytes from the front and stops at the first
/// mismatch; it needs every byte it reads to exist.
pub open spec fn png_sig_readable(d: Seq<u8>) -> bool {
    d.len() >= 1 && (d[0] != 0x89 || d.len() >= 2 && (d[1] != 0x50 || d.len() >= 3 && (d[2]
        != 0x4E || d.len() >= 4)))
}

/// Does `image_data` start with the PNG signature?
pub fn is_png(image_data: &[u8]) -> (r: bool)
    requires
        png_sig_readable(image_data@),
    ensures
        r == png_sig(image_data@),
{
    image_data[0] == 0x89 && image_data[1] == 0x50 && image_data[2] == 0x4E && image_data[3]
        == 0x47
}

// ---------------------------------------------------------------------------
// Directory entries written for PNG and BMP payloads
// ---------------------------------------------------------------------------

/// None of the bytes 12..16 spell out the `IHDR` chunk name.
pub open spec fn ihdr_missing(d: Seq<u8>) -> bool {
    d[12] != 73 && d[13] != 72 && d[14] != 68 && d[15] != 82
}

/// Every byte that the PNG entry writer reads exists.
pub open spec fn png_entry_readable(d: Seq<u8>) -> bool {
    d.len() >= 16 && (ihdr_missing(d) || d.len() >= 26 && (d[25] != 3 || d.len() >= 33))
}

/// An ICO dimension byte: 256 is written as 0.
pub open spec fn dim_byte(v: int) -> u8 {
    if v == 256 {
        0
    } else {
        v as u8
    }
}

/// The directory entry for a PNG payload, or the reason it is refused.
#[verifier::opaque]
pub open spec fn png_entry_spec(d: Seq<u8>) -> Result<Seq<u8>, Seq<char>> {
    if ihdr_missing(d) {
        Err("PNG's first chunk must be an IHDR"@)
    } else if d[25] == 3 {
        Err("PNG's second chunk must be a PLTE if indexed"@)
    } else if be32_at(d, 16) > 256 {
        Err("PNG width must not exceed 256"@)
    } else if be32_at(d, 20) > 256 {
        Err("PNG height must not exceed 256"@)
    } else {
        Ok(
            seq![dim_byte(be32_at(d, 16)), dim_byte(be32_at(d, 20)), 0u8, 0u8] + le16_bytes(1)
                + le16_bytes(d[24] as int) + le32_bytes((d.len() as u32) as int) + le32_bytes(0),
        )
    }
}

/// Writes the directory entry for a PNG payload.
pub fn write_icon_entry_png(image_data: &[u8]) -> (r: Result<Vec<u8>, String>)
    requires
        png_entry_readable(image_data@),
    ensures
        match (r, png_entry_spec(image_data@)) {
            (Ok(v), Ok(s)) => v@ == s,
            (Err(e), Err(s)) => e@ == s,
            _ => false,
        },
{
    reveal(png_entry_spec);
    let mut buffer: Vec<u8> = Vec::new();
    if image_data[12] != 73 && image_data[13] != 72 && image_data[14] != 68 && image_data[15]
        != 82 {
        return Err("PNG's first chunk must be an IHDR".to_string());
    }
    let mut width = read_u32_be(image_data, 16);
    let mut height = read_u32_be(image_data, 20);
    let bits_per_pixel = image_data[24];
    let color_type = image_data[25];
    let color_entries = 0u8;
    if color_type == 3 {
        // A palette index byte printed as decimal digits never reads as a
        // single letter, so an indexed PNG is always refused here.
        let _p = image_data[29];
        let _l = image_data[30];
        let _t = image_data[31];
        let _e = image_data[32];
        return Err("PNG's second chunk must be a PLTE if indexed".to_string());
    }
    if width > 256 {
        return Err("PNG width must not exceed 256".to_string());
    } else if width == 256 {
        width = 0;
    }
    if height > 256 {
        return Err("PNG height must not exceed 256".to_string());
    } else if height == 256 {
        height = 0;
    }
    buffer.push(width as u8);
    buffer.push(height as u8);
    buffer.push(color_entries);
    buffer.push(0u8);
    push_le16(&mut buffer, 1u16);
    push_le16(&mut buffer, bits_per_pixel as u16);
    push_le32(&mut buffer, image_data.len() as u32);
    push_le32(&mut buffer, 0u32);
    assert(buffer@ =~= png_entry_spec(image_data@)->Ok_0);
    Ok(buffer)
}

/// Every byte that the BMP entry writer reads exists, and its arithmetic
/// stays within `u32`.
pub open spec fn bmp_entry_readable(d: Seq<u8>) -> bool {
    &&& d.len() >= 50
    &&& (d.len() as u32) >= 14
    &&& le32_at(d, 46) != 0 || le16_at(d, 28) <= 32
}

/// The palette size recorded for a BMP payload.
pub open spec fn bmp_colour_entries(d: Seq<u8>) -> int {
    let stored = le32_at(d, 46);
    let bpp = le16_at(d, 28);
    let entries = if stored == 0 && bpp != 32 {
        pow2(bpp as nat) as int
    } else {
        stored
    };
    if entries > 256 {
        0
    } else if entries == 256 {
        255
    } else {
        entries
    }
}

/// The directory entry for a BMP payload, or the reason it is refused.
#[verifier::opaque]
pub open spec fn bmp_entry_spec(d: Seq<u8>) -> Result<Seq<u8>, Seq<char>> {
    if le32_at(d, 18) > 256 {
        Err("BMP width must not exceed 256"@)
    } else if le32_at(d, 22) > 256 {
        Err("BMP height must not exceed 256"@)
    } else if le16_at(d, 26) != 1 {
        Err("BMP color planes must be 1"@)
    } else {
        Ok(
            seq![
                dim_byte(le32_at(d, 18)),
                dim_byte(le32_at(d, 22)),
                bmp_colour_entries(d) as u8,
                0u8,
            ] + le16_bytes(1) + le16_bytes(le16_at(d, 28)) + le32_bytes((d.len() as u32) - 14)
                + le32_bytes(0),
        )
    }
}

/// The directory entry written for a BMP image (a BMP file without its
/// 14-byte file header): refused when the width or height exceeds 256 or
/// there is other than one colour plane; otherwise the width and height
/// bytes (256 written as 0), the palette size (capped: 256 colours are
/// written as 255, more as 0), a reserved 0, one colour plane and the bits
/// per pixel, all read from the BMP's info header, then the size stored
/// (the file's length as a 32-bit count, less its 14-byte header) and an
/// offset left at 0.
pub proof fn lemma_bmp_directory_entry(d: Seq<u8>)
    requires
        bmp_entry_readable(d),
    ensures
        le32_at(d, 18) > 256 ==> bmp_entry_spec(d) is Err,
        le32_at(d, 22) > 256 ==> bmp_entry_spec(d) is Err,
        le16_at(d, 26) != 1 ==> bmp_entry_spec(d) is Err,
        (le32_at(d, 18) <= 256 && le32_at(d, 22) <= 256 && le16_at(d, 26) == 1) ==> (bmp_entry_spec(d) matches Ok(e) && {
            let stored = le32_at(d, 46);
            let depth = le16_at(d, 28);
            let colours = if stored == 0 && depth != 32 { pow2(depth as nat) as int } else { stored };
            &&& e.len() == 16
            &&& e[0] as int == le32_at(d, 18) % 256
            &&& e[1] as int == le32_at(d, 22) % 256
            &&& e[2] as int == if colours > 256 { 0 } else if colours == 256 { 255 } else { colours }
            &&& e[3] == 0
            &&& le16_at(e, 4) == 1
            &&& le16_at(e, 6) == depth
            &&& le32_at(e, 8) == (d.len() as u32) - 14
            &&& le32_at(e, 12) == 0
        }),
{
    reveal(bmp_entry_spec);
    if le32_at(d, 18) <= 256 && le32_at(d, 22) <= 256 && le16_at(d, 26) == 1 {
        let e = bmp_entry_spec(d)->Ok_0;
        let depth = le16_at(d, 28);
        let size = ((d.len() as u32) - 14) as int;
        assert(0 <= depth <= 65535);
        assert(e.subrange(4, 6) =~= le16_bytes(1));
        assert(e.subrange(6, 8) =~= le16_bytes(depth));
        assert(e.subrange(8, 12) =~= le32_bytes(size));
        assert(e.subrange(12, 16) =~= le32_bytes(0));
        lemma_le16_roundtrip(1);
        lemma_le16_roundtrip(depth);
        assert(e[4] == e.subrange(4, 6)[0] && e[5] == e.subrange(4, 6)[1]);
        assert(e[6] == e.subrange(6, 8)[0] && e[7] == e.subrange(6, 8)[1]);
        lemma_le32_in(e, 8, size);
        lemma_le32_in(e, 12, 0);
        let w = le32_at(d, 18);
        let h = le32_at(d, 22);
        assert(e[0] == dim_byte(w));
        assert(e[1] == dim_byte(h));
        assert(dim_byte(w) as int == w % 256);
        assert(dim_byte(h) as int == h % 256);
    }
}

/// `2^e` for an exponent below 32.
pub(crate) fn pow2_u32(e: u32) -> (r: u32)
    requires
        e < 32,
    ensures
        r == pow2(e as nat),
{
    let mut p: u32 = 1;
    let mut k: u32 = 0;
    proof {
        vstd::arithmetic::power2::lemma2_to64();
    }
    while k < e
        invariant
            k <= e < 32,
            p == pow2(k as nat),
        decreases e - k,
    {
        proof {
            vstd::arithmetic::power2::lemma_pow2_unfold((k + 1) as nat);
            vstd::arithmetic::power2::lemma_pow2_strictly_increases((k + 1) as nat, 32);
            vstd::arithmetic::power2::lemma2_to64();
        }
        p = p * 2;
        k = k + 1;
    }
    p
}

/// Writes the directory entry for a BMP payload (a BMP file whose 14-byte
/// file header is dropped in the container).
pub fn write_icon_entry_bmp(image_data: &[u8]) -> (r: Result<Vec<u8>, String>)
    requires
        bmp_entry_readable(image_data@),
    ensures
        match (r, bmp_entry_spec(image_data@)) {
            (Ok(v), Ok(s)) => v@ == s,
            (Err(e), Err(s)) => e@ == s,
            _ => false,
        },
{
    reveal(bmp_entry_spec);
    let mut buffer: Vec<u8> = Vec::new();
    let mut width = read_u32_le(image_data, 18);
    let mut height = read_u32_le(image_data, 22);
    let color_planes = read_u16_le(image_data, 26);
    let mut color_entries = read_u32_le(image_data, 46);
    let bits_per_pixel = read_u16_le(image_data, 28);

    if width > 256 {
        return Err("BMP width must not exceed 256".to_string());
    } else if width == 256 {
        width = 0;
    }
    if height > 256 {
        return Err("BMP height must not exceed 256".to_string());
    } else if height == 256 {
        height = 0;
    }
    if color_planes != 1 {
        return Err("BMP color planes must be 1".to_string());
    }
    if color_entries == 0 && bits_per_pixel != 32 {
        color_entries = pow2_u32(bits_per_pixel as u32);
    }
    if color_entries > 256 {
        color_entries = 0;
    } else if color_entries == 256 {
        color_entries = 255;
    }
    buffer.push(width as u8);
    buffer.push(height as u8);
    buffer.push(color_entries as u8);
    buffer.push(0u8);
    push_le16(&mut buffer, color_planes);
    push_le16(&mut buffer, bits_per_pixel);
    push_le32(&mut buffer, image_data.len() as u32 - 14u32);
    push_le32(&mut buffer, 0u32);
    assert(buffer@ =~= bmp_entry_spec(image_data@)->Ok_0);
    Ok(buffer)
}

/// Every byte that the entry writer reads exists.
pub open spec fn entry_readable(d: Seq<u8>) -> bool {
    png_sig_readable(d) && if png_sig(d) {
        png_entry_readable(d)
    } else {
        bmp_entry_readable(d)
    }
}

/// The directory entry for a payload, PNG or BMP.
pub open spec fn entry_spec(d: Seq<u8>) -> Result<Seq<u8>, Seq<char>> {
    if png_sig(d) {
        png_entry_spec(d)
    } else {
        bmp_entry_spec(d)
    }
}

/// Writes the directory entry for a PNG or BMP payload.
pub fn write_icon_entry(image_data: &[u8]) -> (r: Result<Vec<u8>, String>)
    requires
        entry_readable(image_data@),
    ensures
        match (r, entry_spec(image_data@)) {
            (Ok(v), Ok(s)) => v@ == s,
            (Err(e), Err(s)) => e@ == s,
            _ => false,
        },
{
    if is_png(image_data) {
        write_icon_entry_png(image_data)
    } else {
        write_icon_entry_bmp(image_data)
    }
}

// ---------------------------------------------------------------------------
// Encoding
// ---------------------------------------------------------------------------

/// The bytes a payload contributes to the container: a PNG whole, a BMP
/// without its 14-byte file header.
pub open spec fn payload(d: Seq<u8>) -> Seq<u8> {
    if png_sig(d) {
        d
    } else {
        d.subrange(14, d.len() as int)
    }
}

/// The directory entries of all payloads, or the first refusal.
pub open spec fn entries_spec(bufs: Seq<Seq<u8>>) -> Result<Seq<Seq<u8>>, Seq<char>>
    decreases bufs.len(),
{
    if bufs.len() == 0 {
        Ok(seq![])
    } else {
        match entries_spec(bufs.drop_last()) {
            Err(e) => Err(e),
            Ok(es) => match entry_spec(bufs.last()) {
                Err(e) => Err(e),
                Ok(x) => Ok(es.push(x)),
            },
        }
    }
}

/// Each payload is readable by the entry writer, up to the first refusal.
pub open spec fn entries_readable(bufs: Seq<Seq<u8>>) -> bool
    decreases bufs.len(),
{
    if bufs.len() == 0 {
        true
    } else {
        entries_readable(bufs.drop_last()) && (entries_spec(bufs.drop_last()) is Ok
            ==> entry_readable(bufs.last()))
    }
}

/// All payloads, one after the other.
pub open spec fn payloads_spec(bufs: Seq<Seq<u8>>) -> Seq<u8>
    decreases bufs.len(),
{
    if bufs.len() == 0 {
        seq![]
    } else {
        payloads_spec(bufs.drop_last()) + payload(bufs.last())
    }
}

/// The directory: each entry's first 12 bytes followed by the offset of its
/// payload, payloads starting at `base`.
pub open spec fn dir_spec(es: Seq<Seq<u8>>, bufs: Seq<Seq<u8>>, base: int) -> Seq<u8>
    decreases es.len(),
{
    if es.len() == 0 || bufs.len() == 0 {
        seq![]
    } else {
        dir_spec(es.drop_last(), bufs.drop_last(), base) + es.last().subrange(0, 12)
            + le32_bytes(base + payloads_spec(bufs.drop_last()).len())
    }
}

/// The six-byte container header for `n` images.
pub open spec fn ico_header(n: int) -> Seq<u8> {
    le16_bytes(0) + le16_bytes(1) + le16_bytes(n % 65536)
}

/// The container holding `bufs`, or the first refusal of a payload.
pub open spec fn encode_spec(bufs: Seq<Seq<u8>>) -> Result<Seq<u8>, Seq<char>> {
    match entries_spec(bufs) {
        Err(e) => Err(e),
        Ok(es) => Ok(
            ico_header(bufs.len() as int) + dir_spec(es, bufs, (6 + 16 * bufs.len()) as int)
                + payloads_spec(bufs),
        ),
    }
}

/// The inputs on which encoding reads only bytes that exist and keeps every
/// offset within `u32`.
pub open spec fn encode_defined(bufs: Seq<Seq<u8>>) -> bool {
    &&& entries_readable(bufs)
    &&& 6 + 16 * bufs.len() <= u32::MAX
    &&& entries_spec(bufs) is Ok ==> 6 + 16 * bufs.len() + payloads_spec(bufs).len() <= u32::MAX
}

proof fn lemma_entries_len(bufs: Seq<Seq<u8>>)
    requires
        entries_spec(bufs) is Ok,
    ensures
        entries_spec(bufs)->Ok_0.len() == bufs.len(),
        forall|j: int|
            #![trigger bufs[j]]
            0 <= j < bufs.len() ==> entry_spec(bufs[j]) is Ok && entries_spec(bufs)->Ok_0[j]
                == entry_spec(bufs[j])->Ok_0,
    decreases bufs.len(),
{
    if bufs.len() > 0 {
        let prefix = bufs.drop_last();
        lemma_entries_len(prefix);
        let es = entries_spec(bufs)->Ok_0;
        assert(es == entries_spec(prefix)->Ok_0.push(entry_spec(bufs.last())->Ok_0));
        assert forall|j: int|
            #![trigger bufs[j]]
            0 <= j < bufs.len() implies entry_spec(bufs[j]) is Ok && entries_spec(bufs)->Ok_0[j]
                == entry_spec(bufs[j])->Ok_0 by {
            if j < bufs.len() - 1 {
                assert(bufs[j] == prefix[j]);
            } else {
                assert(bufs[j] == bufs.last());
            }
        }
    }
}

proof fn lemma_entries_prefix_ok(bufs: Seq<Seq<u8>>, i: int)
    requires
        0 <= i <= bufs.len(),
        entries_spec(bufs) is Ok,
    ensures
        entries_spec(bufs.take(i)) is Ok,
    decreases bufs.len(),
{
    if i < bufs.len() {
        assert(bufs.take(i) =~= bufs.drop_last().take(i));
        lemma_entries_prefix_ok(bufs.drop_last(), i);
    } else {
        assert(bufs.take(i) =~= bufs);
    }
}

pub(crate) proof fn lemma_readable_prefix(bufs: Seq<Seq<u8>>, i: int)
    requires
        0 <= i <= bufs.len(),
        entries_readable(bufs),
    ensures
        entries_readable(bufs.take(i)),
    decreases bufs.len(),
{
    if i < bufs.len() {
        assert(bufs.take(i) =~= bufs.drop_last().take(i));
        lemma_readable_prefix(bufs.drop_last(), i);
    } else {
        assert(bufs.take(i) =~= bufs);
    }
}

proof fn lemma_payloads_monotone(bufs: Seq<Seq<u8>>, i: int)
    requires
        0 <= i <= bufs.len(),
    ensures
        payloads_spec(bufs.take(i)).len() <= payloads_spec(bufs).len(),
    decreases bufs.len(),
{
    if i < bufs.len() {
        assert(bufs.take(i) =~= bufs.drop_last().take(i));
        lemma_payloads_monotone(bufs.drop_last(), i);
    } else {
        assert(bufs.take(i) =~= bufs);
    }
}

/// Appends `src[start..]`.
fn push_from(out: &mut Vec<u8>, src: &[u8], start: usize)
    requires
        start <= src@.len(),
    ensures
        final(out)@ == old(out)@ + src@.subrange(start as int, src@.len() as int),
{
    let mut k = start;
    while k < src.len()
        invariant
            start <= k <= src@.len(),
            out@ == old(out)@ + src@.subrange(start as int, k as int),
        decreases src@.len() - k,
    {
        out.push(src[k]);
        k += 1;
        assert(out@ =~= old(out)@ + src@.subrange(start as int, k as int));
    }
}

/// Appends `src[..end]`.
fn push_prefix(out: &mut Vec<u8>, src: &[u8], end: usize)
    requires
        end <= src@.len(),
    ensures
        final(out)@ == old(out)@ + src@.subrange(0, end as int),
{
    let mut k: usize = 0;
    while k < end
        invariant
            k <= end <= src@.len(),
            out@ == old(out)@ + src@.subrange(0, k as int),
        decreases end - k,
    {
        out.push(src[k]);
        k += 1;
        assert(out@ =~= old(out)@ + src@.subrange(0, k as int));
    }
}

/// Packs PNG and BMP images into one ICO container: a header, one
/// directory entry per image, then the image data in order.
pub fn encode(image_buffers: Vec<Vec<u8>>) -> (r: Result<Vec<u8>, String>)
    requires
        encode_defined(image_buffers.deep_view()),
    ensures
        match (r, encode_spec(image_buffers.deep_view())) {
            (Ok(v), Ok(s)) => v@ == s,
            (Err(e), Err(s)) => e@ == s,
            _ => false,
        },
{
    let ghost bufs = image_buffers.deep_view();
    let n = image_buffers.len();
    let mut entries: Vec<Vec<u8>> = Vec::new();
    let mut i: usize = 0;
    while i < n
        invariant
            n == bufs.len(),
            bufs == image_buffers.deep_view(),
            i <= n,
            encode_defined(bufs),
            entries_spec(bufs.take(i as int)) is Ok,
            entries.deep_view() == entries_spec(bufs.take(i as int))->Ok_0,
        decreases n - i,
    {
        proof {
            lemma_readable_prefix(bufs, i + 1);
            assert(bufs.take(i + 1).drop_last() =~= bufs.take(i as int));
            assert(bufs.take(i + 1).last() == bufs[i as int]);
            assert(image_buffers@[i as int]@ == bufs[i as int]);
        }
        match write_icon_entry(image_buffers[i].as_slice()) {
            Ok(e) => {
                let ghost before = entries.deep_view();
                proof {
                    assert(e.deep_view() =~= e@);
                    assert(entries_spec(bufs.take(i + 1)) == Ok::<Seq<Seq<u8>>, Seq<char>>(
                        before.push(e.deep_view()),
                    ));
                }
                entries.push(e);
                proof {
                    assert(entries.deep_view() =~= before.push(e.deep_view()));
                }
            },
            Err(m) => {
                proof {
                    let k = i + 1;
                    assert(entries_spec(bufs.take(k)) is Err);
                    lemma_entries_err_extends(bufs, k);
                }
                return Err(m);
            },
        }
        i += 1;
    }
    assert(bufs.take(n as int) =~= bufs);
    let ghost es = entries_spec(bufs)->Ok_0;
    proof {
        lemma_entries_len(bufs);
        lemma_all_readable(bufs);
    }

    let mut icon_buffer: Vec<u8> = Vec::new();
    push_le16(&mut icon_buffer, 0u16);
    push_le16(&mut icon_buffer, 1u16);
    push_le16(&mut icon_buffer, (n % 65536) as u16);
    let ghost header = icon_buffer@;
    assert(header =~= ico_header(n as int));

    let base: u32 = (6 + 16 * n) as u32;
    let mut buffer_offset: u32 = base;
    i = 0;
    while i < n
        invariant
            n == bufs.len(),
            bufs == image_buffers.deep_view(),
            es == entries.deep_view(),
            es.len() == n,
            i <= n,
            base == 6 + 16 * n,
            encode_defined(bufs),
            entries_spec(bufs) is Ok,
            es == entries_spec(bufs)->Ok_0,
            forall|j: int| 0 <= j < n ==> #[trigger] es[j] == entry_spec(bufs[j])->Ok_0,
            forall|j: int| 0 <= j < n ==> entry_spec(#[trigger] bufs[j]) is Ok,
            forall|j: int| 0 <= j < n ==> entry_readable(#[trigger] bufs[j]),
            buffer_offset == base + payloads_spec(bufs.take(i as int)).len(),
            icon_buffer@ == header + dir_spec(
                es.take(i as int),
                bufs.take(i as int),
                base as int,
            ),
        decreases n - i,
    {
        proof {
            lemma_payloads_monotone(bufs, i + 1);
            assert(bufs.take(i + 1).drop_last() =~= bufs.take(i as int));
            assert(es.take(i + 1).drop_last() =~= es.take(i as int));
            assert(bufs.take(i + 1).last() == bufs[i as int]);
            assert(es.take(i + 1).last() == es[i as int]);
            entry_len_16(bufs[i as int]);
            assert(image_buffers@[i as int]@ == bufs[i as int]);
        }
        push_prefix(&mut icon_buffer, entries[i].as_slice(), 12);
        push_le32(&mut icon_buffer, buffer_offset);
        let data = image_buffers[i].as_slice();
        if is_png(data) {
            buffer_offset = buffer_offset + data.len() as u32;
        } else {
            buffer_offset = buffer_offset + (data.len() - 14) as u32;
        }
        i += 1;
        proof {
            assert(icon_buffer@ =~= header + dir_spec(
                es.take(i as int),
                bufs.take(i as int),
                base as int,
            ));
        }
    }
    assert(es.take(n as int) =~= es);

    i = 0;
    while i < n
        invariant
            n == bufs.len(),
            bufs == image_buffers.deep_view(),
            i <= n,
            forall|j: int| 0 <= j < n ==> entry_spec(#[trigger] bufs[j]) is Ok,
            forall|j: int| 0 <= j < n ==> entry_readable(#[trigger] bufs[j]),
            icon_buffer@ == header + dir_spec(es, bufs, base as int) + payloads_spec(
                bufs.take(i as int),
            ),
        decreases n - i,
    {
        proof {
            assert(bufs.take(i + 1).drop_last() =~= bufs.take(i as int));
            assert(bufs.take(i + 1).last() == bufs[i as int]);
            assert(image_buffers@[i as int]@ == bufs[i as int]);
        }
        let data = image_buffers[i].as_slice();
        if is_png(data) {
            push_from(&mut icon_buffer, data, 0);
            assert(data@.subrange(0, data@.len() as int) =~= data@);
        } else {
            push_from(&mut icon_buffer, data, 14);
        }
        i += 1;
        proof {
            assert(icon_buffer@ =~= header + dir_spec(es, bufs, base as int) + payloads_spec(
                bufs.take(i as int),
            ));
        }
    }
    assert(bufs.take(n as int) =~= bufs);
    Ok(icon_buffer)
}

pub(crate) proof fn lemma_entries_err_extends(bufs: Seq<Seq<u8>>, k: int)
    requires
        0 <= k <= bufs.len(),
        entries_spec(bufs.take(k)) is Err,
    ensures
        entries_spec(bufs) == entries_spec(bufs.take(k)),
    decreases bufs.len(),
{
    if k < bufs.len() {
        assert(bufs.take(k) =~= bufs.drop_last().take(k));
        lemma_entries_err_extends(bufs.drop_last(), k);
    } else {
        assert(bufs.take(k) =~= bufs);
    }
}

proof fn entry_len_16(d: Seq<u8>)
    requires
        entry_spec(d) is Ok,
    ensures
        entry_spec(d)->Ok_0.len() == 16,
{
    reveal(png_entry_spec);
    reveal(bmp_entry_spec);
}

proof fn lemma_all_readable(bufs: Seq<Seq<u8>>)
    requires
        entries_readable(bufs),
        entries_spec(bufs) is Ok,
    ensures
        forall|j: int| 0 <= j < bufs.len() ==> entry_readable(#[trigger] bufs[j]),
    decreases bufs.len(),
{
    if bufs.len() > 0 {
        lemma_all_readable(bufs.drop_last());
        assert forall|j: int| 0 <= j < bufs.len() implies entry_readable(#[trigger] bufs[j]) by {
            if j < bufs.len() - 1 {
                assert(bufs[j] == bufs.drop_last()[j]);
            }
        }
    }
}

// ---------------------------------------------------------------------------
// Decoding
// ---------------------------------------------------------------------------

/// One image of an ICO/CUR container, as read from its directory entry and
/// data.
#[derive(Debug, Default)]
pub struct IconEntry {
    pub width: u16,
    pub height: u16,
    pub colors: u8,
    pub color_planes: u16,
    pub bits_per_pixel: u16,
    pub horizontal_host_spot: u16,
    pub vertical_host_spot: u16,
    pub image_size: u32,
    pub image_offset: u32,
    pub image_data: Vec<u8>,
    pub image_type: String,
}

/// The mathematical content of an [`IconEntry`].
pub struct IconEntryView {
    pub width: u16,
    pub height: u16,
    pub colors: u8,
    pub color_planes: u16,
    pub bits_per_pixel: u16,
    pub horizontal_host_spot: u16,
    pub vertical_host_spot: u16,
    pub image_size: u32,
    pub image_offset: u32,
    pub image_data: Seq<u8>,
    pub image_type: Seq<char>,
}

impl View for IconEntry {
    type V = IconEntryView;

    open spec fn view(&self) -> IconEntryView {
        IconEntryView {
            width: self.width,
            height: self.height,
            colors: self.colors,
            color_planes: self.color_planes,
            bits_per_pixel: self.bits_per_pixel,
            horizontal_host_spot: self.horizontal_host_spot,
            vertical_host_spot: self.vertical_host_spot,
            image_size: self.image_size,
            image_offset: self.image_offset,
            image_data: self.image_data@,
            image_type: self.image_type@,
        }
    }
}

/// A directory dimension byte: 0 stands for 256.
pub open spec fn ico_dim(b: u8) -> u16 {
    if b == 0 {
        256
    } else {
        b as u16
    }
}

/// A dimension of 1 to 256 pixels survives being written to a directory
/// byte and read back; 256, which does not fit a byte, is written as 0.
pub proof fn lemma_dimension_byte(v: int)
    requires
        1 <= v <= 256,
    ensures
        ico_dim(dim_byte(v)) == v,
        dim_byte(v) == 0 <==> v == 256,
{
}

/// Every byte that the entry reader reads at `p` exists.
pub open spec fn entry_header_readable(buf: Seq<u8>, p: int, t: u16) -> bool {
    0 <= p && p + 4 <= buf.len() && (buf[p + 3] != 0 || (p + 6 <= buf.len() && ((t == 1
        && le16_at(buf, p + 4) != 0 && le16_at(buf, p + 4) != 1) || p + 16 <= buf.len())))
}

/// The directory entry at `p` of a container of type `t` (1 icon, 2 cursor),
/// or the reason it is refused.
pub open spec fn read_entry_spec(buf: Seq<u8>, p: int, t: u16) -> Result<IconEntryView, Seq<char>> {
    if buf[p + 3] != 0 {
        Err("Reserved must be 0"@)
    } else if t == 1 && le16_at(buf, p + 4) != 0 && le16_at(buf, p + 4) != 1 {
        Err("Color plane was ${buf}, should be 0 or 1"@)
    } else {
        Ok(
            IconEntryView {
                width: ico_dim(buf[p]),
                height: ico_dim(buf[p + 1]),
                colors: buf[p + 2],
                color_planes: if t == 1 {
                    le16_at(buf, p + 4) as u16
                } else {
                    0
                },
                bits_per_pixel: if t == 1 {
                    le16_at(buf, p + 6) as u16
                } else {
                    0
                },
                horizontal_host_spot: if t == 2 {
                    le16_at(buf, p + 4) as u16
                } else {
                    0
                },
                vertical_host_spot: if t == 2 {
                    le16_at(buf, p + 6) as u16
                } else {
                    0
                },
                image_size: le32_at(buf, p + 8) as u32,
                image_offset: le32_at(buf, p + 12) as u32,
                image_data: seq![],
                image_type: seq![],
            },
        )
    }
}

/// The entry reader's position after reading at `p`.
pub open spec fn entry_end(buf: Seq<u8>, p: int, t: u16) -> int {
    if buf[p + 3] != 0 {
        p + 4
    } else if t == 1 && le16_at(buf, p + 4) != 0 && le16_at(buf, p + 4) != 1 {
        p + 6
    } else {
        p + 16
    }
}

/// Reads the 16-byte directory entry at `offset`, advancing `offset` past
/// the bytes read.
pub fn read_icon_entry(buffer: &[u8], offset: &mut usize, type_: u16) -> (r: Result<
    IconEntry,
    String,
>)
    requires
        entry_header_readable(buffer@, *old(offset) as int, type_),
    ensures
        *final(offset) == entry_end(buffer@, *old(offset) as int, type_),
        match (r, read_entry_spec(buffer@, *old(offset) as int, type_)) {
            (Ok(v), Ok(s)) => v@ == s,
            (Err(e), Err(s)) => e@ == s,
            _ => false,
        },
{
    let mut entry = IconEntry {
        width: 0,
        height: 0,
        colors: 0,
        color_planes: 0,
        bits_per_pixel: 0,
        horizontal_host_spot: 0,
        vertical_host_spot: 0,
        image_size: 0,
        image_offset: 0,
        image_data: Vec::new(),
        image_type: String::new(),
    };

    let buf = buffer[*offset];
    *offset += 1;
    if buf == 0 {
        entry.width = 256;
    } else {
        entry.width = buf as u16;
    }

    let buf = buffer[*offset];
    *offset += 1;
    if buf == 0 {
        entry.height = 256;
    } else {
        entry.height = buf as u16;
    }

    let buf = buffer[*offset];
    *offset += 1;
    entry.colors = buf;

    let buf = buffer[*offset];
    *offset += 1;
    if buf != 0 {
        return Err("Reserved must be 0".to_string());
    }

    let buf = read_u16_le(buffer, *offset);
    *offset += 2;
    if type_ == 1 {
        if buf != 0 && buf != 1 {
            return Err("Color plane was ${buf}, should be 0 or 1".to_string());
        }
        entry.color_planes = buf;
    } else if type_ == 2 {
        entry.horizontal_host_spot = buf;
    }

    let buf = read_u16_le(buffer, *offset);
    *offset += 2;
    if type_ == 1 {
        entry.bits_per_pixel = buf;
    } else if type_ == 2 {
        entry.vertical_host_spot = buf;
    }

    let buf = read_u32_le(buffer, *offset);
    *offset += 4;
    entry.image_size = buf;

    let buf = read_u32_le(buffer, *offset);
    *offset += 4;
    entry.image_offset = buf;

    proof {
        assert(entry.image_data@ =~= Seq::<u8>::empty());
    }
    Ok(entry)
}

/// The bytes of an entry's image inside the container.
pub open spec fn data_slice(buf: Seq<u8>, e: IconEntryView) -> Seq<u8> {
    buf.subrange(e.image_offset as int, e.image_offset + e.image_size)
}

/// A BMP image body followed by the directory's width and height, which
/// stand in for the dimensions of the image's AND-masked double height.
pub open spec fn bmp_ext(d: Seq<u8>, e: IconEntryView) -> Seq<u8> {
    d + le32_bytes(e.width as int) + le32_bytes(e.height as int)
}

/// Palette size of a BMP body: stored, or implied by the bit depth.
pub open spec fn bmp_palette_entries(x: Seq<u8>) -> int {
    let bpp = le16_at(x, 14);
    let stored = le32_at(x, 32);
    if stored == 0 && bpp != 32 {
        pow2(bpp as nat) as int
    } else {
        stored
    }
}

/// Where the pixel data starts in a BMP body: after the info header, the
/// optional bit-field masks and the colour table.
pub open spec fn bmp_pixel_offset(x: Seq<u8>) -> int {
    let header_size = le32_at(x, 0);
    let table_offset = if le32_at(x, 16) == 3 {
        header_size + 12
    } else {
        header_size
    };
    let colour_size = if header_size == 12 {
        3int
    } else {
        4int
    };
    table_offset + bmp_palette_entries(x) * colour_size
}

/// The bytes that the BMP branch reads exist and its sums stay within `u32`.
pub open spec fn bmp_data_readable(d: Seq<u8>, e: IconEntryView) -> bool {
    let x = bmp_ext(d, e);
    &&& d.len() >= 28
    &&& le32_at(x, 32) != 0 || le16_at(x, 14) <= 32
    &&& bmp_pixel_offset(x) + 14 <= u32::MAX
    &&& e.image_size + 14 <= u32::MAX
}

/// The entry's image region exists and can be read as PNG or BMP.
pub open spec fn data_readable(buf: Seq<u8>, e: IconEntryView) -> bool {
    let d = data_slice(buf, e);
    &&& e.image_offset + e.image_size <= u32::MAX
    &&& e.image_offset + e.image_size <= buf.len()
    &&& png_sig_readable(d)
    &&& png_sig(d) || bmp_data_readable(d, e)
}

/// A BMP file rebuilt around a container's BMP body: the `BM` magic, the
/// file size and the pixel-data offset, then the body.
pub open spec fn bmp_file(d: Seq<u8>, e: IconEntryView) -> Seq<u8> {
    let x = bmp_ext(d, e);
    seq![0x42u8, 0x4Du8] + le32_bytes(e.image_size + 14) + le32_bytes(bmp_pixel_offset(x) + 14)
        + x
}

/// The entry with its image attached: PNG as stored, BMP rebuilt as a file.
pub open spec fn with_data(buf: Seq<u8>, e: IconEntryView) -> IconEntryView {
    let d = data_slice(buf, e);
    if png_sig(d) {
        IconEntryView { image_data: d, image_type: "png"@, ..e }
    } else {
        IconEntryView { image_data: bmp_file(d, e), image_type: "bmp"@, ..e }
    }
}

/// A BMP image read from a container comes out behind a file header: the
/// `BM` magic, the file size (the stored image plus 14), and a pixel-data
/// offset (counted from a 14-byte file header) that points just past the
/// colour table, which follows the info header and, for `BI_BITFIELDS`
/// compression, its three 4-byte masks. The table has the stored number of
/// colours, or 2^depth when none is stored (below 32 bits); its entries are
/// 4-byte RGBQUADs, or 3-byte RGBTRIPLEs under the 12-byte
/// BITMAPCOREHEADER. The header written holds no reserved field, so the
/// stored image follows it at byte 10, with the directory's width and
/// height after it.
pub proof fn lemma_rebuilt_bmp(buf: Seq<u8>, e: IconEntryView)
    requires
        data_readable(buf, e),
        !png_sig(data_slice(buf, e)),
    ensures
        ({
            let d = data_slice(buf, e);
            let out = with_data(buf, e).image_data;
            let x = d + le32_bytes(e.width as int) + le32_bytes(e.height as int);
            let header_size = le32_at(d, 0);
            let depth = le16_at(x, 14);
            let stored_colours = le32_at(x, 32);
            let colours = if stored_colours == 0 && depth != 32 {
                pow2(depth as nat) as int
            } else {
                stored_colours
            };
            let masks = if le32_at(x, 16) == 3 {
                12int
            } else {
                0int
            };
            let entry_size = if header_size == 12 {
                3int
            } else {
                4int
            };
            &&& with_data(buf, e).image_type == "bmp"@
            &&& out.len() == 10 + x.len()
            &&& out[0] == 0x42u8 && out[1] == 0x4Du8
            &&& le32_at(out, 2) == e.image_size + 14
            &&& le32_at(out, 6) == 14 + header_size + masks + colours * entry_size
            &&& out.subrange(10, out.len() as int) == x
        }),
{
    let d = data_slice(buf, e);
    let x = bmp_ext(d, e);
    let a = e.image_size + 14;
    let b = bmp_pixel_offset(x) + 14;
    let out = bmp_file(d, e);
    assert(le32_at(x, 0) == le32_at(d, 0)) by {
        assert(x[0] == d[0] && x[1] == d[1] && x[2] == d[2] && x[3] == d[3]);
    }
    assert(bmp_palette_entries(x) >= 0) by {
        vstd::arithmetic::power2::lemma_pow2_pos(le16_at(x, 14) as nat);
    }
    assert(bmp_pixel_offset(x) >= 0) by (nonlinear_arith)
        requires
            bmp_palette_entries(x) >= 0,
            le32_at(x, 0) >= 0,
            bmp_pixel_offset(x) == (if le32_at(x, 16) == 3 { le32_at(x, 0) + 12 } else { le32_at(x, 0) })
                + bmp_palette_entries(x) * (if le32_at(x, 0) == 12 { 3int } else { 4int }),
    ;
    assert(out.subrange(2, 6) =~= le32_bytes(a));
    assert(out.subrange(6, 10) =~= le32_bytes(b));
    lemma_le32_in(out, 2, a);
    lemma_le32_in(out, 6, b);
    assert(out.subrange(10, out.len() as int) =~= x);
}

/// A PNG image read from a container comes out exactly as stored, the
/// bytes from the entry's offset for the entry's size, marked as PNG; the
/// test for PNG is its signature's first four bytes, 0x89 'P' 'N' 'G'.
pub proof fn lemma_stored_png(buf: Seq<u8>, e: IconEntryView)
    requires
        e.image_offset + e.image_size <= buf.len(),
        e.image_size >= 4,
        buf[e.image_offset as int] == 0x89u8,
        buf[e.image_offset + 1] == 0x50u8,
        buf[e.image_offset + 2] == 0x4Eu8,
        buf[e.image_offset + 3] == 0x47u8,
    ensures
        with_data(buf, e).image_data == buf.subrange(e.image_offset as int, e.image_offset + e.image_size),
        with_data(buf, e).image_type == "png"@,
        with_data(buf, e).width == e.width && with_data(buf, e).height == e.height,
        with_data(buf, e).image_offset == e.image_offset && with_data(buf, e).image_size == e.image_size,
{
    let d = data_slice(buf, e);
    assert(d[0] == buf[e.image_offset as int]);
    assert(d[1] == buf[e.image_offset + 1]);
    assert(d[2] == buf[e.image_offset + 2]);
    assert(d[3] == buf[e.image_offset + 3]);
}

/// Copies `src[from..to]`.
pub(crate) fn copy_range(src: &[u8], from: usize, to: usize) -> (r: Vec<u8>)
    requires
        from <= to <= src@.len(),
    ensures
        r@ == src@.subrange(from as int, to as int),
{
    let mut out: Vec<u8> = Vec::new();
    let mut k = from;
    while k < to
        invariant
            from <= k <= to <= src@.len(),
            out@ == src@.subrange(from as int, k as int),
        decreases to - k,
    {
        out.push(src[k]);
        k += 1;
        assert(out@ =~= src@.subrange(from as int, k as int));
    }
    out
}

/// Attaches the entry's image from the container: PNG data as stored, BMP
/// data with a rebuilt file header.
pub fn read_icon_data(buffer: &[u8], icon: &mut IconEntry)
    requires
        data_readable(buffer@, old(icon)@),
    ensures
        final(icon)@ == with_data(buffer@, old(icon)@),
{
    let to_off = (icon.image_offset + icon.image_size) as usize;
    let from_off = icon.image_offset as usize;
    let mut image_data = copy_range(buffer, from_off, to_off);

    if is_png(image_data.as_slice()) {
        icon.image_data = image_data;
        icon.image_type = "png".to_string();
    } else {
        let ghost d = image_data@;
        icon.image_type = "bmp".to_string();
        let header_size = read_u32_le(image_data.as_slice(), 0);
        push_le32(&mut image_data, icon.width as u32);
        push_le32(&mut image_data, icon.height as u32);
        let ghost x = image_data@;
        assert(x =~= bmp_ext(d, old(icon)@));
        assert(le32_at(x, 0) == header_size);

        let bits_per_pixel = read_u16_le(image_data.as_slice(), 14) as u32;
        let has_bit_fields = read_u32_le(image_data.as_slice(), 16) == 3;
        let mut palette_entries = read_u32_le(image_data.as_slice(), 32);
        if palette_entries == 0 && bits_per_pixel != 32 {
            palette_entries = pow2_u32(bits_per_pixel);
        }
        let palette_color_size: u32 = if header_size == 12 {
            3
        } else {
            4
        };
        let color_table_offset = if has_bit_fields {
            header_size + 12
        } else {
            header_size
        };
        assert(bmp_pixel_offset(x) == color_table_offset + palette_entries * palette_color_size);
        let color_table_size = palette_entries * palette_color_size;
        let pixel_data_offset = color_table_offset + color_table_size;

        let mut bitmap_header: Vec<u8> = Vec::new();
        bitmap_header.push(0x42);
        bitmap_header.push(0x4D);
        push_le32(&mut bitmap_header, icon.image_size + 14);
        push_le32(&mut bitmap_header, pixel_data_offset + 14);
        bitmap_header.append(&mut image_data);
        icon.image_data = bitmap_header;
        assert(icon.image_data@ =~= bmp_file(d, old(icon)@));
    }
}

/// Each directory entry from the `i`-th on, with its image, or the first
/// refusal.
pub open spec fn decode_from(buf: Seq<u8>, t: u16, i: nat, n: nat) -> Result<
    Seq<IconEntryView>,
    Seq<char>,
>
    decreases n - i,
{
    if i >= n {
        Ok(seq![])
    } else {
        match read_entry_spec(buf, (6 + 16 * i) as int, t) {
            Err(e) => Err(e),
            Ok(h) => match decode_from(buf, t, i + 1, n) {
                Err(e) => Err(e),
                Ok(rest) => Ok(seq![with_data(buf, h)] + rest),
            },
        }
    }
}

/// Decoding from the `i`-th entry on reads only bytes that exist.
pub open spec fn decode_readable_from(buf: Seq<u8>, t: u16, i: nat, n: nat) -> bool
    decreases n - i,
{
    if i >= n {
        true
    } else {
        entry_header_readable(buf, (6 + 16 * i) as int, t) && match read_entry_spec(buf, (6 + 16 * i) as int, t) {
            Err(_) => true,
            Ok(h) => data_readable(buf, h) && decode_readable_from(buf, t, i + 1, n),
        }
    }
}

/// The images of an ICO/CUR container, or the reason it is refused.
pub open spec fn decode_spec(buf: Seq<u8>) -> Result<Seq<IconEntryView>, Seq<char>> {
    if le16_at(buf, 0) != 0 {
        Err("Reserved must be 0"@)
    } else if le16_at(buf, 2) != 1 && le16_at(buf, 2) != 2 {
        Err("image type must be ICO or CUR"@)
    } else {
        decode_from(buf, le16_at(buf, 2) as u16, 0, le16_at(buf, 4) as nat)
    }
}

/// Decoding reads only bytes that exist and keeps its sums within `u32`.
pub open spec fn decode_readable(buf: Seq<u8>) -> bool {
    buf.len() >= 2 && (le16_at(buf, 0) != 0 || buf.len() >= 4 && ((le16_at(buf, 2) != 1
        && le16_at(buf, 2) != 2) || buf.len() >= 6 && decode_readable_from(
        buf,
        le16_at(buf, 2) as u16,
        0,
        le16_at(buf, 4) as nat,
    )))
}

/// A directory entry records, in this order: the width and height bytes
/// (0 standing for 256), the colour count, a reserved byte that must be 0,
/// then for an icon (type 1) the colour planes (0 or 1) and bits per pixel
/// and for a cursor (type 2) the hotspot's x and y, each a 16-bit
/// little-endian value, and last the image's size and offset, each a
/// 32-bit little-endian value.
pub proof fn lemma_directory_entry(buf: Seq<u8>, p: int, t: u16)
    requires
        0 <= p,
        p + 16 <= buf.len(),
    ensures
        buf[p + 3] != 0 ==> read_entry_spec(buf, p, t) is Err,
        t == 1 && le16_at(buf, p + 4) != 0 && le16_at(buf, p + 4) != 1 ==> read_entry_spec(buf, p, t)
            is Err,
        buf[p + 3] == 0 && (t != 1 || le16_at(buf, p + 4) == 0 || le16_at(buf, p + 4) == 1)
            ==> read_entry_spec(buf, p, t) is Ok,
        read_entry_spec(buf, p, t) matches Ok(e) ==> {
            &&& e.width == if buf[p] == 0 { 256 } else { buf[p] as int }
            &&& e.height == if buf[p + 1] == 0 { 256 } else { buf[p + 1] as int }
            &&& e.colors == buf[p + 2]
            &&& t == 1 ==> e.color_planes == le16_at(buf, p + 4) && e.bits_per_pixel == le16_at(
                buf,
                p + 6,
            ) && e.horizontal_host_spot == 0 && e.vertical_host_spot == 0
            &&& t == 2 ==> e.horizontal_host_spot == le16_at(buf, p + 4) && e.vertical_host_spot
                == le16_at(buf, p + 6) && e.color_planes == 0 && e.bits_per_pixel == 0
            &&& e.image_size == le32_at(buf, p + 8)
            &&& e.image_offset == le32_at(buf, p + 12)
            &&& e.image_data.len() == 0
        },
{
}

/// The image of the `k`-th directory entry of a container of type `t`.
#[verifier::opaque]
pub open spec fn entry_image(buf: Seq<u8>, t: u16, k: int) -> IconEntryView {
    with_data(buf, read_entry_spec(buf, 6 + 16 * k, t)->Ok_0)
}

proof fn lemma_decode_from_entries(buf: Seq<u8>, t: u16, i: nat, n: nat)
    requires
        decode_from(buf, t, i, n) is Ok,
    ensures
        ({
            let es = decode_from(buf, t, i, n)->Ok_0;
            &&& es.len() == if i <= n { n - i } else { 0 }
            &&& forall|j: int|
                0 <= j < es.len() ==> #[trigger] es[j] == entry_image(buf, t, i + j)
        }),
    decreases n - i,
{
    if i < n {
        lemma_decode_from_entries(buf, t, i + 1, n);
        let es = decode_from(buf, t, i, n)->Ok_0;
        let rest = decode_from(buf, t, i + 1, n)->Ok_0;
        let h = read_entry_spec(buf, (6 + 16 * i) as int, t)->Ok_0;
        assert(es == seq![with_data(buf, h)] + rest);
        assert(es[0] == entry_image(buf, t, i as int)) by {
            reveal(entry_image);
        }
        assert forall|j: int| 0 <= j < es.len() implies #[trigger] es[j] == entry_image(buf, t, i + j) by {
            if j > 0 {
                assert(es[j] == rest[j - 1]);
                assert((i + 1) + (j - 1) == i + j);
            }
        }
    }
}

/// A container is refused when its reserved field is not 0 or its type is
/// neither icon (1) nor cursor (2); one that is read gives as many images
/// as its count field says, the i-th read from the directory entry at
/// byte 6 + 16 i, in order.
pub proof fn lemma_decode_reads_every_entry(buf: Seq<u8>)
    ensures
        le16_at(buf, 0) != 0 ==> decode_spec(buf) is Err,
        le16_at(buf, 2) != 1 && le16_at(buf, 2) != 2 ==> decode_spec(buf) is Err,
        decode_spec(buf) matches Ok(es) ==> {
            &&& es.len() == le16_at(buf, 4)
            &&& forall|i: int|
                0 <= i < es.len() ==> #[trigger] es[i] == entry_image(buf, le16_at(buf, 2) as u16, i)
        },
{
    if decode_spec(buf) is Ok {
        let t = le16_at(buf, 2) as u16;
        let n = le16_at(buf, 4) as nat;
        lemma_decode_from_entries(buf, t, 0, n);
        let es = decode_spec(buf)->Ok_0;
        assert forall|i: int| 0 <= i < es.len() implies #[trigger] es[i] == entry_image(buf, t, i) by {
            assert(0 + i == i);
        }
    }
}


/// The views of a sequence of entries.
pub open spec fn entry_views(v: Seq<IconEntry>) -> Seq<IconEntryView> {
    Seq::new(v.len(), |i: int| v[i]@)
}

/// Reads every image of an ICO/CUR container.
pub fn decode(buffer: Vec<u8>) -> (r: Result<Vec<IconEntry>, String>)
    requires
        decode_readable(buffer@),
    ensures
        match (r, decode_spec(buffer@)) {
            (Ok(v), Ok(s)) => entry_views(v@) == s,
            (Err(e), Err(s)) => e@ == s,
            _ => false,
        },
{
    let ghost b = buffer@;
    let mut offset: usize = 0;

    let buf = read_u16_le(buffer.as_slice(), offset);
    offset += 2;
    if buf != 0 {
        return Err("Reserved must be 0".to_string());
    }
    let buf = read_u16_le(buffer.as_slice(), offset);
    offset += 2;
    let type_ = if buf == 1 || buf == 2 {
        buf
    } else {
        return Err("image type must be ICO or CUR".to_string());
    };
    let buf = read_u16_le(buffer.as_slice(), offset);
    offset += 2;
    let image_count = buf;

    let mut icon_entries: Vec<IconEntry> = Vec::new();
    let mut i: u16 = 0;
    while i < image_count
        invariant
            b == buffer@,
            type_ == le16_at(b, 2),
            image_count == le16_at(b, 4),
            le16_at(b, 0) == 0,
            i <= image_count,
            offset == 6 + 16 * i,
            decode_readable_from(b, type_, i as nat, image_count as nat),
            decode_spec(b) == (match decode_from(b, type_, i as nat, image_count as nat) {
                Ok(rest) => Ok(entry_views(icon_entries@) + rest),
                Err(e) => Err(e),
            }),
        decreases image_count - i,
    {
        let ghost before = entry_views(icon_entries@);
        let mut entry = match read_icon_entry(buffer.as_slice(), &mut offset, type_) {
            Ok(e) => e,
            Err(m) => {
                return Err(m);
            },
        };
        let ghost h = entry@;
        read_icon_data(buffer.as_slice(), &mut entry);
        icon_entries.push(entry);
        proof {
            assert(entry_views(icon_entries@) =~= before.push(with_data(b, h)));
            match decode_from(b, type_, (i + 1) as nat, image_count as nat) {
                Ok(rest) => {
                    assert(before + (seq![with_data(b, h)] + rest) =~= before.push(
                        with_data(b, h),
                    ) + rest);
                },
                Err(e) => {},
            }
        }
        i += 1;
    }
    proof {
        assert(entry_views(icon_entries@) + Seq::<IconEntryView>::empty() =~= entry_views(
            icon_entries@,
        ));
    }
    Ok(icon_entries)
}

// ---------------------------------------------------------------------------
// Decoding what was encoded
// ---------------------------------------------------------------------------

/// A PNG stream that the encoder accepts: signature, `IHDR` first, not
/// indexed, and at most 256 pixels on each side.
pub open spec fn icon_ready_png(d: Seq<u8>) -> bool {
    &&& d.len() >= 26
    &&& png_sig(d)
    &&& !ihdr_missing(d)
    &&& d[25] != 3
    &&& be32_at(d, 16) <= 256
    &&& be32_at(d, 20) <= 256
}

/// Where the `i`-th payload starts, counted from the first payload.
pub open spec fn payload_pos(bufs: Seq<Seq<u8>>, i: int) -> int {
    payloads_spec(bufs.take(i)).len() as int
}

/// The 16 directory bytes of the `i`-th image.
pub open spec fn dir_block(es: Seq<Seq<u8>>, bufs: Seq<Seq<u8>>, base: int, i: int) -> Seq<u8> {
    es[i].subrange(0, 12) + le32_bytes(base + payload_pos(bufs, i))
}

proof fn lemma_dir_blocks(es: Seq<Seq<u8>>, bufs: Seq<Seq<u8>>, base: int)
    requires
        es.len() == bufs.len(),
        forall|j: int| 0 <= j < es.len() ==> (#[trigger] es[j]).len() == 16,
    ensures
        dir_spec(es, bufs, base).len() == 16 * es.len(),
        forall|i: int|
            0 <= i < es.len() ==> dir_spec(es, bufs, base).subrange(16 * i, 16 * i + 16)
                == #[trigger] dir_block(es, bufs, base, i),
    decreases es.len(),
{
    if es.len() > 0 {
        let n = es.len() as int;
        let es2 = es.drop_last();
        let bufs2 = bufs.drop_last();
        assert forall|j: int| 0 <= j < es2.len() implies (#[trigger] es2[j]).len() == 16 by {
            assert(es2[j] == es[j]);
        }
        lemma_dir_blocks(es2, bufs2, base);
        let d2 = dir_spec(es2, bufs2, base);
        let d = dir_spec(es, bufs, base);
        assert(bufs2 =~= bufs.take(n - 1));
        assert(d == d2 + es.last().subrange(0, 12) + le32_bytes(base + payloads_spec(bufs2).len()));
        assert forall|i: int| 0 <= i < es.len() implies d.subrange(16 * i, 16 * i + 16)
            == #[trigger] dir_block(es, bufs, base, i) by {
            if i < n - 1 {
                assert(bufs2.take(i) =~= bufs.take(i));
                assert(es2[i] == es[i]);
                assert(dir_block(es2, bufs2, base, i) == dir_block(es, bufs, base, i));
                assert(d2.subrange(16 * i, 16 * i + 16) == dir_block(es2, bufs2, base, i));
                assert(d.subrange(16 * i, 16 * i + 16) =~= d2.subrange(16 * i, 16 * i + 16));
            } else {
                assert(d.subrange(16 * i, 16 * i + 16) =~= dir_block(es, bufs, base, i));
            }
        }
    }
}

proof fn lemma_payload_slices(bufs: Seq<Seq<u8>>)
    ensures
        forall|i: int|
            0 <= i < bufs.len() ==> #[trigger] payload_pos(bufs, i) + payload(bufs[i]).len()
                <= payloads_spec(bufs).len() && payloads_spec(bufs).subrange(
                payload_pos(bufs, i),
                payload_pos(bufs, i) + payload(bufs[i]).len(),
            ) == payload(bufs[i]),
    decreases bufs.len(),
{
    if bufs.len() > 0 {
        let n = bufs.len() as int;
        let bufs2 = bufs.drop_last();
        lemma_payload_slices(bufs2);
        let p = payloads_spec(bufs);
        let p2 = payloads_spec(bufs2);
        assert forall|i: int| 0 <= i < bufs.len() implies #[trigger] payload_pos(bufs, i)
            + payload(bufs[i]).len() <= p.len() && p.subrange(
            payload_pos(bufs, i),
            payload_pos(bufs, i) + payload(bufs[i]).len(),
        ) == payload(bufs[i]) by {
            if i < n - 1 {
                assert(bufs2.take(i) =~= bufs.take(i));
                assert(bufs2[i] == bufs[i]);
                assert(payload_pos(bufs2, i) == payload_pos(bufs, i));
                assert(p.subrange(payload_pos(bufs, i), payload_pos(bufs, i) + payload(
                    bufs[i],
                ).len()) =~= p2.subrange(payload_pos(bufs, i), payload_pos(bufs, i) + payload(
                    bufs[i],
                ).len()));
            } else {
                assert(bufs.take(i) =~= bufs2);
                assert(p.subrange(payload_pos(bufs, i), payload_pos(bufs, i) + payload(
                    bufs[i],
                ).len()) =~= payload(bufs[i]));
            }
        }
    }
}

proof fn lemma_png_entries(bufs: Seq<Seq<u8>>)
    requires
        forall|i: int| 0 <= i < bufs.len() ==> icon_ready_png(#[trigger] bufs[i]),
    ensures
        entries_spec(bufs) is Ok,
        entries_readable(bufs),
        payloads_spec(bufs).len() == payloads_spec(bufs).len(),
    decreases bufs.len(),
{
    reveal(png_entry_spec);
    if bufs.len() > 0 {
        let bufs2 = bufs.drop_last();
        assert forall|i: int| 0 <= i < bufs2.len() implies icon_ready_png(#[trigger] bufs2[i]) by {
            assert(bufs2[i] == bufs[i]);
        }
        lemma_png_entries(bufs2);
        assert(icon_ready_png(bufs[bufs.len() - 1]));
    }
}

/// The decoded entry expected for the `i`-th PNG of an encoded container.
pub open spec fn expected_png_entry(bufs: Seq<Seq<u8>>, base: int, i: int) -> IconEntryView {
    let d = bufs[i];
    IconEntryView {
        width: ico_dim(dim_byte(be32_at(d, 16))),
        height: ico_dim(dim_byte(be32_at(d, 20))),
        colors: 0,
        color_planes: 1,
        bits_per_pixel: d[24] as u16,
        horizontal_host_spot: 0,
        vertical_host_spot: 0,
        image_size: d.len() as u32,
        image_offset: (base + payload_pos(bufs, i)) as u32,
        image_data: d,
        image_type: "png"@,
    }
}

proof fn lemma_le32_in(s: Seq<u8>, o: int, v: int)
    requires
        0 <= v <= u32::MAX,
        0 <= o,
        o + 4 <= s.len(),
        s.subrange(o, o + 4) == le32_bytes(v),
    ensures
        le32_at(s, o) == v,
{
    lemma_le32_roundtrip(v);
    assert(s[o] == s.subrange(o, o + 4)[0]);
    assert(s[o + 1] == s.subrange(o, o + 4)[1]);
    assert(s[o + 2] == s.subrange(o, o + 4)[2]);
    assert(s[o + 3] == s.subrange(o, o + 4)[3]);
}

/// The facts shared by every step of decoding an encoded PNG container.
pub open spec fn png_container(bufs: Seq<Seq<u8>>, es: Seq<Seq<u8>>, out: Seq<u8>) -> bool {
    &&& bufs.len() <= 65535
    &&& es.len() == bufs.len()
    &&& forall|j: int| 0 <= j < bufs.len() ==> icon_ready_png(#[trigger] bufs[j])
    &&& forall|j: int| 0 <= j < bufs.len() ==> #[trigger] es[j] == png_entry_spec(bufs[j])->Ok_0
    &&& out == ico_header(bufs.len() as int) + dir_spec(es, bufs, (6 + 16 * bufs.len()) as int)
        + payloads_spec(bufs)
    &&& out.len() <= u32::MAX
}

/// The directory bytes the encoder writes for a ready PNG whose data sits
/// at `off`.
pub open spec fn png_block(d: Seq<u8>, off: int) -> Seq<u8> {
    seq![dim_byte(be32_at(d, 16)), dim_byte(be32_at(d, 20)), 0u8, 0u8] + le16_bytes(1)
        + le16_bytes(d[24] as int) + le32_bytes(d.len() as int) + le32_bytes(off)
}

proof fn lemma_png_block_reads(out: Seq<u8>, p: int, d: Seq<u8>, off: int)
    requires
        0 <= p,
        p + 16 <= out.len(),
        out.subrange(p, p + 16) == png_block(d, off),
        icon_ready_png(d),
        d.len() <= u32::MAX,
        0 <= off <= u32::MAX,
    ensures
        entry_header_readable(out, p, 1),
        read_entry_spec(out, p, 1) is Ok,
        read_entry_spec(out, p, 1)->Ok_0.image_offset == off,
        read_entry_spec(out, p, 1)->Ok_0.image_size == d.len(),
        read_entry_spec(out, p, 1)->Ok_0 == (IconEntryView {
            width: ico_dim(dim_byte(be32_at(d, 16))),
            height: ico_dim(dim_byte(be32_at(d, 20))),
            colors: 0,
            color_planes: 1,
            bits_per_pixel: d[24] as u16,
            horizontal_host_spot: 0,
            vertical_host_spot: 0,
            image_size: d.len() as u32,
            image_offset: off as u32,
            image_data: seq![],
            image_type: seq![],
        }),
{
    let blk = png_block(d, off);
    assert(out[p] == blk[0]);
    assert(out[p + 1] == blk[1]);
    assert(out[p + 2] == blk[2]);
    assert(out[p + 3] == blk[3]);
    assert(out[p + 4] == blk[4] && out[p + 5] == blk[5]);
    assert(out[p + 6] == blk[6] && out[p + 7] == blk[7]);
    assert(le16_at(out, p + 4) == 1);
    assert(le16_at(out, p + 6) == d[24]);
    assert(blk.subrange(8, 12) =~= le32_bytes(d.len() as int));
    assert(blk.subrange(12, 16) =~= le32_bytes(off));
    assert(out.subrange(p + 8, p + 12) =~= blk.subrange(8, 12));
    lemma_le32_in(out, p + 8, d.len() as int);
    assert(out.subrange(p + 12, p + 16) =~= blk.subrange(12, 16));
    lemma_le32_in(out, p + 12, off);
}

proof fn lemma_png_entry_block(bufs: Seq<Seq<u8>>, es: Seq<Seq<u8>>, out: Seq<u8>, i: int)
    requires
        png_container(bufs, es, out),
        0 <= i < bufs.len(),
    ensures
        out.len() == 6 + 16 * bufs.len() + payloads_spec(bufs).len(),
        6 + 16 * i + 16 <= out.len(),
        out.subrange(6 + 16 * i, 6 + 16 * i + 16) == png_block(
            bufs[i],
            6 + 16 * bufs.len() + payload_pos(bufs, i),
        ),
{
    let n = bufs.len() as int;
    let base = 6 + 16 * n;
    assert forall|j: int| 0 <= j < es.len() implies (#[trigger] es[j]).len() == 16 by {
        reveal(png_entry_spec);
        assert(icon_ready_png(bufs[j]));
    }
    lemma_dir_blocks(es, bufs, base);
    lemma_payload_slices(bufs);
    let dir = dir_spec(es, bufs, base);
    let d = bufs[i];
    assert(icon_ready_png(d));
    assert(payload(d) == d);
    assert(payload_pos(bufs, i) + payload(d).len() <= payloads_spec(bufs).len());
    assert(ico_header(n).len() == 6);
    assert(out.len() == 6 + 16 * n + payloads_spec(bufs).len());
    assert(d.len() <= u32::MAX);
    let off = base + payload_pos(bufs, i);
    assert(es[i] == seq![dim_byte(be32_at(d, 16)), dim_byte(be32_at(d, 20)), 0u8, 0u8]
        + le16_bytes(1) + le16_bytes(d[24] as int) + le32_bytes((d.len() as u32) as int)
        + le32_bytes(0)) by {
        reveal(png_entry_spec);
    }
    let blk = dir_block(es, bufs, base, i);
    assert(dir.subrange(16 * i, 16 * i + 16) == blk);
    assert(blk =~= png_block(d, off));
    assert(out.subrange(6 + 16 * i, 6 + 16 * i + 16) =~= blk);
}

proof fn lemma_png_entry_decodes(bufs: Seq<Seq<u8>>, es: Seq<Seq<u8>>, out: Seq<u8>, i: int)
    requires
        png_container(bufs, es, out),
        0 <= i < bufs.len(),
    ensures
        entry_header_readable(out, 6 + 16 * i, 1),
        read_entry_spec(out, 6 + 16 * i, 1) is Ok,
        data_readable(out, read_entry_spec(out, 6 + 16 * i, 1)->Ok_0),
        with_data(out, read_entry_spec(out, 6 + 16 * i, 1)->Ok_0) == expected_png_entry(
            bufs,
            (6 + 16 * bufs.len()) as int,
            i,
        ),
{
    let n = bufs.len() as int;
    let base = 6 + 16 * n;
    lemma_png_entry_block(bufs, es, out, i);
    lemma_payload_slices(bufs);
    let pl = payloads_spec(bufs);
    let d = bufs[i];
    assert(icon_ready_png(d));
    let off = base + payload_pos(bufs, i);
    assert(payload(d) == d);
    assert(payload_pos(bufs, i) + d.len() <= pl.len());
    assert(pl.subrange(payload_pos(bufs, i), payload_pos(bufs, i) + d.len()) == d);
    lemma_png_block_reads(out, 6 + 16 * i, d, off);
    let e = read_entry_spec(out, 6 + 16 * i, 1)->Ok_0;
    assert(data_slice(out, e) =~= d);
    assert(with_data(out, e) == expected_png_entry(bufs, base, i));
}

proof fn lemma_decode_png_from(bufs: Seq<Seq<u8>>, es: Seq<Seq<u8>>, out: Seq<u8>, i: nat)
    requires
        png_container(bufs, es, out),
        i <= bufs.len(),
    ensures
        decode_readable_from(out, 1, i, bufs.len()),
        decode_from(out, 1, i, bufs.len()) == Ok::<Seq<IconEntryView>, Seq<char>>(
            Seq::new(
                (bufs.len() - i) as nat,
                |j: int| expected_png_entry(bufs, (6 + 16 * bufs.len()) as int, i + j),
            ),
        ),
    decreases bufs.len() - i,
{
    let n = bufs.len() as int;
    let base = 6 + 16 * n;
    if i < n {
        lemma_decode_png_from(bufs, es, out, i + 1);
        lemma_png_entry_decodes(bufs, es, out, i as int);
        let e = read_entry_spec(out, 6 + 16 * (i as int), 1)->Ok_0;
        let rest = Seq::new(
            (n - (i + 1)) as nat,
            |j: int| expected_png_entry(bufs, base, i + 1 + j),
        );
        assert(seq![with_data(out, e)] + rest =~= Seq::new(
            (n - i) as nat,
            |j: int| expected_png_entry(bufs, base, i + j),
        ));
    } else {
        assert(Seq::<IconEntryView>::empty() =~= Seq::new(
            (n - i) as nat,
            |j: int| expected_png_entry(bufs, base, i + j),
        ));
    }
}

/// Decoding an encoded container of PNG images gives back every image, in
/// order, with the dimensions, depth and position that the encoder wrote.
/// The entries of ready PNG images are their 16-byte PNG blocks.
proof fn lemma_png_entry_blocks(bufs: Seq<Seq<u8>>, es: Seq<Seq<u8>>)
    requires
        forall|i: int| 0 <= i < bufs.len() ==> icon_ready_png(#[trigger] bufs[i]),
        entries_spec(bufs) is Ok,
        es == entries_spec(bufs)->Ok_0,
        es.len() == bufs.len(),
        forall|j: int|
            #![trigger bufs[j]]
            0 <= j < bufs.len() ==> entry_spec(bufs[j]) is Ok && es[j] == entry_spec(bufs[j])->Ok_0,
    ensures
        forall|j: int| 0 <= j < bufs.len() ==> #[trigger] es[j] == png_entry_spec(bufs[j])->Ok_0,
        forall|j: int| 0 <= j < es.len() ==> (#[trigger] es[j]).len() == 16,
{
    assert forall|j: int| 0 <= j < bufs.len() implies #[trigger] es[j] == png_entry_spec(
        bufs[j],
    )->Ok_0 by {
        assert(icon_ready_png(bufs[j]));
    }
    assert forall|j: int| 0 <= j < es.len() implies (#[trigger] es[j]).len() == 16 by {
        reveal(png_entry_spec);
        assert(icon_ready_png(bufs[j]));
    }
}

/// The header of an encoded container: reserved 0, type icon, the count.
proof fn lemma_png_container_header(bufs: Seq<Seq<u8>>, es: Seq<Seq<u8>>, out: Seq<u8>)
    requires
        bufs.len() <= 65535,
        entries_spec(bufs) is Ok,
        es == entries_spec(bufs)->Ok_0,
        out == encode_spec(bufs)->Ok_0,
    ensures
        out.len() == 6 + dir_spec(es, bufs, (6 + 16 * bufs.len()) as int).len() + payloads_spec(bufs).len(),
        le16_at(out, 0) == 0,
        le16_at(out, 2) == 1,
        le16_at(out, 4) == bufs.len(),
{
    let n = bufs.len() as int;
    let h = ico_header(n);
    assert(h.len() == 6);
    assert(out[0] == h[0] && out[1] == h[1] && out[2] == h[2] && out[3] == h[3] && out[4]
        == h[4] && out[5] == h[5]);
}

#[verifier::rlimit(80)]
#[verifier::spinoff_prover]
pub proof fn lemma_decode_encode_png(bufs: Seq<Seq<u8>>)
    requires
        bufs.len() <= 65535,
        forall|i: int| 0 <= i < bufs.len() ==> icon_ready_png(#[trigger] bufs[i]),
        6 + 16 * bufs.len() + payloads_spec(bufs).len() <= u32::MAX,
    ensures
        encode_defined(bufs),
        encode_spec(bufs) is Ok,
        decode_readable(encode_spec(bufs)->Ok_0),
        decode_spec(encode_spec(bufs)->Ok_0) == Ok::<Seq<IconEntryView>, Seq<char>>(
            Seq::new(
                bufs.len(),
                |i: int| expected_png_entry(bufs, (6 + 16 * bufs.len()) as int, i),
            ),
        ),
{
    lemma_png_entries(bufs);
    lemma_entries_len(bufs);
    let es = entries_spec(bufs)->Ok_0;
    let n = bufs.len() as int;
    let out = encode_spec(bufs)->Ok_0;
    lemma_png_entry_blocks(bufs, es);
    lemma_dir_blocks(es, bufs, 6 + 16 * n);
    lemma_png_container_header(bufs, es, out);
    lemma_decode_png_from(bufs, es, out, 0);
    assert(Seq::new(n as nat, |i: int| expected_png_entry(bufs, 6 + 16 * n, i)) =~= Seq::new(
        (n - 0) as nat,
        |j: int| expected_png_entry(bufs, 6 + 16 * n, 0 + j),
    ));
}

} // verus!
