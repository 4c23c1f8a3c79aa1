//! Entry points of the ICO codec that first check that every byte they
//! read exists, and refuse the input otherwise.
use crate::bytes::{read_u16_le, read_u32_le};
use crate::bytes::{le16_at, le32_at, push_le32};
use crate::icon::{
    bmp_ext, bmp_palette_entries, bmp_pixel_offset, copy_range, data_readable, data_slice, decode,
    decode_readable, decode_readable_from, decode_spec, entry_header_readable, pow2_u32,
    read_entry_spec, read_icon_entry, IconEntry, encode, encode_defined, encode_spec, entries_readable, entries_spec, entry_readable, is_png,
    lemma_entries_err_extends, lemma_readable_prefix, payload, payloads_spec, write_icon_entry,
};
use vstd::arithmetic::power2::pow2;
use vstd::prelude::*;

verus! {


/// The message for images or containers whose bytes run out.
pub open spec fn truncated_text() -> Seq<char> {
    "Image data is truncated"@
}

/// Does the entry writer find every byte it reads in `d`?
pub fn entry_is_readable(d: &[u8]) -> (r: bool)
    ensures
        r == entry_readable(d@),
{
    let n = d.len();
    let sig_readable = n >= 1 && (d[0] != 0x89 || n >= 2 && (d[1] != 0x50 || n >= 3 && (d[2]
        != 0x4E || n >= 4)));
    if !sig_readable {
        return false;
    }
    if is_png(d) {
        n >= 16 && ((d[12] != 73 && d[13] != 72 && d[14] != 68 && d[15] != 82) || n >= 26 && (
        d[25] != 3 || n >= 33))
    } else {
        n >= 50 && (n as u32) >= 14 && (read_u32_le(d, 46) != 0 || read_u16_le(d, 28) <= 32)
    }
}

/// Once the entries of a prefix are refused, the later payloads need not
/// be readable.
proof fn lemma_readable_after_err(bufs: Seq<Seq<u8>>, k: int)
    requires
        0 <= k <= bufs.len(),
        entries_readable(bufs.take(k)),
        entries_spec(bufs.take(k)) is Err,
    ensures
        entries_readable(bufs),
    decreases bufs.len(),
{
    if k < bufs.len() {
        assert(bufs.take(k) =~= bufs.drop_last().take(k));
        lemma_readable_after_err(bufs.drop_last(), k);
        lemma_entries_err_extends(bufs.drop_last(), k);
    } else {
        assert(bufs.take(k) =~= bufs);
    }
}

/// Can `encode` pack these images: does it find every byte it reads, and
/// do all offsets fit in `u32`?
pub fn is_encodable(image_buffers: &Vec<Vec<u8>>) -> (r: bool)
    ensures
        r == encode_defined(image_buffers.deep_view()),
{
    let ghost bufs = image_buffers.deep_view();
    let n = image_buffers.len();
    if n > 268435455 {
        return false;
    }
    let mut total: u64 = 0;
    let mut overflow = false;
    let mut i: usize = 0;
    while i < n
        invariant
            n == bufs.len(),
            n <= 268435455,
            bufs == image_buffers.deep_view(),
            i <= n,
            entries_readable(bufs.take(i as int)),
            entries_spec(bufs.take(i as int)) is Ok,
            !overflow ==> total == payloads_spec(bufs.take(i as int)).len(),
            overflow ==> payloads_spec(bufs.take(i as int)).len() > u32::MAX,
            total <= u32::MAX,
        decreases n - i,
    {
        proof {
            assert(bufs.take(i + 1).drop_last() =~= bufs.take(i as int));
            assert(bufs.take(i + 1).last() == bufs[i as int]);
            assert(image_buffers@[i as int]@ == bufs[i as int]);
        }
        if !entry_is_readable(image_buffers[i].as_slice()) {
            proof {
                if entries_readable(bufs) {
                    lemma_readable_prefix(bufs, i + 1);
                }
            }
            return false;
        }
        match write_icon_entry(image_buffers[i].as_slice()) {
            Ok(_) => {},
            Err(_) => {
                proof {
                    lemma_readable_after_err(bufs, i + 1);
                    lemma_entries_err_extends(bufs, i + 1);
                }
                return 6 + 16 * (n as u64) <= 0xffff_ffff;
            },
        }
        let len = image_buffers[i].len() as u64;
        let add: u64 = if is_png(image_buffers[i].as_slice()) {
            len
        } else {
            len - 14
        };
        assert(add == payload(bufs[i as int]).len());
        proof {
            assert(payloads_spec(bufs.take(i + 1)) == payloads_spec(bufs.take(i as int)) + payload(
                bufs[i as int],
            ));
        }
        if overflow || add > 0xffff_ffff - total {
            overflow = true;
        } else {
            total = total + add;
        }
        i += 1;
    }
    proof {
        assert(bufs.take(n as int) =~= bufs);
    }
    !overflow && 6 + 16 * (n as u64) + total <= 0xffff_ffff
}



/// Packs images into an ICO container, or refuses images whose bytes run
/// out or whose offsets would not fit.
pub fn encode_checked(image_buffers: Vec<Vec<u8>>) -> (r: Result<Vec<u8>, String>)
    ensures
        encode_defined(image_buffers.deep_view()) ==> match (r, encode_spec(image_buffers.deep_view())) {
            (Ok(v), Ok(s)) => v@ == s,
            (Err(e), Err(s)) => e@ == s,
            _ => false,
        },
        !encode_defined(image_buffers.deep_view()) ==> (r matches Err(e) && e@ == truncated_text()),
{
    if is_encodable(&image_buffers) {
        encode(image_buffers)
    } else {
        proof {
            reveal_strlit("Image data is truncated");
        }
        Err("Image data is truncated".to_string())
    }
}

/// Does the entry reader find every byte it reads at `p`?
pub fn header_is_readable(buf: &[u8], p: usize, t: u16) -> (r: bool)
    ensures
        r == entry_header_readable(buf@, p as int, t),
{
    let n = buf.len();
    if p > n || n - p < 4 {
        return false;
    }
    if buf[p + 3] != 0 {
        return true;
    }
    if n - p < 6 {
        return false;
    }
    (t == 1 && read_u16_le(buf, p + 4) != 0 && read_u16_le(buf, p + 4) != 1) || n - p >= 16
}

/// Does reading the image of entry `e` find every byte it reads, with its
/// sums within `u32`?
pub fn data_is_readable(buf: &[u8], e: &IconEntry) -> (r: bool)
    ensures
        r == data_readable(buf@, e@),
{
    let end: u64 = e.image_offset as u64 + e.image_size as u64;
    if end > 0xffff_ffff || end > buf.len() as u64 {
        return false;
    }
    let d = copy_range(buf, e.image_offset as usize, end as usize);
    assert(d@ == data_slice(buf@, e@));
    let n = d.len();
    let sig_readable = n >= 1 && (d[0] != 0x89 || n >= 2 && (d[1] != 0x50 || n >= 3 && (d[2]
        != 0x4E || n >= 4)));
    if !sig_readable {
        return false;
    }
    if is_png(d.as_slice()) {
        return true;
    }
    if n < 28 {
        return false;
    }
    let mut x = d.clone();
    push_le32(&mut x, e.width as u32);
    push_le32(&mut x, e.height as u32);
    assert(x@ =~= bmp_ext(d@, e@));
    let stored = read_u32_le(x.as_slice(), 32);
    let bpp = read_u16_le(x.as_slice(), 14);
    if !(stored != 0 || bpp <= 32) {
        return false;
    }
    let entries: u64 = if stored == 0 && bpp != 32 {
        pow2_u32(bpp as u32) as u64
    } else {
        stored as u64
    };
    assert(entries == bmp_palette_entries(x@));
    let header_size = read_u32_le(x.as_slice(), 0) as u64;
    let table_offset: u64 = if read_u32_le(x.as_slice(), 16) == 3 {
        header_size + 12
    } else {
        header_size
    };
    let colour_size: u64 = if header_size == 12 {
        3
    } else {
        4
    };
    assert(entries * colour_size <= 4 * 0xffff_ffff) by (nonlinear_arith)
        requires
            entries <= 0xffff_ffff,
            colour_size <= 4,
    ;
    let offset = table_offset + entries * colour_size;
    assert(offset == bmp_pixel_offset(x@));
    offset + 14 <= 0xffff_ffff && e.image_size as u64 + 14 <= 0xffff_ffff
}

/// Does `decode` find every byte it reads in `buf`?
pub fn is_decodable(buf: &Vec<u8>) -> (r: bool)
    ensures
        r == decode_readable(buf@),
{
    let ghost b = buf@;
    let n = buf.len();
    if n < 2 {
        return false;
    }
    if read_u16_le(buf.as_slice(), 0) != 0 {
        return true;
    }
    if n < 4 {
        return false;
    }
    let t = read_u16_le(buf.as_slice(), 2);
    if t != 1 && t != 2 {
        return true;
    }
    if n < 6 {
        return false;
    }
    let count = read_u16_le(buf.as_slice(), 4);
    let mut i: u16 = 0;
    while i < count
        invariant
            b == buf@,
            n == b.len(),
            n >= 6,
            t == le16_at(b, 2),
            count == le16_at(b, 4),
            le16_at(b, 0) == 0,
            i <= count,
            decode_readable(b) == decode_readable_from(b, t, i as nat, count as nat),
        decreases count - i,
    {
        let p: usize = 6 + 16 * (i as usize);
        if !header_is_readable(buf.as_slice(), p, t) {
            return false;
        }
        let mut offset = p;
        match read_icon_entry(buf.as_slice(), &mut offset, t) {
            Err(_) => {
                return true;
            },
            Ok(e) => {
                if !data_is_readable(buf.as_slice(), &e) {
                    return false;
                }
            },
        }
        i += 1;
    }
    true
}

/// Reads every image of an ICO/CUR container, or refuses a container whose
/// bytes run out.
pub fn decode_checked(buffer: Vec<u8>) -> (r: Result<Vec<IconEntry>, String>)
    ensures
        decode_readable(buffer@) ==> match (r, decode_spec(buffer@)) {
            (Ok(v), Ok(s)) => crate::icon::entry_views(v@) == s,
            (Err(e), Err(s)) => e@ == s,
            _ => false,
        },
        !decode_readable(buffer@) ==> (r matches Err(e) && e@ == truncated_text()),
{
    if is_decodable(&buffer) {
        decode(buffer)
    } else {
        proof {
            reveal_strlit("Image data is truncated");
        }
        Err("Image data is truncated".to_string())
    }
}

} // verus!
