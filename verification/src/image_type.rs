//! Image formats: their identifiers, how a loader name maps to a format,
//! which formats take paging and unlimited-size options, how file names
//! announce a format, and the size limits of each output format.
use crate::text::{ends_with, has_suffix, str_eq};
use vstd::prelude::*;

verus! {

broadcast use vstd::string::group_string_axioms;

/// An image format, as recognised from a loader or a file name.
#[derive(Debug, PartialEq, Eq, Clone, Copy, Structural)]
pub enum ImageType {
    Jpeg,
    Png,
    Webp,
    JP2,
    Tiff,
    GIF,
    SVG,
    HEIF,
    PDF,
    MAGICK,
    OPENSLIDE,
    PPM,
    FITS,
    EXR,
    JXL,
    RAD,
    VIPS,
    RAW,
    UNKNOWN,
    MISSING,
}

/// The lower-case identifier of a format.
pub open spec fn type_id(t: ImageType) -> Seq<char> {
    match t {
        ImageType::Jpeg => "jpeg"@,
        ImageType::Png => "png"@,
        ImageType::Webp => "webp"@,
        ImageType::Tiff => "tiff"@,
        ImageType::GIF => "gif"@,
        ImageType::JP2 => "jp2"@,
        ImageType::SVG => "svg"@,
        ImageType::HEIF => "heif"@,
        ImageType::PDF => "pdf"@,
        ImageType::MAGICK => "magick"@,
        ImageType::OPENSLIDE => "openslide"@,
        ImageType::PPM => "ppm"@,
        ImageType::FITS => "fits"@,
        ImageType::EXR => "exr"@,
        ImageType::JXL => "jxl"@,
        ImageType::RAD => "rad"@,
        ImageType::VIPS => "vips"@,
        ImageType::RAW => "raw"@,
        ImageType::UNKNOWN => "unknown"@,
        ImageType::MISSING => "missing"@,
    }
}

/// The lower-case identifier of a format.
pub fn image_type_id(image_type: ImageType) -> (r: String)
    ensures
        r@ == type_id(image_type),
{
    let id = match image_type {
        ImageType::Jpeg => "jpeg",
        ImageType::Png => "png",
        ImageType::Webp => "webp",
        ImageType::Tiff => "tiff",
        ImageType::GIF => "gif",
        ImageType::JP2 => "jp2",
        ImageType::SVG => "svg",
        ImageType::HEIF => "heif",
        ImageType::PDF => "pdf",
        ImageType::MAGICK => "magick",
        ImageType::OPENSLIDE => "openslide",
        ImageType::PPM => "ppm",
        ImageType::FITS => "fits",
        ImageType::EXR => "exr",
        ImageType::JXL => "jxl",
        ImageType::RAD => "rad",
        ImageType::VIPS => "vips",
        ImageType::RAW => "raw",
        ImageType::UNKNOWN => "unknown",
        ImageType::MISSING => "missing",
    };
    id.to_string()
}

/// The format that a libvips loader reads, by the loader's class name.
pub open spec fn loader_type(name: Seq<char>) -> Option<ImageType> {
    if name == "VipsForeignLoadJpegFile"@ {
        Some(ImageType::Jpeg)
    }     else if name == "VipsForeignLoadJpegBuffer"@ {
        Some(ImageType::Jpeg)
    }     else if name == "VipsForeignLoadPngFile"@ {
        Some(ImageType::Png)
    }     else if name == "VipsForeignLoadPngBuffer"@ {
        Some(ImageType::Png)
    }     else if name == "VipsForeignLoadWebpFile"@ {
        Some(ImageType::Webp)
    }     else if name == "VipsForeignLoadWebpBuffer"@ {
        Some(ImageType::Webp)
    }     else if name == "VipsForeignLoadTiffFile"@ {
        Some(ImageType::Tiff)
    }     else if name == "VipsForeignLoadTiffBuffer"@ {
        Some(ImageType::Tiff)
    }     else if name == "VipsForeignLoadGifFile"@ {
        Some(ImageType::GIF)
    }     else if name == "VipsForeignLoadGifBuffer"@ {
        Some(ImageType::GIF)
    }     else if name == "VipsForeignLoadNsgifFile"@ {
        Some(ImageType::GIF)
    }     else if name == "VipsForeignLoadNsgifBuffer"@ {
        Some(ImageType::GIF)
    }     else if name == "VipsForeignLoadJp2kFile"@ {
        Some(ImageType::JP2)
    }     else if name == "VipsForeignLoadJp2kBuffer"@ {
        Some(ImageType::JP2)
    }     else if name == "VipsForeignLoadSvgFile"@ {
        Some(ImageType::SVG)
    }     else if name == "VipsForeignLoadSvgBuffer"@ {
        Some(ImageType::SVG)
    }     else if name == "VipsForeignLoadHeifFile"@ {
        Some(ImageType::HEIF)
    }     else if name == "VipsForeignLoadHeifBuffer"@ {
        Some(ImageType::HEIF)
    }     else if name == "VipsForeignLoadPdfFile"@ {
        Some(ImageType::PDF)
    }     else if name == "VipsForeignLoadPdfBuffer"@ {
        Some(ImageType::PDF)
    }     else if name == "VipsForeignLoadMagickFile"@ {
        Some(ImageType::MAGICK)
    }     else if name == "VipsForeignLoadMagickBuffer"@ {
        Some(ImageType::MAGICK)
    }     else if name == "VipsForeignLoadMagick7File"@ {
        Some(ImageType::MAGICK)
    }     else if name == "VipsForeignLoadMagick7Buffer"@ {
        Some(ImageType::MAGICK)
    }     else if name == "VipsForeignLoadOpenslideFile"@ {
        Some(ImageType::OPENSLIDE)
    }     else if name == "VipsForeignLoadPpmFile"@ {
        Some(ImageType::PPM)
    }     else if name == "VipsForeignLoadFitsFile"@ {
        Some(ImageType::FITS)
    }     else if name == "VipsForeignLoadOpenexr"@ {
        Some(ImageType::EXR)
    }     else if name == "VipsForeignLoadJxlFile"@ {
        Some(ImageType::JXL)
    }     else if name == "VipsForeignLoadJxlBuffer"@ {
        Some(ImageType::JXL)
    }     else if name == "VipsForeignLoadRadFile"@ {
        Some(ImageType::RAD)
    }     else if name == "VipsForeignLoadRadBuffer"@ {
        Some(ImageType::RAD)
    }     else if name == "VipsForeignLoadVips"@ {
        Some(ImageType::VIPS)
    }     else if name == "VipsForeignLoadVipsFile"@ {
        Some(ImageType::VIPS)
    }     else if name == "VipsForeignLoadRaw"@ {
        Some(ImageType::RAW)
    } else {
        None
    }
}

/// The format that a libvips loader reads, by the loader's class name;
/// `None` for a loader of no known format.
pub fn loader_to_type(loader: &str) -> (r: Option<ImageType>)
    ensures
        r == loader_type(loader@),
{
    if str_eq(loader, "VipsForeignLoadJpegFile") {
        return Some(ImageType::Jpeg);
    }
    if str_eq(loader, "VipsForeignLoadJpegBuffer") {
        return Some(ImageType::Jpeg);
    }
    if str_eq(loader, "VipsForeignLoadPngFile") {
        return Some(ImageType::Png);
    }
    if str_eq(loader, "VipsForeignLoadPngBuffer") {
        return Some(ImageType::Png);
    }
    if str_eq(loader, "VipsForeignLoadWebpFile") {
        return Some(ImageType::Webp);
    }
    if str_eq(loader, "VipsForeignLoadWebpBuffer") {
        return Some(ImageType::Webp);
    }
    if str_eq(loader, "VipsForeignLoadTiffFile") {
        return Some(ImageType::Tiff);
    }
    if str_eq(loader, "VipsForeignLoadTiffBuffer") {
        return Some(ImageType::Tiff);
    }
    if str_eq(loader, "VipsForeignLoadGifFile") {
        return Some(ImageType::GIF);
    }
    if str_eq(loader, "VipsForeignLoadGifBuffer") {
        return Some(ImageType::GIF);
    }
    if str_eq(loader, "VipsForeignLoadNsgifFile") {
        return Some(ImageType::GIF);
    }
    if str_eq(loader, "VipsForeignLoadNsgifBuffer") {
        return Some(ImageType::GIF);
    }
    if str_eq(loader, "VipsForeignLoadJp2kFile") {
        return Some(ImageType::JP2);
    }
    if str_eq(loader, "VipsForeignLoadJp2kBuffer") {
        return Some(ImageType::JP2);
    }
    if str_eq(loader, "VipsForeignLoadSvgFile") {
        return Some(ImageType::SVG);
    }
    if str_eq(loader, "VipsForeignLoadSvgBuffer") {
        return Some(ImageType::SVG);
    }
    if str_eq(loader, "VipsForeignLoadHeifFile") {
        return Some(ImageType::HEIF);
    }
    if str_eq(loader, "VipsForeignLoadHeifBuffer") {
        return Some(ImageType::HEIF);
    }
    if str_eq(loader, "VipsForeignLoadPdfFile") {
        return Some(ImageType::PDF);
    }
    if str_eq(loader, "VipsForeignLoadPdfBuffer") {
        return Some(ImageType::PDF);
    }
    if str_eq(loader, "VipsForeignLoadMagickFile") {
        return Some(ImageType::MAGICK);
    }
    if str_eq(loader, "VipsForeignLoadMagickBuffer") {
        return Some(ImageType::MAGICK);
    }
    if str_eq(loader, "VipsForeignLoadMagick7File") {
        return Some(ImageType::MAGICK);
    }
    if str_eq(loader, "VipsForeignLoadMagick7Buffer") {
        return Some(ImageType::MAGICK);
    }
    if str_eq(loader, "VipsForeignLoadOpenslideFile") {
        return Some(ImageType::OPENSLIDE);
    }
    if str_eq(loader, "VipsForeignLoadPpmFile") {
        return Some(ImageType::PPM);
    }
    if str_eq(loader, "VipsForeignLoadFitsFile") {
        return Some(ImageType::FITS);
    }
    if str_eq(loader, "VipsForeignLoadOpenexr") {
        return Some(ImageType::EXR);
    }
    if str_eq(loader, "VipsForeignLoadJxlFile") {
        return Some(ImageType::JXL);
    }
    if str_eq(loader, "VipsForeignLoadJxlBuffer") {
        return Some(ImageType::JXL);
    }
    if str_eq(loader, "VipsForeignLoadRadFile") {
        return Some(ImageType::RAD);
    }
    if str_eq(loader, "VipsForeignLoadRadBuffer") {
        return Some(ImageType::RAD);
    }
    if str_eq(loader, "VipsForeignLoadVips") {
        return Some(ImageType::VIPS);
    }
    if str_eq(loader, "VipsForeignLoadVipsFile") {
        return Some(ImageType::VIPS);
    }
    if str_eq(loader, "VipsForeignLoadRaw") {
        return Some(ImageType::RAW);
    }
    None
}

/// Formats whose loaders take `n` and `page`.
pub open spec fn supports_page(t: ImageType) -> bool {
    t == ImageType::Webp || t == ImageType::MAGICK || t == ImageType::GIF || t == ImageType::JP2
        || t == ImageType::Tiff || t == ImageType::HEIF || t == ImageType::PDF
}

/// Does this image type support multiple pages?
pub fn image_type_supports_page(image_type: &ImageType) -> (r: bool)
    ensures
        r == supports_page(*image_type),
{
    *image_type == ImageType::Webp || *image_type == ImageType::MAGICK || *image_type
        == ImageType::GIF || *image_type == ImageType::JP2 || *image_type == ImageType::Tiff
        || *image_type == ImageType::HEIF || *image_type == ImageType::PDF
}

/// Formats whose loaders take `unlimited`.
pub open spec fn supports_unlimited(t: ImageType) -> bool {
    t == ImageType::Jpeg || t == ImageType::Png || t == ImageType::SVG || t == ImageType::HEIF
}

/// Does this image type support removal of safety limits?
pub fn image_type_supports_unlimited(image_type: &ImageType) -> (r: bool)
    ensures
        r == supports_unlimited(*image_type),
{
    *image_type == ImageType::Jpeg || *image_type == ImageType::Png || *image_type
        == ImageType::SVG || *image_type == ImageType::HEIF
}

/// Does the file name carry a JPEG extension?
pub fn is_jpeg(str: &str) -> (r: bool)
    ensures
        r == (has_suffix(str@, ".jpg"@) || has_suffix(str@, ".jpeg"@) || has_suffix(str@, ".JPG"@) || has_suffix(str@, ".JPEG"@)),
{
    ends_with(str, ".jpg") || ends_with(str, ".jpeg") || ends_with(str, ".JPG") || ends_with(str, ".JPEG")
}

/// Does the file name carry a PNG extension?
pub fn is_png(str: &str) -> (r: bool)
    ensures
        r == (has_suffix(str@, ".png"@) || has_suffix(str@, ".PNG"@)),
{
    ends_with(str, ".png") || ends_with(str, ".PNG")
}

/// Does the file name carry a WebP extension?
pub fn is_webp(str: &str) -> (r: bool)
    ensures
        r == (has_suffix(str@, ".webp"@) || has_suffix(str@, ".WEBP"@)),
{
    ends_with(str, ".webp") || ends_with(str, ".WEBP")
}

/// Does the file name carry a GIF extension?
pub fn is_gif(str: &str) -> (r: bool)
    ensures
        r == (has_suffix(str@, ".gif"@) || has_suffix(str@, ".GIF"@)),
{
    ends_with(str, ".gif") || ends_with(str, ".GIF")
}

/// Does the file name carry a JPEG 2000 extension?
pub fn is_jp2(str: &str) -> (r: bool)
    ensures
        r == (has_suffix(str@, ".jp2"@) || has_suffix(str@, ".jpx"@) || has_suffix(str@, ".j2k"@) || has_suffix(str@, ".j2c"@) || has_suffix(str@, ".JP2"@) || has_suffix(str@, ".JPX"@) || has_suffix(str@, ".J2K"@) || has_suffix(str@, ".J2C"@)),
{
    ends_with(str, ".jp2") || ends_with(str, ".jpx") || ends_with(str, ".j2k") || ends_with(str, ".j2c") || ends_with(str, ".JP2") || ends_with(str, ".JPX") || ends_with(str, ".J2K") || ends_with(str, ".J2C")
}

/// Does the file name carry a TIFF extension?
pub fn is_tiff(str: &str) -> (r: bool)
    ensures
        r == (has_suffix(str@, ".tif"@) || has_suffix(str@, ".tiff"@) || has_suffix(str@, ".TIF"@) || has_suffix(str@, ".TIFF"@)),
{
    ends_with(str, ".tif") || ends_with(str, ".tiff") || ends_with(str, ".TIF") || ends_with(str, ".TIFF")
}

/// Does the file name carry a HEIC extension?
pub fn is_heic(str: &str) -> (r: bool)
    ensures
        r == (has_suffix(str@, ".heic"@) || has_suffix(str@, ".HEIC"@)),
{
    ends_with(str, ".heic") || ends_with(str, ".HEIC")
}

/// Does the file name carry a AVIF extension?
pub fn is_avif(str: &str) -> (r: bool)
    ensures
        r == (has_suffix(str@, ".avif"@) || has_suffix(str@, ".AVIF"@)),
{
    ends_with(str, ".avif") || ends_with(str, ".AVIF")
}

/// Does the file name carry a JPEG XL extension?
pub fn is_jxl(str: &str) -> (r: bool)
    ensures
        r == (has_suffix(str@, ".jxl"@) || has_suffix(str@, ".JXL"@)),
{
    ends_with(str, ".jxl") || ends_with(str, ".JXL")
}

/// Does the file name carry a Deep Zoom descriptor extension?
pub fn is_dz(str: &str) -> (r: bool)
    ensures
        r == (has_suffix(str@, ".dzi"@) || has_suffix(str@, ".DZI"@)),
{
    ends_with(str, ".dzi") || ends_with(str, ".DZI")
}

/// Does the file name carry a zipped Deep Zoom extension?
pub fn is_dz_zip(str: &str) -> (r: bool)
    ensures
        r == (has_suffix(str@, ".zip"@) || has_suffix(str@, ".ZIP"@) || has_suffix(str@, ".szi"@) || has_suffix(str@, ".SZI"@)),
{
    ends_with(str, ".zip") || ends_with(str, ".ZIP") || ends_with(str, ".szi") || ends_with(str, ".SZI")
}

/// Does the file name carry a libvips-native extension?
pub fn is_v(str: &str) -> (r: bool)
    ensures
        r == (has_suffix(str@, ".v"@) || has_suffix(str@, ".V"@) || has_suffix(str@, ".vips"@) || has_suffix(str@, ".VIPS"@)),
{
    ends_with(str, ".v") || ends_with(str, ".V") || ends_with(str, ".vips") || ends_with(str, ".VIPS")
}

/// Does the file name carry a HEIF-family extension (HEIF, HEIC or AVIF)?
pub fn is_heif(str: &str) -> (r: bool)
    ensures
        r == (has_suffix(str@, ".heif"@) || has_suffix(str@, ".HEIF"@) || has_suffix(
            str@,
            ".heic"@,
        ) || has_suffix(str@, ".HEIC"@) || has_suffix(str@, ".avif"@) || has_suffix(
            str@,
            ".AVIF"@,
        )),
{
    ends_with(str, ".heif") || ends_with(str, ".HEIF") || is_heic(str) || is_avif(str)
}

/// Why an image of this size cannot be written in this format, if it
/// cannot: JPEG and GIF take up to 65535 pixels a side, WebP up to 16383;
/// otherwise a height over 16384, or a HEIF width over 16384, is refused.
pub open spec fn dimension_error(width: int, height: int, t: ImageType) -> Option<Seq<char>> {
    if t == ImageType::Jpeg {
        if width > 65535 || height > 65535 {
            Some("Processed image is too large for the JPEG format"@)
        } else {
            None
        }
    } else if t == ImageType::Webp {
        if width > 16383 || height > 16383 {
            Some("Processed image is too large for the WebP format"@)
        } else {
            None
        }
    } else if t == ImageType::GIF {
        if width > 65535 || height > 65535 {
            Some("Processed image is too large for the GIF format"@)
        } else {
            None
        }
    } else if t == ImageType::HEIF && width > 16384 || height > 16384 {
        Some("Processed image is too large for the HEIF format"@)
    } else {
        None
    }
}

/// The size limits of the encoders: JPEG and GIF write up to 65535 pixels
/// a side, WebP up to 16383, HEIF up to 16384; any other format takes any
/// width and a height up to 16384.
pub proof fn lemma_dimension_limits(width: int, height: int, t: ImageType)
    ensures
        t == ImageType::Jpeg ==> (dimension_error(width, height, t) is None <==> width <= 65535
            && height <= 65535),
        t == ImageType::GIF ==> (dimension_error(width, height, t) is None <==> width <= 65535
            && height <= 65535),
        t == ImageType::Webp ==> (dimension_error(width, height, t) is None <==> width <= 16383
            && height <= 16383),
        t == ImageType::HEIF ==> (dimension_error(width, height, t) is None <==> width <= 16384
            && height <= 16384),
        (t != ImageType::Jpeg && t != ImageType::GIF && t != ImageType::Webp && t
            != ImageType::HEIF) ==> (dimension_error(width, height, t) is None <==> height <= 16384),
{
}

/// Checks that the proposed format supports the image's width and (page)
/// height.
pub fn assert_image_type_dimensions(width: i32, height: i32, image_type: ImageType) -> (r: Result<
    (),
    String,
>)
    ensures
        match dimension_error(width as int, height as int, image_type) {
            Some(m) => r matches Err(e) && e@ == m,
            None => r is Ok,
        },
{
    if image_type == ImageType::Jpeg {
        if width > 65535 || height > 65535 {
            return Err("Processed image is too large for the JPEG format".to_string());
        }
    } else if image_type == ImageType::Webp {
        if width > 16383 || height > 16383 {
            return Err("Processed image is too large for the WebP format".to_string());
        }
    } else if image_type == ImageType::GIF {
        if width > 65535 || height > 65535 {
            return Err("Processed image is too large for the GIF format".to_string());
        }
    } else if image_type == ImageType::HEIF && width > 16384 || height > 16384 {
        return Err("Processed image is too large for the HEIF format".to_string());
    }
    Ok(())
}

} // verus!
