//! Image operations with integer or flag settings: median, morphology,
//! negation, normalisation, local contrast, threshold, hue rotation,
//! convolution and recombination shapes, and boolean operands.
use crate::input::{create_input_descriptor, described, input_error, CreateRaw, Input, InputDescriptor, Raw, SharpOptions};
use crate::text::{invalid_param, invalid_parameter_error};
use crate::output::or;
use vstd::prelude::*;

verus! {

broadcast use vstd::string::group_string_axioms;

/// Interpolators of affine transforms.
#[derive(Debug, Clone, Copy, PartialEq, Eq, Structural)]
pub enum Interpolators {
    Nearest,
    Bilinear,
    Bicubic,
    LocallyBoundedBicubic,
    Nohalo,
    VertexSplitQuadraticBasisSpline,
}

/// The libvips name of an interpolator.
pub open spec fn interpolator_name(i: Interpolators) -> Seq<char> {
    match i {
        Interpolators::Nearest => "nearest"@,
        Interpolators::Bilinear => "bilinear"@,
        Interpolators::Bicubic => "bicubic"@,
        Interpolators::LocallyBoundedBicubic => "lbb"@,
        Interpolators::Nohalo => "nohalo"@,
        Interpolators::VertexSplitQuadraticBasisSpline => "vsqbs"@,
    }
}

impl Interpolators {
    /// The libvips name of this interpolator.
    pub fn to_text(&self) -> (r: String)
        ensures
            r@ == interpolator_name(*self),
    {
        match self {
            Interpolators::Nearest => "nearest".to_string(),
            Interpolators::Bilinear => "bilinear".to_string(),
            Interpolators::Bicubic => "bicubic".to_string(),
            Interpolators::LocallyBoundedBicubic => "lbb".to_string(),
            Interpolators::Nohalo => "nohalo".to_string(),
            Interpolators::VertexSplitQuadraticBasisSpline => "vsqbs".to_string(),
        }
    }
}

#[derive(Debug, Clone)]
pub struct NegateOptions {
    /// Negate any alpha channel too (default true).
    pub alpha: Option<bool>,
}

#[derive(Debug, Clone)]
pub struct NormaliseOptions {
    /// Percentile below which luminance values are underexposed.
    pub lower: Option<i32>,
    /// Percentile above which luminance values are overexposed.
    pub upper: Option<i32>,
}

#[derive(Debug, Clone)]
pub struct ClaheOptions {
    /// Width of the region.
    pub width: i32,
    /// Height of the region.
    pub height: i32,
    /// Maximum slope of the cumulative contrast, 0 to 100; 0 disables
    /// contrast limiting (default 3).
    pub max_slope: Option<i32>,
}

#[derive(Debug, Clone)]
pub struct ThresholdOptions {
    /// Convert to greyscale first (default true).
    pub grayscale: Option<bool>,
}

#[derive(Debug, Clone)]
pub struct BooleanOptions {
    /// The operand is raw pixel data of these dimensions.
    pub raw: Raw,
}

/// The integer and flag settings of the image operations.
#[derive(Debug, Clone, Copy)]
pub struct OperationSettings {
    pub flatten: bool,
    pub unflatten: bool,
    pub negate: bool,
    pub negate_alpha: bool,
    pub median_size: i32,
    pub threshold: i32,
    pub threshold_grayscale: bool,
    pub dilate_width: i32,
    pub erode_width: i32,
    pub normalise: bool,
    pub normalise_lower: i32,
    pub normalise_upper: i32,
    pub clahe_width: i32,
    pub clahe_height: i32,
    pub clahe_max_slope: i32,
    pub hue: i32,
    pub conv_kernel_width: i32,
    pub conv_kernel_height: i32,
    pub remove_alpha: bool,
    /// Alpha to add where missing: 0 or 1; -1 for none.
    pub ensure_alpha: i32,
    /// Channel to extract, 0 to 4; -1 for none.
    pub extract_channel: i32,
    /// An affine matrix has been given (its values are kept beside).
    pub affine: bool,
    /// The interpolator of the affine transform.
    pub affine_interpolator: Interpolators,
    /// The precision of a Gaussian blur.
    pub precision: Precision,
}

/// Precisions of a Gaussian blur.
#[derive(Debug, Clone, Copy, PartialEq, Eq, Structural)]
pub enum Precision {
    Integer,
    Float,
    Approximate,
}

/// `matrix` refused: "1x4 or 2x2 array".
pub open spec fn err_affine_matrix_text() -> Seq<char> {
    invalid_param("matrix"@, "\"1x4 or 2x2 array\""@, "matrix"@)
}

/// The operation settings of a new pipeline: nothing to do.
pub open spec fn initial_operations(s: OperationSettings) -> bool {
    &&& !s.flatten && !s.unflatten && !s.negate && s.negate_alpha
    &&& s.median_size == 0 && s.threshold == 0 && s.threshold_grayscale
    &&& s.dilate_width == 0 && s.erode_width == 0
    &&& !s.normalise && s.normalise_lower == 1 && s.normalise_upper == 99
    &&& s.clahe_width == 0 && s.clahe_height == 0 && s.clahe_max_slope == 3
    &&& s.hue == 0 && s.conv_kernel_width == 0 && s.conv_kernel_height == 0
    &&& !s.remove_alpha && s.ensure_alpha == -1 && s.extract_channel == -1
    &&& !s.affine && s.affine_interpolator == Interpolators::Bicubic
    &&& s.precision == Precision::Integer
}

/// `size` refused: "integer between 1 and 1000".
pub open spec fn err_median_text() -> Seq<char> {
    invalid_param("size"@, "\"integer between 1 and 1000\""@, "size"@)
}

/// `dilate` refused: "positive integer".
pub open spec fn err_dilate_text() -> Seq<char> {
    invalid_param("dilate"@, "\"positive integer\""@, "width"@)
}

/// `erode` refused: "positive integer".
pub open spec fn err_erode_text() -> Seq<char> {
    invalid_param("erode"@, "\"positive integer\""@, "width"@)
}

/// `lower` refused: "number between 0 and 99".
pub open spec fn err_lower_text() -> Seq<char> {
    invalid_param("lower"@, "\"number between 0 and 99\""@, "lower"@)
}

/// `upper` refused: "number between 1 and 100".
pub open spec fn err_upper_text() -> Seq<char> {
    invalid_param("upper"@, "\"number between 1 and 100\""@, "upper"@)
}

/// `range` refused: "lower to be less than upper".
pub open spec fn err_range_text() -> Seq<char> {
    invalid_param(
        "range"@,
        "\"lower to be less than upper\""@,
        "format!(\"{:?} >= {:?}\", self.options.normaliseLower, self.options.normaliseUpper)"@,
    )
}

/// `width` refused: "integer greater than zero".
pub open spec fn err_clahe_width_text() -> Seq<char> {
    invalid_param("width"@, "\"integer greater than zero\""@, "options.width"@)
}

/// `height` refused: "integer greater than zero".
pub open spec fn err_clahe_height_text() -> Seq<char> {
    invalid_param("height"@, "\"integer greater than zero\""@, "options.height"@)
}

/// `max_slope` refused: "integer between 0 and 100".
pub open spec fn err_max_slope_text() -> Seq<char> {
    invalid_param("max_slope"@, "\"integer between 0 and 100\""@, "max_slope"@)
}

/// `threshold` refused: "integer between 0 and 255".
pub open spec fn err_threshold_text() -> Seq<char> {
    invalid_param("threshold"@, "\"integer between 0 and 255\""@, "threshold"@)
}

/// The message for a convolution kernel of the wrong shape.
pub open spec fn err_kernel_text() -> Seq<char> {
    "Invalid convolution kernel"@
}

/// `input_matrix` refused: "3x3 or 4x4 array".
pub open spec fn err_recomb_rows_text() -> Seq<char> {
    invalid_param("input_matrix"@, "\"3x3 or 4x4 array\""@, "input_matrix"@)
}

/// `recomb_matrix` refused: "cardinality of 9 or 16".
pub open spec fn err_recomb_size_text() -> Seq<char> {
    invalid_param("recomb_matrix"@, "\"cardinality of 9 or 16\""@, "recomb_matrix.len()"@)
}

/// The message for a refused parameter, from printable source text.
fn refusal(name: &str, expected: &str, actual: &str) -> (r: String)
    requires
        crate::text::printable(name@),
        crate::text::printable(expected@),
        crate::text::printable(actual@),
    ensures
        r@ == invalid_param(name@, expected@, actual@),
{
    invalid_parameter_error(name, expected, actual)
}

impl OperationSettings {
    /// The operation settings of a new pipeline.
    pub fn new() -> (r: OperationSettings)
        ensures
            initial_operations(r),
    {
        OperationSettings {
            flatten: false,
            unflatten: false,
            negate: false,
            negate_alpha: true,
            median_size: 0,
            threshold: 0,
            threshold_grayscale: true,
            dilate_width: 0,
            erode_width: 0,
            normalise: false,
            normalise_lower: 1,
            normalise_upper: 99,
            clahe_width: 0,
            clahe_height: 0,
            clahe_max_slope: 3,
            hue: 0,
            conv_kernel_width: 0,
            conv_kernel_height: 0,
            remove_alpha: false,
            ensure_alpha: -1,
            extract_channel: -1,
            affine: false,
            affine_interpolator: Interpolators::Bicubic,
            precision: Precision::Integer,
        }
    }

    /// Transform with an affine matrix of `matrix_len` values, which must
    /// be 4 (1x4 or 2x2); the values are kept beside. The interpolator
    /// defaults to bicubic.
    pub fn affine(self, matrix_len: usize, interpolator: Option<Interpolators>) -> (r: Result<OperationSettings, String>)
        ensures
            if matrix_len != 4 {
                r matches Err(e) && e@ == err_affine_matrix_text()
            } else {
                r == Ok::<OperationSettings, String>(OperationSettings {
                    affine: true,
                    affine_interpolator: or(interpolator, self.affine_interpolator),
                    ..self
                })
            },
    {
        if matrix_len != 4 {
            proof {
                reveal_strlit("matrix");
                reveal_strlit("\"1x4 or 2x2 array\"");
            }
            return Err(refusal("matrix", "\"1x4 or 2x2 array\"", "matrix"));
        }
        let affine_interpolator = match interpolator {
            Some(i) => i,
            None => self.affine_interpolator,
        };
        Ok(OperationSettings { affine: true, affine_interpolator, ..self })
    }

    /// Blur with `precision`, when given; `float_error` is the refusal, if
    /// any, of the sigma or minimum amplitude given beside it.
    pub fn blur(self, precision: Option<Precision>, float_error: Option<String>) -> (r: Result<OperationSettings, String>)
        ensures
            match float_error {
                Some(m) => r matches Err(e) && e@ == m@,
                None => r == Ok::<OperationSettings, String>(
                    OperationSettings { precision: or(precision, self.precision), ..self },
                ),
            },
    {
        if let Some(e) = float_error {
            return Err(e);
        }
        let precision = match precision {
            Some(p) => p,
            None => self.precision,
        };
        Ok(OperationSettings { precision, ..self })
    }

    /// Apply a median filter of `size` (1 to 1000, default 3).
    pub fn median(self, size: Option<i32>) -> (r: Result<OperationSettings, String>)
        ensures
            match size {
                Some(v) if !(1 <= v <= 1000) => r matches Err(e) && e@ == err_median_text(),
                _ => r matches Ok(t) && t == (OperationSettings {
                        median_size: match size {
                            Some(v) => v,
                            None => 3,
                        },
                        ..self
                    }),
            },
    {
        let mut s = self;
        if let Some(v) = size {
            if !(1 <= v && v <= 1000) {
                proof {
                    reveal_strlit("size");
                    reveal_strlit("\"integer between 1 and 1000\"");
                }
                return Err(refusal("size", "\"integer between 1 and 1000\"", "size"));
            }
            s.median_size = v;
        } else {
            s.median_size = 3;
        }
        Ok(s)
    }

    /// Expand foreground objects by `width` pixels (default 1).
    pub fn dilate(self, width: Option<i32>) -> (r: Result<OperationSettings, String>)
        ensures
            match width {
                Some(v) if v < 0 => r matches Err(e) && e@ == err_dilate_text(),
                _ => r matches Ok(t) && t == (OperationSettings {
                        dilate_width: match width {
                            Some(v) => v,
                            None => 1,
                        },
                        ..self
                    }),
            },
    {
        let mut s = self;
        if let Some(v) = width {
            if v < 0 {
                proof {
                    reveal_strlit("dilate");
                    reveal_strlit("\"positive integer\"");
                    reveal_strlit("width");
                }
                return Err(refusal("dilate", "\"positive integer\"", "width"));
            }
            s.dilate_width = v;
        } else {
            s.dilate_width = 1;
        }
        Ok(s)
    }

    /// Shrink foreground objects by `width` pixels (default 1).
    pub fn erode(self, width: Option<i32>) -> (r: Result<OperationSettings, String>)
        ensures
            match width {
                Some(v) if v < 0 => r matches Err(e) && e@ == err_erode_text(),
                _ => r matches Ok(t) && t == (OperationSettings {
                        erode_width: match width {
                            Some(v) => v,
                            None => 1,
                        },
                        ..self
                    }),
            },
    {
        let mut s = self;
        if let Some(v) = width {
            if v < 0 {
                proof {
                    reveal_strlit("erode");
                    reveal_strlit("\"positive integer\"");
                    reveal_strlit("width");
                }
                return Err(refusal("erode", "\"positive integer\"", "width"));
            }
            s.erode_width = v;
        } else {
            s.erode_width = 1;
        }
        Ok(s)
    }

    /// Merge the alpha channel with a background; its colour is set beside.
    pub fn flatten(self) -> (r: OperationSettings)
        ensures
            r == (OperationSettings { flatten: true, ..self }),
    {
        let mut s = self;
        s.flatten = true;
        s
    }

    /// Make white pixels fully transparent.
    pub fn unflatten(self) -> (r: OperationSettings)
        ensures
            r == (OperationSettings { unflatten: true, ..self }),
    {
        let mut s = self;
        s.unflatten = true;
        s
    }

    /// Produce the negative of the image.
    pub fn negate(self, options: Option<NegateOptions>) -> (r: OperationSettings)
        ensures
            r == (OperationSettings {
                negate: true,
                negate_alpha: match options {
                    Some(o) => match o.alpha {
                        Some(a) => a,
                        None => self.negate_alpha,
                    },
                    None => self.negate_alpha,
                },
                ..self
            }),
    {
        let mut s = self;
        s.negate = true;
        if let Some(o) = options {
            if let Some(alpha) = o.alpha {
                s.negate_alpha = alpha;
            }
        }
        s
    }

    /// Stretch luminance to cover the range between the `lower` and
    /// `upper` percentiles (defaults 1 and 99).
    pub fn normalise(self, options: Option<NormaliseOptions>) -> (r: Result<OperationSettings, String>)
        ensures
            ({
                let lower = match options {
                    Some(o) => o.lower,
                    None => None,
                };
                let upper = match options {
                    Some(o) => o.upper,
                    None => None,
                };
                let lo = match lower {
                    Some(v) => v,
                    None => self.normalise_lower,
                };
                let hi = match upper {
                    Some(v) => v,
                    None => self.normalise_upper,
                };
                if lower matches Some(v) && !(0 <= v <= 99) {
                    r matches Err(e) && e@ == err_lower_text()
                } else if upper matches Some(v) && !(1 <= v <= 100) {
                    r matches Err(e) && e@ == err_upper_text()
                } else if lo >= hi {
                    r matches Err(e) && e@ == err_range_text()
                } else {
                    r == Ok::<OperationSettings, String>(
                        OperationSettings { normalise: true, normalise_lower: lo, normalise_upper: hi, ..self },
                    )
                }
            }),
    {
        let mut s = self;
        if let Some(o) = options {
            if let Some(lower) = o.lower {
                if !(0 <= lower && lower <= 99) {
                    proof {
                        reveal_strlit("lower");
                        reveal_strlit("\"number between 0 and 99\"");
                    }
                    return Err(refusal("lower", "\"number between 0 and 99\"", "lower"));
                }
                s.normalise_lower = lower;
            }
            if let Some(upper) = o.upper {
                if !(1 <= upper && upper <= 100) {
                    proof {
                        reveal_strlit("upper");
                        reveal_strlit("\"number between 1 and 100\"");
                    }
                    return Err(refusal("upper", "\"number between 1 and 100\"", "upper"));
                }
                s.normalise_upper = upper;
            }
        }
        if s.normalise_lower >= s.normalise_upper {
            proof {
                reveal_strlit("range");
                reveal_strlit("\"lower to be less than upper\"");
                reveal_strlit(
                    "format!(\"{:?} >= {:?}\", self.options.normaliseLower, self.options.normaliseUpper)",
                );
            }
            return Err(
                refusal(
                    "range",
                    "\"lower to be less than upper\"",
                    "format!(\"{:?} >= {:?}\", self.options.normaliseLower, self.options.normaliseUpper)",
                ),
            );
        }
        s.normalise = true;
        Ok(s)
    }

    /// Contrast limiting adaptive histogram equalisation over regions of
    /// the given size.
    pub fn clahe(self, options: Option<ClaheOptions>) -> (r: Result<OperationSettings, String>)
        ensures
            match options {
                None => r == Ok::<OperationSettings, String>(self),
                Some(o) => if o.width <= 0 {
                    r matches Err(e) && e@ == err_clahe_width_text()
                } else if o.height <= 0 {
                    r matches Err(e) && e@ == err_clahe_height_text()
                } else if o.max_slope matches Some(m) && !(0 <= m <= 100) {
                    r matches Err(e) && e@ == err_max_slope_text()
                } else {
                    r == Ok::<OperationSettings, String>(
                        OperationSettings {
                            clahe_width: o.width,
                            clahe_height: o.height,
                            clahe_max_slope: match o.max_slope {
                                Some(m) => m,
                                None => self.clahe_max_slope,
                            },
                            ..self
                        },
                    )
                },
            },
    {
        let mut s = self;
        if let Some(o) = options {
            proof {
                reveal_strlit("width");
                reveal_strlit("height");
                reveal_strlit("\"integer greater than zero\"");
                reveal_strlit("options.width");
                reveal_strlit("options.height");
            }
            if o.width > 0 {
                s.clahe_width = o.width;
            } else {
                return Err(refusal("width", "\"integer greater than zero\"", "options.width"));
            }
            if o.height > 0 {
                s.clahe_height = o.height;
            } else {
                return Err(refusal("height", "\"integer greater than zero\"", "options.height"));
            }
            if let Some(m) = o.max_slope {
                if !(0 <= m && m <= 100) {
                    proof {
                        reveal_strlit("max_slope");
                        reveal_strlit("\"integer between 0 and 100\"");
                    }
                    return Err(refusal("max_slope", "\"integer between 0 and 100\"", "max_slope"));
                }
                s.clahe_max_slope = m;
            }
        }
        Ok(s)
    }

    /// Make each pixel black or white by a threshold (0 to 255, default
    /// 128), on the greyscale image unless told otherwise.
    pub fn threshold(self, threshold: Option<i32>, options: Option<ThresholdOptions>) -> (r: Result<OperationSettings, String>)
        ensures
            match threshold {
                Some(v) if !(0 <= v <= 255) => r matches Err(e) && e@ == err_threshold_text(),
                _ => r == Ok::<OperationSettings, String>(
                    OperationSettings {
                        threshold: match threshold {
                            Some(v) => v,
                            None => 128,
                        },
                        threshold_grayscale: match options {
                            Some(o) => match o.grayscale {
                                Some(g) => g,
                                None => self.threshold_grayscale,
                            },
                            None => false,
                        },
                        ..self
                    },
                ),
            },
    {
        let mut s = self;
        if let Some(v) = threshold {
            if !(0 <= v && v <= 255) {
                proof {
                    reveal_strlit("threshold");
                    reveal_strlit("\"integer between 0 and 255\"");
                }
                return Err(refusal("threshold", "\"integer between 0 and 255\"", "threshold"));
            }
            s.threshold = v;
        } else {
            s.threshold = 128;
        }
        match options {
            Some(o) => {
                if let Some(g) = o.grayscale {
                    s.threshold_grayscale = g;
                }
            },
            None => {
                s.threshold_grayscale = false;
            },
        }
        Ok(s)
    }

    /// Rotate the hue by `hue` degrees, taken modulo 360 with the sign of
    /// `hue`; `float_error` is the refusal, if any, of the brightness or
    /// saturation given beside it.
    pub fn modulate(self, hue: Option<i32>, float_error: Option<String>) -> (r: Result<OperationSettings, String>)
        ensures
            match float_error {
                Some(m) => r matches Err(e) && e@ == m@,
                None => r matches Ok(t) && t == (OperationSettings { hue: t.hue, ..self }) && t.hue
                    == match hue {
                    Some(h) => crate::geometry::rem(h as int, 360),
                    None => self.hue as int,
                },
            },
    {
        match float_error {
            Some(e) => {
                return Err(e);
            },
            None => {},
        }
        let mut s = self;
        if let Some(h) = hue {
            s.hue = h % 360;
        }
        Ok(s)
    }

    /// Convolve with a `width` by `height` kernel of `len` values: each
    /// side 3 to 1001, and `len` (as an `i32`) their product.
    pub fn convolve(self, width: i32, height: i32, len: usize) -> (r: Result<OperationSettings, String>)
        ensures
            if !(3 <= width <= 1001) || !(3 <= height <= 1001) || height * width != len as i32 {
                r matches Err(e) && e@ == err_kernel_text()
            } else {
                r == Ok::<OperationSettings, String>(
                    OperationSettings { conv_kernel_width: width, conv_kernel_height: height, ..self },
                )
            },
    {
        proof {
            reveal_strlit("Invalid convolution kernel");
        }
        if !(3 <= width && width <= 1001) || !(3 <= height && height <= 1001) {
            return Err("Invalid convolution kernel".to_string());
        }
        assert(0 < height * width <= 1001 * 1001) by (nonlinear_arith)
            requires
                3 <= height <= 1001,
                3 <= width <= 1001,
        ;
        let area: i32 = height * width;
        if area != len as i32 {
            return Err("Invalid convolution kernel".to_string());
        }
        let mut s = self;
        s.conv_kernel_width = width;
        s.conv_kernel_height = height;
        Ok(s)
    }
}


/// `alpha` refused: "number between 0 and 1".
pub open spec fn err_alpha_text() -> Seq<char> {
    invalid_param("alpha"@, "\"number between 0 and 1\""@, "alpha"@)
}

/// `channel` refused: "integer or one of: red, green, blue, alpha".
pub open spec fn err_channel_text() -> Seq<char> {
    invalid_param("channel"@, "\"integer or one of: red, green, blue, alpha\""@, "channel"@)
}

impl OperationSettings {
    /// Remove any alpha channel.
    pub fn remove_alpha(self) -> (r: OperationSettings)
        ensures
            r == (OperationSettings { remove_alpha: true, ..self }),
    {
        OperationSettings { remove_alpha: true, ..self }
    }

    /// Add an alpha channel of `alpha` (0 or 1) where there is none.
    pub fn ensure_alpha(self, alpha: u32) -> (r: Result<OperationSettings, String>)
        ensures
            if alpha <= 1 {
                r == Ok::<OperationSettings, String>(OperationSettings { ensure_alpha: alpha as i32, ..self })
            } else {
                r matches Err(e) && e@ == err_alpha_text()
            },
    {
        if alpha <= 1 {
            Ok(OperationSettings { ensure_alpha: alpha as i32, ..self })
        } else {
            proof {
                reveal_strlit("alpha");
                reveal_strlit("\"number between 0 and 1\"");
            }
            Err(refusal("alpha", "\"number between 0 and 1\"", "alpha"))
        }
    }

    /// Extract the single channel `channel` (0 to 4).
    pub fn extract_channel(self, channel: u32) -> (r: Result<OperationSettings, String>)
        ensures
            if channel <= 4 {
                r == Ok::<OperationSettings, String>(OperationSettings { extract_channel: channel as i32, ..self })
            } else {
                r matches Err(e) && e@ == err_channel_text()
            },
    {
        if channel <= 4 {
            Ok(OperationSettings { extract_channel: channel as i32, ..self })
        } else {
            proof {
                reveal_strlit("channel");
                reveal_strlit("\"integer or one of: red, green, blue, alpha\"");
            }
            Err(refusal("channel", "\"integer or one of: red, green, blue, alpha\"", "channel"))
        }
    }
}

/// The total of the row lengths.
pub open spec fn total(rows: Seq<usize>) -> int
    decreases rows.len(),
{
    if rows.len() == 0 {
        0
    } else {
        total(rows.drop_last()) + rows.last()
    }
}

/// Checks the shape of a recombination matrix given by its row lengths: 3
/// or 4 rows, holding 9 or 16 values in all.
pub fn check_recomb(rows: &Vec<usize>) -> (r: Result<(), String>)
    requires
        total(rows@) <= usize::MAX,
    ensures
        if rows@.len() != 3 && rows@.len() != 4 {
            r matches Err(e) && e@ == err_recomb_rows_text()
        } else if total(rows@) != 9 && total(rows@) != 16 {
            r matches Err(e) && e@ == err_recomb_size_text()
        } else {
            r is Ok
        },
{
    if rows.len() != 3 && rows.len() != 4 {
        proof {
            reveal_strlit("input_matrix");
            reveal_strlit("\"3x3 or 4x4 array\"");
        }
        return Err(refusal("input_matrix", "\"3x3 or 4x4 array\"", "input_matrix"));
    }
    let mut n: usize = 0;
    let mut i: usize = 0;
    while i < rows.len()
        invariant
            i <= rows@.len(),
            n == total(rows@.take(i as int)),
            total(rows@) <= usize::MAX,
            rows@.len() <= 4,
        decreases rows@.len() - i,
    {
        proof {
            assert(rows@.take(i as int + 1).drop_last() =~= rows@.take(i as int));
            lemma_total_prefix(rows@, i as int + 1);
        }
        n = n + rows[i];
        i += 1;
    }
    proof {
        assert(rows@.take(rows@.len() as int) =~= rows@);
    }
    if n != 9 && n != 16 {
        proof {
            reveal_strlit("recomb_matrix");
            reveal_strlit("\"cardinality of 9 or 16\"");
            reveal_strlit("recomb_matrix.len()");
        }
        return Err(refusal("recomb_matrix", "\"cardinality of 9 or 16\"", "recomb_matrix.len()"));
    }
    Ok(())
}

/// A prefix totals no more than the whole.
proof fn lemma_total_prefix(rows: Seq<usize>, k: int)
    requires
        0 <= k <= rows.len(),
    ensures
        total(rows.take(k)) <= total(rows),
    decreases rows.len() - k,
{
    if k < rows.len() {
        lemma_total_prefix(rows, k + 1);
        assert(rows.take(k + 1).drop_last() =~= rows.take(k));
    } else {
        assert(rows.take(k) =~= rows);
    }
}

/// The input options of a boolean operand: raw pixel dimensions when given.
pub open spec fn boolean_input_options(options: Option<BooleanOptions>) -> SharpOptions {
    SharpOptions {
        auto_orient: None,
        fail_on: None,
        limit_input_pixels: None,
        unlimited: None,
        sequential_read: None,
        ignore_icc: None,
        pages: None,
        page: None,
        subifd: None,
        level: None,
        animated: None,
        raw: match options {
            Some(o) => Some(
                CreateRaw {
                    width: o.raw.width,
                    height: o.raw.height,
                    channels: o.raw.channels,
                    premultiplied: false,
                },
            ),
            None => None,
        },
        create: None,
        text: None,
        join: None,
    }
}

/// Describes the operand of a bitwise boolean operation.
pub fn boolean_descriptor(operand: Input, options: Option<BooleanOptions>) -> (r: Result<InputDescriptor, String>)
    ensures
        match input_error(operand, boolean_input_options(options)) {
            Some(m) => r matches Err(e) && e@ == m,
            None => r matches Ok(d) && described(d, operand, boolean_input_options(options)),
        },
{
    let raw = match options {
        Some(o) => Some(
            CreateRaw {
                width: o.raw.width,
                height: o.raw.height,
                channels: o.raw.channels,
                premultiplied: false,
            },
        ),
        None => None,
    };
    let sharp_options = SharpOptions {
        auto_orient: None,
        fail_on: None,
        limit_input_pixels: None,
        unlimited: None,
        sequential_read: None,
        ignore_icc: None,
        pages: None,
        page: None,
        subifd: None,
        level: None,
        animated: None,
        raw,
        create: None,
        text: None,
        join: None,
    };
    create_input_descriptor(operand, Some(sharp_options))
}

} // verus!
