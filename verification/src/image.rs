use vstd::prelude::*;
use crate::error::Error;
use crate::text::find_nul;
use crate::text::first_nul_at;
use crate::text::nul_free;
use crate::text::utf8_bytes;
use crate::varargs::ArgKey;
use crate::varargs::ArgValue;
use crate::varargs::CallArg;
use crate::varargs::OptArg;
use crate::varargs::build_call_args;
use crate::varargs::call_tokens;

verus! {

/// The closed set of rotation angles the native rotate entry point
/// accepts. Members and their wire meaning belong to the native
/// library; the shell lowers each to its native enum member.
#[derive(Clone, Copy, PartialEq, Eq, Debug)]
pub enum Angle {
    D0,
    D90,
    D180,
    D270,
}

/// The closed set of resampling kernels of the native resize entry
/// point, lowered by the shell to the native members.
#[derive(Clone, Copy, PartialEq, Eq, Debug)]
pub enum Kernel {
    Nearest,
    Linear,
    Cubic,
    Mitchell,
    Lanczos2,
    Lanczos3,
}

/// The closed set of pixel formats an in-memory buffer can declare,
/// passed through to the native library unreinterpreted.
#[derive(Clone, Copy, PartialEq, Eq, Debug)]
pub enum BandFormat {
    Notset,
    Uchar,
    Char,
    Ushort,
    Short,
    Uint,
    Int,
    Float,
    Complex,
    Double,
    Dpcomplex,
}

/// An exact scale factor, carried as the ratio `num / den` so that the
/// bridge's decisions need no rounding; the shell converts it to the
/// native floating scale value only when it issues the call.
#[derive(Clone, Copy, PartialEq, Eq, Debug)]
pub struct Scale {
    pub num: i32,
    pub den: i32,
}

impl Scale {
    /// Whether two ratios denote the same scale factor, compared
    /// exactly by cross-multiplication.
    pub open spec fn same_ratio(self, other: Scale) -> bool {
        self.num * other.den == other.num * self.den
    }

    /// The identity scale factor.
    pub open spec fn is_identity(self) -> bool {
        self.num == self.den
    }
}

/// The owned handle wrapper, as this layer reasons about it: whether
/// the underlying native handle is populated (non-null), and the
/// dimensions the native library reported for it. The shell pairs one
/// value of this type with each native handle it owns, releases the
/// handle exactly once on destruction, and never aliases it.
#[derive(Debug)]
pub struct Image {
    populated: bool,
    width: i32,
    height: i32,
}

impl Image {
    /// Whether the wrapper holds a populated handle rather than the
    /// null sentinel it starts from.
    pub closed spec fn is_populated(&self) -> bool {
        self.populated
    }

    /// The native handle's width.
    pub closed spec fn width_spec(&self) -> i32 {
        self.width
    }

    /// The native handle's height.
    pub closed spec fn height_spec(&self) -> i32 {
        self.height
    }

    /// The null sentinel a wrapper starts from before a successful
    /// native call populates it. Nothing may be read through it.
    pub fn new() -> (img: Image)
        ensures
            !img.is_populated(),
    {
        Image { populated: false, width: 0, height: 0 }
    }

    /// Interprets a native call that signals failure by returning a
    /// null handle (the open-from-file and open-from-memory entry
    /// points): a null handle becomes the error captured from the
    /// native buffer, a populated one becomes an owned wrapper carrying
    /// the dimensions the native library reported.
    pub fn from_handle(
        null_handle: bool,
        message: Option<String>,
        width: i32,
        height: i32,
    ) -> (r: Result<Image, Error>)
        ensures
            match r {
                Ok(img) => {
                    &&& !null_handle
                    &&& img.is_populated()
                    &&& img.width_spec() == width
                    &&& img.height_spec() == height
                },
                Err(e) => null_handle && e == Error::Vips(message),
            },
    {
        if null_handle {
            Err(Error::from_vips(message))
        } else {
            Ok(Image { populated: true, width, height })
        }
    }

    /// Interprets a native transform that signals failure by a nonzero
    /// status code (resize, crop, rotate): zero becomes an owned
    /// wrapper over the freshly produced handle and its reported
    /// dimensions, anything else the captured native error.
    pub fn from_status(status: i32, message: Option<String>, width: i32, height: i32) -> (r: Result<
        Image,
        Error,
    >)
        ensures
            match r {
                Ok(img) => {
                    &&& status == 0
                    &&& img.is_populated()
                    &&& img.width_spec() == width
                    &&& img.height_spec() == height
                },
                Err(e) => status != 0 && e == Error::Vips(message),
            },
    {
        if status == 0 {
            Ok(Image { populated: true, width, height })
        } else {
            Err(Error::from_vips(message))
        }
    }

    /// Whether the wrapper holds a populated handle; lets a caller test
    /// the reading discipline before going through the accessors.
    pub fn populated(&self) -> (r: bool)
        ensures
            r == self.is_populated(),
    {
        self.populated
    }

    /// The width of the wrapped handle. Reading through the null
    /// sentinel is forbidden, so a populated handle is required.
    pub fn width(&self) -> (w: i32)
        requires
            self.is_populated(),
        ensures
            w == self.width_spec(),
    {
        self.width
    }

    /// The height of the wrapped handle, under the same discipline.
    pub fn height(&self) -> (h: i32)
        requires
            self.is_populated(),
        ensures
            h == self.height_spec(),
    {
        self.height
    }

    /// Plans an open-from-file call: the path must be free of embedded
    /// nuls to become a C string, and a nul is rejected here, before
    /// any native call. The shell ensures initialization, issues the
    /// call, and hands the outcome to [`Image::from_handle`].
    pub fn from_file(path: Vec<u8>) -> (r: Result<OpenFileRequest, Error>)
        ensures
            match r {
                Ok(req) => nul_free(path@) && req.path@ == path@,
                Err(e) => !nul_free(path@) && (e matches Error::NulError(p) && first_nul_at(
                    path@,
                    p as int,
                )),
            },
    {
        match find_nul(path.as_slice()) {
            Some(p) => Err(Error::NulError(p)),
            None => Ok(OpenFileRequest { path }),
        }
    }

    /// Plans an open-from-memory call. The request takes ownership of
    /// the caller's buffer: the shell boxes it, registers the close
    /// notification that releases it only once the native library
    /// signals it is done reading, and only then checks the returned
    /// handle through [`Image::from_handle`].
    pub fn from_memory(
        buf: Vec<u8>,
        width: i32,
        height: i32,
        bands: i32,
        format: BandFormat,
    ) -> (r: OpenMemoryRequest)
        ensures
            r.buf@ == buf@,
            r.width == width,
            r.height == height,
            r.bands == bands,
            r.format == format,
    {
        OpenMemoryRequest { buf, width, height, bands, format }
    }

    /// Plans a resize call through the variadic bridge: the scale is
    /// the required argument, and the vertical scale and kernel are
    /// attached as keyed pairs exactly when present.
    pub fn resize(&self, scale: Scale, vscale: Option<Scale>, kernel: Option<Kernel>) -> (r:
        ResizeRequest)
        requires
            self.is_populated(),
        ensures
            r.scale == scale,
            r.vscale == vscale,
            r.kernel == kernel,
            r.args@ == resize_tokens(scale, vscale, kernel),
    {
        let vscale_arg: Option<ArgValue> = match vscale {
            Some(s) => Some(ArgValue::Ratio(s)),
            None => None,
        };
        let kernel_arg: Option<ArgValue> = match kernel {
            Some(k) => Some(ArgValue::Resample(k)),
            None => None,
        };
        let required: Vec<ArgValue> = vec![ArgValue::Ratio(scale)];
        let optional: Vec<OptArg> = vec![
            OptArg { key: ArgKey::VScale, value: vscale_arg },
            OptArg { key: ArgKey::ResampleKernel, value: kernel_arg },
        ];
        let args = build_call_args(&required, &optional);
        proof {
            assert(required@ =~= seq![ArgValue::Ratio(scale)]);
            assert(optional@ =~= resize_optionals(vscale, kernel));
        }
        ResizeRequest { scale, vscale, kernel, args }
    }

    /// Plans a resize toward target dimensions. Each given target turns
    /// into the exact ratio target/current; when both are given and the
    /// two ratios denote the same factor, a single uniform-scale call
    /// is planned rather than a double-scale one, and when neither is
    /// given the plan is the identity scale. The source dimensions must
    /// be positive: a ratio against a zero dimension is undefined.
    pub fn resize_to(&self, width: Option<i32>, height: Option<i32>) -> (r: ResizeRequest)
        requires
            self.is_populated(),
            self.width_spec() > 0,
            self.height_spec() > 0,
        ensures
            r.kernel == Option::<Kernel>::None,
            match (width, height) {
                (Some(w), Some(h)) => {
                    &&& r.scale == (Scale { num: w, den: self.width_spec() })
                    &&& if (Scale { num: w, den: self.width_spec() }).same_ratio(
                        Scale { num: h, den: self.height_spec() },
                    ) {
                        r.vscale == Option::<Scale>::None
                    } else {
                        r.vscale == Some(Scale { num: h, den: self.height_spec() })
                    }
                },
                (Some(w), None) => r.scale == (Scale { num: w, den: self.width_spec() })
                    && r.vscale == Option::<Scale>::None,
                (None, Some(h)) => r.scale == (Scale { num: h, den: self.height_spec() })
                    && r.vscale == Option::<Scale>::None,
                (None, None) => r.scale == (Scale { num: 1, den: 1 }) && r.scale.is_identity()
                    && r.vscale == Option::<Scale>::None,
            },
            r.args@ == resize_tokens(r.scale, r.vscale, r.kernel),
    {
        match (width, height) {
            (Some(w), Some(h)) => {
                let hscale = Scale { num: w, den: self.width };
                let vscale = Scale { num: h, den: self.height };
                proof {
                    assert((w as int) * (self.height as int) <= 0x4000_0000_0000_0000 && (
                    w as int) * (self.height as int) >= -0x4000_0000_0000_0000) by (nonlinear_arith)
                        requires
                            -0x8000_0000 <= w <= 0x7fff_ffff,
                            -0x8000_0000 <= self.height <= 0x7fff_ffff,
                    ;
                    assert((h as int) * (self.width as int) <= 0x4000_0000_0000_0000 && (
                    h as int) * (self.width as int) >= -0x4000_0000_0000_0000) by (nonlinear_arith)
                        requires
                            -0x8000_0000 <= h <= 0x7fff_ffff,
                            -0x8000_0000 <= self.width <= 0x7fff_ffff,
                    ;
                }
                if (w as i64) * (self.height as i64) != (h as i64) * (self.width as i64) {
                    self.resize(hscale, Some(vscale), None)
                } else {
                    self.resize(hscale, None, None)
                }
            },
            (Some(w), None) => self.resize(Scale { num: w, den: self.width }, None, None),
            (None, Some(h)) => self.resize(Scale { num: h, den: self.height }, None, None),
            (None, None) => self.resize(Scale { num: 1, den: 1 }, None, None),
        }
    }

    /// Plans a crop call: the rectangle is passed through unchecked and
    /// unclamped; the native library itself rejects an out-of-bounds
    /// rectangle, and [`Image::from_status`] turns that rejection into
    /// a native-library error.
    pub fn crop(&self, left: i32, top: i32, width: i32, height: i32) -> (r: CropRequest)
        requires
            self.is_populated(),
        ensures
            r == (CropRequest { left, top, width, height }),
    {
        CropRequest { left, top, width, height }
    }

    /// Plans a rotate call by one of the closed set of angles.
    pub fn rotate(&self, angle: Angle) -> (r: RotateRequest)
        requires
            self.is_populated(),
        ensures
            r.angle == angle,
    {
        RotateRequest { angle }
    }

    /// Plans a write-to-file call; the path is checked for embedded
    /// nuls here, before any native call. The codec is selected by the
    /// path's extension, by the native library's own convention.
    pub fn write_to_file(&self, path: Vec<u8>) -> (r: Result<WriteFileRequest, Error>)
        requires
            self.is_populated(),
        ensures
            match r {
                Ok(req) => nul_free(path@) && req.path@ == path@,
                Err(e) => !nul_free(path@) && (e matches Error::NulError(p) && first_nul_at(
                    path@,
                    p as int,
                )),
            },
    {
        match find_nul(path.as_slice()) {
            Some(p) => Err(Error::NulError(p)),
            None => Ok(WriteFileRequest { path }),
        }
    }

    /// Plans a write-to-buffer call: the suffix (a format-selecting
    /// string such as an extension with options) is checked for
    /// embedded nuls here. The shell claims the native-allocated output
    /// before it checks the status code — the native call hands back a
    /// buffer independently of its status, and the allocation must be
    /// owned either way — then hands both to [`claimed_buffer`].
    pub fn to_buffer(&self, suffix: &str) -> (r: Result<WriteBufferRequest, Error>)
        requires
            self.is_populated(),
        ensures
            match r {
                Ok(req) => nul_free(utf8_bytes(suffix@)) && req.suffix@ == suffix@,
                Err(e) => !nul_free(utf8_bytes(suffix@)) && (e matches Error::NulError(p)
                    && first_nul_at(utf8_bytes(suffix@), p as int)),
            },
    {
        match find_nul(suffix.as_bytes()) {
            Some(p) => Err(Error::NulError(p)),
            None => Ok(WriteBufferRequest { suffix: suffix.to_owned() }),
        }
    }
}

/// An optional vertical scale as the argument value it is passed as.
pub open spec fn ratio_arg(vscale: Option<Scale>) -> Option<ArgValue> {
    match vscale {
        Some(s) => Some(ArgValue::Ratio(s)),
        None => None,
    }
}

/// An optional kernel as the argument value it is passed as.
pub open spec fn kernel_arg(kernel: Option<Kernel>) -> Option<ArgValue> {
    match kernel {
        Some(k) => Some(ArgValue::Resample(k)),
        None => None,
    }
}

/// The optional arguments of one planned resize call, in declared order.
pub open spec fn resize_optionals(vscale: Option<Scale>, kernel: Option<Kernel>) -> Seq<OptArg> {
    seq![
        OptArg { key: ArgKey::VScale, value: ratio_arg(vscale) },
        OptArg { key: ArgKey::ResampleKernel, value: kernel_arg(kernel) },
    ]
}

/// The argument tokens of one planned resize call.
pub open spec fn resize_tokens(
    scale: Scale,
    vscale: Option<Scale>,
    kernel: Option<Kernel>,
) -> Seq<CallArg> {
    call_tokens(seq![ArgValue::Ratio(scale)], resize_optionals(vscale, kernel))
}

/// A uniform-scale resize plan (no vertical scale, no kernel) hands the
/// native call nothing but the scale and the terminator: the shape
/// [`Image::resize_to`] produces when its two target ratios agree, and
/// for its identity plan.
pub proof fn lemma_uniform_resize_args(scale: Scale)
    ensures
        resize_tokens(scale, None, None) =~= seq![
            CallArg::Value(ArgValue::Ratio(scale)),
            CallArg::Terminator,
        ],
{
    let opts = resize_optionals(None, None);
    let s1 = seq![OptArg { key: ArgKey::VScale, value: ratio_arg(None) }];
    assert(s1.drop_last() =~= Seq::<OptArg>::empty());
    assert(opts.drop_last() =~= s1);
    assert(crate::varargs::optional_tokens(Seq::<OptArg>::empty()) =~= Seq::<CallArg>::empty());
    assert(crate::varargs::pair_tokens(s1.last()) =~= Seq::<CallArg>::empty());
    assert(crate::varargs::optional_tokens(s1) =~= Seq::<CallArg>::empty());
    assert(crate::varargs::pair_tokens(opts.last()) =~= Seq::<CallArg>::empty());
    assert(crate::varargs::optional_tokens(opts) =~= Seq::<CallArg>::empty());
    assert(seq![ArgValue::Ratio(scale)].map_values(|v: ArgValue| CallArg::Value(v)) =~= seq![
        CallArg::Value(ArgValue::Ratio(scale)),
    ]);
}

/// A double-scale resize plan carries exactly one keyed pair more: the
/// vertical scale under its key, in declared order before the
/// terminator — the shape [`Image::resize_to`] produces when its two
/// target ratios differ.
pub proof fn lemma_double_resize_args(scale: Scale, vscale: Scale)
    ensures
        resize_tokens(scale, Some(vscale), None) =~= seq![
            CallArg::Value(ArgValue::Ratio(scale)),
            CallArg::Key(ArgKey::VScale),
            CallArg::Value(ArgValue::Ratio(vscale)),
            CallArg::Terminator,
        ],
{
    let opts = resize_optionals(Some(vscale), None);
    let s1 = seq![OptArg { key: ArgKey::VScale, value: ratio_arg(Some(vscale)) }];
    assert(s1.drop_last() =~= Seq::<OptArg>::empty());
    assert(opts.drop_last() =~= s1);
    assert(crate::varargs::optional_tokens(Seq::<OptArg>::empty()) =~= Seq::<CallArg>::empty());
    assert(crate::varargs::pair_tokens(s1.last()) =~= seq![
        CallArg::Key(ArgKey::VScale),
        CallArg::Value(ArgValue::Ratio(vscale)),
    ]);
    assert(crate::varargs::optional_tokens(s1) =~= seq![
        CallArg::Key(ArgKey::VScale),
        CallArg::Value(ArgValue::Ratio(vscale)),
    ]);
    assert(crate::varargs::pair_tokens(opts.last()) =~= Seq::<CallArg>::empty());
    assert(crate::varargs::optional_tokens(opts) =~= seq![
        CallArg::Key(ArgKey::VScale),
        CallArg::Value(ArgValue::Ratio(vscale)),
    ]);
    assert(seq![ArgValue::Ratio(scale)].map_values(|v: ArgValue| CallArg::Value(v)) =~= seq![
        CallArg::Value(ArgValue::Ratio(scale)),
    ]);
}

/// A planned open-from-file native call; the path bytes are free of
/// embedded nuls and ready to become a C string.
#[derive(Debug)]
pub struct OpenFileRequest {
    pub path: Vec<u8>,
}

/// A planned open-from-memory native call, owning the caller's buffer
/// together with the dimensions, band count and pixel format the
/// native library is told to read it under.
#[derive(Debug)]
pub struct OpenMemoryRequest {
    pub buf: Vec<u8>,
    pub width: i32,
    pub height: i32,
    pub bands: i32,
    pub format: BandFormat,
}

/// A planned resize call: the structured arguments, and the assembled
/// variadic token list the shell replays into the native call.
#[derive(Debug)]
pub struct ResizeRequest {
    pub scale: Scale,
    pub vscale: Option<Scale>,
    pub kernel: Option<Kernel>,
    pub args: Vec<CallArg>,
}

/// A planned crop call, passed through positionally.
#[derive(Clone, Copy, PartialEq, Eq, Debug)]
pub struct CropRequest {
    pub left: i32,
    pub top: i32,
    pub width: i32,
    pub height: i32,
}

/// A planned rotate call.
#[derive(Clone, Copy, PartialEq, Eq, Debug)]
pub struct RotateRequest {
    pub angle: Angle,
}

/// A planned write-to-file call; the path bytes are free of embedded
/// nuls.
#[derive(Debug)]
pub struct WriteFileRequest {
    pub path: Vec<u8>,
}

/// A planned write-to-buffer call; the suffix is free of embedded nuls.
#[derive(Debug)]
pub struct WriteBufferRequest {
    pub suffix: String,
}

/// Interprets a native write that signals only a status code (the
/// write-to-file entry point).
pub fn write_status(status: i32, message: Option<String>) -> (r: Result<(), Error>)
    ensures
        match r {
            Ok(_) => status == 0,
            Err(e) => status != 0 && e == Error::Vips(message),
        },
{
    if status == 0 {
        Ok(())
    } else {
        Err(Error::from_vips(message))
    }
}

/// Interprets a write-to-buffer outcome once the shell has claimed the
/// native-allocated output as an owned byte sequence: a zero status
/// yields exactly the claimed bytes, anything else the captured native
/// error (the claimed allocation is dropped, not leaked).
pub fn claimed_buffer(status: i32, message: Option<String>, bytes: Vec<u8>) -> (r: Result<
    Vec<u8>,
    Error,
>)
    ensures
        match r {
            Ok(b) => status == 0 && b@ == bytes@,
            Err(e) => status != 0 && e == Error::Vips(message),
        },
{
    if status == 0 {
        Ok(bytes)
    } else {
        Err(Error::from_vips(message))
    }
}

} // verus!
