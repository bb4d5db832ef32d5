//! The canvas element: its dimensions, its drawing context, and the export
//! of its bitmap as a `data:` address.
//!
//! The bitmap itself lives with the painter. Whoever asks for an export
//! reads the pixels there and hands them in.

use vstd::prelude::*;

verus! {

/// The width of a canvas that states none.
pub const DEFAULT_WIDTH: u32 = 300;

/// The height of a canvas that states none.
pub const DEFAULT_HEIGHT: u32 = 150;

/// The largest value that a dimension of a canvas takes.
pub const UNSIGNED_LONG_MAX: u32 = 2147483647;

/// The digits of base64 in the order of their values.
pub const BASE64_DIGITS: &'static str =
    "ABCDEFGHIJKLMNOPQRSTUVWXYZabcdefghijklmnopqrstuvwxyz0123456789+/";

/// The extent of a bitmap in pixels.
#[derive(Clone, Copy, Debug, PartialEq, Eq, Structural)]
pub struct Size2D {
    pub width: i32,
    pub height: i32,
}

/// The name under which the painter knows a bitmap.
#[derive(Clone, Copy, Debug, PartialEq, Eq, Structural)]
pub struct CanvasId(pub u64);

/// What a canvas element knows of its 2D context.
#[derive(Clone, Copy, Debug, PartialEq, Eq, Structural)]
pub struct CanvasRenderingContext2D {
    /// The painter's name for the context's bitmap.
    pub canvas_id: CanvasId,
    /// The dimensions of the context's bitmap.
    pub size: Size2D,
    /// Whether everything drawn so far came from the page's own origin.
    pub origin_clean: bool,
}

/// Where layout finds the pixels of a canvas.
#[derive(Clone, Copy, Debug, PartialEq, Eq, Structural)]
pub enum HTMLCanvasDataSource {
    /// With the painter, under the given name; or nowhere yet.
    Image(Option<CanvasId>),
}

/// What layout needs to know of a canvas.
#[derive(Clone, Copy, Debug, PartialEq, Eq, Structural)]
pub struct HTMLCanvasData {
    pub source: HTMLCanvasDataSource,
    pub width: u32,
    pub height: u32,
    pub canvas_id: CanvasId,
}

/// A dimension as a style sheet would state it.
#[derive(Clone, Copy, Debug, PartialEq, Eq, Structural)]
pub enum LengthOrPercentageOrAuto {
    /// A length in pixels.
    Length(u32),
    /// A share of the containing block, in hundredths.
    Percentage(u32),
    /// Whatever fits.
    Auto,
}

/// What layout asks of a canvas element.
pub trait LayoutHTMLCanvasElementHelpers {
    /// Everything layout needs to know of the canvas.
    fn data(&self) -> HTMLCanvasData;

    /// The width that the element states.
    fn get_width(&self) -> LengthOrPercentageOrAuto;

    /// The height that the element states.
    fn get_height(&self) -> LengthOrPercentageOrAuto;

    /// The painter's name for the bitmap.
    fn get_canvas_id_for_layout(&self) -> CanvasId;
}

/// The drawing context of a canvas.
#[derive(Clone, Copy, Debug, PartialEq, Eq, Structural)]
pub enum CanvasContext {
    Context2d(CanvasRenderingContext2D),
}

/// Why a canvas could not be exported.
#[derive(Clone, Copy, Debug, PartialEq, Eq, Structural)]
pub enum Error {
    /// The canvas holds pixels of another origin.
    Security,
    /// The pixels handed in do not fill the bitmap exactly.
    InvalidState,
    /// The bitmap could not be encoded: the encoder gave up, or the bitmap
    /// or its encoding is larger than this machine can address.
    Encoding,
}

/// What the encoder makes of a bitmap of 8-bit RGBA pixels of the given
/// width and height: the PNG file that it writes, or nothing where it
/// reports an error.
pub uninterp spec fn png_rgba8(data: Seq<u8>, width: u32, height: u32) -> Option<Seq<u8>>;

/// The base64 digit of a value below 64.
pub open spec fn base64_digit(value: int) -> char {
    BASE64_DIGITS@[value]
}

/// The base64 text of a run of bytes, in the standard alphabet and padded
/// with `=` to a multiple of four characters: every three bytes give four
/// digits of six bits each, most significant first.
pub open spec fn base64_standard(data: Seq<u8>) -> Seq<char>
    decreases data.len(),
{
    if data.len() == 0 {
        Seq::empty()
    } else if data.len() == 1 {
        let a = data[0] as int;
        seq![base64_digit(a / 4), base64_digit((a % 4) * 16), '=', '=']
    } else if data.len() == 2 {
        let a = data[0] as int;
        let b = data[1] as int;
        seq![
            base64_digit(a / 4),
            base64_digit((a % 4) * 16 + b / 16),
            base64_digit((b % 16) * 4),
            '=',
        ]
    } else {
        let a = data[0] as int;
        let b = data[1] as int;
        let c = data[2] as int;
        seq![
            base64_digit(a / 4),
            base64_digit((a % 4) * 16 + b / 16),
            base64_digit((b % 16) * 4 + c / 64),
            base64_digit(c % 64),
        ] + base64_standard(data.skip(3))
    }
}

/// The address that stands for a canvas without pixels.
pub open spec fn empty_data_url() -> Seq<char> {
    "data:,"@
}

/// The outcome of an export, given what the encoder returned: an error
/// where it gave up or where its output is too long to be written as
/// text on this machine, else the PNG address of the output.
pub open spec fn png_data_url(encoded: Option<Seq<u8>>) -> Result<Seq<char>, Error> {
    match encoded {
        Some(bytes) if bytes.len() <= usize::MAX / 4 => Ok(
            "data:image/png;base64,"@ + base64_standard(bytes),
        ),
        _ => Err(Error::Encoding),
    }
}

/// A result with its text as a sequence of characters.
pub open spec fn text_of(result: Result<String, Error>) -> Result<Seq<char>, Error> {
    match result {
        Ok(text) => Ok(text@),
        Err(error) => Err(error),
    }
}

/// Calls `base64::encode`, which writes the bytes in the standard alphabet
/// with padding. The call panics where the length of the text does not fit
/// the machine; the bound keeps it away from there.
#[verifier::external_body]
fn base64_encode(data: &Vec<u8>) -> (text: String)
    requires
        data@.len() <= usize::MAX / 4,
    ensures
        text@ == base64_standard(data@),
{
    base64::encode(data)
}

/// Calls `image::png::PNGEncoder::encode` for 8-bit RGBA pixels on an
/// encoder that writes into memory. The result is the whole file, or
/// nothing where the encoder reported an error. Which of the two it is,
/// and every byte of the file, depends on the pixels and the dimensions
/// alone; the contract says no more than that, and does not say that the
/// encoder succeeds. The encoder cuts the data into rows of four bytes per
/// pixel and panics on an incomplete row; the bounds make the rows exact
/// and keep its arithmetic from overflowing.
#[verifier::external_body]
fn png_encode_rgba8(data: &Vec<u8>, width: u32, height: u32) -> (encoded: Option<Vec<u8>>)
    requires
        width > 0,
        height > 0,
        32 * width <= usize::MAX,
        data@.len() == 4 * width * height,
    ensures
        match encoded {
            Some(bytes) => png_rgba8(data@, width, height) == Some(bytes@),
            None => png_rgba8(data@, width, height) is None,
        },
{
    let mut encoded: Vec<u8> = Vec::new();
    let encoder = image::png::PNGEncoder::new(&mut encoded);
    match encoder.encode(data, width, height, image::ColorType::RGBA(8)) {
        Ok(()) => Some(encoded),
        Err(_) => None,
    }
}

/// Builds the address for what the encoder returned.
pub fn data_url_from_png(encoded: Option<Vec<u8>>) -> (result: Result<String, Error>)
    ensures
        text_of(result) == png_data_url(
            match encoded {
                Some(bytes) => Some(bytes@),
                None => None,
            },
        ),
{
    match encoded {
        None => Err(Error::Encoding),
        Some(bytes) => {
            if bytes.len() > usize::MAX / 4 {
                Err(Error::Encoding)
            } else {
                let text = base64_encode(&bytes);
                Ok(String::from_str("data:image/png;base64,").concat(text.as_str()))
            }
        },
    }
}

/// The number of bytes in a bitmap of 8-bit RGBA pixels.
pub open spec fn bitmap_len(width: u32, height: u32) -> int {
    4 * width * height
}

/// Computes the number of bytes in a bitmap, where this machine can
/// address that many.
fn checked_bitmap_len(width: u32, height: u32) -> (len: Option<usize>)
    requires
        height > 0,
    ensures
        len matches Some(n) ==> n == bitmap_len(width, height),
        len is None <==> bitmap_len(width, height) > usize::MAX,
{
    assert(4 * width <= 4 * width * height) by (nonlinear_arith)
        requires
            height >= 1,
    ;
    match (width as usize).checked_mul(4) {
        Some(row) => {
            assert(row * height == 4 * width * height) by (nonlinear_arith)
                requires
                    row == width * 4,
            ;
            row.checked_mul(height as usize)
        },
        None => None,
    }
}

/// Tells whether the encoder can work on rows of the given width: it
/// counts the bits of a row in the machine's word.
fn row_fits(width: u32) -> (fits: bool)
    ensures
        fits == (32 * width <= usize::MAX),
{
    (width as usize).checked_mul(32).is_some()
}

/// A canvas element: its two dimension attributes, either of which may be
/// absent, and its drawing context, once one was asked for.
pub struct HTMLCanvasElement {
    width: Option<u32>,
    height: Option<u32>,
    context: Option<CanvasContext>,
}

/// The value that a dimension takes when its attribute is set to `value`:
/// the value itself, or the default where the value is beyond the largest
/// that a dimension takes.
pub open spec fn clamped(value: u32, default: u32) -> u32 {
    if value > UNSIGNED_LONG_MAX {
        default
    } else {
        value
    }
}

/// The context with its bitmap resized.
pub open spec fn resized(context: Option<CanvasContext>, size: Size2D) -> Option<CanvasContext> {
    match context {
        Some(CanvasContext::Context2d(c)) => Some(
            CanvasContext::Context2d(CanvasRenderingContext2D { size, ..c }),
        ),
        None => None,
    }
}

/// The dimension that an attribute stands for: its value, or the default
/// where the attribute is absent.
pub open spec fn dimension(attribute: Option<u32>, default: u32) -> u32 {
    match attribute {
        Some(value) => value,
        None => default,
    }
}

/// The length that an attribute states: its value in pixels, or whatever
/// fits where the attribute is absent.
pub open spec fn stated_length(attribute: Option<u32>) -> LengthOrPercentageOrAuto {
    match attribute {
        Some(value) => LengthOrPercentageOrAuto::Length(value),
        None => LengthOrPercentageOrAuto::Auto,
    }
}

/// The 2D context of an element once it was asked for: the one it had,
/// or a new one with a bitmap of the given name and size and a clean
/// origin.
pub open spec fn ensured_context(
    existing: Option<CanvasContext>,
    canvas_id: CanvasId,
    size: Size2D,
) -> CanvasRenderingContext2D {
    match existing {
        Some(CanvasContext::Context2d(context)) => context,
        None => CanvasRenderingContext2D { canvas_id, size, origin_clean: true },
    }
}

/// The name that stands for a canvas without a bitmap.
pub open spec fn no_canvas() -> CanvasId {
    CanvasId(0)
}

impl HTMLCanvasElement {
    #[verifier::type_invariant]
    spec fn dimensions_fit(self) -> bool {
        &&& self.width matches Some(w) ==> w <= UNSIGNED_LONG_MAX
        &&& self.height matches Some(h) ==> h <= UNSIGNED_LONG_MAX
    }

    /// The width attribute, if the element has one.
    pub closed spec fn width_attribute(&self) -> Option<u32> {
        self.width
    }

    /// The height attribute, if the element has one.
    pub closed spec fn height_attribute(&self) -> Option<u32> {
        self.height
    }

    /// The drawing context, once one was asked for.
    pub closed spec fn spec_context(&self) -> Option<CanvasContext> {
        self.context
    }

    /// The width of the bitmap in pixels.
    pub open spec fn spec_width(&self) -> u32 {
        dimension(self.width_attribute(), DEFAULT_WIDTH)
    }

    /// The height of the bitmap in pixels.
    pub open spec fn spec_height(&self) -> u32 {
        dimension(self.height_attribute(), DEFAULT_HEIGHT)
    }

    /// The dimensions as a size.
    pub open spec fn spec_size(&self) -> Size2D {
        Size2D { width: self.spec_width() as i32, height: self.spec_height() as i32 }
    }

    /// Creates a canvas without attributes and without a context.
    pub fn new() -> (canvas: HTMLCanvasElement)
        ensures
            canvas.width_attribute() is None,
            canvas.height_attribute() is None,
            canvas.spec_context() is None,
    {
        HTMLCanvasElement { width: None, height: None, context: None }
    }

    /// The width of the bitmap in pixels.
    pub fn width(&self) -> (width: u32)
        ensures
            width == self.spec_width(),
            width <= UNSIGNED_LONG_MAX,
    {
        proof {
            use_type_invariant(self);
        }
        match self.width {
            Some(value) => value,
            None => DEFAULT_WIDTH,
        }
    }

    /// The height of the bitmap in pixels.
    pub fn height(&self) -> (height: u32)
        ensures
            height == self.spec_height(),
            height <= UNSIGNED_LONG_MAX,
    {
        proof {
            use_type_invariant(self);
        }
        match self.height {
            Some(value) => value,
            None => DEFAULT_HEIGHT,
        }
    }

    /// The drawing context, once one was asked for.
    pub fn context(&self) -> (context: Option<CanvasContext>)
        ensures
            context == self.spec_context(),
    {
        self.context
    }

    /// The dimensions as a size.
    pub fn get_size(&self) -> (size: Size2D)
        ensures
            size == self.spec_size(),
            size.width == self.spec_width(),
            size.height == self.spec_height(),
    {
        let width: u32 = self.width();
        let height: u32 = self.height();
        Size2D { width: width as i32, height: height as i32 }
    }

    /// Gives the context's bitmap the dimensions of the element.
    pub fn recreate_contexts(&mut self)
        ensures
            final(self).width_attribute() == old(self).width_attribute(),
            final(self).height_attribute() == old(self).height_attribute(),
            final(self).spec_context() == resized(old(self).spec_context(), old(self).spec_size()),
    {
        proof {
            use_type_invariant(&*self);
        }
        let size = self.get_size();
        match self.context {
            Some(CanvasContext::Context2d(context)) => {
                self.context = Some(
                    CanvasContext::Context2d(CanvasRenderingContext2D { size, ..context }),
                );
            },
            None => {},
        }
    }

    /// Sets the width attribute, or removes it, and resizes the context's
    /// bitmap to match. A value beyond the largest that a dimension takes
    /// is replaced by the default.
    pub fn set_width(&mut self, value: Option<u32>)
        ensures
            final(self).width_attribute() == match value {
                Some(v) => Some(clamped(v, DEFAULT_WIDTH)),
                None => None,
            },
            final(self).height_attribute() == old(self).height_attribute(),
            final(self).spec_context() == resized(old(self).spec_context(), final(self).spec_size()),
    {
        proof {
            use_type_invariant(&*self);
        }
        self.width = match value {
            Some(v) => if v > UNSIGNED_LONG_MAX {
                Some(DEFAULT_WIDTH)
            } else {
                Some(v)
            },
            None => None,
        };
        self.recreate_contexts();
    }

    /// Sets the height attribute, or removes it, and resizes the context's
    /// bitmap to match. A value beyond the largest that a dimension takes
    /// is replaced by the default.
    pub fn set_height(&mut self, value: Option<u32>)
        ensures
            final(self).height_attribute() == match value {
                Some(v) => Some(clamped(v, DEFAULT_HEIGHT)),
                None => None,
            },
            final(self).width_attribute() == old(self).width_attribute(),
            final(self).spec_context() == resized(old(self).spec_context(), final(self).spec_size()),
    {
        proof {
            use_type_invariant(&*self);
        }
        self.height = match value {
            Some(v) => if v > UNSIGNED_LONG_MAX {
                Some(DEFAULT_HEIGHT)
            } else {
                Some(v)
            },
            None => None,
        };
        self.recreate_contexts();
    }

    /// Whether the bitmap may be read by the page: it may unless the
    /// context holds pixels of another origin.
    pub open spec fn spec_origin_is_clean(&self) -> bool {
        match self.spec_context() {
            Some(CanvasContext::Context2d(context)) => context.origin_clean,
            None => true,
        }
    }

    /// Tells whether the bitmap may be read by the page.
    pub fn origin_is_clean(&self) -> (clean: bool)
        ensures
            clean == self.spec_origin_is_clean(),
    {
        match self.context {
            Some(CanvasContext::Context2d(context)) => context.origin_clean,
            None => true,
        }
    }

    /// Records that pixels of another origin were drawn. Without a context
    /// nothing was drawn and nothing changes.
    pub fn set_origin_unclean(&mut self)
        ensures
            final(self).width_attribute() == old(self).width_attribute(),
            final(self).height_attribute() == old(self).height_attribute(),
            final(self).spec_context() == match old(self).spec_context() {
                Some(CanvasContext::Context2d(c)) => Some(
                    CanvasContext::Context2d(
                        CanvasRenderingContext2D { origin_clean: false, ..c },
                    ),
                ),
                None => None,
            },
    {
        proof {
            use_type_invariant(&*self);
        }
        match self.context {
            Some(CanvasContext::Context2d(context)) => {
                self.context = Some(
                    CanvasContext::Context2d(
                        CanvasRenderingContext2D { origin_clean: false, ..context },
                    ),
                );
            },
            None => {},
        }
    }

    /// Returns the 2D context, creating it first if the element has none.
    ///
    /// `canvas_id` is the painter's name for the bitmap of a context that
    /// is created now; it is not looked at where the element has a context
    /// already. A new context has a bitmap of the element's dimensions and
    /// a clean origin. An existing context stays as it is.
    pub fn get_or_init_2d_context(&mut self, canvas_id: CanvasId) -> (context: Option<
        CanvasRenderingContext2D,
    >)
        ensures
            final(self).width_attribute() == old(self).width_attribute(),
            final(self).height_attribute() == old(self).height_attribute(),
            final(self).spec_context() == Some(
                CanvasContext::Context2d(
                    ensured_context(old(self).spec_context(), canvas_id, old(self).spec_size()),
                ),
            ),
            context == Some(
                ensured_context(old(self).spec_context(), canvas_id, old(self).spec_size()),
            ),
    {
        proof {
            use_type_invariant(&*self);
        }
        if self.context.is_none() {
            let size = self.get_size();
            self.context = Some(
                CanvasContext::Context2d(
                    CanvasRenderingContext2D { canvas_id, size, origin_clean: true },
                ),
            );
        }
        match self.context {
            Some(CanvasContext::Context2d(context)) => Some(context),
            None => None,
        }
    }

    /// Returns the context of the given kind: the 2D context, created
    /// first if need be, for `2d`, and nothing for any other kind, in which
    /// case the element stays as it is.
    pub fn get_context(&mut self, id: &str, canvas_id: CanvasId) -> (context: Option<
        CanvasRenderingContext2D,
    >)
        ensures
            final(self).width_attribute() == old(self).width_attribute(),
            final(self).height_attribute() == old(self).height_attribute(),
            id@ == "2d"@ ==> final(self).spec_context() == Some(
                CanvasContext::Context2d(
                    ensured_context(old(self).spec_context(), canvas_id, old(self).spec_size()),
                ),
            ),
            id@ == "2d"@ ==> context == Some(
                ensured_context(old(self).spec_context(), canvas_id, old(self).spec_size()),
            ),
            id@ != "2d"@ ==> context is None,
            id@ != "2d"@ ==> final(self).spec_context() == old(self).spec_context(),
    {
        proof {
            use_type_invariant(&*self);
        }
        if is_2d(id) {
            self.get_or_init_2d_context(canvas_id)
        } else {
            None
        }
    }

    /// Tells whether the canvas has pixels: neither dimension is zero.
    pub fn is_valid(&self) -> (valid: bool)
        ensures
            valid == (self.spec_height() != 0 && self.spec_width() != 0),
    {
        self.height() != 0 && self.width() != 0
    }

    /// Returns the pixels of the canvas with its size.
    ///
    /// `canvas_pixels` is what the painter returned for the context's
    /// bitmap; it is not looked at where the element has no context. A
    /// canvas without pixels gives nothing. A canvas with a context gives
    /// what the painter returned, or nothing where the painter returned
    /// nothing. A canvas without a context gives a bitmap in which every
    /// byte is `0xff`, or nothing where this machine cannot address a
    /// bitmap of that size.
    pub fn fetch_all_data(&self, canvas_pixels: Option<Vec<u8>>) -> (data: Option<
        (Vec<u8>, Size2D),
    >)
        ensures
            !(self.spec_height() != 0 && self.spec_width() != 0) ==> data is None,
            self.spec_height() != 0 && self.spec_width() != 0 ==> match self.spec_context() {
                Some(_) => match canvas_pixels {
                    Some(pixels) => data == Some((pixels, self.spec_size())),
                    None => data is None,
                },
                None => if bitmap_len(self.spec_width(), self.spec_height()) <= usize::MAX {
                    data matches Some(filled) && filled.1 == self.spec_size() && filled.0@
                        == Seq::new(
                        bitmap_len(self.spec_width(), self.spec_height()) as nat,
                        |i: int| 0xffu8,
                    )
                } else {
                    data is None
                },
            },
    {
        proof {
            use_type_invariant(self);
        }
        let size = self.get_size();
        if size.width == 0 || size.height == 0 {
            return None;
        }
        match self.context {
            Some(_) => match canvas_pixels {
                Some(pixels) => Some((pixels, size)),
                None => None,
            },
            None => match checked_bitmap_len(self.width(), self.height()) {
                Some(len) => {
                    let pixels: Vec<u8> = vec![0xffu8; len];
                    assert(pixels@ == Seq::new(len as nat, |i: int| 0xffu8));
                    Some((pixels, size))
                },
                None => None,
            },
        }
    }

    /// The bitmap that is exported: the context's pixels, or transparent
    /// black where the element has no context.
    pub open spec fn exported_pixels(&self, image_data: Seq<u8>) -> Seq<u8> {
        match self.spec_context() {
            Some(_) => image_data,
            None => Seq::new(
                bitmap_len(self.spec_width(), self.spec_height()) as nat,
                |i: int| 0u8,
            ),
        }
    }

    /// The error that stops an export before anything is encoded, if one
    /// does: pixels of another origin come first, then a bitmap beyond
    /// what this machine addresses, then pixels that do not fill the
    /// bitmap. A canvas without pixels is exported in any state.
    pub open spec fn export_error(&self, image_data: Seq<u8>) -> Option<Error> {
        let len = bitmap_len(self.spec_width(), self.spec_height());
        if !self.spec_origin_is_clean() {
            Some(Error::Security)
        } else if self.spec_width() == 0 || self.spec_height() == 0 {
            None
        } else if len > usize::MAX || 32 * self.spec_width() > usize::MAX {
            Some(Error::Encoding)
        } else if self.spec_context() is Some && image_data.len() != len {
            Some(Error::InvalidState)
        } else {
            None
        }
    }

    /// The outcome of an export: the error that stops it early, if one
    /// does; `data:,` for a canvas without pixels; else what the encoder's
    /// outcome on the exported pixels amounts to.
    pub open spec fn exported_url(&self, image_data: Seq<u8>) -> Result<Seq<char>, Error> {
        match self.export_error(image_data) {
            Some(error) => Err(error),
            None => if self.spec_width() == 0 || self.spec_height() == 0 {
                Ok(empty_data_url())
            } else {
                png_data_url(
                    png_rgba8(
                        self.exported_pixels(image_data),
                        self.spec_width(),
                        self.spec_height(),
                    ),
                )
            },
        }
    }

    /// Exports the canvas as a `data:` address.
    ///
    /// `image_data` is the context's bitmap as the painter holds it, in
    /// 8-bit RGBA; it is not looked at where the element has no context.
    /// The export fails as `export_error` says. A canvas without pixels
    /// gives `data:,`. Every other canvas gives the PNG address of the
    /// exported pixels, or an error where the encoder reports one.
    pub fn to_data_url(&self, image_data: &Vec<u8>) -> (result: Result<String, Error>)
        ensures
            text_of(result) == self.exported_url(image_data@),
    {
        proof {
            use_type_invariant(self);
        }
        if !self.origin_is_clean() {
            return Err(Error::Security);
        }
        let width: u32 = self.width();
        let height: u32 = self.height();
        if width == 0 || height == 0 {
            return Ok(String::from_str("data:,"));
        }
        let len: usize = match checked_bitmap_len(width, height) {
            Some(len) => len,
            None => {
                return Err(Error::Encoding);
            },
        };
        if !row_fits(width) {
            return Err(Error::Encoding);
        }
        let encoded = match self.context {
            Some(_) => {
                if image_data.len() != len {
                    return Err(Error::InvalidState);
                }
                png_encode_rgba8(image_data, width, height)
            },
            None => {
                let blank: Vec<u8> = vec![0u8; len];
                assert(blank@ == Seq::new(len as nat, |i: int| 0u8));
                png_encode_rgba8(&blank, width, height)
            },
        };
        data_url_from_png(encoded)
    }
}

impl LayoutHTMLCanvasElementHelpers for HTMLCanvasElement {
    /// Everything layout needs to know of the canvas: where its pixels
    /// are, its dimensions with the defaults for absent attributes, and the
    /// painter's name for its bitmap.
    fn data(&self) -> (data: HTMLCanvasData)
        ensures
            data.source == HTMLCanvasDataSource::Image(
                match self.spec_context() {
                    Some(CanvasContext::Context2d(c)) => Some(c.canvas_id),
                    None => None,
                },
            ),
            data.width == self.spec_width(),
            data.height == self.spec_height(),
            data.canvas_id == match self.spec_context() {
                Some(CanvasContext::Context2d(c)) => c.canvas_id,
                None => no_canvas(),
            },
    {
        let source = match self.context {
            Some(CanvasContext::Context2d(context)) => HTMLCanvasDataSource::Image(
                Some(context.canvas_id),
            ),
            None => HTMLCanvasDataSource::Image(None),
        };
        HTMLCanvasData {
            source,
            width: self.width(),
            height: self.height(),
            canvas_id: self.get_canvas_id_for_layout(),
        }
    }

    /// The width that the element states.
    fn get_width(&self) -> (width: LengthOrPercentageOrAuto)
        ensures
            width == stated_length(self.width_attribute()),
    {
        match self.width {
            Some(value) => LengthOrPercentageOrAuto::Length(value),
            None => LengthOrPercentageOrAuto::Auto,
        }
    }

    /// The height that the element states.
    fn get_height(&self) -> (height: LengthOrPercentageOrAuto)
        ensures
            height == stated_length(self.height_attribute()),
    {
        match self.height {
            Some(value) => LengthOrPercentageOrAuto::Length(value),
            None => LengthOrPercentageOrAuto::Auto,
        }
    }

    /// The painter's name for the bitmap, or the name that stands for no
    /// bitmap where the element has no context.
    fn get_canvas_id_for_layout(&self) -> (id: CanvasId)
        ensures
            id == match self.spec_context() {
                Some(CanvasContext::Context2d(c)) => c.canvas_id,
                None => no_canvas(),
            },
    {
        match self.context {
            Some(CanvasContext::Context2d(context)) => context.canvas_id,
            None => CanvasId(0),
        }
    }
}

/// Tells whether a kind of context is the 2D kind.
fn is_2d(id: &str) -> (yes: bool)
    ensures
        yes == (id@ == "2d"@),
{
    proof {
        reveal_strlit("2d");
    }
    if id.unicode_len() != 2 {
        return false;
    }
    let first = id.get_char(0);
    let second = id.get_char(1);
    let yes = first == '2' && second == 'd';
    assert(yes ==> id@ =~= "2d"@);
    yes
}

} // verus!
