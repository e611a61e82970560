use vstd::prelude::*;

verus! {

/// The channel arrangement of a pixel type, as a raster codec needs it.
#[derive(Clone, Copy, Debug, PartialEq, Eq, Structural)]
pub enum ColorFormat {
    Grayscale,
    Rgb,
    Rgba,
}

/// What a raster codec needs to know of a pixel type: its channel
/// arrangement, its bit depth and the bytes of one pixel.
pub trait ColorFn: Sized {
    /// The channel arrangement of this pixel type.
    spec fn format_spec() -> ColorFormat;

    /// The number of bytes one pixel of this type takes.
    spec fn byte_length_spec() -> nat;

    /// The bytes of this pixel, channel by channel, in file order.
    spec fn raw_bytes_spec(self) -> Seq<u8>;

    fn color_format() -> (f: ColorFormat)
        ensures
            f == Self::format_spec(),
    ;

    /// Bits per channel; eight for every pixel type of this library.
    fn bit_depth() -> (d: u8)
        ensures
            d == 8,
    ;

    fn byte_length() -> (n: usize)
        ensures
            n as nat == Self::byte_length_spec(),
    ;

    fn to_raw_bytes(self) -> (bytes: Vec<u8>)
        ensures
            bytes@ == self.raw_bytes_spec(),
            bytes@.len() == Self::byte_length_spec(),
    ;
}

/// An opaque pixel with red, green and blue channels.
#[derive(Clone, Copy, Debug, PartialEq, Eq, Structural)]
pub struct Rgb8 {
    pub r: u8,
    pub g: u8,
    pub b: u8,
}

impl Rgb8 {
    pub fn new(r: u8, g: u8, b: u8) -> (c: Rgb8)
        ensures
            c == (Rgb8 { r, g, b }),
    {
        Rgb8 { r, g, b }
    }

    /// Full-intensity white.
    pub fn white() -> (c: Rgb8)
        ensures
            c == (Rgb8 { r: 255, g: 255, b: 255 }),
    {
        Rgb8::new(255, 255, 255)
    }

    /// Black.
    pub fn black() -> (c: Rgb8)
        ensures
            c == (Rgb8 { r: 0, g: 0, b: 0 }),
    {
        Rgb8::new(0, 0, 0)
    }
}

impl ColorFn for Rgb8 {
    open spec fn format_spec() -> ColorFormat {
        ColorFormat::Rgb
    }

    open spec fn byte_length_spec() -> nat {
        3
    }

    open spec fn raw_bytes_spec(self) -> Seq<u8> {
        seq![self.r, self.g, self.b]
    }

    fn color_format() -> (f: ColorFormat) {
        ColorFormat::Rgb
    }

    fn bit_depth() -> (d: u8) {
        8
    }

    fn byte_length() -> (n: usize) {
        3
    }

    fn to_raw_bytes(self) -> (bytes: Vec<u8>) {
        let bytes = vec![self.r, self.g, self.b];
        assert(bytes@ =~= self.raw_bytes_spec());
        bytes
    }
}

/// A pixel with red, green and blue channels and a straight
/// (not premultiplied) opacity: 0 is transparent, 255 opaque.
#[derive(Clone, Copy, Debug, PartialEq, Eq, Structural)]
pub struct Rgba8 {
    pub r: u8,
    pub g: u8,
    pub b: u8,
    pub a: u8,
}

impl Rgba8 {
    pub fn new(r: u8, g: u8, b: u8, a: u8) -> (c: Rgba8)
        ensures
            c == (Rgba8 { r, g, b, a }),
    {
        Rgba8 { r, g, b, a }
    }

    /// Opaque white.
    pub fn white() -> (c: Rgba8)
        ensures
            c == (Rgba8 { r: 255, g: 255, b: 255, a: 255 }),
    {
        Rgba8::new(255, 255, 255, 255)
    }

    /// Opaque black.
    pub fn black() -> (c: Rgba8)
        ensures
            c == (Rgba8 { r: 0, g: 0, b: 0, a: 255 }),
    {
        Rgba8::new(0, 0, 0, 255)
    }

    /// Fully transparent black.
    pub fn transparent() -> (c: Rgba8)
        ensures
            c == (Rgba8 { r: 0, g: 0, b: 0, a: 0 }),
    {
        Rgba8::new(0, 0, 0, 0)
    }

    /// The red channel scaled by the opacity.
    pub fn weighed_r(&self) -> (w: u16)
        ensures
            w == self.r * self.a,
    {
        proof { lemma_byte_product(self.r, self.a); }
        self.r as u16 * self.a as u16
    }

    /// The green channel scaled by the opacity.
    pub fn weighed_g(&self) -> (w: u16)
        ensures
            w == self.g * self.a,
    {
        proof { lemma_byte_product(self.g, self.a); }
        self.g as u16 * self.a as u16
    }

    /// The blue channel scaled by the opacity.
    pub fn weighed_b(&self) -> (w: u16)
        ensures
            w == self.b * self.a,
    {
        proof { lemma_byte_product(self.b, self.a); }
        self.b as u16 * self.a as u16
    }
}

/// The product of two bytes fits in 16 bits.
proof fn lemma_byte_product(x: u8, y: u8)
    ensures
        0 <= x * y <= 255 * 255,
{
    assert(0 <= x * y <= 255 * 255) by (nonlinear_arith)
        requires
            0 <= x <= 255,
            0 <= y <= 255,
    ;
}

impl ColorFn for Rgba8 {
    open spec fn format_spec() -> ColorFormat {
        ColorFormat::Rgba
    }

    open spec fn byte_length_spec() -> nat {
        4
    }

    open spec fn raw_bytes_spec(self) -> Seq<u8> {
        seq![self.r, self.g, self.b, self.a]
    }

    fn color_format() -> (f: ColorFormat) {
        ColorFormat::Rgba
    }

    fn bit_depth() -> (d: u8) {
        8
    }

    fn byte_length() -> (n: usize) {
        4
    }

    fn to_raw_bytes(self) -> (bytes: Vec<u8>) {
        let bytes = vec![self.r, self.g, self.b, self.a];
        assert(bytes@ =~= self.raw_bytes_spec());
        bytes
    }
}

/// A grayscale pixel: one luminance channel, always opaque.
#[derive(Clone, Copy, Debug, PartialEq, Eq, Structural)]
pub struct Grey8(pub u8);

impl Grey8 {
    pub fn new(grey: u8) -> (c: Grey8)
        ensures
            c == Grey8(grey),
    {
        Grey8(grey)
    }

    /// Full-intensity white.
    pub fn white() -> (c: Grey8)
        ensures
            c == Grey8(255),
    {
        Grey8::new(255)
    }

    /// Black.
    pub fn black() -> (c: Grey8)
        ensures
            c == Grey8(0),
    {
        Grey8::new(0)
    }
}

impl ColorFn for Grey8 {
    open spec fn format_spec() -> ColorFormat {
        ColorFormat::Grayscale
    }

    open spec fn byte_length_spec() -> nat {
        1
    }

    open spec fn raw_bytes_spec(self) -> Seq<u8> {
        seq![self.0]
    }

    fn color_format() -> (f: ColorFormat) {
        ColorFormat::Grayscale
    }

    fn bit_depth() -> (d: u8) {
        8
    }

    fn byte_length() -> (n: usize) {
        1
    }

    fn to_raw_bytes(self) -> (bytes: Vec<u8>) {
        let bytes = vec![self.0];
        assert(bytes@ =~= self.raw_bytes_spec());
        bytes
    }
}

} // verus!
