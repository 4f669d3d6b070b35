//! PNG encoding and base64 data-URI transport.
//!
//! Encoding goes through the `image` crate's PNG encoder, which is
//! deterministic: the same samples, dimensions and compression choice
//! always give the same byte stream. The data-URI step is purely a
//! formatting step — standard base64 with padding behind a fixed MIME
//! prefix — and is implemented and verified here; it never re-encodes.
use vstd::prelude::*;
use vstd::string::StringExecFns;
use crate::EncodeError;
use crate::pixels::PixelBuffer;

verus! {

/// The PNG compression trade-off a caller may pick: `Fast` favors latency,
/// `Best` favors output size.
#[derive(Clone, Copy, PartialEq, Eq, Structural, Debug)]
pub enum Compression {
    Fast,
    Best,
}

/// The container format an encoded image declares.
#[derive(Clone, Copy, PartialEq, Eq, Structural, Debug)]
pub enum ImageFormat {
    Png,
}

/// An encoded image: a byte stream with its declared format.
#[derive(Debug)]
pub struct EncodedImage {
    /// The declared container format.
    pub format: ImageFormat,
    /// The encoded stream.
    pub bytes: Vec<u8>,
}

/// The PNG stream the encoder produces for the given RGBA8 samples,
/// dimensions and compression choice. The encoder is deterministic, so the
/// stream is a function of these arguments alone; its exact shape would
/// take pages to state, so it is given a name instead.
pub uninterp spec fn png_stream_of(data: Seq<u8>, width: u32, height: u32, best: bool) -> Seq<u8>;

/// Relies on the `image` crate's `PngEncoder::write_image` (via the
/// `ImageEncoder` impl): writing RGBA8 samples whose length matches the
/// nonzero dimensions into a fresh byte vector succeeds — its only failure
/// sources are zero dimensions, a length mismatch, an unsupported color
/// layout, or sink I/O, none of which can occur here — and the produced
/// stream depends on samples, dimensions and compression choice alone.
/// `best` selects size-optimized compression with the adaptive filter;
/// otherwise the speed-optimized compression with the Paeth filter is used.
#[verifier::external_body]
fn png_encode_rgba(data: &Vec<u8>, width: u32, height: u32, best: bool) -> (r: Vec<u8>)
    requires
        width >= 1,
        height >= 1,
        data@.len() == width * height * 4,
    ensures
        r@ == png_stream_of(data@, width, height, best),
{
    let mut out: Vec<u8> = Vec::new();
    let (compression, filter) = if best {
        (image::codecs::png::CompressionType::Best, image::codecs::png::FilterType::Adaptive)
    } else {
        (image::codecs::png::CompressionType::Fast, image::codecs::png::FilterType::Paeth)
    };
    let encoder = image::codecs::png::PngEncoder::new_with_quality(&mut out, compression, filter);
    image::ImageEncoder::write_image(
        encoder,
        data,
        width,
        height,
        image::ExtendedColorType::Rgba8,
    ).expect("PNG encoding of a well-formed RGBA8 buffer into a byte vector");
    out
}

/// Encodes a pixel buffer as PNG. Succeeds on every valid buffer with the
/// deterministic stream of the chosen compression; fails with
/// `EncodeError` exactly when the buffer invariant is violated.
pub fn encode_png(buffer: &PixelBuffer, compression: Compression) -> (r: Result<
    EncodedImage,
    EncodeError,
>)
    ensures
        buffer.valid() ==> (r matches Ok(img) && img.format == ImageFormat::Png && img.bytes@
            == png_stream_of(
            buffer.data@,
            buffer.width,
            buffer.height,
            compression is Best,
        )),
        !buffer.valid() ==> (r matches Err(EncodeError::InvalidBuffer)),
{
    if !buffer.is_valid() {
        return Err(EncodeError::InvalidBuffer);
    }
    let best = match compression {
        Compression::Best => true,
        Compression::Fast => false,
    };
    let bytes = png_encode_rgba(&buffer.data, buffer.width, buffer.height, best);
    Ok(EncodedImage { format: ImageFormat::Png, bytes })
}

/// The base64 digit of a 6-bit value, from the standard alphabet
/// `A-Z a-z 0-9 + /`.
pub open spec fn base64_digit(v: int) -> char {
    if 0 <= v < 26 {
        ((65 + v) as u8) as char
    } else if 26 <= v < 52 {
        ((97 + (v - 26)) as u8) as char
    } else if 52 <= v < 62 {
        ((48 + (v - 52)) as u8) as char
    } else if v == 62 {
        '+'
    } else {
        '/'
    }
}

/// Standard base64 with `=` padding: each full group of three bytes
/// becomes four digits; a trailing group of one or two bytes is padded to
/// four characters.
pub open spec fn base64_of(s: Seq<u8>) -> Seq<char>
    decreases s.len(),
{
    if s.len() == 0 {
        Seq::empty()
    } else if s.len() == 1 {
        let b0 = s[0] as int;
        seq![base64_digit(b0 / 4), base64_digit((b0 % 4) * 16), '=', '=']
    } else if s.len() == 2 {
        let b0 = s[0] as int;
        let b1 = s[1] as int;
        seq![
            base64_digit(b0 / 4),
            base64_digit((b0 % 4) * 16 + b1 / 16),
            base64_digit((b1 % 16) * 4),
            '=',
        ]
    } else {
        let b0 = s[0] as int;
        let b1 = s[1] as int;
        let b2 = s[2] as int;
        seq![
            base64_digit(b0 / 4),
            base64_digit((b0 % 4) * 16 + b1 / 16),
            base64_digit((b1 % 16) * 4 + b2 / 64),
            base64_digit(b2 % 64),
        ] + base64_of(s.skip(3))
    }
}

/// Base64 of a byte sequence splits at any boundary that is a multiple of
/// three bytes.
pub proof fn lemma_base64_append(s: Seq<u8>, t: Seq<u8>)
    requires
        s.len() % 3 == 0,
    ensures
        base64_of(s + t) == base64_of(s) + base64_of(t),
    decreases s.len(),
{
    if s.len() == 0 {
        assert(s + t =~= t);
        assert(base64_of(s) + base64_of(t) =~= base64_of(t));
    } else {
        assert((s + t)[0] == s[0]);
        assert((s + t)[1] == s[1]);
        assert((s + t)[2] == s[2]);
        assert((s + t).skip(3) =~= s.skip(3) + t);
        lemma_base64_append(s.skip(3), t);
        assert(base64_of(s + t) =~= base64_of(s) + base64_of(t));
    }
}

/// The exec twin of `base64_digit`.
fn base64_digit_char(v: u8) -> (c: char)
    requires
        v < 64,
    ensures
        c == base64_digit(v as int),
{
    if v < 26 {
        (65 + v) as char
    } else if v < 52 {
        (97 + (v - 26)) as char
    } else if v < 62 {
        (48 + (v - 52)) as char
    } else if v == 62 {
        '+'
    } else {
        '/'
    }
}

/// Relies on `String::push`: appends the given character to the end of the
/// string.
#[verifier::external_body]
fn push_char(s: &mut String, c: char)
    ensures
        final(s)@ == old(s)@.push(c),
{
    s.push(c);
}

/// Encodes a byte vector as standard base64 with padding.
pub fn base64_encode(bytes: &Vec<u8>) -> (r: String)
    ensures
        r@ == base64_of(bytes@),
{
    let n = bytes.len();
    let mut out = String::new();
    let mut i: usize = 0;
    while n - i >= 3
        invariant
            n == bytes@.len(),
            0 <= i,
            i % 3 == 0,
            i <= n,
            out@ == base64_of(bytes@.take(i as int)),
        decreases n - i,
    {
        let b0 = bytes[i];
        let b1 = bytes[i + 1];
        let b2 = bytes[i + 2];
        push_char(&mut out, base64_digit_char(b0 / 4));
        push_char(&mut out, base64_digit_char((b0 % 4) * 16 + b1 / 16));
        push_char(&mut out, base64_digit_char((b1 % 16) * 4 + b2 / 64));
        push_char(&mut out, base64_digit_char(b2 % 64));
        proof {
            let pre = bytes@.take(i as int);
            let grp = seq![b0, b1, b2];
            assert(bytes@.take(i as int + 3) =~= pre + grp);
            lemma_base64_append(pre, grp);
            assert(grp.skip(3) =~= Seq::<u8>::empty());
            assert(base64_of(Seq::<u8>::empty()) == Seq::<char>::empty());
            assert(base64_of(grp) =~= seq![
                base64_digit(b0 as int / 4),
                base64_digit((b0 as int % 4) * 16 + b1 as int / 16),
                base64_digit((b1 as int % 16) * 4 + b2 as int / 64),
                base64_digit(b2 as int % 64),
            ]);
            assert(out@ =~= base64_of(bytes@.take(i as int + 3)));
        }
        i += 3;
    }
    proof {
        let pre = bytes@.take(i as int);
        let rest = bytes@.skip(i as int);
        assert(bytes@ =~= pre + rest);
        lemma_base64_append(pre, rest);
    }
    if n - i == 1 {
        let b0 = bytes[i];
        push_char(&mut out, base64_digit_char(b0 / 4));
        push_char(&mut out, base64_digit_char((b0 % 4) * 16));
        push_char(&mut out, '=');
        push_char(&mut out, '=');
        proof {
            assert(out@ =~= base64_of(bytes@));
        }
    } else if n - i == 2 {
        let b0 = bytes[i];
        let b1 = bytes[i + 1];
        push_char(&mut out, base64_digit_char(b0 / 4));
        push_char(&mut out, base64_digit_char((b0 % 4) * 16 + b1 / 16));
        push_char(&mut out, base64_digit_char((b1 % 16) * 4));
        push_char(&mut out, '=');
        proof {
            assert(out@ =~= base64_of(bytes@));
        }
    } else {
        proof {
            assert(bytes@.skip(i as int).len() == 0);
            assert(out@ =~= base64_of(bytes@));
        }
    }
    out
}

/// The fixed MIME prefix of a PNG data URI.
pub open spec fn data_uri_prefix() -> Seq<char> {
    "data:image/png;base64,"@
}

/// Wraps an encoded image as a base64 data URI with the fixed
/// `data:image/png;base64,` prefix. Purely a formatting step: the PNG
/// bytes are transported unchanged, never re-encoded.
pub fn to_data_uri(img: &EncodedImage) -> (r: String)
    ensures
        r@ == data_uri_prefix() + base64_of(img.bytes@),
{
    let mut out = String::from_str("data:image/png;base64,");
    let digits = base64_encode(&img.bytes);
    out.append(digits.as_str());
    out
}

} // verus!
