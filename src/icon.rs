//! Icon extraction: parse an ICNS container, pick one image by a fixed size
//! preference, re-encode it as PNG and return the PNG as standard base64.
use vstd::prelude::*;

use base64::Engine;
use icns::{IconFamily, IconType, Image, OSType};

verus! {

#[verifier::external_type_specification]
#[verifier::external_body]
pub struct ExIconFamily(icns::IconFamily);

#[verifier::external_type_specification]
#[verifier::external_body]
pub struct ExImage(icns::Image);

#[verifier::external_type_specification]
#[verifier::external_body]
pub struct ExIoError(std::io::Error);

/// Why an icon container could not be turned into a payload.
#[derive(Debug, Clone, Copy, PartialEq, Eq, Structural)]
pub enum ExtractionError {
    /// The container could not be read.
    Unreadable,
    /// The bytes are not a well-formed ICNS container, or the chosen image
    /// in it cannot be decoded.
    Malformed,
    /// The container holds no complete image.
    Empty,
    /// The selected image could not be written as PNG.
    EncodeFailed,
}

/// Four-character ICNS type code read as a big-endian integer: "icp6", 64x64 RGBA.
pub const ICON_64_RGBA: u32 = 0x69637036;

/// "it32": 128x128 RGB with an 8-bit mask.
pub const ICON_128_RGB: u32 = 0x69743332;

/// "il32": 32x32 RGB with an 8-bit mask.
pub const ICON_32_RGB: u32 = 0x696c3332;

/// "ih32": 48x48 RGB with an 8-bit mask.
pub const ICON_48_RGB: u32 = 0x69683332;

/// The four magic bytes that open every ICNS container ("icns").
pub open spec fn icns_magic() -> Seq<u8> {
    seq![0x69u8, 0x63u8, 0x6eu8, 0x73u8]
}

/// Big-endian value of four bytes.
pub open spec fn be_u32(b: Seq<u8>) -> int {
    b[0] as int * 0x1000000 + b[1] as int * 0x10000 + b[2] as int * 0x100 + b[3] as int
}

/// A container that has a valid header and declares no content past it.
pub open spec fn header_only(data: Seq<u8>) -> bool {
    &&& data.len() >= 8
    &&& data.subrange(0, 4) == icns_magic()
    &&& be_u32(data.subrange(4, 8)) <= 8
}

/// The family that icns parses from some bytes, if they parse.
pub uninterp spec fn family_of(data: Seq<u8>) -> Option<IconFamily>;

/// The complete (non-mask) icon types of a parsed family, as type codes,
/// in the family's own element order.
pub uninterp spec fn available_codes(f: IconFamily) -> Seq<u32>;

/// The elements of a parsed family, in order: type code and raw data.
pub uninterp spec fn family_elements(f: IconFamily) -> Seq<(u32, Seq<u8>)>;

/// The image that icns decodes from a family for a type code, if it decodes.
pub uninterp spec fn icon_image(f: IconFamily, code: u32) -> Option<Image>;

/// The PNG bytes that icns writes for an image, if writing succeeds.
pub uninterp spec fn png_of(img: Image) -> Option<Seq<u8>>;

/// Standard-alphabet, padded base64 text of some bytes.
pub uninterp spec fn base64_of(b: Seq<u8>) -> Seq<char>;

/// A character of the standard base64 alphabet, or the padding character.
pub open spec fn base64_char(c: char) -> bool {
    ('A' <= c <= 'Z') || ('a' <= c <= 'z') || ('0' <= c <= '9') || c == '+' || c == '/' || c == '='
}

/// The image type chosen from the complete types a container offers:
/// 64x64, then 128x128, then 32x32, then 48x48 (the later entries of the
/// preference list repeat earlier ones), else the first type the container
/// lists, else none.
pub open spec fn chosen_icon(avail: Seq<u32>) -> Option<u32> {
    if avail.contains(ICON_64_RGBA) {
        Some(ICON_64_RGBA)
    } else if avail.contains(ICON_128_RGB) {
        Some(ICON_128_RGB)
    } else if avail.contains(ICON_32_RGB) {
        Some(ICON_32_RGB)
    } else if avail.contains(ICON_48_RGB) {
        Some(ICON_48_RGB)
    } else if avail.len() > 0 {
        Some(avail[0])
    } else {
        None
    }
}

/// The icon types whose elements hold PNG (or JPEG 2000) data: the 32-bit
/// RGBA types "icp4", "ic11", "icp5", "ic12", "icp6", "ic07", "ic13",
/// "ic08", "ic14", "ic09" and "ic10".
pub open spec fn png_coded(code: u32) -> bool {
    code == 0x69637034u32 || code == 0x69633131u32 || code == 0x69637035u32 || code
        == 0x69633132u32 || code == 0x69637036u32 || code == 0x69633037u32 || code
        == 0x69633133u32 || code == 0x69633038u32 || code == 0x69633134u32 || code
        == 0x69633039u32 || code == 0x69633130u32
}

/// The eight-byte PNG signature opens `d`.
pub open spec fn png_signed(d: Seq<u8>) -> bool {
    &&& d.len() >= 8
    &&& d[0] == 0x89u8 && d[1] == 0x50u8 && d[2] == 0x4eu8 && d[3] == 0x47u8
    &&& d[4] == 0x0du8 && d[5] == 0x0au8 && d[6] == 0x1au8 && d[7] == 0x0au8
}

/// The chunk type "IHDR" stands at offset `i` of `d`.
pub open spec fn ihdr_at(d: Seq<u8>, i: int) -> bool {
    d[i] == 0x49u8 && d[i + 1] == 0x48u8 && d[i + 2] == 0x44u8 && d[i + 3] == 0x52u8
}

/// A PNG dimension field, between 1 and 1024 (the largest icon side).
pub open spec fn side_in_range(d: Seq<u8>, at: int) -> bool {
    d[at] == 0 && d[at + 1] == 0 && 1 <= d[at + 2] as int * 256 + d[at + 3] as int <= 1024
}

/// Big-endian value of the four bytes of `d` at offset `p`.
pub open spec fn be_u32_at(d: Seq<u8>, p: int) -> int {
    d[p] as int * 0x1000000 + d[p + 1] as int * 0x10000 + d[p + 2] as int * 0x100 + d[p + 3] as int
}

/// No chunk of the PNG data `d`, from the chunk that starts at offset `p`
/// on, has the type "IHDR". A chunk is a four-byte length, a four-byte type,
/// that many data bytes and a four-byte checksum.
pub open spec fn no_header_chunk_from(d: Seq<u8>, p: int) -> bool
    decreases d.len() - p,
{
    if p < 0 || p + 8 > d.len() {
        true
    } else if ihdr_at(d, p + 4) {
        false
    } else {
        let next = p + 12 + be_u32_at(d, p);
        if next > d.len() {
            true
        } else {
            no_header_chunk_from(d, next)
        }
    }
}

/// PNG data that can be handed to the decoder without risk: it is not PNG at
/// all (the decoder rejects it at the signature), or its header chunk comes
/// first, declares a width and a height of at most 1024 pixels, and no later
/// chunk is a second header.
pub open spec fn png_header_safe(d: Seq<u8>) -> bool {
    png_signed(d) ==> {
        &&& d.len() >= 24
        &&& ihdr_at(d, 12)
        &&& side_in_range(d, 16)
        &&& side_in_range(d, 20)
        &&& no_header_chunk_from(d, 20 + be_u32_at(d, 8))
    }
}

/// `k` is the first element of the family with the given type code.
pub open spec fn first_with_code(elems: Seq<(u32, Seq<u8>)>, code: u32, k: int) -> bool {
    &&& 0 <= k < elems.len()
    &&& elems[k].0 == code
    &&& forall|j: int| 0 <= j < k ==> elems[j].0 != code
}

/// Decoding the image of `code` touches no PNG header that could make the
/// decoder allocate without bound.
pub open spec fn decode_safe(f: IconFamily, code: u32) -> bool {
    forall|k: int|
        first_with_code(family_elements(f), code, k) && png_coded(code) ==> png_header_safe(
            family_elements(f)[k].1,
        )
}

/// The payload for one type code of a family.
pub open spec fn code_payload(f: IconFamily, code: u32) -> Result<Seq<char>, ExtractionError> {
    if !decode_safe(f, code) {
        Err(ExtractionError::Malformed)
    } else {
        match icon_image(f, code) {
            None => Err(ExtractionError::Malformed),
            Some(img) => match png_of(img) {
                None => Err(ExtractionError::EncodeFailed),
                Some(png) => Ok(base64_of(png)),
            },
        }
    }
}

/// The payload of a parsed family.
pub open spec fn family_payload(f: IconFamily) -> Result<Seq<char>, ExtractionError> {
    match chosen_icon(available_codes(f)) {
        None => Err(ExtractionError::Empty),
        Some(code) => code_payload(f, code),
    }
}

/// The payload extracted from the bytes of a container. A container cannot
/// be longer than its four-byte length field allows.
pub open spec fn extraction(data: Seq<u8>) -> Result<Seq<char>, ExtractionError> {
    if data.len() > u32::MAX {
        Err(ExtractionError::Malformed)
    } else {
        match family_of(data) {
            None => Err(ExtractionError::Malformed),
            Some(f) => family_payload(f),
        }
    }
}

/// The payload of a container given as the bytes read from it, if read.
pub open spec fn container_extraction(container: Option<Seq<u8>>) -> Result<Seq<char>, ExtractionError> {
    match container {
        None => Err(ExtractionError::Unreadable),
        Some(d) => extraction(d),
    }
}

/// The payload of a container, absent on any failure.
pub open spec fn icon_payload(container: Option<Seq<u8>>) -> Option<Seq<char>> {
    match container_extraction(container) {
        Ok(p) => Some(p),
        Err(_) => None,
    }
}

/// The text of a result, with its error kept.
pub open spec fn text_result(r: Result<String, ExtractionError>) -> Result<Seq<char>, ExtractionError> {
    match r {
        Ok(s) => Ok(s@),
        Err(e) => Err(e),
    }
}

/// The text of an optional string.
pub open spec fn text_option(o: Option<String>) -> Option<Seq<char>> {
    match o {
        Some(s) => Some(s@),
        None => None,
    }
}

/// The bytes of a container as read, if it could be read.
pub open spec fn bytes_of(c: Option<&[u8]>) -> Option<Seq<u8>> {
    match c {
        Some(d) => Some(d@),
        None => None,
    }
}

/// Relies on icns::IconFamily::read over an in-memory reader: the family is
/// a function of the bytes; reading fails when fewer than eight header bytes
/// are present or the magic is wrong, and yields a family with no elements
/// when the declared length ends at the header. Its running position is a
/// `u32`, so the input is kept within that range.
#[verifier::external_body]
fn read_family(data: &[u8]) -> (r: Result<IconFamily, std::io::Error>)
    requires
        data@.len() <= u32::MAX,
    ensures
        r is Ok <==> family_of(data@) is Some,
        r is Ok ==> r->Ok_0 == family_of(data@)->Some_0,
        data@.len() < 8 ==> r is Err,
        data@.len() >= 4 && data@.subrange(0, 4) != icns_magic() ==> r is Err,
        header_only(data@) ==> r is Ok && available_codes(r->Ok_0) == Seq::<u32>::empty(),
{
    IconFamily::read(data)
}

/// Relies on icns::IconFamily::available_icons: the complete icon types, each
/// given as its four-character code.
#[verifier::external_body]
fn icon_codes(f: &IconFamily) -> (r: Vec<u32>)
    ensures
        r@ == available_codes(*f),
{
    f.available_icons().iter().map(|t| u32::from_be_bytes(t.ostype().0)).collect()
}

/// Relies on the public `elements` of icns::IconFamily: each element's type
/// code and data, in order.
#[verifier::external_body]
fn element_list(f: &IconFamily) -> (r: Vec<(u32, Vec<u8>)>)
    ensures
        r@.len() == family_elements(*f).len(),
        forall|i: int|
            0 <= i < r@.len() ==> r@[i].0 == family_elements(*f)[i].0 && r@[i].1@ == family_elements(
                *f,
            )[i].1,
{
    f.elements.iter().map(|e| (u32::from_be_bytes(e.ostype.0), e.data.clone())).collect()
}

/// Relies on icns::IconFamily::get_icon_with_type: decodes the image of the
/// type with the given code; a code that names no icon type finds no element.
/// Its PNG decoder sizes a buffer from the PNG header unchecked, so only
/// families whose header for this code is safe are passed.
#[verifier::external_body]
fn decode_icon(f: &IconFamily, code: u32) -> (r: Result<Image, std::io::Error>)
    requires
        decode_safe(*f, code),
    ensures
        r is Ok <==> icon_image(*f, code) is Some,
        r is Ok ==> r->Ok_0 == icon_image(*f, code)->Some_0,
{
    match IconType::from_ostype(OSType(code.to_be_bytes())) {
        Some(t) => f.get_icon_with_type(t),
        None => Err(std::io::Error::from(std::io::ErrorKind::NotFound)),
    }
}

/// Relies on icns::Image::write_png, writing into an in-memory buffer.
#[verifier::external_body]
fn write_png(img: &Image) -> (r: Result<Vec<u8>, std::io::Error>)
    ensures
        r is Ok <==> png_of(*img) is Some,
        r is Ok ==> (r->Ok_0)@ == png_of(*img)->Some_0,
{
    let mut buffer: Vec<u8> = Vec::new();
    img.write_png(&mut buffer).map(|_| buffer)
}

/// Relies on base64's standard engine (standard alphabet, with padding).
#[verifier::external_body]
fn encode_base64(b: &[u8]) -> (r: String)
    ensures
        r@ == base64_of(b@),
        r@.len() == 4 * ((b@.len() + 2) / 3),
        forall|i: int| 0 <= i < r@.len() ==> base64_char(#[trigger] r@[i]),
{
    base64::engine::general_purpose::STANDARD.encode(b)
}

/// Extraction gives the same result for the same bytes, every time.
pub proof fn lemma_extraction_deterministic(a: Seq<u8>, b: Seq<u8>)
    requires
        a == b,
    ensures
        extraction(a) == extraction(b),
        icon_payload(Some(a)) == icon_payload(Some(b)),
{
}

/// A container offering both the 64x64 and the 128x128 image yields the
/// payload of the 64x64 one.
pub proof fn lemma_prefers_64_over_128(data: Seq<u8>)
    requires
        data.len() <= u32::MAX,
        family_of(data) is Some,
        available_codes(family_of(data)->Some_0).contains(ICON_64_RGBA),
        available_codes(family_of(data)->Some_0).contains(ICON_128_RGB),
    ensures
        extraction(data) == code_payload(family_of(data)->Some_0, ICON_64_RGBA),
{
}

/// Without a 64x64 image, the 128x128 image is preferred over the 32x32 one.
pub proof fn lemma_prefers_128_over_32(data: Seq<u8>)
    requires
        data.len() <= u32::MAX,
        family_of(data) is Some,
        !available_codes(family_of(data)->Some_0).contains(ICON_64_RGBA),
        available_codes(family_of(data)->Some_0).contains(ICON_128_RGB),
    ensures
        extraction(data) == code_payload(family_of(data)->Some_0, ICON_128_RGB),
{
}

/// A container offering images of none of the preferred types yields the
/// payload of the first type it lists: present whenever that image decodes
/// and writes.
pub proof fn lemma_fallback_to_first(data: Seq<u8>)
    requires
        data.len() <= u32::MAX,
        family_of(data) is Some,
        available_codes(family_of(data)->Some_0).len() > 0,
        !available_codes(family_of(data)->Some_0).contains(ICON_64_RGBA),
        !available_codes(family_of(data)->Some_0).contains(ICON_128_RGB),
        !available_codes(family_of(data)->Some_0).contains(ICON_32_RGB),
        !available_codes(family_of(data)->Some_0).contains(ICON_48_RGB),
    ensures
        extraction(data) == code_payload(
            family_of(data)->Some_0,
            available_codes(family_of(data)->Some_0)[0],
        ),
        code_payload(family_of(data)->Some_0, available_codes(family_of(data)->Some_0)[0]) is Ok
            ==> icon_payload(Some(data)) is Some,
{
}

/// A container with no images yields no payload: extraction reports `Empty`.
pub proof fn lemma_empty_container(data: Seq<u8>)
    requires
        data.len() <= u32::MAX,
        family_of(data) is Some,
        available_codes(family_of(data)->Some_0).len() == 0,
    ensures
        extraction(data) == Err::<Seq<char>, ExtractionError>(ExtractionError::Empty),
        icon_payload(Some(data)) is None,
{
}

/// Whether a list of type codes holds the given code.
fn has_code(avail: &Vec<u32>, code: u32) -> (r: bool)
    ensures
        r == avail@.contains(code),
{
    let mut i: usize = 0;
    while i < avail.len()
        invariant
            i <= avail.len(),
            forall|j: int| 0 <= j < i ==> avail@[j] != code,
        decreases avail.len() - i,
    {
        if avail[i] == code {
            return true;
        }
        i = i + 1;
    }
    false
}

/// Picks the image type to extract from the complete types a container offers.
pub fn select_icon_code(avail: &Vec<u32>) -> (r: Option<u32>)
    ensures
        r == chosen_icon(avail@),
{
    if has_code(avail, ICON_64_RGBA) {
        Some(ICON_64_RGBA)
    } else if has_code(avail, ICON_128_RGB) {
        Some(ICON_128_RGB)
    } else if has_code(avail, ICON_32_RGB) {
        Some(ICON_32_RGB)
    } else if has_code(avail, ICON_48_RGB) {
        Some(ICON_48_RGB)
    } else if avail.len() > 0 {
        Some(avail[0])
    } else {
        None
    }
}

/// Turns the outcome of PNG encoding into the payload: the base64 text of the
/// PNG bytes, or `EncodeFailed`.
pub fn payload_from_png(png: Result<Vec<u8>, std::io::Error>) -> (r: Result<String, ExtractionError>)
    ensures
        png is Ok ==> r is Ok && (r->Ok_0)@ == base64_of((png->Ok_0)@),
        png is Err ==> r == Err::<String, ExtractionError>(ExtractionError::EncodeFailed),
{
    match png {
        Ok(bytes) => Ok(encode_base64(bytes.as_slice())),
        Err(_) => Err(ExtractionError::EncodeFailed),
    }
}

/// Whether the PNG data of an element is safe to decode.
pub fn png_header_is_safe(d: &Vec<u8>) -> (r: bool)
    ensures
        r == png_header_safe(d@),
{
    let n = d.len();
    let signed = n >= 8 && d[0] == 0x89u8 && d[1] == 0x50u8 && d[2] == 0x4eu8 && d[3] == 0x47u8
        && d[4] == 0x0du8 && d[5] == 0x0au8 && d[6] == 0x1au8 && d[7] == 0x0au8;
    if !signed {
        return true;
    }
    if n < 24 {
        return false;
    }
    if !(d[12] == 0x49u8 && d[13] == 0x48u8 && d[14] == 0x44u8 && d[15] == 0x52u8) {
        return false;
    }
    let w = d[18] as u32 * 256 + d[19] as u32;
    let h = d[22] as u32 * 256 + d[23] as u32;
    if !(d[16] == 0 && d[17] == 0 && 1 <= w && w <= 1024 && d[20] == 0 && d[21] == 0 && 1 <= h
        && h <= 1024) {
        return false;
    }
    let first_len = be_u32_of(d, 8);
    chunks_without_header(d, 20 + first_len)
}

/// The big-endian value of the four bytes of `d` at offset `p`.
fn be_u32_of(d: &Vec<u8>, p: usize) -> (r: u64)
    requires
        p + 4 <= d@.len(),
    ensures
        r as int == be_u32_at(d@, p as int),
        r < 0x100000000,
{
    let n = d.len();
    assert(p + 4 <= n);
    d[p] as u64 * 0x1000000 + d[p + 1] as u64 * 0x10000 + d[p + 2] as u64 * 0x100 + d[p + 3] as u64
}

/// Walks the chunks of `d` from offset `start` and reports whether none of
/// them is a header chunk.
fn chunks_without_header(d: &Vec<u8>, start: u64) -> (r: bool)
    requires
        start < 0x200000000,
    ensures
        r == no_header_chunk_from(d@, start as int),
{
    let len = d.len();
    let n = len as u64;
    let mut p: u64 = start;
    while p <= n && n - p >= 8
        invariant
            n == d@.len(),
            len == d@.len(),
            p < 0x200000000 + n,
            no_header_chunk_from(d@, start as int) == no_header_chunk_from(d@, p as int),
        decreases n + 0x200000000 - p,
    {
        assert(p + 8 <= n);
        let q = p as usize;
        assert(q as int + 8 <= d@.len());
        if d[q + 4] == 0x49u8 && d[q + 5] == 0x48u8 && d[q + 6] == 0x44u8 && d[q + 7] == 0x52u8 {
            return false;
        }
        let chunk_len = be_u32_of(d, q);
        if n - p < 12 || chunk_len > n - p - 12 {
            return true;
        }
        p = p + 12 + chunk_len;
    }
    true
}

/// Whether a type code names a PNG-coded icon type.
pub fn is_png_coded(code: u32) -> (r: bool)
    ensures
        r == png_coded(code),
{
    code == 0x69637034u32 || code == 0x69633131u32 || code == 0x69637035u32 || code
        == 0x69633132u32 || code == 0x69637036u32 || code == 0x69633037u32 || code
        == 0x69633133u32 || code == 0x69633038u32 || code == 0x69633134u32 || code
        == 0x69633039u32 || code == 0x69633130u32
}

/// Whether the image of `code` can be handed to the decoder.
fn can_decode(family: &IconFamily, code: u32) -> (r: bool)
    ensures
        r == decode_safe(*family, code),
{
    if !is_png_coded(code) {
        return true;
    }
    let elems = element_list(family);
    let ghost fe = family_elements(*family);
    let mut k: usize = 0;
    while k < elems.len()
        invariant
            elems@.len() == fe.len(),
            fe == family_elements(*family),
            png_coded(code),
            forall|i: int| 0 <= i < elems@.len() ==> elems@[i].0 == fe[i].0 && elems@[i].1@ == fe[i].1,
            forall|j: int| 0 <= j < k ==> fe[j].0 != code,
        decreases elems.len() - k,
    {
        if elems[k].0 == code {
            let safe = png_header_is_safe(&elems[k].1);
            proof {
                assert forall|m: int| first_with_code(fe, code, m) implies png_header_safe(fe[m].1) == safe by {
                    if m < k {
                        assert(fe[m].0 != code);
                    } else if m > k {
                        assert(fe[k as int].0 == code);
                    }
                }
                assert(first_with_code(fe, code, k as int));
            }
            return safe;
        }
        k = k + 1;
    }
    true
}

/// Extracts the payload of a parsed family: `Empty` when it holds no
/// complete image; otherwise the base64 text of the PNG of the chosen image,
/// `Malformed` when that image cannot be decoded, or `EncodeFailed` when it
/// cannot be written.
pub fn family_to_base64(family: &IconFamily) -> (r: Result<String, ExtractionError>)
    ensures
        text_result(r) == family_payload(*family),
{
    let codes = icon_codes(family);
    match select_icon_code(&codes) {
        None => Err(ExtractionError::Empty),
        Some(code) => {
            if !can_decode(family, code) {
                return Err(ExtractionError::Malformed);
            }
            match decode_icon(family, code) {
                Err(_) => Err(ExtractionError::Malformed),
                Ok(image) => payload_from_png(write_png(&image)),
            }
        },
    }
}

/// Turns the bytes of an ICNS container into a base64 PNG payload.
pub fn convert_icns_to_base64(data: &[u8]) -> (r: Result<String, ExtractionError>)
    ensures
        text_result(r) == extraction(data@),
        data@.len() < 8 ==> r == Err::<String, ExtractionError>(ExtractionError::Malformed),
        data@.len() >= 4 && data@.subrange(0, 4) != icns_magic() ==> r
            == Err::<String, ExtractionError>(ExtractionError::Malformed),
        header_only(data@) && data@.len() <= u32::MAX ==> r == Err::<String, ExtractionError>(
            ExtractionError::Empty,
        ),
        data@.len() > u32::MAX ==> r == Err::<String, ExtractionError>(ExtractionError::Malformed),
{
    if data.len() > 0xffff_ffffusize {
        return Err(ExtractionError::Malformed);
    }
    match read_family(data) {
        Err(_) => Err(ExtractionError::Malformed),
        Ok(family) => family_to_base64(&family),
    }
}

/// Extracts the payload of a container given as the bytes read from it, or
/// `None` when it could not be read.
pub fn extract_icon(container: Option<&[u8]>) -> (r: Result<String, ExtractionError>)
    ensures
        text_result(r) == container_extraction(bytes_of(container)),
{
    match container {
        None => Err(ExtractionError::Unreadable),
        Some(data) => convert_icns_to_base64(data),
    }
}

/// The payload of a container, with every extraction failure read as absent.
pub fn icon_path_to_base64(container: Option<&[u8]>) -> (r: Option<String>)
    ensures
        text_option(r) == icon_payload(bytes_of(container)),
{
    match extract_icon(container) {
        Ok(s) => Some(s),
        Err(_) => None,
    }
}

} // verus!
