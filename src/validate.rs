//! Lexical checks on a submitted image: the data-URL shape, the declared
//! type, the approximate decoded size and the base64 alphabet.
use crate::error::AppError;
use crate::text::{
    chars_of, find_char, first_index_from, has_prefix, lemma_first_index_from, same_chars, slice_chars,
    starts_with_chars,
};
use vstd::prelude::*;

verus! {

/// The largest accepted decoded image size, in bytes (10 MiB).
pub const MAX_IMAGE_SIZE: usize = 10 * 1024 * 1024;

/// The scheme that every submitted image starts with.
pub open spec fn data_scheme() -> Seq<char> {
    seq!['d', 'a', 't', 'a', ':']
}

/// The media type a data-URL header declares: what follows `data:` up to
/// the first `;`, or to the end of the header.
pub open spec fn media_type_of(header: Seq<char>) -> Seq<char> {
    if header.len() < 5 {
        Seq::empty()
    } else {
        header.subrange(5, first_index_from(header, ';', 5))
    }
}

/// Whether a data-URL header declares exactly one of the accepted image types.
pub open spec fn declares_supported_type(header: Seq<char>) -> bool {
    let m = media_type_of(header);
    m == seq!['i', 'm', 'a', 'g', 'e', '/', 'j', 'p', 'e', 'g'] || m == seq!['i', 'm', 'a', 'g', 'e', '/', 'j', 'p', 'g'] || m == seq!['i', 'm', 'a', 'g', 'e', '/', 'p', 'n', 'g'] || m == seq!['i', 'm', 'a', 'g', 'e', '/', 'w', 'e', 'b', 'p']
}

/// Whether `c` is a symbol of the standard base64 alphabet (padding excluded).
pub open spec fn is_base64_symbol(c: char) -> bool {
    ('A' <= c && c <= 'Z') || ('a' <= c && c <= 'z') || ('0' <= c && c <= '9') || c == '+' || c == '/'
}

/// `s` without its trailing `=` padding.
pub open spec fn trim_padding(s: Seq<char>) -> Seq<char>
    decreases s.len(),
{
    if s.len() > 0 && s.last() == '=' {
        trim_padding(s.drop_last())
    } else {
        s
    }
}

/// Whether `s`, once its trailing padding is removed, is made of base64 symbols only.
pub open spec fn is_base64_text(s: Seq<char>) -> bool {
    forall|i: int| 0 <= i < trim_padding(s).len() ==> is_base64_symbol(#[trigger] trim_padding(s)[i])
}

/// Whether position `k` holds the one and only comma of `s`.
pub open spec fn sole_comma_at(s: Seq<char>, k: int) -> bool {
    &&& 0 <= k < s.len()
    &&& s[k] == ','
    &&& forall|j: int| 0 <= j < s.len() && j != k ==> s[j] != ','
}

/// Whether `s` holds exactly one comma.
pub open spec fn has_sole_comma(s: Seq<char>) -> bool {
    exists|k: int| sole_comma_at(s, k)
}

/// Where the one comma of `s` stands.
pub open spec fn comma_position(s: Seq<char>) -> int {
    choose|k: int| sole_comma_at(s, k)
}

/// Whether `s` has the shape `data:<header>,<payload>` with a single comma.
pub open spec fn is_data_url_shape(s: Seq<char>) -> bool {
    has_prefix(s, data_scheme()) && has_sole_comma(s)
}

/// What stands before the comma of a data URL.
pub open spec fn header_of(s: Seq<char>) -> Seq<char> {
    s.subrange(0, comma_position(s))
}

/// What stands after the comma of a data URL.
pub open spec fn payload_of(s: Seq<char>) -> Seq<char> {
    s.subrange(comma_position(s) + 1, s.len() as int)
}

/// The payload of an image: what follows the comma of a `data:` URL with
/// exactly one comma, or else the whole text, taken as bare base64.
pub open spec fn payload_spec(s: Seq<char>) -> Seq<char> {
    if has_prefix(s, data_scheme()) && has_sole_comma(s) {
        payload_of(s)
    } else {
        s
    }
}

/// The approximate decoded size of a base64 payload of `len` characters.
pub open spec fn estimated_size(len: int) -> int {
    len * 3 / 4
}

/// Whether the image `s` passes every check.
pub open spec fn image_accepted(s: Seq<char>) -> bool {
    &&& is_data_url_shape(s)
    &&& declares_supported_type(header_of(s))
    &&& estimated_size(payload_of(s).len() as int) <= MAX_IMAGE_SIZE
    &&& is_base64_text(payload_of(s))
}

/// Whether `r` is what validating the image `s` gives: the checks apply in
/// order (shape, declared type, size, alphabet) and the first that fails
/// decides the error; on success, the estimated decoded size.
pub open spec fn is_validation_of(s: Seq<char>, r: Result<usize, AppError>) -> bool {
    &&& !is_data_url_shape(s) ==> (r matches Err(AppError::InvalidImageFormat(_)))
    &&& is_data_url_shape(s) && !declares_supported_type(header_of(s))
        ==> (r matches Err(AppError::UnsupportedImageType(_)))
    &&& is_data_url_shape(s) && declares_supported_type(header_of(s))
        && estimated_size(payload_of(s).len() as int) > MAX_IMAGE_SIZE
        ==> (r matches Err(AppError::ImageTooLarge(_)))
    &&& is_data_url_shape(s) && declares_supported_type(header_of(s))
        && estimated_size(payload_of(s).len() as int) <= MAX_IMAGE_SIZE
        && !is_base64_text(payload_of(s))
        ==> (r matches Err(AppError::InvalidImageFormat(_)))
    &&& r is Ok <==> image_accepted(s)
    &&& r is Ok ==> r->Ok_0 == estimated_size(payload_of(s).len() as int)
}

proof fn lemma_sole_comma_unique(s: Seq<char>, k: int)
    requires
        sole_comma_at(s, k),
    ensures
        has_sole_comma(s),
        comma_position(s) == k,
{
    assert(has_sole_comma(s));
    let c = comma_position(s);
    assert(sole_comma_at(s, c));
}

proof fn lemma_trim_step(s: Seq<char>, e: int)
    requires
        0 < e <= s.len(),
        s[e - 1] == '=',
    ensures
        trim_padding(s.subrange(0, e)) == trim_padding(s.subrange(0, e - 1)),
{
    assert(s.subrange(0, e).drop_last() =~= s.subrange(0, e - 1));
}

/// Removing the padding of text that ends in exactly `p` padding characters
/// leaves everything before them.
pub proof fn lemma_trim_padded(s: Seq<char>, p: int)
    requires
        0 <= p <= s.len(),
        forall|i: int| s.len() - p <= i < s.len() ==> s[i] == '=',
        s.len() - p == 0 || s[s.len() - p - 1] != '=',
    ensures
        trim_padding(s) == s.subrange(0, s.len() - p),
    decreases p,
{
    if p == 0 {
        assert(s.subrange(0, s.len() as int) =~= s);
    } else {
        assert(s.drop_last() =~= s.subrange(0, s.len() - 1));
        lemma_trim_padded(s.drop_last(), p - 1);
        assert(s.drop_last().subrange(0, s.drop_last().len() - (p - 1)) =~= s.subrange(0, s.len() - p));
    }
}

/// Whether the characters of `s` form base64 text once trailing padding is removed.
fn is_base64_chars(s: &[char]) -> (r: bool)
    ensures
        r == is_base64_text(s@),
{
    let mut e: usize = s.len();
    assert(s@.subrange(0, e as int) =~= s@);
    while e > 0 && s[e - 1] == '='
        invariant
            e <= s@.len(),
            trim_padding(s@) == trim_padding(s@.subrange(0, e as int)),
        decreases e,
    {
        proof {
            lemma_trim_step(s@, e as int);
        }
        e = e - 1;
    }
    let ghost t = s@.subrange(0, e as int);
    assert(trim_padding(t) == t);
    let mut i: usize = 0;
    while i < e
        invariant
            e <= s@.len(),
            t == s@.subrange(0, e as int),
            trim_padding(s@) == t,
            i <= e,
            forall|j: int| 0 <= j < i ==> is_base64_symbol(#[trigger] t[j]),
        decreases e - i,
    {
        let c = s[i];
        if !(('A' <= c && c <= 'Z') || ('a' <= c && c <= 'z') || ('0' <= c && c <= '9') || c == '+' || c == '/') {
            assert(!is_base64_symbol(t[i as int]));
            return false;
        }
        i = i + 1;
    }
    true
}

/// Whether `s`, once trailing `=` padding is removed, is made of base64 symbols only.
/// The check is lexical: it does not decode.
pub fn is_valid_base64(s: &str) -> (r: bool)
    ensures
        r == is_base64_text(s@),
{
    let v = chars_of(s);
    is_base64_chars(&v)
}

/// `len * 3 / 4`, computed without overflow.
fn size_estimate(len: usize) -> (r: usize)
    ensures
        r == estimated_size(len as int),
{
    let q: usize = len / 4;
    let m: usize = len % 4;
    assert(len * 3 / 4 == q * 3 + m * 3 / 4) by (nonlinear_arith)
        requires
            q == len / 4,
            m == len % 4,
    ;
    q * 3 + m * 3 / 4
}

/// Checks a submitted image: it must be a `data:` URL with exactly one comma,
/// declare an accepted image type, have an approximate decoded size within
/// the ceiling, and carry a payload of base64 symbols. On success, returns the
/// approximate decoded size in bytes.
pub fn validate_image_data(image_data: &str) -> (r: Result<usize, AppError>)
    ensures
        is_validation_of(image_data@, r),
{
    let s = chars_of(image_data);
    let scheme: Vec<char> = vec!['d', 'a', 't', 'a', ':'];
    assert(scheme@ =~= data_scheme());
    if !starts_with_chars(&s, &scheme) {
        return Err(AppError::InvalidImageFormat(
            "Image must be provided as a data URL (data:image/...)".to_string(),
        ));
    }
    let n: usize = s.len();
    let k: usize = find_char(&s, ',', 0);
    if k == n {
        assert(!has_sole_comma(s@));
        return Err(AppError::InvalidImageFormat("Invalid image data URL format".to_string()));
    }
    let k2: usize = find_char(&s, ',', k + 1);
    if k2 < n {
        assert(!has_sole_comma(s@)) by {
            if has_sole_comma(s@) {
                let c = choose|c: int| sole_comma_at(s@, c);
                assert(c == k as int || c == k2 as int);
            }
        }
        return Err(AppError::InvalidImageFormat("Invalid image data URL format".to_string()));
    }
    assert(sole_comma_at(s@, k as int));
    proof {
        lemma_sole_comma_unique(s@, k as int);
    }
    let header = slice_chars(&s, 0, k);
    let payload = slice_chars(&s, k + 1, n);
    let media = if header.len() >= 5 {
        let end = find_char(&header, ';', 5);
        proof {
            lemma_first_index_from(header@, ';', 5, end as int);
        }
        slice_chars(&header, 5, end)
    } else {
        Vec::new()
    };
    assert(media@ =~= media_type_of(header@));
    let jpeg: Vec<char> = vec!['i', 'm', 'a', 'g', 'e', '/', 'j', 'p', 'e', 'g'];
    let jpg: Vec<char> = vec!['i', 'm', 'a', 'g', 'e', '/', 'j', 'p', 'g'];
    let png: Vec<char> = vec!['i', 'm', 'a', 'g', 'e', '/', 'p', 'n', 'g'];
    let webp: Vec<char> = vec!['i', 'm', 'a', 'g', 'e', '/', 'w', 'e', 'b', 'p'];
    assert(jpeg@ =~= seq!['i', 'm', 'a', 'g', 'e', '/', 'j', 'p', 'e', 'g']);
    assert(jpg@ =~= seq!['i', 'm', 'a', 'g', 'e', '/', 'j', 'p', 'g']);
    assert(png@ =~= seq!['i', 'm', 'a', 'g', 'e', '/', 'p', 'n', 'g']);
    assert(webp@ =~= seq!['i', 'm', 'a', 'g', 'e', '/', 'w', 'e', 'b', 'p']);
    let supported = same_chars(&media, &jpeg) || same_chars(&media, &jpg) || same_chars(&media, &png)
        || same_chars(&media, &webp);
    if !supported {
        let marker: Vec<char> = vec!['i', 'm', 'a', 'g', 'e', '/'];
        if !starts_with_chars(&media, &marker) {
            return Err(AppError::UnsupportedImageType("Only image files are supported".to_string()));
        }
        return Err(AppError::UnsupportedImageType(
            "Unsupported image format. Please use JPEG, PNG, or WebP".to_string(),
        ));
    }
    let size = size_estimate(payload.len());
    if size > MAX_IMAGE_SIZE {
        return Err(AppError::ImageTooLarge("Image is too large (max 10MB)".to_string()));
    }
    if !is_base64_chars(&payload) {
        return Err(AppError::InvalidImageFormat("Invalid base64 image data".to_string()));
    }
    Ok(size)
}

/// The payload of a data URL with exactly one comma: what follows the comma.
/// Any other text is returned whole, as a bare base64 payload.
pub fn image_payload(image: &str) -> (r: String)
    ensures
        r@ == payload_spec(image@),
{
    let s = chars_of(image);
    let scheme: Vec<char> = vec!['d', 'a', 't', 'a', ':'];
    assert(scheme@ =~= data_scheme());
    let n: usize = s.len();
    if starts_with_chars(&s, &scheme) {
        let k: usize = find_char(&s, ',', 0);
        if k < n {
            let k2: usize = find_char(&s, ',', k + 1);
            if k2 == n {
                assert(sole_comma_at(s@, k as int));
                proof {
                    lemma_sole_comma_unique(s@, k as int);
                }
                return crate::text::string_of(&slice_chars(&s, k + 1, n));
            }
            assert(!has_sole_comma(s@)) by {
                if has_sole_comma(s@) {
                    let c = choose|c: int| sole_comma_at(s@, c);
                    assert(c == k as int || c == k2 as int);
                }
            }
        } else {
            assert(!has_sole_comma(s@));
        }
    }
    image.to_string()
}

} // verus!
