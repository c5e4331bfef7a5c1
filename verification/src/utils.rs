//! Small helpers: images as data urls, and taking an element out of a vector when it is there.

use vstd::prelude::*;

verus! {

/// Why an image could not be turned into a data url.
#[derive(Debug, Clone)]
pub enum ImageHashError {
    /// the file is not a `png`, `jpeg` or `gif`, the only types Discord takes
    FileType,
    /// the file could not be read; what went wrong
    Io(String),
}

/// The image type of a file, by its extension: `jpeg` for `jpg` and `jpeg`, `png`, `gif`.
pub open spec fn image_type(extension: Option<Seq<char>>) -> Option<Seq<char>> {
    match extension {
        Some(e) => if e == "jpg"@ || e == "jpeg"@ {
            Some("jpeg"@)
        } else if e == "png"@ {
            Some("png"@)
        } else if e == "gif"@ {
            Some("gif"@)
        } else {
            None
        },
        None => None,
    }
}

/// The image type of a file with this extension, if Discord takes it.
pub fn image_type_of(extension: Option<&str>) -> (t: Option<&'static str>)
    ensures
        match t {
            Some(t) => image_type(match extension { Some(e) => Some(e@), None => None }) == Some(t@),
            None => image_type(match extension { Some(e) => Some(e@), None => None }).is_none(),
        },
{
    proof {
        reveal_strlit("jpg");
        reveal_strlit("jpeg");
        reveal_strlit("png");
        reveal_strlit("gif");
    }
    match extension {
        Some(e) => {
            if text_is(e, "jpg") || text_is(e, "jpeg") {
                Some("jpeg")
            } else if text_is(e, "png") {
                Some("png")
            } else if text_is(e, "gif") {
                Some("gif")
            } else {
                None
            }
        },
        None => None,
    }
}

fn text_is(a: &str, b: &str) -> (e: bool)
    ensures
        e == (a@ == b@),
{
    let la = a.unicode_len();
    if la != b.unicode_len() {
        return false;
    }
    let mut i: usize = 0;
    while i < la
        invariant
            i <= la,
            la == a@.len(),
            la == b@.len(),
            forall|j: int| 0 <= j < i ==> a@[j] == b@[j],
        decreases la - i,
    {
        if a.get_char(i) != b.get_char(i) {
            return false;
        }
        i = i + 1;
    }
    assert(a@ =~= b@);
    true
}

/// The character of the standard base64 alphabet for the 6-bit value `n`.
pub open spec fn base64_char(n: int) -> char {
    if n < 26 {
        (65 + n) as char
    } else if n < 52 {
        (97 + n - 26) as char
    } else if n < 62 {
        (48 + n - 52) as char
    } else if n == 62 {
        '+'
    } else {
        '/'
    }
}

/// The standard base64 encoding of some bytes, padded with `=`: each three bytes become four
/// characters of six bits each; a last one or two bytes become two or three, then padding.
pub open spec fn base64_of(b: Seq<u8>) -> Seq<char>
    decreases b.len(),
{
    if b.len() == 0 {
        Seq::empty()
    } else {
        let x = b[0] as int;
        let y = if b.len() > 1 { b[1] as int } else { 0 };
        let z = if b.len() > 2 { b[2] as int } else { 0 };
        let first = base64_char(x / 4);
        let second = base64_char(x % 4 * 16 + y / 16);
        if b.len() == 1 {
            seq![first, second, '=', '=']
        } else if b.len() == 2 {
            seq![first, second, base64_char(y % 16 * 4), '=']
        } else {
            seq![first, second, base64_char(y % 16 * 4 + z / 64), base64_char(z % 64)]
                + base64_of(b.subrange(3, b.len() as int))
        }
    }
}

/// Whether the base64 crate can size the text for this many bytes without overflow.
pub open spec fn encodable(len: nat) -> bool {
    (if len % 3 > 0 { len / 3 * 4 + 4 } else { len / 3 * 4 }) <= usize::MAX
}

/// Encodes bytes in standard base64 with padding (`base64::encode`, with its `STANDARD`
/// configuration; it panics when the size of the text overflows, hence the `requires`).
/// Claimed: the text is the standard padded encoding of the bytes, as `base64_of` spells it out.
#[verifier::external_body]
fn base64_encode(bytes: &Vec<u8>) -> (s: String)
    requires
        encodable(bytes@.len()),
    ensures
        s@ == base64_of(bytes@),
{
    base64::encode(bytes)
}

/// A data url of an image: its type and its bytes in base64.
pub open spec fn data_url(image: Seq<char>, encoded: Seq<char>) -> Seq<char> {
    "data:image/"@ + image + ";base64,"@ + encoded
}

/// The data url of an image of this type whose base64 text is `encoded`.
pub fn image_data_url(image: &str, encoded: &str) -> (s: String)
    ensures
        s@ == data_url(image@, encoded@),
{
    let mut s = String::from_str("data:image/");
    s.append(image);
    s.append(";base64,");
    s.append(encoded);
    s
}

/// The data url of the image read from a file with this extension (`None` if it has none):
/// refused unless the type is one Discord takes.
pub fn hash_image(extension: Option<&str>, file: &Vec<u8>) -> (r: Result<String, ImageHashError>)
    requires
        encodable(file@.len()),
    ensures
        match image_type(match extension { Some(e) => Some(e@), None => None }) {
            Some(t) => r matches Ok(s) && s@ == data_url(t, base64_of(file@)),
            None => r matches Err(ImageHashError::FileType),
        },
{
    match image_type_of(extension) {
        Some(image) => {
            let encoded = base64_encode(file);
            Ok(image_data_url(image, encoded.as_str()))
        },
        None => Err(ImageHashError::FileType),
    }
}

/// Taking an element out of a vector only when the index is in it.
pub trait TryRemove<T> {
    fn try_remove(&mut self, index: usize) -> Option<T>;
}

impl<T> TryRemove<T> for Vec<T> {
    /// The element at `index`, taken out, or `None` (and the vector as it was) past its end.
    fn try_remove(&mut self, index: usize) -> (r: Option<T>)
        ensures
            index < old(self)@.len() ==> r == Some(old(self)@[index as int])
                && final(self)@ == old(self)@.remove(index as int),
            index >= old(self)@.len() ==> r.is_none() && final(self)@ == old(self)@,
    {
        if index >= self.len() {
            None
        } else {
            Some(self.remove(index))
        }
    }
}

} // verus!
