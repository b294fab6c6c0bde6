//! The OCR stage: key rotation, the base64 image payload handed to the OCR
//! service, and the extraction of the parsed text from its reply. The HTTP
//! transport itself lives with the host.

use vstd::prelude::*;

verus! {

/// Errors of the OCR stage.
#[derive(Clone, Copy, PartialEq, Eq, Structural, Debug)]
pub enum OcrError {
    /// The captured file's format is not one the service accepts.
    Unsupported,
    /// The service's reply carried no parsed text.
    ServiceError,
}

/// The base64 text that the standard, padded alphabet assigns to a byte
/// sequence.
pub uninterp spec fn base64_of(bytes: Seq<u8>) -> Seq<char>;

/// Relies on base64::encode: the standard alphabet with padding, four
/// output characters for every started three-byte group; the result
/// depends on the bytes alone.
#[verifier::external_body]
fn base64_encode(bytes: &Vec<u8>) -> (r: String)
    ensures
        r@ == base64_of(bytes@),
        r@.len() == 4 * ((bytes@.len() + 2) / 3),
{
    base64::encode(bytes)
}

/// Relies on rand::thread_rng and Rng::gen_range: a uniformly drawn index
/// below `len`; nothing is promised about which one.
#[verifier::external_body]
fn random_index(len: usize) -> (i: usize)
    requires
        len >= 1,
    ensures
        i < len,
{
    rand::Rng::gen_range(&mut rand::thread_rng(), 0..len)
}

/// Whether `s` ends with `suffix`.
pub open spec fn seq_ends_with(s: Seq<char>, suffix: Seq<char>) -> bool {
    &&& s.len() >= suffix.len()
    &&& s.subrange(s.len() - suffix.len(), s.len() as int) == suffix
}

/// Character-wise suffix test on strings.
pub fn str_ends_with(s: &str, suffix: &str) -> (b: bool)
    ensures
        b == seq_ends_with(s@, suffix@),
{
    let n: usize = s.unicode_len();
    let m: usize = suffix.unicode_len();
    if m > n {
        return false;
    }
    let mut i: usize = 0;
    while i < m
        invariant
            m <= n,
            n == s@.len(),
            m == suffix@.len(),
            i <= m,
            forall|j: int| 0 <= j < i ==> s@[n - m + j] == suffix@[j],
        decreases m - i,
    {
        if s.get_char(n - m + i) != suffix.get_char(i) {
            proof {
                assert(s@.subrange(s@.len() - suffix@.len(), s@.len() as int)[i as int] == s@[n - m
                    + i]);
            }
            return false;
        }
        i += 1;
    }
    proof {
        assert(s@.subrange(s@.len() - suffix@.len(), s@.len() as int) =~= suffix@);
    }
    true
}

/// The MIME type the service is told for a captured file, decided by the
/// file name's suffix; a name with any other suffix is unsupported.
pub open spec fn spec_content_type(path: Seq<char>) -> Option<Seq<char>> {
    if seq_ends_with(path, ".png"@) {
        Some("image/png"@)
    } else if seq_ends_with(path, ".jpg"@) || seq_ends_with(path, ".jpeg"@) {
        Some("image/jpeg"@)
    } else {
        None
    }
}

/// Decide the MIME type of a captured file from its name.
pub fn content_type_for_path(path: &str) -> (r: Option<&str>)
    ensures
        r is Some <==> spec_content_type(path@) is Some,
        r matches Some(ct) ==> ct@ == spec_content_type(path@)->0,
{
    if str_ends_with(path, ".png") {
        Some("image/png")
    } else if str_ends_with(path, ".jpg") || str_ends_with(path, ".jpeg") {
        Some("image/jpeg")
    } else {
        None
    }
}

/// The `data:` URI of a captured image, exactly as the service expects it:
/// the MIME type, then the base64 text of the file's bytes.
pub fn image_data_uri(content_type: &str, bytes: &Vec<u8>) -> (r: String)
    ensures
        r@ == "data:"@ + content_type@ + ";base64,"@ + base64_of(bytes@),
{
    let mut s: String = String::from_str("data:");
    s.append(content_type);
    s.append(";base64,");
    let encoded: String = base64_encode(bytes);
    s.append(encoded.as_str());
    proof {
        assert(s@ =~= "data:"@ + content_type@ + ";base64,"@ + base64_of(bytes@));
    }
    s
}

/// Build the payload for a captured file: its MIME type from its name, the
/// base64 text from its bytes. A file of any other format is rejected and
/// never sent.
pub fn image_payload(path: &str, bytes: &Vec<u8>) -> (r: Result<String, OcrError>)
    ensures
        r is Ok <==> spec_content_type(path@) is Some,
        r matches Ok(s) ==> s@ == "data:"@ + spec_content_type(path@)->0 + ";base64,"@
            + base64_of(bytes@),
        r matches Err(e) ==> e == OcrError::Unsupported,
{
    match content_type_for_path(path) {
        Some(ct) => Ok(image_data_uri(ct, bytes)),
        None => Err(OcrError::Unsupported),
    }
}

/// The first parsed text of the service's reply; a reply with none is a
/// service error.
pub fn extract_parsed_text(results: &Vec<String>) -> (r: Result<String, OcrError>)
    ensures
        r is Ok <==> results@.len() >= 1,
        r matches Ok(t) ==> t@ == results@[0]@,
        r matches Err(e) ==> e == OcrError::ServiceError,
{
    if results.len() >= 1 {
        Ok(results[0].clone())
    } else {
        Err(OcrError::ServiceError)
    }
}

/// The OCR service's configuration: the keys rotated through, and the
/// endpoint queried.
pub struct OCRProcessor {
    pub api_keys: Vec<String>,
    pub api_url: String,
}

impl OCRProcessor {
    /// The default configuration: the stock key rotation and the public
    /// endpoint.
    pub fn new() -> (r: OCRProcessor)
        ensures
            r.api_keys@.len() == 7,
            r.api_keys@[0]@ == "fca5393dd988957"@,
            r.api_keys@[1]@ == "K84490092188957"@,
            r.api_keys@[2]@ == "9f368da3dd88957"@,
            r.api_keys@[3]@ == "1f666673b488957"@,
            r.api_keys@[4]@ == "ec2a41c6a188957"@,
            r.api_keys@[5]@ == "3c5a17b91d88957"@,
            r.api_keys@[6]@ == "d35acb001e88957"@,
            r.api_url@ == "https://api.ocr.space/parse/image"@,
    {
        let mut keys: Vec<String> = Vec::new();
        keys.push(String::from_str("fca5393dd988957"));
        keys.push(String::from_str("K84490092188957"));
        keys.push(String::from_str("9f368da3dd88957"));
        keys.push(String::from_str("1f666673b488957"));
        keys.push(String::from_str("ec2a41c6a188957"));
        keys.push(String::from_str("3c5a17b91d88957"));
        keys.push(String::from_str("d35acb001e88957"));
        OCRProcessor { api_keys: keys, api_url: String::from_str("https://api.ocr.space/parse/image") }
    }

    /// A configuration with the caller's own keys and endpoint.
    pub fn with_keys(api_keys: Vec<String>, api_url: &str) -> (r: OCRProcessor)
        ensures
            r.api_keys == api_keys,
            r.api_url@ == api_url@,
    {
        OCRProcessor { api_keys, api_url: String::from_str(api_url) }
    }

    /// One of the configured keys, drawn at random for each request; which
    /// one is not promised, only that it is one of them.
    pub fn pick_api_key(&self) -> (k: String)
        requires
            self.api_keys@.len() >= 1,
        ensures
            exists|i: int| 0 <= i < self.api_keys@.len() && k@ == self.api_keys@[i]@,
    {
        let i: usize = random_index(self.api_keys.len());
        self.api_keys[i].clone()
    }
}

} // verus!
