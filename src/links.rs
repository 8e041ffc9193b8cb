use vstd::prelude::*;
use vstd::string::*;

use crate::config::{short_url_of, Config};
use crate::models::{ErrorResponse, Link, QrResponse, ShortenRequest, ShortenResponse};
use crate::utils::{validate_url, validation, UrlError};

verus! {

/// Length of a generated link identifier.
pub const ID_LEN: usize = 8;

/// The characters an identifier is drawn from: ASCII letters and digits.
pub open spec fn is_id_char(c: char) -> bool {
    ('a' <= c && c <= 'z') || ('A' <= c && c <= 'Z') || ('0' <= c && c <= '9')
}

/// A well-formed generated identifier.
pub open spec fn is_link_id(id: Seq<char>) -> bool {
    id.len() == ID_LEN && forall|i: int| 0 <= i < id.len() ==> is_id_char(#[trigger] id[i])
}

/// Relies on `nanoid::format` with nanoid's own random source: it keeps the
/// random bytes that, masked, index into `alphabet`, pushes those characters,
/// and returns once the string holds `size` bytes. With an ASCII alphabet
/// those are `size` characters of it. It asserts that the alphabet has at
/// most 255 characters, and never returns for an empty alphabet or size 0.
#[verifier::external_body]
fn random_id(alphabet: &[char], size: usize) -> (r: String)
    requires
        0 < alphabet@.len() <= 255,
        size > 0,
        forall|i: int| 0 <= i < alphabet@.len() ==> (#[trigger] alphabet@[i] as u32) < 128,
    ensures
        r@.len() == size,
        forall|i: int| 0 <= i < r@.len() ==> alphabet@.contains(#[trigger] r@[i]),
{
    nanoid::format(nanoid::rngs::default, alphabet, size)
}

/// A fresh random identifier of `ID_LEN` letters and digits.
fn new_link_id() -> (r: String)
    ensures
        is_link_id(r@),
{
    let alphabet: Vec<char> = vec![
        '0', '1', '2', '3', '4', '5', '6', '7', '8', '9',
        'a', 'b', 'c', 'd', 'e', 'f', 'g', 'h', 'i', 'j', 'k', 'l', 'm',
        'n', 'o', 'p', 'q', 'r', 's', 't', 'u', 'v', 'w', 'x', 'y', 'z',
        'A', 'B', 'C', 'D', 'E', 'F', 'G', 'H', 'I', 'J', 'K', 'L', 'M',
        'N', 'O', 'P', 'Q', 'R', 'S', 'T', 'U', 'V', 'W', 'X', 'Y', 'Z',
    ];
    assert(alphabet@.len() == 62);
    assert(forall|i: int| 0 <= i < alphabet@.len() ==> is_id_char(#[trigger] alphabet@[i]) && (alphabet@[i] as u32) < 128);
    let r = random_id(alphabet.as_slice(), ID_LEN);
    assert forall|i: int| 0 <= i < r@.len() implies is_id_char(#[trigger] r@[i]) by {
        let j = choose|j: int| 0 <= j < alphabet@.len() && alphabet@[j] == r@[i];
        assert(is_id_char(alphabet@[j]));
    }
    r
}

/// Relies on `chrono::Utc::now`, `with_timezone` to `chrono_tz::America::Cancun`
/// and `to_rfc3339`: the current time, as text. Nothing is promised of it.
#[verifier::external_body]
pub(crate) fn now_timestamp() -> (r: String) {
    chrono::Utc::now().with_timezone(&chrono_tz::America::Cancun).to_rfc3339()
}

/// Whether `qrcode::QrCode::new` can encode `data` (it fails on data too long
/// for any QR version).
pub uninterp spec fn qr_encodes(data: Seq<char>) -> bool;

/// The SVG document that qrcode's SVG renderer builds for `data` with a
/// minimum size of 200 by 200.
pub uninterp spec fn qr_svg_of(data: Seq<char>) -> Seq<char>;

/// The XML declaration that qrcode's SVG canvas writes first.
pub open spec fn xml_declaration() -> Seq<char> {
    "<?xml version=\"1.0\" standalone=\"yes\"?>"@
}

/// The start of the `<svg` element that follows the declaration.
pub open spec fn svg_open() -> Seq<char> {
    "<svg xmlns=\"http://www.w3.org/2000/svg\""@
}

/// The opening that qrcode's SVG canvas writes before anything else.
pub open spec fn svg_prolog() -> Seq<char> {
    xml_declaration() + svg_open()
}

/// Non-empty SVG markup that opens with `svg_prolog()`.
pub open spec fn is_qr_svg(svg: Seq<char>) -> bool {
    &&& svg.len() > 0
    &&& svg.len() >= svg_prolog().len()
    &&& svg.subrange(0, svg_prolog().len() as int) == svg_prolog()
}

/// `doc` without a leading XML declaration: the markup of its root element.
pub open spec fn svg_markup(doc: Seq<char>) -> Seq<char> {
    let n = xml_declaration().len();
    if doc.len() >= n && doc.subrange(0, n as int) == xml_declaration() {
        doc.subrange(n as int, doc.len() as int)
    } else {
        doc
    }
}

/// Non-empty markup that starts with `<svg`.
pub open spec fn is_svg_markup(m: Seq<char>) -> bool {
    m.len() >= 4 && m.subrange(0, 4) == "<svg"@
}

/// The QR code answered for short link `short`: the rendered document
/// without its XML declaration.
pub open spec fn qr_markup_of(short: Seq<char>) -> Seq<char> {
    svg_markup(qr_svg_of(short))
}

/// What is left of a rendered QR document once its declaration is dropped
/// starts with `<svg`.
proof fn lemma_markup_opens_svg(doc: Seq<char>)
    requires
        is_qr_svg(doc),
    ensures
        is_svg_markup(svg_markup(doc)),
{
    reveal_strlit("<?xml version=\"1.0\" standalone=\"yes\"?>");
    reveal_strlit("<svg xmlns=\"http://www.w3.org/2000/svg\"");
    reveal_strlit("<svg");
    let n = xml_declaration().len() as int;
    let p = svg_prolog();
    assert(doc.subrange(0, n) =~= p.subrange(0, n));
    assert(p.subrange(0, n) =~= xml_declaration());
    let m = svg_markup(doc);
    assert(m.subrange(0, 4) =~= p.subrange(n, n + 4));
    assert(p.subrange(n, n + 4) =~= "<svg"@);
}

/// Drops a leading XML declaration from `doc`, leaving the markup of its root
/// element; any other text is returned as it is.
pub fn drop_xml_declaration(doc: &str) -> (r: String)
    ensures
        r@ == svg_markup(doc@),
{
    let declaration = "<?xml version=\"1.0\" standalone=\"yes\"?>";
    let n = declaration.unicode_len();
    let len = doc.unicode_len();
    if n <= len {
        let head = doc.substring_char(0, n).to_string();
        if head == declaration.to_string() {
            return doc.substring_char(n, len).to_string();
        }
    }
    doc.to_string()
}

/// Renders the QR code of `data` and drops its XML declaration.
fn qr_markup(data: &str) -> (r: Option<String>)
    ensures
        r.is_some() == qr_encodes(data@),
        r matches Some(m) ==> m@ == qr_markup_of(data@) && is_svg_markup(m@),
{
    match render_qr(data) {
        Some(doc) => {
            proof {
                lemma_markup_opens_svg(doc@);
            }
            Some(drop_xml_declaration(doc.as_str()))
        },
        None => None,
    }
}

/// Relies on `qrcode::QrCode::new` and its SVG renderer (`render::<svg::Color>`,
/// `min_dimensions(200, 200)`, `build`). The canvas starts its string with the
/// XML declaration and the `<svg` element, and ends it with `"/></svg>`.
#[verifier::external_body]
fn render_qr(data: &str) -> (r: Option<String>)
    ensures
        r.is_some() == qr_encodes(data@),
        r matches Some(svg) ==> {
            &&& svg@ == qr_svg_of(data@)
            &&& is_qr_svg(svg@)
        },
{
    match qrcode::QrCode::new(data) {
        Ok(code) => Some(
            code.render::<qrcode::render::svg::Color>().min_dimensions(200, 200).build(),
        ),
        Err(_) => None,
    }
}

/// How a request fails, and the HTTP status that goes with it.
#[derive(Clone, Copy, Debug, PartialEq, Eq, Structural)]
pub enum ApiError {
    /// The submitted URL was refused.
    Invalid(UrlError),
    /// No link has the requested identifier.
    NotFound,
    /// A storage operation failed.
    Storage,
    /// Storing a location failed.
    LocationNotSaved,
    /// The QR code could not be built.
    Render,
    /// A link with the new identifier is already stored.
    Conflict,
}

impl ApiError {
    pub open spec fn status_spec(&self) -> u16 {
        match self {
            ApiError::Invalid(_) => 400,
            ApiError::NotFound => 404,
            ApiError::Conflict => 409,
            _ => 500,
        }
    }

    /// The HTTP status code of this error.
    pub fn status(&self) -> (r: u16)
        ensures
            r == self.status_spec(),
    {
        match self {
            ApiError::Invalid(_) => 400,
            ApiError::NotFound => 404,
            ApiError::Conflict => 409,
            _ => 500,
        }
    }

    pub open spec fn message_spec(&self) -> Seq<char> {
        match self {
            ApiError::Invalid(e) => e.message_spec(),
            ApiError::NotFound => "QR no encontrado"@,
            ApiError::Storage => "Error interno del servidor"@,
            ApiError::LocationNotSaved => "Error al guardar la ubicación"@,
            ApiError::Render => "Error al generar QR"@,
            ApiError::Conflict => "El identificador ya existe"@,
        }
    }

    /// The body sent to the client with this error.
    pub fn to_response(&self) -> (r: ErrorResponse)
        ensures
            r.error@ == self.message_spec(),
    {
        let error = match self {
            ApiError::Invalid(e) => e.message(),
            ApiError::NotFound => "QR no encontrado".to_string(),
            ApiError::Storage => "Error interno del servidor".to_string(),
            ApiError::LocationNotSaved => "Error al guardar la ubicación".to_string(),
            ApiError::Render => "Error al generar QR".to_string(),
            ApiError::Conflict => "El identificador ya existe".to_string(),
        };
        ErrorResponse { error }
    }
}

/// The link that shortening `url` under identifier `id` at time `created_at`
/// stores, once `url` has been validated to `canonical`.
pub open spec fn new_link_spec(link: Link, id: Seq<char>, canonical: Seq<char>, created_at: Seq<char>) -> bool {
    &&& link.id@ == id
    &&& link.original_url@ == canonical
    &&& link.scans == 0
    &&& link.created_at@ == created_at
}

/// The answer to a shorten request for identifier `id` under `base`.
pub open spec fn shorten_response_spec(resp: ShortenResponse, base: Seq<char>, id: Seq<char>) -> bool {
    &&& resp.id@ == id
    &&& resp.short_url@ == short_url_of(base, id)
    &&& resp.qr_svg@ == qr_markup_of(short_url_of(base, id))
    &&& is_svg_markup(resp.qr_svg@)
}

/// The shorten workflow once an identifier and a creation time are chosen:
/// validates the URL, and builds the link to store and the answer with the
/// short link and its QR code. Nothing is stored here.
pub fn shorten_with(config: &Config, request: &ShortenRequest, id: String, created_at: String) -> (r:
    Result<(Link, ShortenResponse), ApiError>)
    ensures
        match validation(request.url@) {
            Err(e) => r == Err::<(Link, ShortenResponse), ApiError>(ApiError::Invalid(e)),
            Ok(canonical) => if qr_encodes(short_url_of(config.base_url@, id@)) {
                r matches Ok((link, resp)) && new_link_spec(link, id@, canonical, created_at@)
                    && shorten_response_spec(resp, config.base_url@, id@)
            } else {
                r == Err::<(Link, ShortenResponse), ApiError>(ApiError::Render)
            },
        },
{
    let original_url = match validate_url(request.url.as_str()) {
        Ok(u) => u,
        Err(e) => return Err(ApiError::Invalid(e)),
    };
    let short_url = config.short_url(id.as_str());
    let qr_svg = match qr_markup(short_url.as_str()) {
        Some(svg) => svg,
        None => return Err(ApiError::Render),
    };
    let link = Link { id: id.clone(), original_url, scans: 0, created_at };
    Ok((link, ShortenResponse { id, short_url, qr_svg }))
}

/// The shorten workflow: validates the URL, draws a fresh identifier, stamps
/// the current time, and builds the link to store and the answer.
pub fn shorten_url(config: &Config, request: &ShortenRequest) -> (r: Result<
    (Link, ShortenResponse),
    ApiError,
>)
    ensures
        match validation(request.url@) {
            Err(e) => r == Err::<(Link, ShortenResponse), ApiError>(ApiError::Invalid(e)),
            Ok(canonical) => match r {
                Ok((link, resp)) => {
                    &&& is_link_id(link.id@)
                    &&& qr_encodes(short_url_of(config.base_url@, link.id@))
                    &&& new_link_spec(link, link.id@, canonical, link.created_at@)
                    &&& shorten_response_spec(resp, config.base_url@, link.id@)
                },
                Err(e) => e == ApiError::Render && exists|id: Seq<char>|
                    is_link_id(id) && !qr_encodes(#[trigger] short_url_of(config.base_url@, id)),
            },
        },
{
    let id = new_link_id();
    let ghost drawn = id@;
    let created_at = now_timestamp();
    let r = shorten_with(config, request, id, created_at);
    proof {
        if r is Err && validation(request.url@) is Ok {
            assert(is_link_id(drawn) && !qr_encodes(short_url_of(config.base_url@, drawn)));
        }
    }
    r
}

/// What a lookup of one row in the store gave.
pub enum Lookup<T> {
    Failed,
    Absent,
    Found(T),
}

/// The QR workflow once the link has been looked up: the link's details and a
/// freshly rendered QR code of its short link.
pub fn get_qr(config: &Config, id: &str, lookup: Lookup<Link>) -> (r: Result<QrResponse, ApiError>)
    ensures
        match lookup {
            Lookup::Failed => r == Err::<QrResponse, ApiError>(ApiError::Storage),
            Lookup::Absent => r == Err::<QrResponse, ApiError>(ApiError::NotFound),
            Lookup::Found(link) => if qr_encodes(short_url_of(config.base_url@, id@)) {
                r matches Ok(q) && q.id == link.id && q.original_url == link.original_url
                    && q.scans == link.scans && q.created_at == link.created_at && q.qr_svg@
                    == qr_markup_of(short_url_of(config.base_url@, id@)) && is_svg_markup(q.qr_svg@)
            } else {
                r == Err::<QrResponse, ApiError>(ApiError::Render)
            },
        },
{
    let link = match lookup {
        Lookup::Failed => return Err(ApiError::Storage),
        Lookup::Absent => return Err(ApiError::NotFound),
        Lookup::Found(link) => link,
    };
    let short_url = config.short_url(id);
    let qr_svg = match qr_markup(short_url.as_str()) {
        Some(svg) => svg,
        None => return Err(ApiError::Render),
    };
    Ok(
        QrResponse {
            id: link.id,
            original_url: link.original_url,
            scans: link.scans,
            created_at: link.created_at,
            qr_svg,
        },
    )
}

} // verus!
