use vstd::prelude::*;

verus! {

/// A request to shorten `url`.
#[derive(Debug)]
pub struct ShortenRequest {
    pub url: String,
}

/// The answer to a shorten request.
#[derive(Debug)]
pub struct ShortenResponse {
    pub id: String,
    pub short_url: String,
    pub qr_svg: String,
}

/// A stored short link.
#[derive(Clone, Debug)]
pub struct Link {
    pub id: String,
    pub original_url: String,
    pub scans: i32,
    pub created_at: String,
}

/// One recorded resolution of a link.
#[derive(Clone, Debug)]
pub struct Scan {
    pub link_id: String,
    pub ip_address: String,
    pub user_agent: String,
    pub scanned_at: String,
}

/// A link's details together with its QR code.
#[derive(Debug)]
pub struct QrResponse {
    pub id: String,
    pub original_url: String,
    pub scans: i32,
    pub created_at: String,
    pub qr_svg: String,
}

/// The body of an error answer.
#[derive(Debug)]
pub struct ErrorResponse {
    pub error: String,
}

/// The answer to a location registration.
#[derive(Debug)]
pub struct LocationResponse {
    pub message: String,
    pub location_id: i64,
}

} // verus!
