use vstd::prelude::*;

verus! {

/// What `Display` prints for an HTTP status code: its number and its canonical reason.
pub uninterp spec fn status_line_text(code: u16) -> Seq<char>;

/// Builds `axum::http::StatusCode::from_u16(code)` and renders it with `Display`.
/// `from_u16` accepts exactly the codes 100 to 999; `Display` writes the number, a space
/// and the canonical reason, so the crate's own documentation gives `200 OK`, and its table
/// gives `Internal Server Error` as the reason of 500. For other codes only the name says
/// what is printed.
#[verifier::external_body]
fn status_code_text(code: u16) -> (r: Option<String>)
    ensures
        r is Some <==> 100 <= code <= 999,
        r matches Some(t) ==> t@ == status_line_text(code),
        r matches Some(t) ==> (code == 200 ==> t@ == "200 OK"@),
        r matches Some(t) ==> (code == 500 ==> t@ == "500 Internal Server Error"@),
{
    match axum::http::StatusCode::from_u16(code) {
        Ok(status) => Some(status.to_string()),
        Err(_) => None,
    }
}

/// The status line of a successful answer.
pub fn ok_status_text() -> (r: String)
    ensures
        r@ == "200 OK"@,
{
    status_code_text(200).unwrap()
}

/// The status line of an answer to a failed request.
pub fn internal_error_status_text() -> (r: String)
    ensures
        r@ == "500 Internal Server Error"@,
{
    status_code_text(500).unwrap()
}

} // verus!
