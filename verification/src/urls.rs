use vstd::prelude::*;
use crate::error::{AppError, ErrorKind};
use crate::models::object_models::{extension_of, MimeType};
use crate::text::{decimal_string, decimal_text, lemma_decimal_text_injective};

verus! {

/// A lower-case hexadecimal digit or a hyphen.
pub open spec fn is_uuid_char(c: char) -> bool {
    ('0' <= c && c <= '9') || ('a' <= c && c <= 'f') || c == '-'
}

/// Draws a version 4 UUID with `uuid::Uuid::new_v4()` and renders it with `Display`, which
/// the `uuid` source writes as the 36-character hyphenated lower-case form. Which UUID
/// comes back is left open: it is random.
#[verifier::external_body]
fn new_uuid_text() -> (r: String)
    ensures
        r@.len() == 36,
        forall|i: int| 0 <= i < 36 ==> is_uuid_char(#[trigger] r@[i]),
{
    uuid::Uuid::new_v4().to_string()
}

/// The URL under which the image of a stored item is served: `<r2_url>/<id>.webp`.
pub open spec fn item_photo_url_text(r2_url: Seq<char>, id: int) -> Seq<char> {
    r2_url + "/"@ + decimal_text(id) + ".webp"@
}

pub fn item_photo_url(r2_url: &str, id: i32) -> (r: String)
    ensures
        r@ == item_photo_url_text(r2_url@, id as int),
        r@ == r2_url@ + "/"@ + decimal_text(id as int) + ".webp"@,
{
    let number = decimal_string(id as i64);
    String::from_str(r2_url).concat("/").concat(number.as_str()).concat(".webp")
}

/// The URL under which the image of a stored object is served:
/// `<r2_url>/obj-<id>.<extension of its MIME type>`.
pub open spec fn object_photo_url_text(r2_url: Seq<char>, id: int, extension: Seq<char>) -> Seq<char> {
    r2_url + "/obj-"@ + decimal_text(id) + "."@ + extension
}

/// The URL of a stored object's image; an object whose MIME type has no extension is
/// refused as `MimeType::to_extension` refuses it.
pub fn object_photo_url(r2_url: &str, id: i32, mime_type: String) -> (r: Result<String, AppError>)
    ensures
        extension_of(mime_type@) matches Some(e) ==> (r matches Ok(url) && url@
            == object_photo_url_text(r2_url@, id as int, e)),
        extension_of(mime_type@) matches Some(e) ==> (r matches Ok(url) && url@ == r2_url@
            + "/obj-"@ + decimal_text(id as int) + "."@ + e),
        extension_of(mime_type@) is None ==> r == Err::<String, AppError>(
            AppError(ErrorKind::UnsupportedMimeType),
        ),
{
    let extension = MimeType::to_extension(mime_type)?;
    let number = decimal_string(id as i64);
    Ok(
        String::from_str(r2_url).concat("/obj-").concat(number.as_str()).concat(".").concat(
            extension.as_str(),
        ),
    )
}

/// The URL that a newly registered item gets before it has an id:
/// `<r2_url>/<random UUID>.webp`.
pub fn placeholder_item_photo_url(r2_url: &str) -> (r: String)
    ensures
        exists|u: Seq<char>|
            #![trigger u.len()]
            u.len() == 36 && (forall|i: int| 0 <= i < 36 ==> is_uuid_char(#[trigger] u[i])) && r@
                == r2_url@ + "/"@ + u + ".webp"@,
{
    let u = new_uuid_text();
    let r = String::from_str(r2_url).concat("/").concat(u.as_str()).concat(".webp");
    assert(u@.len() == 36);
    r
}

/// The URL that a newly registered object gets before it has an id: `<r2_url>/<random UUID>`.
pub fn placeholder_object_photo_url(r2_url: &str) -> (r: String)
    ensures
        exists|u: Seq<char>|
            #![trigger u.len()]
            u.len() == 36 && (forall|i: int| 0 <= i < 36 ==> is_uuid_char(#[trigger] u[i])) && r@
                == r2_url@ + "/"@ + u,
{
    let u = new_uuid_text();
    let r = String::from_str(r2_url).concat("/").concat(u.as_str());
    assert(u@.len() == 36);
    r
}

/// Two stored items never share an image URL: the URL tells the item's id back.
pub proof fn lemma_item_photo_url_injective(r2_url: Seq<char>, a: int, b: int)
    requires
        item_photo_url_text(r2_url, a) == item_photo_url_text(r2_url, b),
    ensures
        a == b,
{
    reveal_strlit("/");
    reveal_strlit(".webp");
    let prefix = r2_url + "/"@;
    let ua = item_photo_url_text(r2_url, a);
    let ub = item_photo_url_text(r2_url, b);
    let da = decimal_text(a);
    let db = decimal_text(b);
    assert(ua == prefix + da + ".webp"@);
    assert(ub == prefix + db + ".webp"@);
    assert(da.len() == db.len());
    assert(da =~= ua.subrange(prefix.len() as int, (prefix.len() + da.len()) as int));
    assert(db =~= ub.subrange(prefix.len() as int, (prefix.len() + db.len()) as int));
    lemma_decimal_text_injective(a, b);
}

} // verus!
