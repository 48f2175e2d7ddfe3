use vstd::prelude::*;
use crate::error::{AppError, ErrorKind};
use crate::status::ok_status_text;
use crate::text::{copy_texts, text_eq, texts};

verus! {

/// An object as it is indexed for full-text search.
#[derive(Clone, Debug)]
pub struct MeiliSearchObjectData {
    pub id: i32,
    pub name: String,
    pub photo_url: String,
    pub mime_type: String,
    pub license: String,
    pub tag: Vec<String>,
    pub description: String,
    pub created_at: String,
    pub updated_at: String,
}

/// An object as it is answered to a client.
#[derive(Clone, Debug)]
pub struct ObjectData {
    pub id: i32,
    pub name: String,
    pub photo_url: String,
    pub mime_type: String,
    pub license: String,
    pub tag: Vec<String>,
    pub description: String,
    pub created_at: String,
    pub updated_at: String,
}

/// The body of a request that registers an object.
#[derive(Clone, Debug)]
pub struct RegisterObjectData {
    pub name: String,
    pub mime_type: String,
    pub license: String,
    pub tag: Vec<String>,
    pub description: String,
}

/// The body of a request that updates an object.
#[derive(Clone, Debug)]
pub struct UpdateObjectData {
    pub name: String,
    pub license: String,
    pub tag: Vec<String>,
    pub description: String,
}

/// The answer to a request that deletes an object.
#[derive(Clone, Debug)]
pub struct DeleteObjectData {
    pub status_code: String,
    pub message: String,
}

impl DeleteObjectData {
    pub fn generate() -> (r: Self)
        ensures
            r.status_code@ == "200 OK"@,
            r.message@ == "Item delete was successfull."@,
    {
        DeleteObjectData {
            status_code: ok_status_text(),
            message: String::from_str("Item delete was successfull."),
        }
    }
}

/// A stored object, with its timestamps rendered.
#[derive(Clone, Debug)]
pub struct ObjectRecord {
    pub id: i32,
    pub name: String,
    pub photo_url: String,
    pub mime_type: String,
    pub license: String,
    pub description: String,
    pub created_at: String,
    pub updated_at: String,
}

impl ObjectRecord {
    /// The stored object after an update: name, license and description are replaced and
    /// the update time is renewed; id, photo, MIME type and creation time stay.
    pub fn updated_with(&self, data: &UpdateObjectData, updated_at: String) -> (r: ObjectRecord)
        ensures
            r.id == self.id,
            r.name@ == data.name@,
            r.photo_url@ == self.photo_url@,
            r.mime_type@ == self.mime_type@,
            r.license@ == data.license@,
            r.description@ == data.description@,
            r.created_at@ == self.created_at@,
            r.updated_at@ == updated_at@,
    {
        ObjectRecord {
            id: self.id,
            name: data.name.clone(),
            photo_url: self.photo_url.clone(),
            mime_type: self.mime_type.clone(),
            license: data.license.clone(),
            description: data.description.clone(),
            created_at: self.created_at.clone(),
            updated_at,
        }
    }
}

impl ObjectData {
    /// The answer about a stored object that carries the tags `tag`.
    pub fn from_record(object: &ObjectRecord, tag: &Vec<String>) -> (r: Self)
        ensures
            r.id == object.id,
            r.name@ == object.name@,
            r.photo_url@ == object.photo_url@,
            r.mime_type@ == object.mime_type@,
            r.license@ == object.license@,
            texts(r.tag@) == texts(tag@),
            r.description@ == object.description@,
            r.created_at@ == object.created_at@,
            r.updated_at@ == object.updated_at@,
    {
        ObjectData {
            id: object.id,
            name: object.name.clone(),
            photo_url: object.photo_url.clone(),
            mime_type: object.mime_type.clone(),
            license: object.license.clone(),
            tag: copy_texts(tag),
            description: object.description.clone(),
            created_at: object.created_at.clone(),
            updated_at: object.updated_at.clone(),
        }
    }
}

impl MeiliSearchObjectData {
    /// The search document of a stored object that carries the tags `tag`.
    pub fn from_record(object: &ObjectRecord, tag: &Vec<String>) -> (r: Self)
        ensures
            r.id == object.id,
            r.name@ == object.name@,
            r.photo_url@ == object.photo_url@,
            r.mime_type@ == object.mime_type@,
            r.license@ == object.license@,
            texts(r.tag@) == texts(tag@),
            r.description@ == object.description@,
            r.created_at@ == object.created_at@,
            r.updated_at@ == object.updated_at@,
    {
        MeiliSearchObjectData {
            id: object.id,
            name: object.name.clone(),
            photo_url: object.photo_url.clone(),
            mime_type: object.mime_type.clone(),
            license: object.license.clone(),
            tag: copy_texts(tag),
            description: object.description.clone(),
            created_at: object.created_at.clone(),
            updated_at: object.updated_at.clone(),
        }
    }
}

/// The file extension under which an image of the given MIME type is stored, if the
/// type is one that objects may have.
pub open spec fn extension_of(mime_type: Seq<char>) -> Option<Seq<char>> {
    if mime_type == "image/jpeg"@ {
        Some("jpg"@)
    } else if mime_type == "image/png"@ {
        Some("png"@)
    } else if mime_type == "image/svg+xml"@ {
        Some("svg"@)
    } else if mime_type == "image/gif"@ {
        Some("gif"@)
    } else if mime_type == "image/bmp"@ {
        Some("bmp"@)
    } else if mime_type == "image/webp"@ {
        Some("webp"@)
    } else if mime_type == "application/postscript"@ {
        Some("ai"@)
    } else {
        None
    }
}

#[derive(Clone, Debug)]
pub struct MimeType;

impl MimeType {
    pub fn to_extension(mime_type: String) -> (r: Result<String, AppError>)
        ensures
            extension_of(mime_type@) matches Some(e) ==> r matches Ok(s) && s@ == e,
            extension_of(mime_type@) is None ==> r == Err::<String, AppError>(
                AppError(ErrorKind::UnsupportedMimeType),
            ),
    {
        let m = mime_type.as_str();
        if text_eq(m, "image/jpeg") {
            Ok(String::from_str("jpg"))
        } else if text_eq(m, "image/png") {
            Ok(String::from_str("png"))
        } else if text_eq(m, "image/svg+xml") {
            Ok(String::from_str("svg"))
        } else if text_eq(m, "image/gif") {
            Ok(String::from_str("gif"))
        } else if text_eq(m, "image/bmp") {
            Ok(String::from_str("bmp"))
        } else if text_eq(m, "image/webp") {
            Ok(String::from_str("webp"))
        } else if text_eq(m, "application/postscript") {
            Ok(String::from_str("ai"))
        } else {
            Err(AppError(ErrorKind::UnsupportedMimeType))
        }
    }
}

/// The supported MIME types and the extensions their images are stored under:
/// `image/jpeg` as `jpg`, `image/png` as `png`, `image/svg+xml` as `svg`, `image/gif` as
/// `gif`, `image/bmp` as `bmp`, `image/webp` as `webp`, `application/postscript` as `ai`.
pub proof fn lemma_extension_table()
    ensures
        extension_of("image/jpeg"@) == Some("jpg"@),
        extension_of("image/png"@) == Some("png"@),
        extension_of("image/svg+xml"@) == Some("svg"@),
        extension_of("image/gif"@) == Some("gif"@),
        extension_of("image/bmp"@) == Some("bmp"@),
        extension_of("image/webp"@) == Some("webp"@),
        extension_of("application/postscript"@) == Some("ai"@),
{
    reveal_strlit("image/jpeg");
    reveal_strlit("image/png");
    reveal_strlit("image/svg+xml");
    reveal_strlit("image/gif");
    reveal_strlit("image/bmp");
    reveal_strlit("image/webp");
    reveal_strlit("application/postscript");
    assert("image/jpeg"@[6] == 'j' && "image/png"@[6] == 'p' && "image/svg+xml"@[6] == 's');
    assert("image/gif"@[6] == 'g' && "image/bmp"@[6] == 'b' && "image/webp"@[6] == 'w');
    assert("application/postscript"@[0] == 'a');
    assert("image/jpeg"@[0] == 'i');
}

/// Two supported MIME types never share an extension, so an object's file name tells
/// its type back.
pub proof fn lemma_extension_injective(a: Seq<char>, b: Seq<char>)
    requires
        extension_of(a) is Some,
        extension_of(a) == extension_of(b),
    ensures
        a == b,
{
    reveal_strlit("jpg");
    reveal_strlit("png");
    reveal_strlit("svg");
    reveal_strlit("gif");
    reveal_strlit("bmp");
    reveal_strlit("webp");
    reveal_strlit("ai");
    reveal_strlit("image/jpeg");
    reveal_strlit("image/png");
    reveal_strlit("image/svg+xml");
    reveal_strlit("image/gif");
    reveal_strlit("image/bmp");
    reveal_strlit("image/webp");
    reveal_strlit("application/postscript");
    // The supported types differ in their first or seventh character, and so do
    // their extensions in their first one.
    assert("image/jpeg"@[6] == 'j' && "image/png"@[6] == 'p' && "image/svg+xml"@[6] == 's');
    assert("image/gif"@[6] == 'g' && "image/bmp"@[6] == 'b' && "image/webp"@[6] == 'w');
    assert("application/postscript"@[0] == 'a' && "application/postscript"@[6] == 'a');
    assert("jpg"@[0] == 'j' && "png"@[0] == 'p' && "svg"@[0] == 's' && "gif"@[0] == 'g');
    assert("bmp"@[0] == 'b' && "webp"@[0] == 'w' && "ai"@[0] == 'a');
    assert(extension_of(a).unwrap()[0] == extension_of(b).unwrap()[0]);
}


} // verus!
