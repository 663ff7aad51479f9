use vstd::prelude::*;
use crate::ids::{parse_uuid, uuid_parse};
use crate::text::text_eq;

verus! {

/// A folder of a listing.
#[derive(Debug, PartialEq)]
pub struct Folder {
    pub id: u128,
    pub name: String,
}

/// A presigned download URL of a stored object.
#[derive(Debug, PartialEq)]
pub struct FileUrl {
    pub url: String,
}

/// Seconds for which a presigned download URL stays valid.
pub const URL_EXPIRY_SECS: u64 = 600;

/// A file of a listing, with the URL it can be fetched from.
#[derive(Debug, PartialEq)]
pub struct FileEntry {
    pub id: u128,
    pub name: String,
    pub mime_type: String,
    pub size_bytes: i64,
    pub url: FileUrl,
}

/// An entry of the trash listing. `deleted_at` counts microseconds since the Unix epoch.
#[derive(Debug, PartialEq)]
pub struct TrashEntry {
    pub id: u128,
    pub name: String,
    pub kind: String,
    pub mime_type: Option<String>,
    pub deleted_at: i64,
    pub url: Option<FileUrl>,
}

/// A file row as the database returns it.
#[derive(Debug, PartialEq)]
pub struct FileRow {
    pub id: u128,
    pub name: String,
    pub size_bytes: i64,
    pub mime_type: String,
    pub s3_fileid: String,
}

/// A trash row as the database returns it; folders have no object key.
#[derive(Debug, PartialEq)]
pub struct TrashRow {
    pub id: u128,
    pub name: String,
    pub kind: String,
    pub mime_type: Option<String>,
    pub deleted_at: i64,
    pub s3_fileid: Option<String>,
}

} // verus!

verus! {

/// An uploaded file with what it is stored as.
#[derive(Debug, PartialEq)]
pub struct NewFile {
    pub data: Vec<u8>,
    pub name: String,
    pub mime_type: String,
    pub parent_id: Option<u128>,
}

/// Which part of an upload form a field carries, by its name.
#[derive(Debug, PartialEq)]
pub enum FieldKind {
    File,
    Name,
    ParentId,
    Other,
}

/// A field of an upload form as read from the request.
#[derive(Debug, PartialEq)]
pub enum FormField {
    /// The file's bytes, with the content type the client gave.
    File { content_type: Option<String>, data: Vec<u8> },
    Name(String),
    ParentId(String),
    Other,
}

/// The parts of an upload form read so far.
#[derive(Debug, PartialEq)]
pub struct NewFileForm {
    pub file_data: Option<Vec<u8>>,
    pub name: Option<String>,
    pub mime_type: Option<String>,
    pub parent_id: Option<u128>,
}

/// The form after taking `field`, or the rejection it causes.
pub open spec fn form_accepts(form: NewFileForm, field: FormField, next: NewFileForm, r: Result<(), (u16, String)>) -> bool {
    match field {
        FormField::File { content_type, data } => r is Ok && next == NewFileForm {
            file_data: Some(data),
            mime_type: content_type,
            ..form
        },
        FormField::Name(text) => r is Ok && next == (if text@.len() == 0 {
            form
        } else {
            NewFileForm { name: Some(text), ..form }
        }),
        FormField::ParentId(text) => if text@.len() == 0 {
            r is Ok && next == form
        } else {
            match uuid_parse(text@) {
                Some(id) => r is Ok && next == NewFileForm { parent_id: Some(id), ..form },
                None => r matches Err((code, msg)) && code == 400 && msg@ == "Invalid parent_id"@,
            }
        },
        FormField::Other => r is Ok && next == form,
    }
}

/// The name of the form field that carries each part.
pub open spec fn spec_field_kind(name: Option<Seq<char>>) -> FieldKind {
    match name {
        Some(n) => if n == "file"@ {
            FieldKind::File
        } else if n == "name"@ {
            FieldKind::Name
        } else if n == "parent_id"@ {
            FieldKind::ParentId
        } else {
            FieldKind::Other
        },
        None => FieldKind::Other,
    }
}

impl NewFileForm {
    /// A form of which nothing has been read.
    pub fn new() -> (r: Self)
        ensures
            r.file_data is None && r.name is None && r.mime_type is None && r.parent_id is None,
    {
        NewFileForm { file_data: None, name: None, mime_type: None, parent_id: None }
    }

    /// What a field named `name` carries: "file", "name" and "parent_id" are read, others skipped.
    pub fn field_kind(name: Option<&str>) -> (r: FieldKind)
        ensures
            r == spec_field_kind(match name {
                Some(n) => Some(n@),
                None => None,
            }),
    {
        match name {
            Some(n) => if text_eq(n, "file") {
                FieldKind::File
            } else if text_eq(n, "name") {
                FieldKind::Name
            } else if text_eq(n, "parent_id") {
                FieldKind::ParentId
            } else {
                FieldKind::Other
            },
            None => FieldKind::Other,
        }
    }

    /// Takes a field: the file with its content type, a non-empty name, a non-empty
    /// parent id, which must be a UUID. A later field of the same part replaces an earlier one.
    pub fn accept(&mut self, field: FormField) -> (r: Result<(), (u16, String)>)
        ensures
            form_accepts(*old(self), field, *final(self), r),
    {
        match field {
            FormField::File { content_type, data } => {
                self.mime_type = content_type;
                self.file_data = Some(data);
                Ok(())
            },
            FormField::Name(text) => {
                if !text.as_str().is_empty() {
                    self.name = Some(text);
                }
                Ok(())
            },
            FormField::ParentId(text) => {
                if !text.as_str().is_empty() {
                    match parse_uuid(text.as_str()) {
                        Some(id) => {
                            self.parent_id = Some(id);
                        },
                        None => {
                            return Err((400, String::from_str("Invalid parent_id")));
                        },
                    }
                }
                Ok(())
            },
            FormField::Other => Ok(()),
        }
    }
}

impl NewFile {
    /// The upload that a fully read form describes: it needs a file and a name; without a
    /// content type the file is stored as `application/octet-stream`.
    pub fn from_multipart(form: NewFileForm) -> (r: Result<NewFile, (u16, String)>)
        ensures
            form.file_data is None ==> (r matches Err((code, msg)) && code == 400 && msg@ == "No file provided"@),
            form.file_data is Some && form.name is None ==> (r matches Err((code, msg)) && code == 400 && msg@
                == "No name provided"@),
            form.file_data is Some && form.name is Some ==> (r matches Ok(f) && f.data == form.file_data->0
                && f.name == form.name->0 && f.parent_id == form.parent_id && match form.mime_type {
                Some(m) => f.mime_type == m,
                None => f.mime_type@ == "application/octet-stream"@,
            }),
    {
        let data = match form.file_data {
            Some(d) => d,
            None => {
                return Err((400, String::from_str("No file provided")));
            },
        };
        let name = match form.name {
            Some(n) => n,
            None => {
                return Err((400, String::from_str("No name provided")));
            },
        };
        let mime_type = match form.mime_type {
            Some(m) => m,
            None => String::from_str("application/octet-stream"),
        };
        Ok(NewFile { data, name, mime_type, parent_id: form.parent_id })
    }
}

} // verus!
