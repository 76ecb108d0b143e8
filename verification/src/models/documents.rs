//! Document records and the requests and responses about them.
use vstd::prelude::*;
use super::BaseBean;

verus! {

/// A document.
#[derive(Clone)]
pub struct Document {
    pub base: Option<BaseBean>,
    pub name: String,
    pub email: String,
    pub password: Option<String>,
}

/// A search for documents by name and e-mail address.
pub struct QueryDocumentRequest {
    pub name: Option<String>,
    pub email: Option<String>,
}

/// The documents found.
pub struct QueryDocumentResponse {
    pub users: Vec<Document>,
}

/// A document to save.
pub struct SaveDocumentRequest {
    pub name: String,
    pub email: String,
    pub password: String,
}

/// The document saved.
pub struct SaveDocumentResponse {
    pub user: Document,
}

/// The document to delete.
pub struct DeleteDocumentRequest {
    pub id: String,
}

/// The document deleted.
pub struct DeleteDocumentResponse {
    pub id: String,
}

} // verus!
