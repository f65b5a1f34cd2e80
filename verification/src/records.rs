//! The local record types the gateway reads and writes: customers and
//! articles, exactly as the local store hands them over, with the small
//! validations the write endpoints apply.
//!
//! Instants (registration, creation) are seconds since the epoch; the
//! store owns these records, the core only reads and validates them.

use vstd::prelude::*;

verus! {

/// The local store could not be reached or failed mid-query. The cause
/// stays at the boundary; the core only decides what the failure means.
#[derive(Clone, Copy, Debug, PartialEq, Eq, Structural)]
pub struct StoreFault;

/// A customer as the caller submits it. `user_id` is the identity
/// provider's subject the customer is keyed by, unique across customers.
#[derive(Debug, PartialEq, Eq)]
pub struct ClienteRequest {
    pub user_id: i32,
    pub nombre: String,
    pub email: String,
    pub telefono: Option<String>,
    pub direccion: Option<String>,
}

/// A stored customer: the request's fields plus the store-assigned id
/// and the registration instant.
#[derive(Debug, PartialEq, Eq)]
pub struct Cliente {
    pub id: i32,
    pub user_id: i32,
    pub nombre: String,
    pub email: String,
    pub telefono: Option<String>,
    pub direccion: Option<String>,
    pub fecha_registro: i64,
}

/// An article as the caller submits it. On creation `id` must still be
/// zero: the store assigns the real one.
#[derive(Debug, PartialEq, Eq)]
pub struct ArticuloRequest {
    pub id: i32,
    pub nombre: String,
    pub descripcion: Option<String>,
    pub precio: i32,
    pub stock: i32,
}

/// A stored article.
#[derive(Debug, PartialEq, Eq)]
pub struct Articulo {
    pub id: i32,
    pub nombre: String,
    pub descripcion: Option<String>,
    pub precio: i32,
    pub stock: i32,
    pub fecha_creacion: i64,
}

/// Whether an article-creation request is acceptable: both the submitted
/// record and the path must still carry the placeholder id zero.
pub fn articulo_create_valid(articulo: &ArticuloRequest, path_id: i32) -> (valid: bool)
    ensures
        valid == (articulo.id == 0 && path_id == 0),
{
    articulo.id == 0 && path_id == 0
}

/// Whether an article-update request is acceptable: the submitted record
/// must carry a real id, and the path must name the same one.
pub fn articulo_update_valid(articulo: &ArticuloRequest, path_id: i32) -> (valid: bool)
    ensures
        valid == (articulo.id != 0 && path_id == articulo.id),
{
    articulo.id != 0 && path_id == articulo.id
}

} // verus!
