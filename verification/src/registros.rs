//! Record shapes of the nine tables, and the error kind shared by every
//! operation that can reject a request.

use vstd::prelude::*;

verus! {

/// The only two ways a table operation rejects a request: a strict create
/// aimed at an identifier already present, or an update aimed at an
/// identifier that is absent. Every other operation succeeds
/// unconditionally, and a rejected request leaves the tables untouched.
#[derive(Clone, Copy, Debug, PartialEq, Eq, Structural)]
pub enum ErrorRegistro {
    AlreadyExists,
    NotFound,
}

/// A registered document: title, current status, and creation time.
#[derive(Debug, PartialEq, Eq)]
pub struct Documento {
    pub titulo: String,
    pub estado: String,
    pub fecha: u64,
}

/// One verification entry of the history table: when it happened and what
/// came out of it.
#[derive(Debug, PartialEq, Eq)]
pub struct EntradaHistorial {
    pub fecha: u64,
    pub resultado: String,
}

/// A backup of a document: when it was taken, where it lives, who took it.
/// Immutable once created: no operation rewrites a backup.
#[derive(Debug, PartialEq, Eq)]
pub struct Respaldo {
    pub fecha: u64,
    pub ubicacion: String,
    pub autor: String,
}

/// A user account: display name and assigned role.
#[derive(Debug, PartialEq, Eq)]
pub struct Usuario {
    pub nombre: String,
    pub rol: String,
}

/// The notification channel configured for one identifier.
#[derive(Debug, PartialEq, Eq)]
pub struct Notificacion {
    pub tipo: String,
}

/// One session slot. The slot is a single untyped text field: authentication
/// stores credentials in it, and a later permission assignment overwrites it
/// with the permission list. The two payloads are never held at once.
#[derive(Debug, PartialEq, Eq)]
pub struct Sesion {
    pub contenido: String,
}

/// A generated report: when it was generated and in what format.
#[derive(Debug, PartialEq, Eq)]
pub struct Informe {
    pub fecha: u64,
    pub formato: String,
}

/// A data export: the format it was exported in.
#[derive(Debug, PartialEq, Eq)]
pub struct Exportacion {
    pub formato: String,
}

/// The synchronization record of one external system.
#[derive(Debug, PartialEq, Eq)]
pub struct Integracion {
    pub sistema: String,
}

} // verus!
