//! A registry of academic certification records: the documents themselves,
//! their verification history and backups, and the user accounts,
//! notifications, sessions, reports, exports and integrations kept around
//! them.
//!
//! The registry holds nine keyed tables, one per entity kind, inside an
//! in-memory model of the host's durable key-value storage and clock
//! ([`entorno::Entorno`]). Every public operation works on one table:
//! it validates the request against that table's create/update policy,
//! then either writes exactly one record or rejects the request with an
//! explicit [`registros::ErrorRegistro`] and no observable effect. No
//! operation ever deletes a record.

pub mod contrato;
pub mod entorno;
pub mod leyes;
pub mod registros;
pub mod tabla;

pub use contrato::DocumentosContract;
pub use entorno::Entorno;
pub use registros::Documento;
pub use registros::EntradaHistorial;
pub use registros::ErrorRegistro;
pub use registros::Exportacion;
pub use registros::Integracion;
pub use registros::Informe;
pub use registros::Notificacion;
pub use registros::Respaldo;
pub use registros::Sesion;
pub use registros::Usuario;
