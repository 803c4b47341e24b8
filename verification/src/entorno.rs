//! The model of the host environment: the nine durable storage regions,
//! one per table, and the host's monotonic clock.
//!
//! The host owns no record logic of its own. It hands each operation
//! exclusive access to the stored tables for the length of one invocation,
//! and a clock reading used verbatim wherever a record is stamped with the
//! current time. The environment value is passed into every operation
//! explicitly, so a test can drive the tables and the clock directly.

use vstd::prelude::*;

use crate::registros::Documento;
use crate::registros::EntradaHistorial;
use crate::registros::Exportacion;
use crate::registros::Integracion;
use crate::registros::Informe;
use crate::registros::Notificacion;
use crate::registros::Respaldo;
use crate::registros::Sesion;
use crate::registros::Usuario;
use crate::tabla::Tabla;

verus! {

/// The abstract state of the environment: one map per table, and the
/// clock's current reading.
pub ghost struct VistaEntorno {
    pub documentos: Map<i32, Documento>,
    pub historial: Map<i32, EntradaHistorial>,
    pub respaldos: Map<i32, Respaldo>,
    pub usuarios: Map<i32, Usuario>,
    pub notificaciones: Map<i32, Notificacion>,
    pub sesiones: Map<i32, Sesion>,
    pub informes: Map<i32, Informe>,
    pub exportaciones: Map<i32, Exportacion>,
    pub integraciones: Map<i32, Integracion>,
    pub reloj: u64,
}

/// The host environment: nine named storage regions and the clock.
pub struct Entorno {
    pub documentos: Tabla<Documento>,
    pub historial: Tabla<EntradaHistorial>,
    pub respaldos: Tabla<Respaldo>,
    pub usuarios: Tabla<Usuario>,
    pub notificaciones: Tabla<Notificacion>,
    pub sesiones: Tabla<Sesion>,
    pub informes: Tabla<Informe>,
    pub exportaciones: Tabla<Exportacion>,
    pub integraciones: Tabla<Integracion>,
    pub reloj: u64,
}

impl View for Entorno {
    type V = VistaEntorno;

    open spec fn view(&self) -> VistaEntorno {
        VistaEntorno {
            documentos: self.documentos@,
            historial: self.historial@,
            respaldos: self.respaldos@,
            usuarios: self.usuarios@,
            notificaciones: self.notificaciones@,
            sesiones: self.sesiones@,
            informes: self.informes@,
            exportaciones: self.exportaciones@,
            integraciones: self.integraciones@,
            reloj: self.reloj,
        }
    }
}

impl Entorno {
    /// A fresh environment: no region has ever been stored, so every table
    /// loads empty, and the clock starts at zero.
    pub fn nuevo() -> (e: Self)
        ensures
            e@ == (VistaEntorno {
                documentos: Map::<i32, Documento>::empty(),
                historial: Map::<i32, EntradaHistorial>::empty(),
                respaldos: Map::<i32, Respaldo>::empty(),
                usuarios: Map::<i32, Usuario>::empty(),
                notificaciones: Map::<i32, Notificacion>::empty(),
                sesiones: Map::<i32, Sesion>::empty(),
                informes: Map::<i32, Informe>::empty(),
                exportaciones: Map::<i32, Exportacion>::empty(),
                integraciones: Map::<i32, Integracion>::empty(),
                reloj: 0u64,
            }),
    {
        Entorno {
            documentos: Tabla::nueva(),
            historial: Tabla::nueva(),
            respaldos: Tabla::nueva(),
            usuarios: Tabla::nueva(),
            notificaciones: Tabla::nueva(),
            sesiones: Tabla::nueva(),
            informes: Tabla::nueva(),
            exportaciones: Tabla::nueva(),
            integraciones: Tabla::nueva(),
            reloj: 0,
        }
    }

    /// Moves the host clock forward to `ahora`. The host's clock is
    /// monotonic, so it never moves backwards; the tables are untouched.
    pub fn avanzar_reloj(&mut self, ahora: u64)
        requires
            old(self).reloj <= ahora,
        ensures
            final(self)@ == (VistaEntorno { reloj: ahora, ..old(self)@ }),
    {
        self.reloj = ahora;
    }
}

} // verus!
