//! The public operation surface: twenty named operations, each acting on
//! exactly one of the nine tables held by the [`Entorno`].
//!
//! Every mutation follows the same cycle: load the table, validate the
//! request against the table's policy, and either write one record back or
//! reject the request. Each contract states the whole cycle through the
//! policy spec functions of [`crate::tabla`]: which table changed, to
//! exactly what, and that every other region and the clock stayed as they
//! were. A rejected request leaves the environment untouched.
//!
//! Three create/update policies coexist. Documents, history appends,
//! backups and users are strict creates (`AlreadyExists` on a taken
//! identifier). Status, role and permission changes are strict updates
//! (`NotFound` on an absent identifier). Notifications, sessions, reports,
//! exports, integrations — and document verification, deliberately unlike
//! the history append beside it — always overwrite and never fail.

use vstd::prelude::*;

use crate::entorno::Entorno;
use crate::entorno::VistaEntorno;
use crate::registros::Documento;
use crate::registros::EntradaHistorial;
use crate::registros::ErrorRegistro;
use crate::registros::Exportacion;
use crate::registros::Integracion;
use crate::registros::Informe;
use crate::registros::Notificacion;
use crate::registros::Respaldo;
use crate::registros::Sesion;
use crate::registros::Usuario;
use crate::tabla::actualizacion_estricta;
use crate::tabla::alta_estricta;
use crate::tabla::sobrescritura;

verus! {

/// The registry of academic documents and everything kept around them.
/// All operations are associated functions taking the host environment
/// explicitly, so one environment can serve any number of invocations.
pub struct DocumentosContract;

impl DocumentosContract {
    // --- Documentos ---
    /// Registers a new document. Strict create: an identifier already
    /// registered rejects the request and changes nothing.
    pub fn registrar_documento(
        entorno: &mut Entorno,
        id_documento: i32,
        titulo: String,
        estado: String,
        fecha: u64,
    ) -> (r: Result<(), ErrorRegistro>)
        ensures
            ({
                let (m, res) = alta_estricta(
                    old(entorno)@.documentos,
                    id_documento,
                    (Documento { titulo, estado, fecha }),
                );
                r == res && final(entorno)@ == (VistaEntorno { documentos: m, ..old(entorno)@ })
            }),
    {
        if entorno.documentos.contiene(id_documento) {
            return Err(ErrorRegistro::AlreadyExists);
        }
        entorno.documentos.escribir(id_documento, Documento { titulo, estado, fecha });
        Ok(())
    }

    /// The document registered under `id_documento`, or nothing.
    pub fn obtener_documento(entorno: &Entorno, id_documento: i32) -> (r: Option<&Documento>)
        ensures
            match r {
                Some(d) => entorno@.documentos.contains_key(id_documento) && *d
                    == entorno@.documentos[id_documento],
                None => !entorno@.documentos.contains_key(id_documento),
            },
    {
        entorno.documentos.obtener(id_documento)
    }

    /// Replaces the status of an existing document, preserving its title
    /// and creation time exactly. Strict update: an absent identifier
    /// rejects the request and changes nothing.
    pub fn actualizar_estado(entorno: &mut Entorno, id_documento: i32, nuevo_estado: String) -> (r:
        Result<(), ErrorRegistro>)
        ensures
            ({
                let previo = old(entorno)@.documentos[id_documento];
                let (m, res) = actualizacion_estricta(
                    old(entorno)@.documentos,
                    id_documento,
                    (Documento { titulo: previo.titulo, estado: nuevo_estado, fecha: previo.fecha }),
                );
                r == res && final(entorno)@ == (VistaEntorno { documentos: m, ..old(entorno)@ })
            }),
    {
        match entorno.documentos.retirar(id_documento) {
            Some(previo) => {
                let nuevo = Documento {
                    titulo: previo.titulo,
                    estado: nuevo_estado,
                    fecha: previo.fecha,
                };
                entorno.documentos.escribir(id_documento, nuevo);
                proof {
                    let viejo = old(entorno)@.documentos;
                    assert(entorno.documentos@ =~= viejo.insert(id_documento, nuevo));
                }
                Ok(())
            },
            None => {
                proof {
                    // Taking an absent identifier out left the map as it was.
                    assert(entorno.documentos@ =~= old(entorno)@.documentos);
                }
                Err(ErrorRegistro::NotFound)
            },
        }
    }

    // --- Historial ---
    /// Appends a history entry under a fresh identifier. Strict create,
    /// deliberately unlike [`Self::verificar_documento`] on the same table.
    pub fn consulta_historial(
        entorno: &mut Entorno,
        id_historial: i32,
        fecha: u64,
        resultado: String,
    ) -> (r: Result<(), ErrorRegistro>)
        ensures
            ({
                let (m, res) = alta_estricta(
                    old(entorno)@.historial,
                    id_historial,
                    (EntradaHistorial { fecha, resultado }),
                );
                r == res && final(entorno)@ == (VistaEntorno { historial: m, ..old(entorno)@ })
            }),
    {
        if entorno.historial.contiene(id_historial) {
            return Err(ErrorRegistro::AlreadyExists);
        }
        entorno.historial.escribir(id_historial, EntradaHistorial { fecha, resultado });
        Ok(())
    }

    /// The history entry under `id_historial`, or nothing.
    pub fn obtener_historial(entorno: &Entorno, id_historial: i32) -> (r: Option<&EntradaHistorial>)
        ensures
            match r {
                Some(h) => entorno@.historial.contains_key(id_historial) && *h
                    == entorno@.historial[id_historial],
                None => !entorno@.historial.contains_key(id_historial),
            },
    {
        entorno.historial.obtener(id_historial)
    }

    /// Records the outcome of verifying a document: stamps the host
    /// clock's current reading and overwrites the history entry for
    /// `id_documento` whether or not one exists. It never fails.
    pub fn verificar_documento(entorno: &mut Entorno, id_documento: i32, nuevo_resultado: String)
        ensures
            final(entorno)@ == (VistaEntorno {
                historial: sobrescritura(
                    old(entorno)@.historial,
                    id_documento,
                    (EntradaHistorial { fecha: old(entorno)@.reloj, resultado: nuevo_resultado }),
                ),
                ..old(entorno)@
            }),
    {
        let fecha_actual = entorno.reloj;
        entorno.historial.escribir(
            id_documento,
            EntradaHistorial { fecha: fecha_actual, resultado: nuevo_resultado },
        );
    }

    // --- Respaldos ---
    /// Registers a backup. Strict create; a backup, once created, is
    /// immutable through this interface.
    pub fn realizar_respaldo(
        entorno: &mut Entorno,
        id_respaldo: i32,
        fecha: u64,
        ubicacion: String,
        autor: String,
    ) -> (r: Result<(), ErrorRegistro>)
        ensures
            ({
                let (m, res) = alta_estricta(
                    old(entorno)@.respaldos,
                    id_respaldo,
                    (Respaldo { fecha, ubicacion, autor }),
                );
                r == res && final(entorno)@ == (VistaEntorno { respaldos: m, ..old(entorno)@ })
            }),
    {
        if entorno.respaldos.contiene(id_respaldo) {
            return Err(ErrorRegistro::AlreadyExists);
        }
        entorno.respaldos.escribir(id_respaldo, Respaldo { fecha, ubicacion, autor });
        Ok(())
    }

    /// The backup registered under `id_respaldo`, or nothing.
    pub fn consultar_respaldo(entorno: &Entorno, id_respaldo: i32) -> (r: Option<&Respaldo>)
        ensures
            match r {
                Some(b) => entorno@.respaldos.contains_key(id_respaldo) && *b
                    == entorno@.respaldos[id_respaldo],
                None => !entorno@.respaldos.contains_key(id_respaldo),
            },
    {
        entorno.respaldos.obtener(id_respaldo)
    }

    // --- Usuarios ---
    /// Creates a user account. Strict create.
    pub fn crear_usuario(entorno: &mut Entorno, id_usuario: i32, nombre: String, rol: String) -> (r:
        Result<(), ErrorRegistro>)
        ensures
            ({
                let (m, res) = alta_estricta(
                    old(entorno)@.usuarios,
                    id_usuario,
                    (Usuario { nombre, rol }),
                );
                r == res && final(entorno)@ == (VistaEntorno { usuarios: m, ..old(entorno)@ })
            }),
    {
        if entorno.usuarios.contiene(id_usuario) {
            return Err(ErrorRegistro::AlreadyExists);
        }
        entorno.usuarios.escribir(id_usuario, Usuario { nombre, rol });
        Ok(())
    }

    /// Replaces the role of an existing user, preserving the name exactly.
    /// Strict update.
    pub fn asignar_rol(entorno: &mut Entorno, id_usuario: i32, nuevo_rol: String) -> (r: Result<
        (),
        ErrorRegistro,
    >)
        ensures
            ({
                let previo = old(entorno)@.usuarios[id_usuario];
                let (m, res) = actualizacion_estricta(
                    old(entorno)@.usuarios,
                    id_usuario,
                    (Usuario { nombre: previo.nombre, rol: nuevo_rol }),
                );
                r == res && final(entorno)@ == (VistaEntorno { usuarios: m, ..old(entorno)@ })
            }),
    {
        match entorno.usuarios.retirar(id_usuario) {
            Some(previo) => {
                let nuevo = Usuario { nombre: previo.nombre, rol: nuevo_rol };
                entorno.usuarios.escribir(id_usuario, nuevo);
                proof {
                    let viejo = old(entorno)@.usuarios;
                    assert(entorno.usuarios@ =~= viejo.insert(id_usuario, nuevo));
                }
                Ok(())
            },
            None => {
                proof {
                    // Taking an absent identifier out left the map as it was.
                    assert(entorno.usuarios@ =~= old(entorno)@.usuarios);
                }
                Err(ErrorRegistro::NotFound)
            },
        }
    }

    // --- Notificaciones ---
    /// Configures the notification channel for an identifier. Upsert: it
    /// always overwrites and never fails.
    pub fn configurar_notificacion(entorno: &mut Entorno, id_notificacion: i32, tipo: String)
        ensures
            final(entorno)@ == (VistaEntorno {
                notificaciones: sobrescritura(
                    old(entorno)@.notificaciones,
                    id_notificacion,
                    (Notificacion { tipo }),
                ),
                ..old(entorno)@
            }),
    {
        entorno.notificaciones.escribir(id_notificacion, Notificacion { tipo });
    }

    /// The notification configured under `id_notificacion`, or nothing.
    pub fn enviar_notificacion(entorno: &Entorno, id_notificacion: i32) -> (r: Option<
        &Notificacion,
    >)
        ensures
            match r {
                Some(n) => entorno@.notificaciones.contains_key(id_notificacion) && *n
                    == entorno@.notificaciones[id_notificacion],
                None => !entorno@.notificaciones.contains_key(id_notificacion),
            },
    {
        entorno.notificaciones.obtener(id_notificacion)
    }

    // --- Sesiones ---
    /// Opens (or reopens) the session slot for an identifier, storing the
    /// credentials. Upsert: no existence check, no failure.
    pub fn autenticar_usuario(entorno: &mut Entorno, id_sesion: i32, credenciales: String)
        ensures
            final(entorno)@ == (VistaEntorno {
                sesiones: sobrescritura(
                    old(entorno)@.sesiones,
                    id_sesion,
                    (Sesion { contenido: credenciales }),
                ),
                ..old(entorno)@
            }),
    {
        entorno.sesiones.escribir(id_sesion, Sesion { contenido: credenciales });
    }

    /// Overwrites the content of an existing session slot with the
    /// permission list. Strict update: an absent session rejects the
    /// request and changes nothing.
    pub fn asignar_permisos(entorno: &mut Entorno, id_sesion: i32, permisos: String) -> (r: Result<
        (),
        ErrorRegistro,
    >)
        ensures
            ({
                let (m, res) = actualizacion_estricta(
                    old(entorno)@.sesiones,
                    id_sesion,
                    (Sesion { contenido: permisos }),
                );
                r == res && final(entorno)@ == (VistaEntorno { sesiones: m, ..old(entorno)@ })
            }),
    {
        if entorno.sesiones.contiene(id_sesion) {
            entorno.sesiones.escribir(id_sesion, Sesion { contenido: permisos });
            Ok(())
        } else {
            Err(ErrorRegistro::NotFound)
        }
    }

    // --- Informes ---
    /// Generates the report for an identifier, stamping the host clock's
    /// current reading. Upsert: it always overwrites and never fails.
    pub fn generar_informe(entorno: &mut Entorno, id_informe: i32, formato: String)
        ensures
            final(entorno)@ == (VistaEntorno {
                informes: sobrescritura(
                    old(entorno)@.informes,
                    id_informe,
                    (Informe { fecha: old(entorno)@.reloj, formato }),
                ),
                ..old(entorno)@
            }),
    {
        let fecha_generacion = entorno.reloj;
        entorno.informes.escribir(id_informe, Informe { fecha: fecha_generacion, formato });
    }

    /// The report generated under `id_informe`, or nothing.
    pub fn exportar_informe(entorno: &Entorno, id_informe: i32) -> (r: Option<&Informe>)
        ensures
            match r {
                Some(i) => entorno@.informes.contains_key(id_informe) && *i
                    == entorno@.informes[id_informe],
                None => !entorno@.informes.contains_key(id_informe),
            },
    {
        entorno.informes.obtener(id_informe)
    }

    // --- Exportaciones ---
    /// Records a data export for an identifier. Upsert.
    pub fn exportar_datos(entorno: &mut Entorno, id_exportacion: i32, formato: String)
        ensures
            final(entorno)@ == (VistaEntorno {
                exportaciones: sobrescritura(
                    old(entorno)@.exportaciones,
                    id_exportacion,
                    (Exportacion { formato }),
                ),
                ..old(entorno)@
            }),
    {
        entorno.exportaciones.escribir(id_exportacion, Exportacion { formato });
    }

    /// The export recorded under `id_exportacion`, or nothing.
    pub fn validar_exportacion(entorno: &Entorno, id_exportacion: i32) -> (r: Option<&Exportacion>)
        ensures
            match r {
                Some(e) => entorno@.exportaciones.contains_key(id_exportacion) && *e
                    == entorno@.exportaciones[id_exportacion],
                None => !entorno@.exportaciones.contains_key(id_exportacion),
            },
    {
        entorno.exportaciones.obtener(id_exportacion)
    }

    // --- Integraciones ---
    /// Records the synchronization with an external system. Upsert.
    pub fn sincronizar_datos(entorno: &mut Entorno, id_integracion: i32, nombre_sistema: String)
        ensures
            final(entorno)@ == (VistaEntorno {
                integraciones: sobrescritura(
                    old(entorno)@.integraciones,
                    id_integracion,
                    (Integracion { sistema: nombre_sistema }),
                ),
                ..old(entorno)@
            }),
    {
        entorno.integraciones.escribir(id_integracion, Integracion { sistema: nombre_sistema });
    }

    /// The integration recorded under `id_integracion`, or nothing.
    pub fn verificar_integracion(entorno: &Entorno, id_integracion: i32) -> (r: Option<
        &Integracion,
    >)
        ensures
            match r {
                Some(s) => entorno@.integraciones.contains_key(id_integracion) && *s
                    == entorno@.integraciones[id_integracion],
                None => !entorno@.integraciones.contains_key(id_integracion),
            },
    {
        entorno.integraciones.obtener(id_integracion)
    }
}

} // verus!
