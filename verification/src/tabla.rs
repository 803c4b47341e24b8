//! The keyed-table primitive: one named region of storage holding every
//! record of one entity kind, addressed by a numeric identifier, plus the
//! three mutation policies the tables are built from.
//!
//! A mutation is always one whole-table cycle: the operation inspects the
//! table, decides, and either writes exactly one entry or leaves the table
//! as it was. The policies are stated once, as spec functions over the
//! table's map view, so that every operation's contract and every law about
//! two consecutive operations speak the same language.

use std::collections::HashMap;
use vstd::prelude::*;

use crate::registros::ErrorRegistro;

verus! {

broadcast use vstd::std_specs::hash::group_hash_axioms;

/// Strict-create policy: insert the record only if the identifier is not
/// yet present; an identifier already taken rejects the request with
/// `AlreadyExists` and leaves the table unchanged.
pub open spec fn alta_estricta<V>(m: Map<i32, V>, id: i32, valor: V) -> (Map<
    i32,
    V,
>, Result<(), ErrorRegistro>) {
    if m.contains_key(id) {
        (m, Err(ErrorRegistro::AlreadyExists))
    } else {
        (m.insert(id, valor), Ok(()))
    }
}

/// Upsert policy: write the record under the identifier unconditionally,
/// replacing whatever was there. It cannot fail.
pub open spec fn sobrescritura<V>(m: Map<i32, V>, id: i32, valor: V) -> Map<i32, V> {
    m.insert(id, valor)
}

/// Strict-update policy: replace the record only if the identifier is
/// already present; an absent identifier rejects the request with
/// `NotFound` and leaves the table unchanged.
pub open spec fn actualizacion_estricta<V>(m: Map<i32, V>, id: i32, valor: V) -> (Map<
    i32,
    V,
>, Result<(), ErrorRegistro>) {
    if m.contains_key(id) {
        (m.insert(id, valor), Ok(()))
    } else {
        (m, Err(ErrorRegistro::NotFound))
    }
}

/// One table: the full collection of records of one entity kind, keyed by
/// identifier. Its abstract value is the map from identifier to record.
pub struct Tabla<V> {
    mapa: HashMap<i32, V>,
}

impl<V> View for Tabla<V> {
    type V = Map<i32, V>;

    closed spec fn view(&self) -> Map<i32, V> {
        self.mapa@
    }
}

impl<V> Tabla<V> {
    /// The empty table: what a load of a region that was never stored
    /// hands back.
    pub fn nueva() -> (t: Self)
        ensures
            t@ == Map::<i32, V>::empty(),
    {
        Tabla { mapa: HashMap::new() }
    }

    /// Whether a record exists under `id`.
    pub fn contiene(&self, id: i32) -> (r: bool)
        ensures
            r == self@.contains_key(id),
    {
        self.mapa.contains_key(&id)
    }

    /// The record under `id`, or nothing: never a default record.
    pub fn obtener(&self, id: i32) -> (r: Option<&V>)
        ensures
            match r {
                Some(v) => self@.contains_key(id) && *v == self@[id],
                None => !self@.contains_key(id),
            },
    {
        self.mapa.get(&id)
    }

    /// Writes `valor` under `id`, replacing any record already there.
    pub fn escribir(&mut self, id: i32, valor: V)
        ensures
            final(self)@ == old(self)@.insert(id, valor),
    {
        self.mapa.insert(id, valor);
    }

    /// Takes the record under `id` out of the table, so that a strict
    /// update can rebuild it in place; hands back nothing when `id` is
    /// absent. Kept internal: the operation surface never deletes a record,
    /// and every taker writes a replacement straight back.
    pub(crate) fn retirar(&mut self, id: i32) -> (r: Option<V>)
        ensures
            final(self)@ == old(self)@.remove(id),
            match r {
                Some(v) => old(self)@.contains_key(id) && v == old(self)@[id],
                None => !old(self)@.contains_key(id),
            },
    {
        self.mapa.remove(&id)
    }
}

} // verus!
