//! The table policies' guarantees, stated once over the map views that
//! every operation's contract is written in, and proved for all inputs.
//!
//! Each law speaks of the policy spec functions of [`crate::tabla`], the
//! same functions the operations' `ensures` clauses use, so what is proved
//! here carries to every operation built on the policy.

use vstd::prelude::*;

use crate::registros::Documento;
use crate::registros::ErrorRegistro;
use crate::tabla::actualizacion_estricta;
use crate::tabla::alta_estricta;
use crate::tabla::sobrescritura;

verus! {

/// A strict-create table rejects a duplicate. After a create of a free
/// identifier succeeds, a second create of the same identifier fails with
/// `AlreadyExists`, and the table — the first record included — stays
/// exactly as the first create left it.
pub proof fn ley_alta_estricta_rechaza_duplicado<V>(m: Map<i32, V>, id: i32, v1: V, v2: V)
    requires
        !m.contains_key(id),
    ensures
        ({
            let (m1, r1) = alta_estricta(m, id, v1);
            let (m2, r2) = alta_estricta(m1, id, v2);
            &&& r1 == Ok::<(), ErrorRegistro>(())
            &&& m1[id] == v1
            &&& r2 == Err::<(), ErrorRegistro>(ErrorRegistro::AlreadyExists)
            &&& m2 == m1
        }),
{
}

/// A strict update aimed at an absent identifier fails with `NotFound`
/// and leaves the table exactly as it was.
pub proof fn ley_actualizacion_ausente_rechaza<V>(m: Map<i32, V>, id: i32, v: V)
    requires
        !m.contains_key(id),
    ensures
        actualizacion_estricta(m, id, v) == (m, Err::<(), ErrorRegistro>(ErrorRegistro::NotFound)),
{
}

/// A status update of a present document changes the status field alone:
/// title and creation time are identical before and after, and every other
/// document is untouched.
pub proof fn ley_actualizar_estado_preserva_campos(
    m: Map<i32, Documento>,
    id: i32,
    nuevo_estado: String,
)
    requires
        m.contains_key(id),
    ensures
        ({
            let (m1, r) = actualizacion_estricta(
                m,
                id,
                (Documento { titulo: m[id].titulo, estado: nuevo_estado, fecha: m[id].fecha }),
            );
            &&& r == Ok::<(), ErrorRegistro>(())
            &&& m1.contains_key(id)
            &&& m1[id].titulo == m[id].titulo
            &&& m1[id].fecha == m[id].fecha
            &&& m1[id].estado == nuevo_estado
            &&& forall|otro: i32|
                #![auto]
                otro != id ==> (m1.contains_key(otro) <==> m.contains_key(otro)) && (m.contains_key(
                    otro,
                ) ==> m1[otro] == m[otro])
        }),
{
}

/// An overwrite is always visible: whether or not the identifier was
/// present before, reading it afterwards finds exactly the record written.
pub proof fn ley_sobrescritura_lee_lo_escrito<V>(m: Map<i32, V>, id: i32, v: V)
    ensures
        sobrescritura(m, id, v).contains_key(id),
        sobrescritura(m, id, v)[id] == v,
{
}

/// An upsert table never rejects a repeated write: two overwrites of one
/// identifier leave the table exactly as a single write of the latest
/// record would, whatever was written first.
pub proof fn ley_ultima_escritura_gana<V>(m: Map<i32, V>, id: i32, v1: V, v2: V)
    ensures
        sobrescritura(sobrescritura(m, id, v1), id, v2) == sobrescritura(m, id, v2),
{
    assert(m.insert(id, v1).insert(id, v2) =~= m.insert(id, v2));
}

} // verus!
