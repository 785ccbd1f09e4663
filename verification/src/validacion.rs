//! Field-level validation of create and update payloads. Every rule is
//! checked independently and all violations are collected, in field order;
//! callers reject the request before touching the store when the list is
//! non-empty. A sparse update payload is checked only on its present fields.

use vstd::prelude::*;

use crate::modelos::CreateAlumnoRequest;
use crate::modelos::UpdateAlumnoRequest;
use crate::texto::vistas;

verus! {

/// The character count of `s` lies in `[minimo, maximo]`.
pub open spec fn longitud_en(s: Seq<char>, minimo: int, maximo: int) -> bool {
    minimo <= s.len() <= maximo
}

/// Whether a text has the shape of an email address, as the `validator`
/// crate's check defines it.
pub uninterp spec fn es_email_valido(s: Seq<char>) -> bool;

/// Relies on `validator::ValidateEmail::validate_email` for `&str`: the
/// verdict depends on the characters alone, and an empty text is rejected.
#[verifier::external_body]
fn email_conforme(s: &str) -> (r: bool)
    ensures
        r == es_email_valido(s@),
        s@.len() == 0 ==> !r,
{
    validator::ValidateEmail::validate_email(&s)
}

/// All rules of a create payload: names of 2 to 100 characters, an email
/// shape, age 16 to 65, a program name of 5 to 100 characters, a term 1 to
/// 10, and, when present, a grade of at most 1000 hundredths.
pub open spec fn creacion_valida(q: CreateAlumnoRequest) -> bool {
    &&& longitud_en(q.nombre@, 2, 100)
    &&& longitud_en(q.apellido@, 2, 100)
    &&& es_email_valido(q.email@)
    &&& 16 <= q.edad <= 65
    &&& longitud_en(q.carrera@, 5, 100)
    &&& 1 <= q.semestre <= 10
    &&& (q.promedio matches Some(p) ==> p <= 1000)
}

/// All rules of an update payload, each applied only when its field is
/// present.
pub open spec fn actualizacion_valida(q: UpdateAlumnoRequest) -> bool {
    &&& (q.nombre matches Some(n) ==> longitud_en(n@, 2, 100))
    &&& (q.apellido matches Some(a) ==> longitud_en(a@, 2, 100))
    &&& (q.email matches Some(e) ==> es_email_valido(e@))
    &&& (q.edad matches Some(e) ==> 16 <= e <= 65)
    &&& (q.carrera matches Some(c) ==> longitud_en(c@, 5, 100))
    &&& (q.semestre matches Some(s) ==> 1 <= s <= 10)
    &&& (q.promedio matches Some(p) ==> p <= 1000)
}

/// One violation message, present exactly when the rule fails.
pub open spec fn si_mensaje(falta: bool, mensaje: Seq<char>) -> Seq<Seq<char>> {
    if falta {
        seq![mensaje]
    } else {
        Seq::empty()
    }
}

/// The violation messages of a create payload, in field order.
pub open spec fn mensajes_creacion(q: CreateAlumnoRequest) -> Seq<Seq<char>> {
    si_mensaje(!longitud_en(q.nombre@, 2, 100), "Nombre debe tener entre 2 y 100 caracteres"@)
        + si_mensaje(
        !longitud_en(q.apellido@, 2, 100),
        "Apellido debe tener entre 2 y 100 caracteres"@,
    ) + si_mensaje(!es_email_valido(q.email@), "Email inválido"@) + si_mensaje(
        !(16 <= q.edad <= 65),
        "Edad debe estar entre 16 y 65 años"@,
    ) + si_mensaje(
        !longitud_en(q.carrera@, 5, 100),
        "Carrera debe tener entre 5 y 100 caracteres"@,
    ) + si_mensaje(!(1 <= q.semestre <= 10), "Semestre debe estar entre 1 y 10"@) + si_mensaje(
        !(q.promedio matches Some(p) ==> p <= 1000),
        "Promedio debe estar entre 0.0 y 10.0"@,
    )
}

/// The violation messages of an update payload, in field order.
pub open spec fn mensajes_actualizacion(q: UpdateAlumnoRequest) -> Seq<Seq<char>> {
    si_mensaje(
        !(q.nombre matches Some(n) ==> longitud_en(n@, 2, 100)),
        "Nombre debe tener entre 2 y 100 caracteres"@,
    ) + si_mensaje(
        !(q.apellido matches Some(a) ==> longitud_en(a@, 2, 100)),
        "Apellido debe tener entre 2 y 100 caracteres"@,
    ) + si_mensaje(!(q.email matches Some(e) ==> es_email_valido(e@)), "Email inválido"@)
        + si_mensaje(
        !(q.edad matches Some(e) ==> 16 <= e <= 65),
        "Edad debe estar entre 16 y 65 años"@,
    ) + si_mensaje(
        !(q.carrera matches Some(c) ==> longitud_en(c@, 5, 100)),
        "Carrera debe tener entre 5 y 100 caracteres"@,
    ) + si_mensaje(
        !(q.semestre matches Some(s) ==> 1 <= s <= 10),
        "Semestre debe estar entre 1 y 10"@,
    ) + si_mensaje(
        !(q.promedio matches Some(p) ==> p <= 1000),
        "Promedio debe estar entre 0.0 y 10.0"@,
    )
}

/// Appends `mensaje` to the violation list exactly when `falta` holds.
fn agregar_si(errores: &mut Vec<String>, falta: bool, mensaje: &str)
    ensures
        vistas(final(errores)@) == vistas(old(errores)@) + si_mensaje(falta, mensaje@),
{
    if falta {
        errores.push(String::from_str(mensaje));
    }
    proof {
        assert(vistas(errores@) =~= vistas(old(errores)@) + si_mensaje(falta, mensaje@));
    }
}

/// Whether the character count of `s` falls outside `[minimo, maximo]`.
fn longitud_fuera(s: &str, minimo: usize, maximo: usize) -> (r: bool)
    ensures
        r == !longitud_en(s@, minimo as int, maximo as int),
{
    let largo = s.unicode_len();
    largo < minimo || largo > maximo
}

/// Checks a create payload against every rule and collects all violations,
/// in field order. The payload is valid exactly when the list is empty.
pub fn validar_creacion(q: &CreateAlumnoRequest) -> (errores: Vec<String>)
    ensures
        vistas(errores@) == mensajes_creacion(*q),
        errores@.len() == 0 <==> creacion_valida(*q),
{
    let mut errores: Vec<String> = Vec::new();
    agregar_si(
        &mut errores,
        longitud_fuera(q.nombre.as_str(), 2, 100),
        "Nombre debe tener entre 2 y 100 caracteres",
    );
    agregar_si(
        &mut errores,
        longitud_fuera(q.apellido.as_str(), 2, 100),
        "Apellido debe tener entre 2 y 100 caracteres",
    );
    agregar_si(&mut errores, !email_conforme(q.email.as_str()), "Email inválido");
    agregar_si(&mut errores, !(16 <= q.edad && q.edad <= 65), "Edad debe estar entre 16 y 65 años");
    agregar_si(
        &mut errores,
        longitud_fuera(q.carrera.as_str(), 5, 100),
        "Carrera debe tener entre 5 y 100 caracteres",
    );
    agregar_si(
        &mut errores,
        !(1 <= q.semestre && q.semestre <= 10),
        "Semestre debe estar entre 1 y 10",
    );
    let promedio_fuera = match q.promedio {
        Some(p) => p > 1000,
        None => false,
    };
    agregar_si(&mut errores, promedio_fuera, "Promedio debe estar entre 0.0 y 10.0");
    proof {
        assert(vistas(errores@) =~= mensajes_creacion(*q));
    }
    errores
}

/// Checks an update payload on its present fields only and collects all
/// violations, in field order. The payload is valid exactly when the list is
/// empty.
pub fn validar_actualizacion(q: &UpdateAlumnoRequest) -> (errores: Vec<String>)
    ensures
        vistas(errores@) == mensajes_actualizacion(*q),
        errores@.len() == 0 <==> actualizacion_valida(*q),
{
    let mut errores: Vec<String> = Vec::new();
    let nombre_fuera = match &q.nombre {
        Some(n) => longitud_fuera(n.as_str(), 2, 100),
        None => false,
    };
    agregar_si(&mut errores, nombre_fuera, "Nombre debe tener entre 2 y 100 caracteres");
    let apellido_fuera = match &q.apellido {
        Some(a) => longitud_fuera(a.as_str(), 2, 100),
        None => false,
    };
    agregar_si(&mut errores, apellido_fuera, "Apellido debe tener entre 2 y 100 caracteres");
    let email_fuera = match &q.email {
        Some(e) => !email_conforme(e.as_str()),
        None => false,
    };
    agregar_si(&mut errores, email_fuera, "Email inválido");
    let edad_fuera = match q.edad {
        Some(e) => !(16 <= e && e <= 65),
        None => false,
    };
    agregar_si(&mut errores, edad_fuera, "Edad debe estar entre 16 y 65 años");
    let carrera_fuera = match &q.carrera {
        Some(c) => longitud_fuera(c.as_str(), 5, 100),
        None => false,
    };
    agregar_si(&mut errores, carrera_fuera, "Carrera debe tener entre 5 y 100 caracteres");
    let semestre_fuera = match q.semestre {
        Some(s) => !(1 <= s && s <= 10),
        None => false,
    };
    agregar_si(&mut errores, semestre_fuera, "Semestre debe estar entre 1 y 10");
    let promedio_fuera = match q.promedio {
        Some(p) => p > 1000,
        None => false,
    };
    agregar_si(&mut errores, promedio_fuera, "Promedio debe estar entre 0.0 y 10.0");
    proof {
        assert(vistas(errores@) =~= mensajes_actualizacion(*q));
    }
    errores
}

} // verus!
