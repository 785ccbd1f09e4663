//! Compilation of a sparse update payload into a parameterized statement.
//!
//! The payload is modelled as the list of its present columns with their
//! bound values, in column order; the statement touches exactly those
//! columns, every value a bound parameter, and the target id is the final
//! parameter. A payload with no present field is rejected before it can
//! reach the store.

use vstd::prelude::*;

use crate::consulta::ConsultaPreparada;
use crate::modelos::Alumno;
use crate::modelos::ErrorApi;
use crate::modelos::ParamV;
use crate::modelos::Parametro;
use crate::modelos::UpdateAlumnoRequest;
use crate::modelos::vista_params;

verus! {

/// At least one field of the payload is present.
pub open spec fn alguna_actualizacion(q: UpdateAlumnoRequest) -> bool {
    ||| q.nombre is Some
    ||| q.apellido is Some
    ||| q.email is Some
    ||| q.edad is Some
    ||| q.carrera is Some
    ||| q.semestre is Some
    ||| q.promedio is Some
    ||| q.activo is Some
}

/// One present text column with its bound value, or nothing.
pub open spec fn col_texto(columna: Seq<char>, v: Option<String>) -> Seq<(Seq<char>, ParamV)> {
    match v {
        Some(s) => seq![(columna, ParamV::Texto(s@))],
        None => Seq::<(Seq<char>, ParamV)>::empty(),
    }
}

/// One present integer column with its bound value, or nothing.
pub open spec fn col_entero(columna: Seq<char>, v: Option<i32>) -> Seq<(Seq<char>, ParamV)> {
    match v {
        Some(n) => seq![(columna, ParamV::Entero(n as int))],
        None => Seq::<(Seq<char>, ParamV)>::empty(),
    }
}

/// One present decimal column, held in hundredths, or nothing.
pub open spec fn col_centesimas(columna: Seq<char>, v: Option<u32>) -> Seq<(Seq<char>, ParamV)> {
    match v {
        Some(p) => seq![(columna, ParamV::Centesimas(p))],
        None => Seq::<(Seq<char>, ParamV)>::empty(),
    }
}

/// One present boolean column with its bound value, or nothing.
pub open spec fn col_logico(columna: Seq<char>, v: Option<bool>) -> Seq<(Seq<char>, ParamV)> {
    match v {
        Some(b) => seq![(columna, ParamV::Logico(b))],
        None => Seq::<(Seq<char>, ParamV)>::empty(),
    }
}

/// The present columns of the payload with their bound values, in column
/// order.
pub open spec fn columnas_presentes(q: UpdateAlumnoRequest) -> Seq<(Seq<char>, ParamV)> {
    col_texto("nombre"@, q.nombre) + col_texto("apellido"@, q.apellido) + col_texto(
        "email"@,
        q.email,
    ) + col_entero("edad"@, q.edad) + col_texto("carrera"@, q.carrera) + col_entero(
        "semestre"@,
        q.semestre,
    ) + col_centesimas("promedio"@, q.promedio) + col_logico("activo"@, q.activo)
}

/// The mathematical values of a list of column/parameter pairs.
pub open spec fn vista_columnas(s: Seq<(&str, Parametro)>) -> Seq<(Seq<char>, ParamV)> {
    s.map_values(|c: (&str, Parametro)| (c.0@, c.1@))
}

/// The assignment list of a statement: the columns, each bound to one
/// placeholder, separated by commas.
pub open spec fn unir_asignaciones(nombres: Seq<Seq<char>>) -> Seq<char>
    decreases nombres.len(),
{
    if nombres.len() == 0 {
        Seq::<char>::empty()
    } else if nombres.len() == 1 {
        nombres[0] + " = ?"@
    } else {
        unir_asignaciones(nombres.drop_last()) + ", "@ + nombres.last() + " = ?"@
    }
}

/// The update statement of a payload: exactly its present columns, and the
/// target id bound as the final parameter.
pub open spec fn consulta_actualizacion(q: UpdateAlumnoRequest) -> Seq<char> {
    "UPDATE alumnos SET "@ + unir_asignaciones(
        columnas_presentes(q).map_values(|c: (Seq<char>, ParamV)| c.0),
    ) + " WHERE id = ?"@
}

/// The values bound to the update statement's placeholders: the present
/// fields in column order, then the target id.
pub open spec fn parametros_actualizacion(q: UpdateAlumnoRequest, id: i32) -> Seq<ParamV> {
    columnas_presentes(q).map_values(|c: (Seq<char>, ParamV)| c.1).push(ParamV::Entero(id as int))
}

/// Whether at least one field of the payload is present.
pub fn hay_campos(q: &UpdateAlumnoRequest) -> (r: bool)
    ensures
        r == alguna_actualizacion(*q),
{
    q.nombre.is_some() || q.apellido.is_some() || q.email.is_some() || q.edad.is_some()
        || q.carrera.is_some() || q.semestre.is_some() || q.promedio.is_some()
        || q.activo.is_some()
}

/// Appends one text column when its field is present.
fn empujar_texto(r: &mut Vec<(&'static str, Parametro)>, columna: &'static str, v: &Option<String>)
    ensures
        vista_columnas(final(r)@) == vista_columnas(old(r)@) + col_texto(columna@, *v),
{
    if let Some(s) = v {
        r.push((columna, Parametro::Texto(s.clone())));
    }
    proof {
        assert(vista_columnas(r@) =~= vista_columnas(old(r)@) + col_texto(columna@, *v));
    }
}

/// Appends one integer column when its field is present.
fn empujar_entero(r: &mut Vec<(&'static str, Parametro)>, columna: &'static str, v: Option<i32>)
    ensures
        vista_columnas(final(r)@) == vista_columnas(old(r)@) + col_entero(columna@, v),
{
    if let Some(n) = v {
        r.push((columna, Parametro::Entero(n as i64)));
    }
    proof {
        assert(vista_columnas(r@) =~= vista_columnas(old(r)@) + col_entero(columna@, v));
    }
}

/// Appends the decimal column, held in hundredths, when its field is present.
fn empujar_centesimas(r: &mut Vec<(&'static str, Parametro)>, columna: &'static str, v: Option<u32>)
    ensures
        vista_columnas(final(r)@) == vista_columnas(old(r)@) + col_centesimas(columna@, v),
{
    if let Some(p) = v {
        r.push((columna, Parametro::Centesimas(p)));
    }
    proof {
        assert(vista_columnas(r@) =~= vista_columnas(old(r)@) + col_centesimas(columna@, v));
    }
}

/// Appends one boolean column when its field is present.
fn empujar_logico(r: &mut Vec<(&'static str, Parametro)>, columna: &'static str, v: Option<bool>)
    ensures
        vista_columnas(final(r)@) == vista_columnas(old(r)@) + col_logico(columna@, v),
{
    if let Some(b) = v {
        r.push((columna, Parametro::Logico(b)));
    }
    proof {
        assert(vista_columnas(r@) =~= vista_columnas(old(r)@) + col_logico(columna@, v));
    }
}

/// The present columns of the payload with their bound values, in column
/// order.
fn columnas_de(q: &UpdateAlumnoRequest) -> (r: Vec<(&'static str, Parametro)>)
    ensures
        vista_columnas(r@) == columnas_presentes(*q),
        r@.len() == 0 <==> !alguna_actualizacion(*q),
{
    let mut r: Vec<(&'static str, Parametro)> = Vec::new();
    empujar_texto(&mut r, "nombre", &q.nombre);
    empujar_texto(&mut r, "apellido", &q.apellido);
    empujar_texto(&mut r, "email", &q.email);
    empujar_entero(&mut r, "edad", q.edad);
    empujar_texto(&mut r, "carrera", &q.carrera);
    empujar_entero(&mut r, "semestre", q.semestre);
    empujar_centesimas(&mut r, "promedio", q.promedio);
    empujar_logico(&mut r, "activo", q.activo);
    proof {
        assert(vista_columnas(r@) =~= columnas_presentes(*q));
    }
    r
}

/// Compiles a sparse payload into an update statement touching exactly the
/// present columns, with every value bound; a payload with no present field
/// is rejected instead.
pub fn compilar_actualizacion(id: i32, q: &UpdateAlumnoRequest) -> (r: Result<
    ConsultaPreparada,
    ErrorApi,
>)
    ensures
        r is Ok <==> alguna_actualizacion(*q),
        r matches Err(e) ==> e is SinCampos,
        r matches Ok(c) ==> c.sql@ == consulta_actualizacion(*q) && vista_params(c.parametros@)
            == parametros_actualizacion(*q, id),
{
    let columnas = columnas_de(q);
    if columnas.len() == 0 {
        return Err(ErrorApi::SinCampos);
    }
    let ghost vista = vista_columnas(columnas@);
    let ghost nombres = vista.map_values(|c: (Seq<char>, ParamV)| c.0);
    let ghost valores = vista.map_values(|c: (Seq<char>, ParamV)| c.1);
    let mut sql = String::from_str("UPDATE alumnos SET ");
    let mut parametros: Vec<Parametro> = Vec::new();
    let mut i: usize = 0;
    while i < columnas.len()
        invariant
            0 <= i <= columnas@.len(),
            vista == vista_columnas(columnas@),
            nombres == vista.map_values(|c: (Seq<char>, ParamV)| c.0),
            valores == vista.map_values(|c: (Seq<char>, ParamV)| c.1),
            sql@ == "UPDATE alumnos SET "@ + unir_asignaciones(nombres.take(i as int)),
            vista_params(parametros@) == valores.take(i as int),
        decreases columnas@.len() - i,
    {
        if i > 0 {
            sql.append(", ");
        }
        let par = &columnas[i];
        sql.append(par.0);
        sql.append(" = ?");
        parametros.push(par.1.clone());
        proof {
            assert(nombres.take(i + 1).drop_last() =~= nombres.take(i as int));
            assert(unir_asignaciones(nombres.take(i + 1)) == (if i == 0 {
                nombres[i as int] + " = ?"@
            } else {
                unir_asignaciones(nombres.take(i as int)) + ", "@ + nombres[i as int] + " = ?"@
            }));
            assert(sql@ =~= "UPDATE alumnos SET "@ + unir_asignaciones(nombres.take(i + 1)));
            assert(valores[i as int] == columnas@[i as int].1@);
            assert(valores.take(i + 1) =~= valores.take(i as int).push(valores[i as int]));
            assert(vista_params(parametros@) =~= valores.take(i + 1));
        }
        i = i + 1;
    }
    sql.append(" WHERE id = ?");
    parametros.push(Parametro::Entero(id as i64));
    proof {
        assert(nombres.take(columnas@.len() as int) =~= nombres);
        assert(valores.take(columnas@.len() as int) =~= valores);
        assert(nombres =~= columnas_presentes(*q).map_values(|c: (Seq<char>, ParamV)| c.0));
        assert(valores =~= columnas_presentes(*q).map_values(|c: (Seq<char>, ParamV)| c.1));
        assert(vista_params(parametros@) =~= parametros_actualizacion(*q, id));
    }
    Ok(ConsultaPreparada { sql, parametros })
}

/// The row as the payload leaves it: each present field replaced, every
/// absent field kept, and the update timestamp set by the store's clock.
pub open spec fn alumno_actualizado(a: Alumno, q: UpdateAlumnoRequest, ahora: i64) -> Alumno {
    Alumno {
        id: a.id,
        nombre: match q.nombre {
            Some(n) => n,
            None => a.nombre,
        },
        apellido: match q.apellido {
            Some(p) => p,
            None => a.apellido,
        },
        email: match q.email {
            Some(e) => e,
            None => a.email,
        },
        edad: match q.edad {
            Some(e) => e,
            None => a.edad,
        },
        carrera: match q.carrera {
            Some(c) => c,
            None => a.carrera,
        },
        semestre: match q.semestre {
            Some(s) => s,
            None => a.semestre,
        },
        promedio: match q.promedio {
            Some(p) => p,
            None => a.promedio,
        },
        activo: match q.activo {
            Some(b) => b,
            None => a.activo,
        },
        fecha_registro: a.fecha_registro,
        fecha_actualizacion: ahora,
    }
}

/// Applies a sparse payload to a row: each present field replaced, every
/// absent field kept, and the update timestamp set.
pub fn aplicar_actualizacion(a: &Alumno, q: &UpdateAlumnoRequest, ahora: i64) -> (r: Alumno)
    ensures
        r == alumno_actualizado(*a, *q, ahora),
{
    Alumno {
        id: a.id,
        nombre: match &q.nombre {
            Some(n) => n.clone(),
            None => a.nombre.clone(),
        },
        apellido: match &q.apellido {
            Some(p) => p.clone(),
            None => a.apellido.clone(),
        },
        email: match &q.email {
            Some(e) => e.clone(),
            None => a.email.clone(),
        },
        edad: match q.edad {
            Some(e) => e,
            None => a.edad,
        },
        carrera: match &q.carrera {
            Some(c) => c.clone(),
            None => a.carrera.clone(),
        },
        semestre: match q.semestre {
            Some(s) => s,
            None => a.semestre,
        },
        promedio: match q.promedio {
            Some(p) => p,
            None => a.promedio,
        },
        activo: match q.activo {
            Some(b) => b,
            None => a.activo,
        },
        fecha_registro: a.fecha_registro,
        fecha_actualizacion: ahora,
    }
}

} // verus!
