//! Compilation of list filters and pagination into a parameterized query.
//!
//! The optional query parameters become a window `(limite, desplazamiento)`
//! and a conjunction of conditions whose values are all bound parameters —
//! no user-controlled text is ever concatenated into the statement. The list
//! and count statements share one compiled filter, so a count always reflects
//! the same conditions and bound values as the rows it accompanies.

use vstd::prelude::*;

use crate::modelos::Alumno;
use crate::modelos::CreateAlumnoRequest;
use crate::modelos::PaginationQuery;
use crate::modelos::ParamV;
use crate::modelos::Parametro;
use crate::modelos::vista_params;
use crate::texto::contiene;
use crate::texto::es_subcadena;

verus! {

/// The page number actually used: the requested one, floored at 1; 1 when
/// absent.
pub open spec fn pagina_normalizada(page: Option<i32>) -> int {
    let p = match page {
        Some(p) => p as int,
        None => 1,
    };
    if p < 1 {
        1
    } else {
        p
    }
}

/// The page size actually used: the requested one, clamped to `[1, 100]`; 10
/// when absent.
pub open spec fn limite_normalizado(limit: Option<i32>) -> int {
    let l = match limit {
        Some(l) => l as int,
        None => 10,
    };
    if l > 100 {
        100
    } else if l < 1 {
        1
    } else {
        l
    }
}

/// The number of rows skipped before the window.
pub open spec fn desplazamiento_de(q: PaginationQuery) -> int {
    (pagina_normalizada(q.page) - 1) * limite_normalizado(q.limit)
}

/// The bound pattern of the free-text search: the term enclosed in wildcards.
pub open spec fn patron_busqueda(s: Seq<char>) -> Seq<char> {
    "%"@ + s + "%"@
}

/// The conditions appended to both statements, one placeholder per bound
/// value.
pub open spec fn condiciones_filtro(q: PaginationQuery) -> Seq<char> {
    (if q.search is Some {
        " AND (nombre LIKE ? OR apellido LIKE ?)"@
    } else {
        Seq::<char>::empty()
    }) + (if q.carrera is Some {
        " AND carrera = ?"@
    } else {
        Seq::<char>::empty()
    }) + (if q.activo is Some {
        " AND activo = ?"@
    } else {
        Seq::<char>::empty()
    })
}

/// The values bound to the filter's placeholders, in placeholder order.
pub open spec fn parametros_filtro(q: PaginationQuery) -> Seq<ParamV> {
    (match q.search {
        Some(s) => seq![
            ParamV::Texto(patron_busqueda(s@)),
            ParamV::Texto(patron_busqueda(s@)),
        ],
        None => Seq::<ParamV>::empty(),
    }) + (match q.carrera {
        Some(c) => seq![ParamV::Texto(c@)],
        None => Seq::<ParamV>::empty(),
    }) + (match q.activo {
        Some(b) => seq![ParamV::Logico(b)],
        None => Seq::<ParamV>::empty(),
    })
}

/// Whether a row matches the filter: the search term is a substring of the
/// first or last name, the program matches exactly, and the active flag
/// matches exactly — each only when supplied.
pub open spec fn cumple_filtro(a: Alumno, q: PaginationQuery) -> bool {
    &&& (q.search matches Some(s) ==> es_subcadena(s@, a.nombre@) || es_subcadena(s@, a.apellido@))
    &&& (q.carrera matches Some(c) ==> a.carrera@ == c@)
    &&& (q.activo matches Some(b) ==> a.activo == b)
}

/// A compiled filter: the shared conditions with their bound values, and the
/// row window.
pub struct FiltroCompilado {
    pub condiciones: String,
    pub parametros: Vec<Parametro>,
    pub limite: i32,
    pub desplazamiento: i64,
}

/// `f` is the compilation of `q`.
pub open spec fn filtro_correcto(f: FiltroCompilado, q: PaginationQuery) -> bool {
    &&& f.condiciones@ == condiciones_filtro(q)
    &&& vista_params(f.parametros@) == parametros_filtro(q)
    &&& f.limite == limite_normalizado(q.limit)
    &&& f.desplazamiento == desplazamiento_de(q)
}

/// A statement with the values of its placeholders, in order.
pub struct ConsultaPreparada {
    pub sql: String,
    pub parametros: Vec<Parametro>,
}

/// The page number actually used, floored at 1.
pub fn normalizar_pagina(page: Option<i32>) -> (r: i32)
    ensures
        r == pagina_normalizada(page),
        r >= 1,
{
    match page {
        Some(p) => if p < 1 {
            1
        } else {
            p
        },
        None => 1,
    }
}

/// The page size actually used, clamped to `[1, 100]`.
pub fn normalizar_limite(limit: Option<i32>) -> (r: i32)
    ensures
        r == limite_normalizado(limit),
        1 <= r <= 100,
{
    match limit {
        Some(l) => if l > 100 {
            100
        } else if l < 1 {
            1
        } else {
            l
        },
        None => 10,
    }
}

/// Whether a row matches the filter.
pub fn cumple_filtro_exec(a: &Alumno, q: &PaginationQuery) -> (r: bool)
    ensures
        r == cumple_filtro(*a, *q),
{
    let busqueda_bien = match &q.search {
        Some(s) => contiene(a.nombre.as_str(), s.as_str()) || contiene(
            a.apellido.as_str(),
            s.as_str(),
        ),
        None => true,
    };
    let carrera_bien = match &q.carrera {
        Some(c) => a.carrera.eq(c),
        None => true,
    };
    let activo_bien = match q.activo {
        Some(b) => a.activo == b,
        None => true,
    };
    busqueda_bien && carrera_bien && activo_bien
}

impl Clone for Parametro {
    fn clone(&self) -> (res: Self)
        ensures
            res == *self,
    {
        match self {
            Parametro::Texto(s) => Parametro::Texto(s.clone()),
            Parametro::Entero(n) => Parametro::Entero(*n),
            Parametro::Logico(b) => Parametro::Logico(*b),
            Parametro::Centesimas(c) => Parametro::Centesimas(*c),
        }
    }
}

/// A copy of a parameter list, value for value.
fn clonar_parametros(v: &Vec<Parametro>) -> (r: Vec<Parametro>)
    ensures
        r@ == v@,
{
    let mut r: Vec<Parametro> = Vec::new();
    let mut i: usize = 0;
    while i < v.len()
        invariant
            0 <= i <= v@.len(),
            r@ == v@.subrange(0, i as int),
        decreases v@.len() - i,
    {
        r.push(v[i].clone());
        i = i + 1;
        proof {
            assert(r@ =~= v@.subrange(0, i as int));
        }
    }
    proof {
        assert(r@ =~= v@);
    }
    r
}

/// Compiles the optional query parameters into the shared conditions, their
/// bound values, and the row window.
pub fn compilar_filtro(q: &PaginationQuery) -> (r: FiltroCompilado)
    ensures
        filtro_correcto(r, *q),
        1 <= r.limite <= 100,
        0 <= r.desplazamiento,
{
    let pagina = normalizar_pagina(q.page);
    let limite = normalizar_limite(q.limit);
    proof {
        vstd::arithmetic::mul::lemma_mul_upper_bound(
            pagina as int - 1,
            i32::MAX as int,
            limite as int,
            100,
        );
        vstd::arithmetic::mul::lemma_mul_nonnegative(pagina as int - 1, limite as int);
    }
    let desplazamiento: i64 = (pagina as i64 - 1) * (limite as i64);

    let mut condiciones = String::new();
    let mut parametros: Vec<Parametro> = Vec::new();

    if let Some(busqueda) = &q.search {
        condiciones.append(" AND (nombre LIKE ? OR apellido LIKE ?)");
        let mut patron = String::from_str("%");
        patron.append(busqueda.as_str());
        patron.append("%");
        let copia = patron.clone();
        parametros.push(Parametro::Texto(patron));
        parametros.push(Parametro::Texto(copia));
    }
    if let Some(carrera) = &q.carrera {
        condiciones.append(" AND carrera = ?");
        parametros.push(Parametro::Texto(carrera.clone()));
    }
    if let Some(activo) = q.activo {
        condiciones.append(" AND activo = ?");
        parametros.push(Parametro::Logico(activo));
    }
    proof {
        assert(condiciones@ =~= condiciones_filtro(*q));
        assert(vista_params(parametros@) =~= parametros_filtro(*q));
    }
    FiltroCompilado { condiciones, parametros, limite, desplazamiento }
}

/// The windowed list statement of a compiled filter: its conditions, newest
/// first, and the window bound as the two final parameters.
pub fn consulta_lista(f: &FiltroCompilado) -> (r: ConsultaPreparada)
    ensures
        r.sql@ == "SELECT * FROM alumnos WHERE 1=1"@ + f.condiciones@
            + " ORDER BY fecha_registro DESC LIMIT ? OFFSET ?"@,
        vista_params(r.parametros@) == vista_params(f.parametros@) + seq![
            ParamV::Entero(f.limite as int),
            ParamV::Entero(f.desplazamiento as int),
        ],
{
    let mut sql = String::from_str("SELECT * FROM alumnos WHERE 1=1");
    sql.append(f.condiciones.as_str());
    sql.append(" ORDER BY fecha_registro DESC LIMIT ? OFFSET ?");
    let mut parametros = clonar_parametros(&f.parametros);
    parametros.push(Parametro::Entero(f.limite as i64));
    parametros.push(Parametro::Entero(f.desplazamiento));
    proof {
        assert(vista_params(parametros@) =~= vista_params(f.parametros@) + seq![
            ParamV::Entero(f.limite as int),
            ParamV::Entero(f.desplazamiento as int),
        ]);
    }
    ConsultaPreparada { sql, parametros }
}

/// The values an insert binds, in column order: the payload's fields, the
/// grade defaulted to zero hundredths when absent.
pub open spec fn parametros_insercion(q: CreateAlumnoRequest) -> Seq<ParamV> {
    seq![
        ParamV::Texto(q.nombre@),
        ParamV::Texto(q.apellido@),
        ParamV::Texto(q.email@),
        ParamV::Entero(q.edad as int),
        ParamV::Texto(q.carrera@),
        ParamV::Entero(q.semestre as int),
        ParamV::Centesimas(
            match q.promedio {
                Some(p) => p,
                None => 0,
            },
        ),
    ]
}

/// The insert statement of a create payload: one placeholder per column,
/// every value bound. The store assigns id and timestamps itself.
pub fn consulta_insercion(q: &CreateAlumnoRequest) -> (r: ConsultaPreparada)
    ensures
        r.sql@ == "INSERT INTO alumnos (nombre, apellido, email, edad, carrera, semestre, promedio) VALUES (?, ?, ?, ?, ?, ?, ?)"@,
        vista_params(r.parametros@) == parametros_insercion(*q),
{
    let sql = String::from_str(
        "INSERT INTO alumnos (nombre, apellido, email, edad, carrera, semestre, promedio) VALUES (?, ?, ?, ?, ?, ?, ?)",
    );
    let mut parametros: Vec<Parametro> = Vec::new();
    parametros.push(Parametro::Texto(q.nombre.clone()));
    parametros.push(Parametro::Texto(q.apellido.clone()));
    parametros.push(Parametro::Texto(q.email.clone()));
    parametros.push(Parametro::Entero(q.edad as i64));
    parametros.push(Parametro::Texto(q.carrera.clone()));
    parametros.push(Parametro::Entero(q.semestre as i64));
    parametros.push(
        Parametro::Centesimas(
            match q.promedio {
                Some(p) => p,
                None => 0,
            },
        ),
    );
    proof {
        assert(vista_params(parametros@) =~= parametros_insercion(*q));
    }
    ConsultaPreparada { sql, parametros }
}

/// The count statement of a compiled filter: the same conditions and the
/// same bound values, with no window.
pub fn consulta_conteo(f: &FiltroCompilado) -> (r: ConsultaPreparada)
    ensures
        r.sql@ == "SELECT COUNT(*) as total FROM alumnos WHERE 1=1"@ + f.condiciones@,
        vista_params(r.parametros@) == vista_params(f.parametros@),
{
    let mut sql = String::from_str("SELECT COUNT(*) as total FROM alumnos WHERE 1=1");
    sql.append(f.condiciones.as_str());
    let parametros = clonar_parametros(&f.parametros);
    ConsultaPreparada { sql, parametros }
}

} // verus!
