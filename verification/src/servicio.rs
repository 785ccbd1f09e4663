//! The resource service: list, get, create, update and delete over the
//! student table, with the failure classification every operation owes its
//! caller.
//!
//! `TablaAlumnos` is the service's view of the store: rows in insertion
//! order, each with a store-assigned id, a unique email, and a registration
//! stamp the store's clock never turns back. Creation validates before any
//! row is touched, reacts to a duplicate email with a conflict, and hands the
//! stored row back; update applies exactly the present fields of a sparse
//! payload; deletion is a hard delete. Listing windows the rows matching a
//! filter, newest first, and counts every match of the same filter.

use vstd::prelude::*;

use crate::actualizacion::alguna_actualizacion;
use crate::actualizacion::alumno_actualizado;
use crate::actualizacion::aplicar_actualizacion;
use crate::actualizacion::hay_campos;
use crate::consulta::cumple_filtro;
use crate::consulta::cumple_filtro_exec;
use crate::consulta::desplazamiento_de;
use crate::consulta::limite_normalizado;
use crate::consulta::normalizar_limite;
use crate::consulta::normalizar_pagina;
use crate::modelos::Alumno;
use crate::modelos::AlumnosResponse;
use crate::modelos::CreateAlumnoRequest;
use crate::modelos::ErrorApi;
use crate::modelos::PaginationQuery;
use crate::modelos::UpdateAlumnoRequest;
use crate::texto::vistas;
use crate::validacion::actualizacion_valida;
use crate::validacion::creacion_valida;
use crate::validacion::mensajes_actualizacion;
use crate::validacion::mensajes_creacion;
use crate::validacion::validar_actualizacion;
use crate::validacion::validar_creacion;

verus! {

/// Some row of `s` carries the id.
pub open spec fn tiene_id(s: Seq<Alumno>, id: i32) -> bool {
    exists|i: int| 0 <= i < s.len() && (#[trigger] s[i]).id == id
}

/// The rows of `s` matching the filter, newest first. Rows stand in
/// insertion order, oldest first, so the matches are collected back to
/// front.
pub open spec fn coincidencias_de(s: Seq<Alumno>, q: PaginationQuery) -> Seq<Alumno>
    decreases s.len(),
{
    if s.len() == 0 {
        Seq::<Alumno>::empty()
    } else {
        let resto = coincidencias_de(s.drop_first(), q);
        if cumple_filtro(s.first(), q) {
            resto.push(s.first())
        } else {
            resto
        }
    }
}

/// The page cut out of the matches: `cuantos` rows starting at `desde`,
/// fewer where the matches end first.
pub open spec fn ventana(m: Seq<Alumno>, desde: int, cuantos: int) -> Seq<Alumno> {
    if desde >= m.len() {
        Seq::<Alumno>::empty()
    } else if desde + cuantos > m.len() {
        m.subrange(desde, m.len() as int)
    } else {
        m.subrange(desde, desde + cuantos)
    }
}

/// Registration stamps never grow along `s`, read front to back.
pub open spec fn ordenada_desc(s: Seq<Alumno>) -> bool {
    forall|i: int, j: int|
        0 <= i < j < s.len() ==> (#[trigger] s[i]).fecha_registro >= (#[trigger] s[j]).fecha_registro
}

/// There are never more matches than rows.
proof fn lema_coincidencias_largo(s: Seq<Alumno>, q: PaginationQuery)
    ensures
        coincidencias_de(s, q).len() <= s.len(),
    decreases s.len(),
{
    if s.len() > 0 {
        lema_coincidencias_largo(s.drop_first(), q);
    }
}

/// Matches of rows whose stamps never shrink come out with stamps that never
/// grow, all at least the first row's stamp.
proof fn lema_coincidencias_ordenadas(s: Seq<Alumno>, q: PaginationQuery)
    requires
        forall|i: int, j: int|
            0 <= i < j < s.len() ==> (#[trigger] s[i]).fecha_registro <= (
            #[trigger] s[j]).fecha_registro,
    ensures
        ordenada_desc(coincidencias_de(s, q)),
        s.len() > 0 ==> forall|k: int|
            0 <= k < coincidencias_de(s, q).len() ==> (#[trigger] coincidencias_de(
                s,
                q,
            )[k]).fecha_registro >= s.first().fecha_registro,
    decreases s.len(),
{
    if s.len() > 0 {
        let resto = coincidencias_de(s.drop_first(), q);
        lema_coincidencias_ordenadas(s.drop_first(), q);
        if s.len() > 1 {
            assert(s.drop_first().first() == s[1]);
            assert(s.first().fecha_registro <= s[1].fecha_registro);
        }
    }
}

/// The student table as the service sees it: rows in insertion order and the
/// id the store will assign next.
pub struct TablaAlumnos {
    pub filas: Vec<Alumno>,
    pub siguiente_id: i32,
}

impl TablaAlumnos {
    /// The table's invariant: ids are positive, unique and below the next
    /// id, emails are unique, registration stamps never shrink along the
    /// insertion order, and there is always room to count the rows.
    pub open spec fn bien_formada(self) -> bool {
        &&& 1 <= self.siguiente_id
        &&& self.filas@.len() < self.siguiente_id
        &&& forall|i: int|
            0 <= i < self.filas@.len() ==> 1 <= (#[trigger] self.filas@[i]).id
                < self.siguiente_id
        &&& forall|i: int, j: int|
            0 <= i < j < self.filas@.len() ==> (#[trigger] self.filas@[i]).id != (
            #[trigger] self.filas@[j]).id
        &&& forall|i: int, j: int|
            0 <= i < j < self.filas@.len() ==> (#[trigger] self.filas@[i]).email@ != (
            #[trigger] self.filas@[j]).email@
        &&& forall|i: int, j: int|
            0 <= i < j < self.filas@.len() ==> (#[trigger] self.filas@[i]).fecha_registro <= (
            #[trigger] self.filas@[j]).fecha_registro
    }

    /// Some row already carries this email.
    pub open spec fn email_presente(self, e: Seq<char>) -> bool {
        exists|i: int| 0 <= i < self.filas@.len() && (#[trigger] self.filas@[i]).email@ == e
    }

    /// The store's clock never turns back: every stored stamp is at most
    /// `ahora`.
    pub open spec fn marca_admisible(self, ahora: i64) -> bool {
        forall|i: int|
            0 <= i < self.filas@.len() ==> (#[trigger] self.filas@[i]).fecha_registro <= ahora
    }

    /// The rows matching the filter, newest first.
    pub open spec fn coincidencias(self, q: PaginationQuery) -> Seq<Alumno> {
        coincidencias_de(self.filas@, q)
    }

    /// An empty table, whose first assigned id is 1.
    pub fn nueva() -> (t: TablaAlumnos)
        ensures
            t.bien_formada(),
            t.filas@.len() == 0,
            t.siguiente_id == 1,
    {
        TablaAlumnos { filas: Vec::new(), siguiente_id: 1 }
    }

    /// The position of the row carrying `id`, if any.
    fn buscar_indice(&self, id: i32) -> (r: Option<usize>)
        ensures
            r matches Some(i) ==> i < self.filas@.len() && self.filas@[i as int].id == id,
            r is None ==> !tiene_id(self.filas@, id),
    {
        let mut i: usize = 0;
        while i < self.filas.len()
            invariant
                0 <= i <= self.filas@.len(),
                forall|j: int| 0 <= j < i ==> (#[trigger] self.filas@[j]).id != id,
            decreases self.filas@.len() - i,
        {
            if self.filas[i].id == id {
                return Some(i);
            }
            i = i + 1;
        }
        None
    }

    /// Whether some row already carries `email`.
    fn email_existe(&self, email: &String) -> (r: bool)
        ensures
            r == self.email_presente(email@),
    {
        let mut i: usize = 0;
        while i < self.filas.len()
            invariant
                0 <= i <= self.filas@.len(),
                forall|j: int| 0 <= j < i ==> (#[trigger] self.filas@[j]).email@ != email@,
            decreases self.filas@.len() - i,
        {
            if self.filas[i].email.eq(email) {
                return true;
            }
            i = i + 1;
        }
        false
    }

    /// Whether a row other than the one carrying `id` already holds `email`.
    fn email_de_otro(&self, id: i32, email: &String) -> (r: bool)
        ensures
            r == exists|j: int|
                0 <= j < self.filas@.len() && (#[trigger] self.filas@[j]).id != id
                    && self.filas@[j].email@ == email@,
    {
        let mut i: usize = 0;
        while i < self.filas.len()
            invariant
                0 <= i <= self.filas@.len(),
                forall|j: int|
                    0 <= j < i ==> !((#[trigger] self.filas@[j]).id != id && self.filas@[j].email@
                        == email@),
            decreases self.filas@.len() - i,
        {
            if self.filas[i].id != id && self.filas[i].email.eq(email) {
                return true;
            }
            i = i + 1;
        }
        false
    }

    /// One page of the rows matching the filter, newest first, and the count
    /// of every row matching the same filter — the window never cuts the
    /// count down.
    pub fn get_alumnos(&self, params: &PaginationQuery) -> (r: AlumnosResponse)
        requires
            self.bien_formada(),
        ensures
            r.success,
            r.message@ == "Alumnos obtenidos exitosamente"@,
            r.total == self.coincidencias(*params).len(),
            r.data@ == ventana(
                self.coincidencias(*params),
                desplazamiento_de(*params),
                limite_normalizado(params.limit),
            ),
            r.data@.len() <= limite_normalizado(params.limit),
            ordenada_desc(r.data@),
    {
        let limite = normalizar_limite(params.limit);
        let pagina = normalizar_pagina(params.page);
        proof {
            vstd::arithmetic::mul::lemma_mul_upper_bound(
                pagina as int - 1,
                i32::MAX as int,
                limite as int,
                100,
            );
            vstd::arithmetic::mul::lemma_mul_nonnegative(pagina as int - 1, limite as int);
        }
        let desplazamiento: i64 = (pagina as i64 - 1) * (limite as i64);

        let mut acc: Vec<Alumno> = Vec::new();
        let mut i: usize = self.filas.len();
        while i > 0
            invariant
                0 <= i <= self.filas@.len(),
                acc@ == coincidencias_de(self.filas@.skip(i as int), *params),
            decreases i,
        {
            i = i - 1;
            proof {
                assert(self.filas@.skip(i as int).drop_first() =~= self.filas@.skip(i as int + 1));
                assert(self.filas@.skip(i as int).first() == self.filas@[i as int]);
            }
            if cumple_filtro_exec(&self.filas[i], params) {
                acc.push(self.filas[i].clone());
            }
        }
        proof {
            assert(self.filas@.skip(0) =~= self.filas@);
            lema_coincidencias_largo(self.filas@, *params);
            lema_coincidencias_ordenadas(self.filas@, *params);
        }
        let total_filas = acc.len();
        let total = total_filas as i64;

        let mut data: Vec<Alumno> = Vec::new();
        if desplazamiento < total {
            let desde = desplazamiento as usize;
            let mut hasta = desde + (limite as usize);
            if hasta > total_filas {
                hasta = total_filas;
            }
            let mut j = desde;
            while j < hasta
                invariant
                    0 <= desde <= j <= hasta <= acc@.len(),
                    data@ == acc@.subrange(desde as int, j as int),
                decreases hasta - j,
            {
                data.push(acc[j].clone());
                j = j + 1;
                proof {
                    assert(data@ =~= acc@.subrange(desde as int, j as int));
                }
            }
        }
        AlumnosResponse {
            success: true,
            message: String::from_str("Alumnos obtenidos exitosamente"),
            data,
            total,
        }
    }

    /// The row carrying `id`, or not-found.
    pub fn get_alumno(&self, id: i32) -> (r: Result<Alumno, ErrorApi>)
        requires
            self.bien_formada(),
        ensures
            r is Ok <==> tiene_id(self.filas@, id),
            r matches Ok(a) ==> a.id == id && exists|i: int|
                0 <= i < self.filas@.len() && (#[trigger] self.filas@[i]) == a,
            r matches Err(e) ==> e is NoEncontrado,
    {
        match self.buscar_indice(id) {
            Some(i) => Ok(self.filas[i].clone()),
            None => Err(ErrorApi::NoEncontrado),
        }
    }

    /// The stored row a valid create leaves behind: the payload's fields,
    /// the grade defaulted to zero hundredths when absent, the row active,
    /// and id and stamps assigned by the store.
    pub open spec fn fila_creada(q: CreateAlumnoRequest, id: i32, ahora: i64) -> Alumno {
        Alumno {
            id: id,
            nombre: q.nombre,
            apellido: q.apellido,
            email: q.email,
            edad: q.edad,
            carrera: q.carrera,
            semestre: q.semestre,
            promedio: match q.promedio {
                Some(p) => p,
                None => 0,
            },
            activo: true,
            fecha_registro: ahora,
            fecha_actualizacion: ahora,
        }
    }

    /// What one create call does to the table: an invalid payload is
    /// rejected with every violation and no row is touched; a duplicate
    /// email is a conflict and no row is touched; otherwise the stored row
    /// is appended, the next id moves on, and the row is handed back.
    pub open spec fn creacion_correcta(
        pre: TablaAlumnos,
        post: TablaAlumnos,
        q: CreateAlumnoRequest,
        ahora: i64,
        r: Result<Alumno, ErrorApi>,
    ) -> bool {
        &&& !creacion_valida(q) ==> post == pre && (r matches Err(e)
            && e matches ErrorApi::Validacion(v) && vistas(v@) == mensajes_creacion(q))
        &&& creacion_valida(q) && pre.email_presente(q.email@) ==> post == pre && (r matches Err(e)
            && e is Conflicto)
        &&& creacion_valida(q) && !pre.email_presente(q.email@) ==> (r matches Ok(a) && a
            == Self::fila_creada(q, pre.siguiente_id, ahora) && post.filas@ == pre.filas@.push(a)
            && post.siguiente_id == pre.siguiente_id + 1)
    }

    /// Creates a student: an invalid payload is rejected with every
    /// violation and no row is touched; a duplicate email is a conflict and
    /// no row is touched; otherwise the stored row is appended and handed
    /// back.
    pub fn create_alumno(&mut self, q: &CreateAlumnoRequest, ahora: i64) -> (r: Result<
        Alumno,
        ErrorApi,
    >)
        requires
            old(self).bien_formada(),
            old(self).siguiente_id < i32::MAX,
            old(self).marca_admisible(ahora),
        ensures
            final(self).bien_formada(),
            Self::creacion_correcta(*old(self), *final(self), *q, ahora, r),
    {
        let errores = validar_creacion(q);
        if errores.len() > 0 {
            return Err(ErrorApi::Validacion(errores));
        }
        if self.email_existe(&q.email) {
            return Err(ErrorApi::Conflicto);
        }
        let nuevo = Alumno {
            id: self.siguiente_id,
            nombre: q.nombre.clone(),
            apellido: q.apellido.clone(),
            email: q.email.clone(),
            edad: q.edad,
            carrera: q.carrera.clone(),
            semestre: q.semestre,
            promedio: match q.promedio {
                Some(p) => p,
                None => 0,
            },
            activo: true,
            fecha_registro: ahora,
            fecha_actualizacion: ahora,
        };
        let copia = nuevo.clone();
        self.filas.push(nuevo);
        self.siguiente_id = self.siguiente_id + 1;
        Ok(copia)
    }

    /// A row other than the one carrying `id` already holds the payload's
    /// email — the store would refuse the write.
    pub open spec fn conflicto_email(self, id: i32, q: UpdateAlumnoRequest) -> bool {
        q.email matches Some(e) && exists|j: int|
            0 <= j < self.filas@.len() && (#[trigger] self.filas@[j]).id != id
                && self.filas@[j].email@ == e@
    }

    /// Updates a student: an invalid payload is rejected with every
    /// violation; a missing row is not-found; an empty payload is rejected
    /// before the store is reached; a duplicate email is a conflict; else
    /// exactly the present fields of the row are replaced and the row handed
    /// back. Nothing else changes in any outcome.
    pub fn update_alumno(&mut self, id: i32, q: &UpdateAlumnoRequest, ahora: i64) -> (r: Result<
        Alumno,
        ErrorApi,
    >)
        requires
            old(self).bien_formada(),
        ensures
            final(self).bien_formada(),
            final(self).siguiente_id == old(self).siguiente_id,
            !actualizacion_valida(*q) ==> *final(self) == *old(self) && (r matches Err(e)
                && e matches ErrorApi::Validacion(v) && vistas(v@) == mensajes_actualizacion(*q)),
            actualizacion_valida(*q) && !tiene_id(old(self).filas@, id) ==> *final(self) == *old(
                self,
            ) && (r matches Err(e) && e is NoEncontrado),
            actualizacion_valida(*q) && tiene_id(old(self).filas@, id) && !alguna_actualizacion(*q)
                ==> *final(self) == *old(self) && (r matches Err(e) && e is SinCampos),
            actualizacion_valida(*q) && tiene_id(old(self).filas@, id) && alguna_actualizacion(*q)
                && old(self).conflicto_email(id, *q) ==> *final(self) == *old(self) && (r matches
            Err(e) && e is Conflicto),
            actualizacion_valida(*q) && tiene_id(old(self).filas@, id) && alguna_actualizacion(*q)
                && !old(self).conflicto_email(id, *q) ==> (r matches Ok(a) && exists|i: int|
                0 <= i < old(self).filas@.len() && (#[trigger] old(self).filas@[i]).id == id && a
                    == alumno_actualizado(old(self).filas@[i], *q, ahora) && final(self).filas@
                    == old(self).filas@.update(i, a)),
    {
        let errores = validar_actualizacion(q);
        if errores.len() > 0 {
            return Err(ErrorApi::Validacion(errores));
        }
        let idx = match self.buscar_indice(id) {
            Some(i) => i,
            None => {
                return Err(ErrorApi::NoEncontrado);
            },
        };
        if !hay_campos(q) {
            return Err(ErrorApi::SinCampos);
        }
        if let Some(e) = &q.email {
            if self.email_de_otro(id, e) {
                return Err(ErrorApi::Conflicto);
            }
        }
        let nueva = aplicar_actualizacion(&self.filas[idx], q, ahora);
        let copia = nueva.clone();
        self.filas.set(idx, nueva);
        Ok(copia)
    }

    /// Deletes the row carrying `id` outright, or reports not-found; the id
    /// is gone afterwards and no other row is touched.
    pub fn delete_alumno(&mut self, id: i32) -> (r: Result<(), ErrorApi>)
        requires
            old(self).bien_formada(),
        ensures
            final(self).bien_formada(),
            final(self).siguiente_id == old(self).siguiente_id,
            !tiene_id(old(self).filas@, id) ==> *final(self) == *old(self) && (r matches Err(e)
                && e is NoEncontrado),
            tiene_id(old(self).filas@, id) ==> r is Ok && !tiene_id(final(self).filas@, id) && exists|i: int|
                0 <= i < old(self).filas@.len() && (#[trigger] old(self).filas@[i]).id == id
                    && final(self).filas@ == old(self).filas@.remove(i),
    {
        let idx = match self.buscar_indice(id) {
            Some(i) => i,
            None => {
                return Err(ErrorApi::NoEncontrado);
            },
        };
        self.filas.remove(idx);
        proof {
            assert forall|j: int|
                0 <= j < self.filas@.len() implies (#[trigger] self.filas@[j]).id != id by {
                if j < idx {
                    assert(self.filas@[j] == old(self).filas@[j]);
                } else {
                    assert(self.filas@[j] == old(self).filas@[j + 1]);
                }
            }
        }
        Ok(())
    }
}

/// What the store reports back for one write statement: how many rows it
/// touched, that it refused the write for a duplicate key, or that it failed
/// in any other way.
pub enum ResultadoEscritura {
    Filas(u64),
    ViolacionUnica,
    Fallo,
}

/// Classifies a write's outcome: a refused duplicate key is a conflict, any
/// other failure is internal, and a completed write passes its row count on.
pub fn clasificar_escritura(r: ResultadoEscritura) -> (res: Result<u64, ErrorApi>)
    ensures
        r matches ResultadoEscritura::Filas(n) ==> res matches Ok(m) && m == n,
        r is ViolacionUnica ==> (res matches Err(e) && e is Conflicto),
        r is Fallo ==> (res matches Err(e) && e is Interno),
{
    match r {
        ResultadoEscritura::Filas(n) => Ok(n),
        ResultadoEscritura::ViolacionUnica => Err(ErrorApi::Conflicto),
        ResultadoEscritura::Fallo => Err(ErrorApi::Interno),
    }
}

/// The authoritative not-found of update and delete: a completed write that
/// touched no row means the row is gone, whatever an earlier check saw.
pub fn confirmar_filas_tocadas(filas: u64) -> (r: Result<(), ErrorApi>)
    ensures
        filas == 0 ==> (r matches Err(e) && e is NoEncontrado),
        filas > 0 ==> r is Ok,
{
    if filas == 0 {
        Err(ErrorApi::NoEncontrado)
    } else {
        Ok(())
    }
}

/// Law: after a successful create, a second create with the same email and
/// an otherwise valid payload is refused as a conflict, and the table is
/// left exactly as the first create left it.
pub proof fn ley_conflicto_email_duplicado(
    t0: TablaAlumnos,
    t1: TablaAlumnos,
    t2: TablaAlumnos,
    q1: CreateAlumnoRequest,
    q2: CreateAlumnoRequest,
    ahora1: i64,
    ahora2: i64,
    r1: Result<Alumno, ErrorApi>,
    r2: Result<Alumno, ErrorApi>,
)
    requires
        TablaAlumnos::creacion_correcta(t0, t1, q1, ahora1, r1),
        r1 is Ok,
        TablaAlumnos::creacion_correcta(t1, t2, q2, ahora2, r2),
        creacion_valida(q2),
        q2.email@ == q1.email@,
    ensures
        r2 matches Err(e) && e is Conflicto,
        t2 == t1,
{
    assert(creacion_valida(q1));
    assert(!t0.email_presente(q1.email@));
    let a = r1->Ok_0;
    assert(t1.filas@[t1.filas@.len() - 1].email@ == q2.email@);
    assert(t1.email_presente(q2.email@));
}

/// Law: the row a successful create hands back is stored, under the id the
/// table was about to assign.
pub proof fn ley_crear_deja_fila(
    t0: TablaAlumnos,
    t1: TablaAlumnos,
    q: CreateAlumnoRequest,
    ahora: i64,
    r: Result<Alumno, ErrorApi>,
)
    requires
        TablaAlumnos::creacion_correcta(t0, t1, q, ahora, r),
        r is Ok,
    ensures
        r->Ok_0.id == t0.siguiente_id,
        tiene_id(t1.filas@, r->Ok_0.id),
        t1.filas@.last() == r->Ok_0,
{
    assert(creacion_valida(q) && !t0.email_presente(q.email@));
    assert(t1.filas@[t1.filas@.len() - 1] == r->Ok_0);
}

/// Law: every match of a list query satisfies the filter it was taken with,
/// and is a row of the table it was taken from.
pub proof fn ley_coincidencias_cumplen(s: Seq<Alumno>, q: PaginationQuery)
    ensures
        forall|k: int|
            0 <= k < coincidencias_de(s, q).len() ==> cumple_filtro(
                #[trigger] coincidencias_de(s, q)[k],
                q,
            ) && s.contains(coincidencias_de(s, q)[k]),
    decreases s.len(),
{
    if s.len() > 0 {
        let c = coincidencias_de(s, q);
        let resto = coincidencias_de(s.drop_first(), q);
        ley_coincidencias_cumplen(s.drop_first(), q);
        assert forall|k: int| 0 <= k < c.len() implies cumple_filtro(#[trigger] c[k], q)
            && s.contains(c[k]) by {
            if k < resto.len() {
                assert(c[k] == resto[k]);
                let i = choose|i: int| 0 <= i < s.drop_first().len() && s.drop_first()[i] == resto[k];
                assert(s[i + 1] == resto[k]);
            } else {
                assert(c[k] == s.first());
                assert(s[0] == s.first());
            }
        }
    }
}

/// The filter conditions of two list queries agree; only their window may
/// differ.
pub open spec fn mismo_filtro(q1: PaginationQuery, q2: PaginationQuery) -> bool {
    &&& match (q1.search, q2.search) {
        (Some(a), Some(b)) => a@ == b@,
        (None, None) => true,
        _ => false,
    }
    &&& match (q1.carrera, q2.carrera) {
        (Some(a), Some(b)) => a@ == b@,
        (None, None) => true,
        _ => false,
    }
    &&& q1.activo == q2.activo
}

proof fn lema_coincidencias_mismo_filtro(s: Seq<Alumno>, q1: PaginationQuery, q2: PaginationQuery)
    requires
        mismo_filtro(q1, q2),
    ensures
        coincidencias_de(s, q1) == coincidencias_de(s, q2),
    decreases s.len(),
{
    if s.len() > 0 {
        lema_coincidencias_mismo_filtro(s.drop_first(), q1, q2);
        assert(cumple_filtro(s.first(), q1) == cumple_filtro(s.first(), q2));
    }
}

/// Law: the matches of a list query — and with them the reported total —
/// depend on the filter conditions alone, never on the page or the limit.
pub proof fn ley_total_independiente_de_ventana(
    t: TablaAlumnos,
    q1: PaginationQuery,
    q2: PaginationQuery,
)
    requires
        mismo_filtro(q1, q2),
    ensures
        t.coincidencias(q1) == t.coincidencias(q2),
{
    lema_coincidencias_mismo_filtro(t.filas@, q1, q2);
}

} // verus!
