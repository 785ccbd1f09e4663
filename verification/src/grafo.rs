//! The in-memory student list of the query/mutation interface: a
//! process-local list with a linear scan, independent of the store-backed
//! resource. Queries read the whole list or the first student with a given
//! name; mutations append, replace by position, or remove by position.

use vstd::prelude::*;

use crate::texto::vistas;

verus! {

/// A student of the in-memory list.
#[derive(Debug)]
pub struct Alumno {
    pub nombres: String,
    pub apellidos: String,
    pub sexo: String,
    pub casado: bool,
    pub fecha_nacimiento: String,
    pub materias: Vec<String>,
}

/// The mathematical value of a student: each text as its characters, the
/// course list as a sequence.
pub struct AlumnoV {
    pub nombres: Seq<char>,
    pub apellidos: Seq<char>,
    pub sexo: Seq<char>,
    pub casado: bool,
    pub fecha_nacimiento: Seq<char>,
    pub materias: Seq<Seq<char>>,
}

impl View for Alumno {
    type V = AlumnoV;

    open spec fn view(&self) -> AlumnoV {
        AlumnoV {
            nombres: self.nombres@,
            apellidos: self.apellidos@,
            sexo: self.sexo@,
            casado: self.casado,
            fecha_nacimiento: self.fecha_nacimiento@,
            materias: vistas(self.materias@),
        }
    }
}

/// The mathematical values of a list of students, in order.
pub open spec fn modelos_de(s: Seq<Alumno>) -> Seq<AlumnoV> {
    s.map_values(|a: Alumno| a@)
}

/// The mutation payload: every field of a student.
#[derive(Debug)]
pub struct AlumnoInput {
    pub nombres: String,
    pub apellidos: String,
    pub sexo: String,
    pub casado: bool,
    pub fecha_nacimiento: String,
    pub materias: Vec<String>,
}

/// The student a mutation payload describes.
pub open spec fn alumno_de(input: AlumnoInput) -> Alumno {
    Alumno {
        nombres: input.nombres,
        apellidos: input.apellidos,
        sexo: input.sexo,
        casado: input.casado,
        fecha_nacimiento: input.fecha_nacimiento,
        materias: input.materias,
    }
}

/// A copy of a list of texts, value for value.
fn clonar_textos(v: &Vec<String>) -> (r: Vec<String>)
    ensures
        r@ == v@,
{
    let mut r: Vec<String> = Vec::new();
    let mut i: usize = 0;
    while i < v.len()
        invariant
            0 <= i <= v@.len(),
            r@ == v@.subrange(0, i as int),
        decreases v@.len() - i,
    {
        r.push(v[i].clone());
        i = i + 1;
        proof {
            assert(r@ =~= v@.subrange(0, i as int));
        }
    }
    proof {
        assert(r@ =~= v@);
    }
    r
}

impl Clone for Alumno {
    fn clone(&self) -> (res: Self)
        ensures
            res@ == self@,
    {
        Alumno {
            nombres: self.nombres.clone(),
            apellidos: self.apellidos.clone(),
            sexo: self.sexo.clone(),
            casado: self.casado,
            fecha_nacimiento: self.fecha_nacimiento.clone(),
            materias: clonar_textos(&self.materias),
        }
    }
}

/// The read side of the interface.
pub struct QueryRoot;

impl QueryRoot {
    /// Every student of the list, in order.
    pub fn alumnos(&self, datos: &Vec<Alumno>) -> (r: Vec<Alumno>)
        ensures
            modelos_de(r@) == modelos_de(datos@),
    {
        let mut r: Vec<Alumno> = Vec::new();
        let mut i: usize = 0;
        while i < datos.len()
            invariant
                0 <= i <= datos@.len(),
                modelos_de(r@) =~= modelos_de(datos@).subrange(0, i as int),
            decreases datos@.len() - i,
        {
            let ghost previo = r@;
            let copia = datos[i].clone();
            proof {
                assert(copia@ == datos@[i as int]@);
            }
            r.push(copia);
            i = i + 1;
            proof {
                assert(r@ == previo.push(copia));
                assert(modelos_de(previo).len() == previo.len());
                assert(modelos_de(datos@).subrange(0, i as int - 1).len() == i as int - 1);
                assert(previo.len() == i as int - 1);
                assert(modelos_de(r@).len() == i as int);
                assert forall|k: int| 0 <= k < i as int implies modelos_de(r@)[k] == modelos_de(
                    datos@,
                ).subrange(0, i as int)[k] by {
                    assert(modelos_de(r@)[k] == r@[k]@);
                    if k < i as int - 1 {
                        assert(r@[k] == previo[k]);
                        assert(previo[k]@ == modelos_de(previo)[k]);
                        assert(modelos_de(previo)[k] == modelos_de(datos@).subrange(
                            0,
                            i as int - 1,
                        )[k]);
                    } else {
                        assert(r@[k] == copia);
                    }
                }
                assert(modelos_de(r@) =~= modelos_de(datos@).subrange(0, i as int));
            }
        }
        proof {
            assert(modelos_de(datos@).subrange(0, datos@.len() as int) =~~= modelos_de(datos@));
        }
        r
    }

    /// The first student with the given name, if any.
    pub fn alumno(&self, datos: &Vec<Alumno>, nombres: String) -> (r: Option<Alumno>)
        ensures
            r is Some <==> exists|i: int|
                0 <= i < datos@.len() && (#[trigger] datos@[i]).nombres@ == nombres@,
            r matches Some(a) ==> exists|i: int|
                0 <= i < datos@.len() && (#[trigger] datos@[i])@ == a@ && a.nombres@ == nombres@
                    && forall|j: int| 0 <= j < i ==> (#[trigger] datos@[j]).nombres@ != nombres@,
    {
        let mut i: usize = 0;
        while i < datos.len()
            invariant
                0 <= i <= datos@.len(),
                forall|j: int| 0 <= j < i ==> (#[trigger] datos@[j]).nombres@ != nombres@,
            decreases datos@.len() - i,
        {
            if datos[i].nombres.eq(&nombres) {
                return Some(datos[i].clone());
            }
            i = i + 1;
        }
        None
    }
}

/// The write side of the interface.
pub struct MutationRoot;

impl MutationRoot {
    /// Appends the student the payload describes and hands it back.
    pub fn add_alumno(&self, datos: &mut Vec<Alumno>, input: AlumnoInput) -> (r: Alumno)
        ensures
            r@ == alumno_de(input)@,
            final(datos)@ == old(datos)@.push(alumno_de(input)),
    {
        let alumno = Alumno {
            nombres: input.nombres,
            apellidos: input.apellidos,
            sexo: input.sexo,
            casado: input.casado,
            fecha_nacimiento: input.fecha_nacimiento,
            materias: input.materias,
        };
        let copia = alumno.clone();
        datos.push(alumno);
        copia
    }

    /// Replaces every field of the student at `index` with the payload's,
    /// handing the new student back; out of range, the list is untouched.
    pub fn edit_alumno(&self, datos: &mut Vec<Alumno>, index: usize, input: AlumnoInput) -> (r:
        Option<Alumno>)
        ensures
            index < old(datos)@.len() ==> (r matches Some(a) && a@ == alumno_de(input)@
                && final(datos)@ == old(datos)@.update(index as int, alumno_de(input))),
            index >= old(datos)@.len() ==> r is None && final(datos)@ == old(datos)@,
    {
        if index < datos.len() {
            let alumno = Alumno {
                nombres: input.nombres,
                apellidos: input.apellidos,
                sexo: input.sexo,
                casado: input.casado,
                fecha_nacimiento: input.fecha_nacimiento,
                materias: input.materias,
            };
            let copia = alumno.clone();
            datos.set(index, alumno);
            Some(copia)
        } else {
            None
        }
    }

    /// Removes the student at `index`; out of range, the list is untouched.
    pub fn delete_alumno(&self, datos: &mut Vec<Alumno>, index: usize) -> (r: bool)
        ensures
            index < old(datos)@.len() ==> r && final(datos)@ == old(datos)@.remove(index as int),
            index >= old(datos)@.len() ==> !r && final(datos)@ == old(datos)@,
    {
        if index < datos.len() {
            datos.remove(index);
            true
        } else {
            false
        }
    }
}

} // verus!
