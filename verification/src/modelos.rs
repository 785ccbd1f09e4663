//! Data model of the student resource: the persisted entity, the request and
//! response shapes of the five operations, the error taxonomy, and the bound
//! parameters handed to the store.
//!
//! The store's decimal column (`promedio`) is held in hundredths, so every
//! range rule is exact integer arithmetic; the boundary that talks to the
//! store converts. Timestamps are held as plain integers (seconds of an epoch
//! clock); the store assigns them.

use vstd::prelude::*;

verus! {

/// A persisted student row. `id` and the two timestamps are assigned by the
/// store; `promedio` is in hundredths (a stored value of `9.1` is `910`).
#[derive(Debug)]
pub struct Alumno {
    pub id: i32,
    pub nombre: String,
    pub apellido: String,
    pub email: String,
    pub edad: i32,
    pub carrera: String,
    pub semestre: i32,
    pub promedio: u32,
    pub activo: bool,
    pub fecha_registro: i64,
    pub fecha_actualizacion: i64,
}

impl Clone for Alumno {
    fn clone(&self) -> (res: Self)
        ensures
            res == *self,
    {
        Alumno {
            id: self.id,
            nombre: self.nombre.clone(),
            apellido: self.apellido.clone(),
            email: self.email.clone(),
            edad: self.edad,
            carrera: self.carrera.clone(),
            semestre: self.semestre,
            promedio: self.promedio,
            activo: self.activo,
            fecha_registro: self.fecha_registro,
            fecha_actualizacion: self.fecha_actualizacion,
        }
    }
}

/// Payload of a create: every field required but `promedio`, which defaults
/// to zero hundredths when absent. `activo` is not supplied; a new row is
/// active.
#[derive(Debug)]
pub struct CreateAlumnoRequest {
    pub nombre: String,
    pub apellido: String,
    pub email: String,
    pub edad: i32,
    pub carrera: String,
    pub semestre: i32,
    pub promedio: Option<u32>,
}

/// Payload of a partial update: an absent field leaves the column unchanged.
#[derive(Debug)]
pub struct UpdateAlumnoRequest {
    pub nombre: Option<String>,
    pub apellido: Option<String>,
    pub email: Option<String>,
    pub edad: Option<i32>,
    pub carrera: Option<String>,
    pub semestre: Option<i32>,
    pub promedio: Option<u32>,
    pub activo: Option<bool>,
}

/// Response of an operation that returns at most one student.
#[derive(Debug)]
pub struct AlumnoResponse {
    pub success: bool,
    pub message: String,
    pub data: Option<Alumno>,
}

/// Response of the list operation: one page of rows, and the count of all
/// rows matching the same filter.
#[derive(Debug)]
pub struct AlumnosResponse {
    pub success: bool,
    pub message: String,
    pub data: Vec<Alumno>,
    pub total: i64,
}

/// Error envelope shown to the caller.
#[derive(Debug)]
pub struct ErrorResponse {
    pub success: bool,
    pub message: String,
    pub errors: Option<Vec<String>>,
}

/// Query parameters of the list operation, all optional.
#[derive(Debug)]
pub struct PaginationQuery {
    pub page: Option<i32>,
    pub limit: Option<i32>,
    pub search: Option<String>,
    pub carrera: Option<String>,
    pub activo: Option<bool>,
}

/// Failure classification of the five operations. `Validacion` carries the
/// field violations; `SinCampos` is the rejected empty update payload;
/// `Interno` is any other store failure, surfaced without detail.
#[derive(Debug)]
pub enum ErrorApi {
    Validacion(Vec<String>),
    SinCampos,
    NoEncontrado,
    Conflicto,
    Interno,
}

/// The caller-visible message of each error class.
pub open spec fn mensaje_error(e: ErrorApi) -> Seq<char> {
    match e {
        ErrorApi::Validacion(_) => "Datos de entrada inválidos"@,
        ErrorApi::SinCampos => "No hay campos para actualizar"@,
        ErrorApi::NoEncontrado => "Alumno no encontrado"@,
        ErrorApi::Conflicto => "El email ya existe"@,
        ErrorApi::Interno => "Error interno del servidor"@,
    }
}

/// The HTTP status of each error class.
pub open spec fn codigo_de(e: ErrorApi) -> u16 {
    match e {
        ErrorApi::Validacion(_) => 400,
        ErrorApi::SinCampos => 400,
        ErrorApi::NoEncontrado => 404,
        ErrorApi::Conflicto => 409,
        ErrorApi::Interno => 500,
    }
}

impl ErrorApi {
    /// The error envelope of this error: generic message per class, and the
    /// field violations only for a validation failure.
    pub fn en_respuesta(self) -> (r: ErrorResponse)
        ensures
            !r.success,
            r.message@ == mensaje_error(self),
            self matches ErrorApi::Validacion(v) ==> (r.errors matches Some(e) && e == v),
            !(self is Validacion) ==> r.errors is None,
    {
        match self {
            ErrorApi::Validacion(v) => ErrorResponse {
                success: false,
                message: String::from_str("Datos de entrada inválidos"),
                errors: Some(v),
            },
            ErrorApi::SinCampos => ErrorResponse {
                success: false,
                message: String::from_str("No hay campos para actualizar"),
                errors: None,
            },
            ErrorApi::NoEncontrado => ErrorResponse {
                success: false,
                message: String::from_str("Alumno no encontrado"),
                errors: None,
            },
            ErrorApi::Conflicto => ErrorResponse {
                success: false,
                message: String::from_str("El email ya existe"),
                errors: None,
            },
            ErrorApi::Interno => ErrorResponse {
                success: false,
                message: String::from_str("Error interno del servidor"),
                errors: None,
            },
        }
    }

    /// The HTTP status code of this error.
    pub fn codigo_http(&self) -> (r: u16)
        ensures
            r == codigo_de(*self),
    {
        match self {
            ErrorApi::Validacion(_) => 400,
            ErrorApi::SinCampos => 400,
            ErrorApi::NoEncontrado => 404,
            ErrorApi::Conflicto => 409,
            ErrorApi::Interno => 500,
        }
    }
}

/// A value bound to one placeholder of a statement. `Centesimas` carries the
/// decimal column's value in hundredths; the store boundary binds it as the
/// decimal it stands for.
#[derive(Debug)]
pub enum Parametro {
    Texto(String),
    Entero(i64),
    Logico(bool),
    Centesimas(u32),
}

/// The mathematical value of a bound parameter.
pub enum ParamV {
    Texto(Seq<char>),
    Entero(int),
    Logico(bool),
    Centesimas(u32),
}

impl View for Parametro {
    type V = ParamV;

    open spec fn view(&self) -> ParamV {
        match self {
            Parametro::Texto(s) => ParamV::Texto(s@),
            Parametro::Entero(n) => ParamV::Entero(*n as int),
            Parametro::Logico(b) => ParamV::Logico(*b),
            Parametro::Centesimas(c) => ParamV::Centesimas(*c),
        }
    }
}

/// The values of a parameter list, in binding order.
pub open spec fn vista_params(ps: Seq<Parametro>) -> Seq<ParamV> {
    ps.map_values(|p: Parametro| p@)
}

} // verus!
