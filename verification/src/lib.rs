//! Logic of a CRUD service for a student ("alumno") resource: input
//! validation, compilation of list filters and pagination into parameterized
//! queries, compilation of sparse update payloads, and the service rules for
//! list, get, create, update and delete, including the classification of
//! failures (validation, not-found, conflict, internal).

/// Compilation of a sparse update payload into a parameterized statement.
pub mod actualizacion;
/// Compilation of list filters and pagination into a parameterized query.
pub mod consulta;
/// The in-memory student list of the query/mutation interface.
pub mod grafo;
/// The data model: entities, request and response shapes, errors, parameters.
pub mod modelos;
/// The resource service: list, get, create, update, delete over a table.
pub mod servicio;
/// Substring search over text, used by the list filter.
pub mod texto;
/// Field-level validation of create and update payloads.
pub mod validacion;
