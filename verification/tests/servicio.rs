use alumnos_api::modelos::CreateAlumnoRequest;
use alumnos_api::modelos::ErrorApi;
use alumnos_api::modelos::PaginationQuery;
use alumnos_api::modelos::UpdateAlumnoRequest;
use alumnos_api::servicio::clasificar_escritura;
use alumnos_api::servicio::confirmar_filas_tocadas;
use alumnos_api::servicio::ResultadoEscritura;
use alumnos_api::servicio::TablaAlumnos;

fn peticion(nombre: &str, email: &str) -> CreateAlumnoRequest {
    CreateAlumnoRequest {
        nombre: String::from(nombre),
        apellido: String::from("Lopez"),
        email: String::from(email),
        edad: 20,
        carrera: String::from("Computer Science"),
        semestre: 3,
        promedio: None,
    }
}

fn sin_campos() -> UpdateAlumnoRequest {
    UpdateAlumnoRequest {
        nombre: None,
        apellido: None,
        email: None,
        edad: None,
        carrera: None,
        semestre: None,
        promedio: None,
        activo: None,
    }
}

fn sin_filtros() -> PaginationQuery {
    PaginationQuery { page: None, limit: None, search: None, carrera: None, activo: None }
}

#[test]
fn crear_devuelve_los_campos_de_la_entrada() {
    let mut t = TablaAlumnos::nueva();
    let a = t.create_alumno(&peticion("Ana", "ana@x.com"), 100).unwrap();
    assert_eq!(a.id, 1);
    assert_eq!(a.nombre, "Ana");
    assert_eq!(a.apellido, "Lopez");
    assert_eq!(a.email, "ana@x.com");
    assert_eq!(a.edad, 20);
    assert_eq!(a.carrera, "Computer Science");
    assert_eq!(a.semestre, 3);
    assert_eq!(a.promedio, 0);
    assert!(a.activo);
    assert_eq!(a.fecha_registro, 100);
    assert_eq!(a.fecha_actualizacion, 100);
}

#[test]
fn crear_con_promedio_explicito_lo_conserva() {
    let mut t = TablaAlumnos::nueva();
    let mut q = peticion("Ana", "ana@x.com");
    q.promedio = Some(950);
    let a = t.create_alumno(&q, 100).unwrap();
    assert_eq!(a.promedio, 950);
}

#[test]
fn crear_invalido_no_toca_la_tabla() {
    let mut t = TablaAlumnos::nueva();
    let mut q = peticion("Ana", "ana@x.com");
    q.edad = 10;
    match t.create_alumno(&q, 100) {
        Err(ErrorApi::Validacion(v)) => {
            assert_eq!(v, vec![String::from("Edad debe estar entre 16 y 65 años")]);
        }
        _ => panic!("se esperaba un error de validacion"),
    }
    assert_eq!(t.get_alumnos(&sin_filtros()).total, 0);
}

#[test]
fn email_duplicado_produce_conflicto_sin_efectos() {
    let mut t = TablaAlumnos::nueva();
    t.create_alumno(&peticion("Ana", "ana@x.com"), 100).unwrap();
    let r = t.create_alumno(&peticion("Eva", "ana@x.com"), 200);
    match r {
        Err(e) => {
            assert!(matches!(e, ErrorApi::Conflicto));
            assert_eq!(e.codigo_http(), 409);
        }
        Ok(_) => panic!("el segundo correo duplicado debe fallar"),
    }
    let lista = t.get_alumnos(&sin_filtros());
    assert_eq!(lista.total, 1);
    assert_eq!(lista.data[0].nombre, "Ana");
}

#[test]
fn listado_respeta_limite_y_total_cuenta_todas_las_coincidencias() {
    let mut t = TablaAlumnos::nueva();
    for i in 0..7 {
        let mut q = peticion(&format!("Ana{}", i), &format!("a{}@x.com", i));
        if i % 2 == 0 {
            q.carrera = String::from("Matematicas");
        }
        t.create_alumno(&q, 100 + i as i64).unwrap();
    }
    let mut filtro = sin_filtros();
    filtro.limit = Some(2);
    filtro.carrera = Some(String::from("Matematicas"));
    let r = t.get_alumnos(&filtro);
    assert!(r.data.len() <= 2);
    assert_eq!(r.total, 4);
    for a in &r.data {
        assert_eq!(a.carrera, "Matematicas");
    }
}

#[test]
fn listado_ordena_del_mas_reciente_al_mas_antiguo() {
    let mut t = TablaAlumnos::nueva();
    for i in 0..3 {
        t.create_alumno(&peticion(&format!("Ana{}", i), &format!("a{}@x.com", i)), 100 + i as i64)
            .unwrap();
    }
    let r = t.get_alumnos(&sin_filtros());
    assert_eq!(r.data.len(), 3);
    assert_eq!(r.data[0].nombre, "Ana2");
    assert_eq!(r.data[1].nombre, "Ana1");
    assert_eq!(r.data[2].nombre, "Ana0");
}

#[test]
fn paginacion_recorta_y_desplaza() {
    let mut t = TablaAlumnos::nueva();
    for i in 0..5 {
        t.create_alumno(&peticion(&format!("Ana{}", i), &format!("a{}@x.com", i)), 100 + i as i64)
            .unwrap();
    }
    let mut q = sin_filtros();
    q.page = Some(2);
    q.limit = Some(2);
    let r = t.get_alumnos(&q);
    assert_eq!(r.total, 5);
    assert_eq!(r.data.len(), 2);
    assert_eq!(r.data[0].nombre, "Ana2");
    assert_eq!(r.data[1].nombre, "Ana1");
}

#[test]
fn pagina_cero_funciona_como_la_primera() {
    let mut t = TablaAlumnos::nueva();
    for i in 0..3 {
        t.create_alumno(&peticion(&format!("Ana{}", i), &format!("a{}@x.com", i)), 100 + i as i64)
            .unwrap();
    }
    let mut q0 = sin_filtros();
    q0.page = Some(0);
    let mut q1 = sin_filtros();
    q1.page = Some(1);
    let r0 = t.get_alumnos(&q0);
    let r1 = t.get_alumnos(&q1);
    assert_eq!(r0.data.len(), r1.data.len());
    for (a, b) in r0.data.iter().zip(r1.data.iter()) {
        assert_eq!(a.id, b.id);
    }
}

#[test]
fn limite_mil_se_recorta_a_cien_y_cero_a_uno() {
    let mut t = TablaAlumnos::nueva();
    for i in 0..3 {
        t.create_alumno(&peticion(&format!("Ana{}", i), &format!("a{}@x.com", i)), 100 + i as i64)
            .unwrap();
    }
    let mut q = sin_filtros();
    q.limit = Some(1000);
    assert_eq!(t.get_alumnos(&q).data.len(), 3);
    q.limit = Some(0);
    let r = t.get_alumnos(&q);
    assert_eq!(r.data.len(), 1);
    assert_eq!(r.total, 3);
}

#[test]
fn actualizacion_vacia_se_rechaza_como_error_de_peticion() {
    let mut t = TablaAlumnos::nueva();
    t.create_alumno(&peticion("Ana", "ana@x.com"), 100).unwrap();
    match t.update_alumno(1, &sin_campos(), 200) {
        Err(e) => {
            assert!(matches!(e, ErrorApi::SinCampos));
            assert_eq!(e.codigo_http(), 400);
        }
        Ok(_) => panic!("una carga vacia no debe actualizar nada"),
    }
}

#[test]
fn actualizar_id_inexistente_es_no_encontrado() {
    let mut t = TablaAlumnos::nueva();
    let mut q = sin_campos();
    q.edad = Some(30);
    match t.update_alumno(99, &q, 200) {
        Err(e) => {
            assert!(matches!(e, ErrorApi::NoEncontrado));
            assert_eq!(e.codigo_http(), 404);
        }
        Ok(_) => panic!("no hay fila que actualizar"),
    }
}

#[test]
fn borrar_id_inexistente_es_no_encontrado() {
    let mut t = TablaAlumnos::nueva();
    match t.delete_alumno(99) {
        Err(e) => assert!(matches!(e, ErrorApi::NoEncontrado)),
        Ok(_) => panic!("no hay fila que borrar"),
    }
}

#[test]
fn actualizar_email_al_de_otro_es_conflicto() {
    let mut t = TablaAlumnos::nueva();
    t.create_alumno(&peticion("Ana", "ana@x.com"), 100).unwrap();
    t.create_alumno(&peticion("Eva", "eva@x.com"), 200).unwrap();
    let mut q = sin_campos();
    q.email = Some(String::from("ana@x.com"));
    match t.update_alumno(2, &q, 300) {
        Err(e) => assert!(matches!(e, ErrorApi::Conflicto)),
        Ok(_) => panic!("el correo ya pertenece a otra fila"),
    }
}

#[test]
fn actualizar_al_propio_email_no_es_conflicto() {
    let mut t = TablaAlumnos::nueva();
    t.create_alumno(&peticion("Ana", "ana@x.com"), 100).unwrap();
    let mut q = sin_campos();
    q.email = Some(String::from("ana@x.com"));
    let a = t.update_alumno(1, &q, 300).unwrap();
    assert_eq!(a.email, "ana@x.com");
}

#[test]
fn escenario_completo_crear_actualizar_borrar() {
    let mut t = TablaAlumnos::nueva();
    let creado = t
        .create_alumno(&peticion("Ana", "ana@x.com"), 100)
        .expect("la peticion valida debe crear");
    assert_eq!(creado.promedio, 0);
    assert!(creado.activo);

    let mut parcial = sin_campos();
    parcial.promedio = Some(910);
    let actualizado = t.update_alumno(creado.id, &parcial, 200).expect("la fila existe");
    assert_eq!(actualizado.promedio, 910);
    assert_eq!(actualizado.nombre, "Ana");
    assert_eq!(actualizado.apellido, "Lopez");
    assert_eq!(actualizado.email, "ana@x.com");
    assert_eq!(actualizado.edad, 20);
    assert_eq!(actualizado.carrera, "Computer Science");
    assert_eq!(actualizado.semestre, 3);
    assert!(actualizado.activo);
    assert_eq!(actualizado.fecha_registro, 100);
    assert_eq!(actualizado.fecha_actualizacion, 200);

    t.delete_alumno(creado.id).expect("la fila existe");
    match t.get_alumno(creado.id) {
        Err(e) => {
            assert!(matches!(e, ErrorApi::NoEncontrado));
            assert_eq!(e.codigo_http(), 404);
        }
        Ok(_) => panic!("la fila fue borrada"),
    }
}

#[test]
fn envolturas_de_error_llevan_su_mensaje() {
    let r = ErrorApi::NoEncontrado.en_respuesta();
    assert!(!r.success);
    assert_eq!(r.message, "Alumno no encontrado");
    assert!(r.errors.is_none());

    let r = ErrorApi::Conflicto.en_respuesta();
    assert_eq!(r.message, "El email ya existe");

    let r = ErrorApi::SinCampos.en_respuesta();
    assert_eq!(r.message, "No hay campos para actualizar");

    let r = ErrorApi::Interno.en_respuesta();
    assert_eq!(r.message, "Error interno del servidor");
    assert_eq!(ErrorApi::Interno.codigo_http(), 500);

    let r = ErrorApi::Validacion(vec![String::from("Email inválido")]).en_respuesta();
    assert_eq!(r.message, "Datos de entrada inválidos");
    assert_eq!(r.errors, Some(vec![String::from("Email inválido")]));
}

#[test]
fn clasificacion_del_resultado_de_escritura() {
    assert_eq!(clasificar_escritura(ResultadoEscritura::Filas(3)).unwrap(), 3);
    assert!(matches!(
        clasificar_escritura(ResultadoEscritura::ViolacionUnica),
        Err(ErrorApi::Conflicto)
    ));
    assert!(matches!(clasificar_escritura(ResultadoEscritura::Fallo), Err(ErrorApi::Interno)));
    assert!(confirmar_filas_tocadas(1).is_ok());
    assert!(matches!(confirmar_filas_tocadas(0), Err(ErrorApi::NoEncontrado)));
}

#[test]
fn respuesta_de_listado_informa_exito() {
    let t = TablaAlumnos::nueva();
    let r = t.get_alumnos(&sin_filtros());
    assert!(r.success);
    assert_eq!(r.message, "Alumnos obtenidos exitosamente");
    assert_eq!(r.total, 0);
    assert_eq!(r.data.len(), 0);
}
