use alumnos_api::actualizacion::aplicar_actualizacion;
use alumnos_api::actualizacion::compilar_actualizacion;
use alumnos_api::actualizacion::hay_campos;
use alumnos_api::modelos::Alumno;
use alumnos_api::modelos::ErrorApi;
use alumnos_api::modelos::Parametro;
use alumnos_api::modelos::UpdateAlumnoRequest;

fn sin_campos() -> UpdateAlumnoRequest {
    UpdateAlumnoRequest {
        nombre: None,
        apellido: None,
        email: None,
        edad: None,
        carrera: None,
        semestre: None,
        promedio: None,
        activo: None,
    }
}

fn fila() -> Alumno {
    Alumno {
        id: 7,
        nombre: String::from("Ana"),
        apellido: String::from("Lopez"),
        email: String::from("ana@x.com"),
        edad: 20,
        carrera: String::from("Computer Science"),
        semestre: 3,
        promedio: 0,
        activo: true,
        fecha_registro: 100,
        fecha_actualizacion: 100,
    }
}

#[test]
fn carga_vacia_se_rechaza() {
    assert!(!hay_campos(&sin_campos()));
    match compilar_actualizacion(7, &sin_campos()) {
        Err(e) => assert!(matches!(e, ErrorApi::SinCampos)),
        Ok(_) => panic!("una carga vacia no debe compilar"),
    }
}

#[test]
fn un_solo_campo_toca_una_sola_columna() {
    let mut q = sin_campos();
    q.promedio = Some(910);
    let c = compilar_actualizacion(7, &q).unwrap();
    assert_eq!(c.sql, "UPDATE alumnos SET promedio = ? WHERE id = ?");
    assert_eq!(c.parametros.len(), 2);
    match &c.parametros[0] {
        Parametro::Centesimas(p) => assert_eq!(*p, 910),
        _ => panic!("se esperaba el promedio"),
    }
    match &c.parametros[1] {
        Parametro::Entero(n) => assert_eq!(*n, 7),
        _ => panic!("se esperaba el id"),
    }
}

#[test]
fn varios_campos_en_orden_de_columna() {
    let mut q = sin_campos();
    q.nombre = Some(String::from("Eva"));
    q.edad = Some(30);
    q.activo = Some(false);
    let c = compilar_actualizacion(9, &q).unwrap();
    assert_eq!(c.sql, "UPDATE alumnos SET nombre = ?, edad = ?, activo = ? WHERE id = ?");
    assert_eq!(c.parametros.len(), 4);
    match &c.parametros[0] {
        Parametro::Texto(t) => assert_eq!(t, "Eva"),
        _ => panic!("se esperaba el nombre"),
    }
    match &c.parametros[1] {
        Parametro::Entero(n) => assert_eq!(*n, 30),
        _ => panic!("se esperaba la edad"),
    }
    match &c.parametros[2] {
        Parametro::Logico(b) => assert!(!*b),
        _ => panic!("se esperaba el estado activo"),
    }
    match &c.parametros[3] {
        Parametro::Entero(n) => assert_eq!(*n, 9),
        _ => panic!("se esperaba el id"),
    }
}

#[test]
fn todos_los_campos_presentes() {
    let q = UpdateAlumnoRequest {
        nombre: Some(String::from("Eva")),
        apellido: Some(String::from("Marin")),
        email: Some(String::from("eva@x.com")),
        edad: Some(30),
        carrera: Some(String::from("Historia del Arte")),
        semestre: Some(2),
        promedio: Some(850),
        activo: Some(true),
    };
    let c = compilar_actualizacion(1, &q).unwrap();
    assert_eq!(
        c.sql,
        "UPDATE alumnos SET nombre = ?, apellido = ?, email = ?, edad = ?, carrera = ?, \
         semestre = ?, promedio = ?, activo = ? WHERE id = ?"
    );
    assert_eq!(c.parametros.len(), 9);
}

#[test]
fn aplicar_cambia_solo_los_campos_presentes() {
    let mut q = sin_campos();
    q.promedio = Some(910);
    let r = aplicar_actualizacion(&fila(), &q, 200);
    assert_eq!(r.id, 7);
    assert_eq!(r.nombre, "Ana");
    assert_eq!(r.apellido, "Lopez");
    assert_eq!(r.email, "ana@x.com");
    assert_eq!(r.edad, 20);
    assert_eq!(r.carrera, "Computer Science");
    assert_eq!(r.semestre, 3);
    assert_eq!(r.promedio, 910);
    assert!(r.activo);
    assert_eq!(r.fecha_registro, 100);
    assert_eq!(r.fecha_actualizacion, 200);
}

#[test]
fn aplicar_reemplaza_todos_los_presentes() {
    let q = UpdateAlumnoRequest {
        nombre: Some(String::from("Eva")),
        apellido: None,
        email: Some(String::from("eva@x.com")),
        edad: None,
        carrera: None,
        semestre: Some(4),
        promedio: None,
        activo: Some(false),
    };
    let r = aplicar_actualizacion(&fila(), &q, 300);
    assert_eq!(r.nombre, "Eva");
    assert_eq!(r.apellido, "Lopez");
    assert_eq!(r.email, "eva@x.com");
    assert_eq!(r.edad, 20);
    assert_eq!(r.semestre, 4);
    assert_eq!(r.promedio, 0);
    assert!(!r.activo);
}
