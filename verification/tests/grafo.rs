use alumnos_api::grafo::Alumno;
use alumnos_api::grafo::AlumnoInput;
use alumnos_api::grafo::MutationRoot;
use alumnos_api::grafo::QueryRoot;

fn entrada(nombres: &str) -> AlumnoInput {
    AlumnoInput {
        nombres: String::from(nombres),
        apellidos: String::from("Garcia"),
        sexo: String::from("F"),
        casado: false,
        fecha_nacimiento: String::from("2000-01-01"),
        materias: vec![String::from("Algebra"), String::from("Logica")],
    }
}

#[test]
fn agregar_devuelve_y_guarda_al_alumno() {
    let mut datos: Vec<Alumno> = Vec::new();
    let m = MutationRoot;
    let a = m.add_alumno(&mut datos, entrada("Maria"));
    assert_eq!(a.nombres, "Maria");
    assert_eq!(a.materias, vec![String::from("Algebra"), String::from("Logica")]);
    assert_eq!(datos.len(), 1);
    assert_eq!(datos[0].nombres, "Maria");
}

#[test]
fn consultar_lista_completa() {
    let mut datos: Vec<Alumno> = Vec::new();
    let m = MutationRoot;
    m.add_alumno(&mut datos, entrada("Maria"));
    m.add_alumno(&mut datos, entrada("Luisa"));
    let q = QueryRoot;
    let todos = q.alumnos(&datos);
    assert_eq!(todos.len(), 2);
    assert_eq!(todos[0].nombres, "Maria");
    assert_eq!(todos[1].nombres, "Luisa");
}

#[test]
fn consultar_por_nombre_encuentra_al_primero() {
    let mut datos: Vec<Alumno> = Vec::new();
    let m = MutationRoot;
    m.add_alumno(&mut datos, entrada("Maria"));
    let mut otra = entrada("Maria");
    otra.apellidos = String::from("Solis");
    m.add_alumno(&mut datos, otra);
    let q = QueryRoot;
    let hallada = q.alumno(&datos, String::from("Maria")).expect("existe");
    assert_eq!(hallada.apellidos, "Garcia");
    assert!(q.alumno(&datos, String::from("Carmen")).is_none());
}

#[test]
fn editar_reemplaza_todos_los_campos() {
    let mut datos: Vec<Alumno> = Vec::new();
    let m = MutationRoot;
    m.add_alumno(&mut datos, entrada("Maria"));
    let mut nueva = entrada("Carmen");
    nueva.casado = true;
    let editada = m.edit_alumno(&mut datos, 0, nueva).expect("el indice existe");
    assert_eq!(editada.nombres, "Carmen");
    assert!(editada.casado);
    assert_eq!(datos[0].nombres, "Carmen");
    assert!(m.edit_alumno(&mut datos, 5, entrada("Nadie")).is_none());
    assert_eq!(datos.len(), 1);
}

#[test]
fn borrar_por_indice() {
    let mut datos: Vec<Alumno> = Vec::new();
    let m = MutationRoot;
    m.add_alumno(&mut datos, entrada("Maria"));
    m.add_alumno(&mut datos, entrada("Luisa"));
    assert!(m.delete_alumno(&mut datos, 0));
    assert_eq!(datos.len(), 1);
    assert_eq!(datos[0].nombres, "Luisa");
    assert!(!m.delete_alumno(&mut datos, 9));
    assert_eq!(datos.len(), 1);
}
