use certificado::contrato::DocumentosContract;
use certificado::entorno::Entorno;
use certificado::registros::ErrorRegistro;

#[test]
fn duplicado_conserva_el_primer_registro() {
    let mut entorno = Entorno::nuevo();

    let primero = DocumentosContract::registrar_documento(
        &mut entorno,
        7,
        "Titulo original".to_string(),
        "Activo".to_string(),
        100,
    );
    assert_eq!(primero, Ok(()));

    let segundo = DocumentosContract::registrar_documento(
        &mut entorno,
        7,
        "Titulo intruso".to_string(),
        "Anulado".to_string(),
        999,
    );
    assert_eq!(segundo, Err(ErrorRegistro::AlreadyExists));

    let documento = DocumentosContract::obtener_documento(&entorno, 7).unwrap();
    assert_eq!(documento.titulo, "Titulo original");
    assert_eq!(documento.estado, "Activo");
    assert_eq!(documento.fecha, 100);
}

#[test]
fn entorno_nuevo_no_tiene_registros() {
    let entorno = Entorno::nuevo();

    assert!(DocumentosContract::obtener_documento(&entorno, 0).is_none());
    assert!(DocumentosContract::obtener_historial(&entorno, 0).is_none());
    assert!(DocumentosContract::consultar_respaldo(&entorno, 0).is_none());
    assert!(DocumentosContract::enviar_notificacion(&entorno, 0).is_none());
    assert!(DocumentosContract::exportar_informe(&entorno, 0).is_none());
    assert!(DocumentosContract::validar_exportacion(&entorno, 0).is_none());
    assert!(DocumentosContract::verificar_integracion(&entorno, 0).is_none());
}

#[test]
fn actualizacion_fallida_no_altera_la_tabla() {
    let mut entorno = Entorno::nuevo();

    let r = DocumentosContract::registrar_documento(
        &mut entorno,
        1,
        "Certificado".to_string(),
        "Pendiente".to_string(),
        5,
    );
    assert_eq!(r, Ok(()));

    let fallo = DocumentosContract::actualizar_estado(&mut entorno, 2, "Validado".to_string());
    assert_eq!(fallo, Err(ErrorRegistro::NotFound));

    assert!(DocumentosContract::obtener_documento(&entorno, 2).is_none());
    let documento = DocumentosContract::obtener_documento(&entorno, 1).unwrap();
    assert_eq!(documento.titulo, "Certificado");
    assert_eq!(documento.estado, "Pendiente");
    assert_eq!(documento.fecha, 5);
}

#[test]
fn actualizar_estado_no_toca_otros_documentos() {
    let mut entorno = Entorno::nuevo();

    let uno = DocumentosContract::registrar_documento(
        &mut entorno,
        1,
        "Primero".to_string(),
        "Pendiente".to_string(),
        10,
    );
    assert_eq!(uno, Ok(()));
    let dos = DocumentosContract::registrar_documento(
        &mut entorno,
        2,
        "Segundo".to_string(),
        "Pendiente".to_string(),
        20,
    );
    assert_eq!(dos, Ok(()));

    let actualizado = DocumentosContract::actualizar_estado(&mut entorno, 1, "Validado".to_string());
    assert_eq!(actualizado, Ok(()));

    let intacto = DocumentosContract::obtener_documento(&entorno, 2).unwrap();
    assert_eq!(intacto.titulo, "Segundo");
    assert_eq!(intacto.estado, "Pendiente");
    assert_eq!(intacto.fecha, 20);
}

#[test]
fn verificar_sobrescribe_la_entrada_existente() {
    let mut entorno = Entorno::nuevo();

    let previa = DocumentosContract::consulta_historial(
        &mut entorno,
        3,
        111,
        "Resultado antiguo".to_string(),
    );
    assert_eq!(previa, Ok(()));

    entorno.avanzar_reloj(1640995200);
    DocumentosContract::verificar_documento(&mut entorno, 3, "Resultado nuevo".to_string());

    let entrada = DocumentosContract::obtener_historial(&entorno, 3).unwrap();
    assert_eq!(entrada.fecha, 1640995200);
    assert_eq!(entrada.resultado, "Resultado nuevo");
}

#[test]
fn verificar_estampa_el_reloj_del_entorno() {
    let mut entorno = Entorno::nuevo();

    entorno.avanzar_reloj(777);
    DocumentosContract::verificar_documento(&mut entorno, 9, "Verificado".to_string());

    let entrada = DocumentosContract::obtener_historial(&entorno, 9).unwrap();
    assert_eq!(entrada.fecha, 777);
    assert_eq!(entrada.resultado, "Verificado");
}

#[test]
fn generar_informe_estampa_el_reloj_del_entorno() {
    let mut entorno = Entorno::nuevo();

    entorno.avanzar_reloj(424242);
    DocumentosContract::generar_informe(&mut entorno, 5, "PDF".to_string());

    let informe = DocumentosContract::exportar_informe(&entorno, 5).unwrap();
    assert_eq!(informe.fecha, 424242);
    assert_eq!(informe.formato, "PDF");
}

#[test]
fn avanzar_reloj_no_toca_las_tablas() {
    let mut entorno = Entorno::nuevo();

    let r = DocumentosContract::registrar_documento(
        &mut entorno,
        4,
        "Constancia".to_string(),
        "Activo".to_string(),
        50,
    );
    assert_eq!(r, Ok(()));

    entorno.avanzar_reloj(1000000);

    let documento = DocumentosContract::obtener_documento(&entorno, 4).unwrap();
    assert_eq!(documento.titulo, "Constancia");
    assert_eq!(documento.estado, "Activo");
    assert_eq!(documento.fecha, 50);
}

#[test]
fn configurar_notificacion_repetida_gana_la_ultima() {
    let mut entorno = Entorno::nuevo();

    DocumentosContract::configurar_notificacion(&mut entorno, 1, "Email".to_string());
    DocumentosContract::configurar_notificacion(&mut entorno, 1, "SMS".to_string());

    assert_eq!(DocumentosContract::enviar_notificacion(&entorno, 1).unwrap().tipo, "SMS");
}

#[test]
fn autenticar_repetido_no_falla() {
    let mut entorno = Entorno::nuevo();

    DocumentosContract::autenticar_usuario(&mut entorno, 1, "token_viejo".to_string());
    DocumentosContract::autenticar_usuario(&mut entorno, 1, "token_nuevo".to_string());

    let asignado = DocumentosContract::asignar_permisos(&mut entorno, 1, "read".to_string());
    assert_eq!(asignado, Ok(()));
}

#[test]
fn generar_informe_repetido_gana_el_ultimo_formato() {
    let mut entorno = Entorno::nuevo();

    DocumentosContract::generar_informe(&mut entorno, 2, "PDF".to_string());
    entorno.avanzar_reloj(33);
    DocumentosContract::generar_informe(&mut entorno, 2, "CSV".to_string());

    let informe = DocumentosContract::exportar_informe(&entorno, 2).unwrap();
    assert_eq!(informe.formato, "CSV");
    assert_eq!(informe.fecha, 33);
}

#[test]
fn exportar_datos_repetido_gana_el_ultimo_formato() {
    let mut entorno = Entorno::nuevo();

    DocumentosContract::exportar_datos(&mut entorno, 6, "JSON".to_string());
    DocumentosContract::exportar_datos(&mut entorno, 6, "XML".to_string());

    assert_eq!(DocumentosContract::validar_exportacion(&entorno, 6).unwrap().formato, "XML");
}

#[test]
fn sincronizar_datos_repetido_gana_el_ultimo_sistema() {
    let mut entorno = Entorno::nuevo();

    DocumentosContract::sincronizar_datos(&mut entorno, 8, "Sistema Legado".to_string());
    DocumentosContract::sincronizar_datos(&mut entorno, 8, "Sistema Nuevo".to_string());

    assert_eq!(
        DocumentosContract::verificar_integracion(&entorno, 8).unwrap().sistema,
        "Sistema Nuevo"
    );
}

#[test]
fn verificar_integracion_inexistente() {
    let entorno = Entorno::nuevo();

    assert!(DocumentosContract::verificar_integracion(&entorno, 999).is_none());
}

#[test]
fn asignar_rol_sobre_usuario_existente() {
    let mut entorno = Entorno::nuevo();

    let creado = DocumentosContract::crear_usuario(
        &mut entorno,
        1,
        "Ana Gomez".to_string(),
        "Lector".to_string(),
    );
    assert_eq!(creado, Ok(()));

    let asignado = DocumentosContract::asignar_rol(&mut entorno, 1, "Editor".to_string());
    assert_eq!(asignado, Ok(()));

    let repetido = DocumentosContract::crear_usuario(
        &mut entorno,
        1,
        "Otra Persona".to_string(),
        "Lector".to_string(),
    );
    assert_eq!(repetido, Err(ErrorRegistro::AlreadyExists));
}

#[test]
fn consulta_historial_fallida_no_altera_la_entrada() {
    let mut entorno = Entorno::nuevo();

    let primera = DocumentosContract::consulta_historial(
        &mut entorno,
        2,
        10,
        "Primera revision".to_string(),
    );
    assert_eq!(primera, Ok(()));

    let segunda = DocumentosContract::consulta_historial(
        &mut entorno,
        2,
        20,
        "Segunda revision".to_string(),
    );
    assert_eq!(segunda, Err(ErrorRegistro::AlreadyExists));

    let entrada = DocumentosContract::obtener_historial(&entorno, 2).unwrap();
    assert_eq!(entrada.fecha, 10);
    assert_eq!(entrada.resultado, "Primera revision");
}

#[test]
fn identificadores_y_fechas_extremos() {
    let mut entorno = Entorno::nuevo();

    let mayor = DocumentosContract::registrar_documento(
        &mut entorno,
        i32::MAX,
        "Identificador mayor".to_string(),
        "Activo".to_string(),
        u64::MAX,
    );
    assert_eq!(mayor, Ok(()));

    let menor = DocumentosContract::registrar_documento(
        &mut entorno,
        i32::MIN,
        "Identificador menor".to_string(),
        "Activo".to_string(),
        0,
    );
    assert_eq!(menor, Ok(()));

    let documento = DocumentosContract::obtener_documento(&entorno, i32::MAX).unwrap();
    assert_eq!(documento.titulo, "Identificador mayor");
    assert_eq!(documento.fecha, u64::MAX);

    let documento = DocumentosContract::obtener_documento(&entorno, i32::MIN).unwrap();
    assert_eq!(documento.titulo, "Identificador menor");
    assert_eq!(documento.fecha, 0);
}
