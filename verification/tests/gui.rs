use auto_sade::config::{Config, ErrorConfig};
use auto_sade::file_processor::ResultadoMover;
use auto_sade::gui::{mensaje_guardar, numero_o_uno, AutoSadeApp, EstadoApp, Fin};
use auto_sade::web_automation::ResultadoDescarga;

fn app() -> AutoSadeApp {
    AutoSadeApp::new(Ok(Config::new("d".to_string(), "d/x.xlsx".to_string())))
}

#[test]
fn starts_ready_with_buttons_enabled() {
    let app = app();
    assert_eq!(app.obtener_estado(), EstadoApp::Listo);
    assert!(app.botones_estan_habilitados());
    assert!(app.config.is_some());
    assert_eq!(app.usuario, "");
    assert_eq!(app.texto_estado(), "Listo");
    assert!(!app.esta_procesando());
}

#[test]
fn starts_in_error_without_configuration() {
    let app = AutoSadeApp::new(Err(ErrorConfig::SinCredenciales));
    assert!(app.config.is_none());
    assert_eq!(
        app.obtener_estado(),
        EstadoApp::Error(
            "Error de configuración: No se encontraron credenciales de usuario en el archivo .env"
                .to_string()
        )
    );
    assert!(app.botones_estan_habilitados());
}

#[test]
fn state_and_buttons_are_set() {
    let mut app = app();
    app.actualizar_estado(EstadoApp::Procesando("x".to_string()));
    assert_eq!(app.obtener_estado(), EstadoApp::Procesando("x".to_string()));
    assert!(app.esta_procesando());
    assert!(app.botones_estan_habilitados());
    app.habilitar_botones(false);
    assert!(!app.botones_estan_habilitados());
    assert_eq!(app.obtener_estado(), EstadoApp::Procesando("x".to_string()));
    app.habilitar_botones(true);
    assert!(app.botones_estan_habilitados());
    app.actualizar_estado(EstadoApp::Finalizado("hecho".to_string()));
    assert_eq!(app.texto_estado(), "hecho");
    app.actualizar_estado(EstadoApp::Error("mal".to_string()));
    assert_eq!(app.texto_estado(), "mal");
}

#[test]
fn download_press_reads_the_range() {
    let mut app = app();
    app.comunicacion_inicio = "12".to_string();
    app.comunicacion_final = "345".to_string();
    assert_eq!(app.pulsar_descargar(), (12, 345));
    assert!(!app.botones_estan_habilitados());
    assert_eq!(
        app.obtener_estado(),
        EstadoApp::Procesando("Descargando comunicaciones...".to_string())
    );
}

#[test]
fn fields_that_hold_no_number_count_as_one() {
    for (a, b, esperado) in [
        ("", "", (1u32, 1u32)),
        ("abc", "7", (1, 7)),
        ("-3", " 4", (1, 1)),
        ("4294967295", "4294967296", (u32::MAX, 1)),
        ("+5", "0", (5, 0)),
        ("1.5", "٣", (1, 1)),
    ] {
        let mut app = app();
        app.comunicacion_inicio = a.to_string();
        app.comunicacion_final = b.to_string();
        assert_eq!(app.pulsar_descargar(), esperado, "{:?} {:?}", a, b);
    }
    assert_eq!(numero_o_uno(None), 1);
    assert_eq!(numero_o_uno(Some(0)), 0);
}

#[test]
fn download_end_is_told() {
    let mut app = app();
    app.pulsar_descargar();
    app.terminar_descarga(Fin::Hecho(ResultadoDescarga {
        comunicaciones_procesadas: 7,
        total_comunicaciones: 10,
    }));
    assert!(app.botones_estan_habilitados());
    assert_eq!(
        app.obtener_estado(),
        EstadoApp::Finalizado("7 de 10 comunicaciones procesadas".to_string())
    );
    app.pulsar_descargar();
    app.terminar_descarga(Fin::Fallo("se cayó".to_string()));
    assert_eq!(app.obtener_estado(), EstadoApp::Error("se cayó".to_string()));
    app.pulsar_descargar();
    app.terminar_descarga(Fin::SinConfiguracion);
    assert_eq!(app.obtener_estado(), EstadoApp::Error("Configuración no disponible".to_string()));
    assert!(app.botones_estan_habilitados());
}

#[test]
fn move_end_is_told() {
    let mut app = app();
    app.pulsar_mover();
    assert_eq!(app.obtener_estado(), EstadoApp::Procesando("Moviendo archivos...".to_string()));
    assert!(!app.botones_estan_habilitados());
    app.terminar_mover(Fin::Hecho(ResultadoMover { archivos_movidos: 12, archivos_eliminados: 5 }));
    assert_eq!(app.obtener_estado(), EstadoApp::Finalizado("7 movidos, 5 eliminados".to_string()));
    assert!(app.botones_estan_habilitados());
    app.terminar_mover(Fin::Hecho(ResultadoMover { archivos_movidos: 1, archivos_eliminados: 3 }));
    assert_eq!(app.obtener_estado(), EstadoApp::Finalizado("0 movidos, 3 eliminados".to_string()));
    app.terminar_mover(Fin::Fallo("x".to_string()));
    assert_eq!(app.obtener_estado(), EstadoApp::Error("x".to_string()));
}

#[test]
fn tasks_without_configuration_leave_the_state() {
    let mut app = AutoSadeApp::new(Err(ErrorConfig::SinCredenciales));
    app.pulsar_mover();
    app.terminar_mover(Fin::SinConfiguracion);
    assert_eq!(app.obtener_estado(), EstadoApp::Procesando("Moviendo archivos...".to_string()));
    assert!(app.botones_estan_habilitados());
    app.pulsar_procesar();
    app.terminar_procesar(Fin::SinConfiguracion);
    assert_eq!(app.obtener_estado(), EstadoApp::Procesando("Procesando PDFs...".to_string()));
    assert!(app.botones_estan_habilitados());
}

#[test]
fn reading_end_is_told() {
    let mut app = app();
    app.pulsar_procesar();
    app.terminar_procesar(Fin::Hecho(0));
    assert_eq!(app.obtener_estado(), EstadoApp::Finalizado("0 archivos procesados".to_string()));
    app.terminar_procesar(Fin::Hecho(1234));
    assert_eq!(app.obtener_estado(), EstadoApp::Finalizado("1234 archivos procesados".to_string()));
    app.terminar_procesar(Fin::Fallo(mensaje_guardar("disco lleno")));
    assert_eq!(
        app.obtener_estado(),
        EstadoApp::Error("Error al guardar Excel: disco lleno".to_string())
    );
}
