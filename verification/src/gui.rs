//! The state that the window shows, and what the presses of its buttons
//! and the ends of its tasks make of it.

use vstd::prelude::*;
use crate::config::{Config, ErrorConfig};
use crate::file_processor::ResultadoMover;
use crate::text::{decimal, parse_u32, spec_decimal, spec_parse_u32};
use crate::web_automation::ResultadoDescarga;

verus! {

/// What the application is doing.
#[derive(Clone, Debug, PartialEq)]
pub enum EstadoApp {
    Listo,
    Procesando(String),
    Finalizado(String),
    Error(String),
}

/// What an `EstadoApp` says, with its message as a sequence of characters.
pub enum EstadoVista {
    Listo,
    Procesando(Seq<char>),
    Finalizado(Seq<char>),
    Error(Seq<char>),
}

impl View for EstadoApp {
    type V = EstadoVista;

    open spec fn view(&self) -> EstadoVista {
        match self {
            EstadoApp::Listo => EstadoVista::Listo,
            EstadoApp::Procesando(m) => EstadoVista::Procesando(m@),
            EstadoApp::Finalizado(m) => EstadoVista::Finalizado(m@),
            EstadoApp::Error(m) => EstadoVista::Error(m@),
        }
    }
}

/// The application: its configuration, if it has one, what the user has
/// typed, what it is doing, and whether its buttons can be pressed.
#[derive(Clone, Debug)]
pub struct AutoSadeApp {
    pub config: Option<Config>,
    pub usuario: String,
    pub comunicacion_inicio: String,
    pub comunicacion_final: String,
    pub estado: EstadoApp,
    pub botones_habilitados: bool,
}

/// What the window shows for a state: the word for being ready, or the
/// state's message.
pub open spec fn spec_texto(estado: EstadoVista) -> Seq<char> {
    match estado {
        EstadoVista::Listo => "Listo"@,
        EstadoVista::Procesando(m) => m,
        EstadoVista::Finalizado(m) => m,
        EstadoVista::Error(m) => m,
    }
}

/// The message of a failure to configure.
pub open spec fn spec_mensaje_config(error: ErrorConfig) -> Seq<char> {
    "Error de configuración: No se encontraron credenciales de usuario en el archivo .env"@
}

/// The message of a download that ended with a summary.
pub open spec fn spec_mensaje_descarga(resultado: ResultadoDescarga) -> Seq<char> {
    spec_decimal(resultado.comunicaciones_procesadas as nat) + " de "@ + spec_decimal(
        resultado.total_comunicaciones as nat,
    ) + " comunicaciones procesadas"@
}

/// The files that were moved and kept.
pub open spec fn spec_neto(resultado: ResultadoMover) -> nat {
    if resultado.archivos_movidos >= resultado.archivos_eliminados {
        (resultado.archivos_movidos - resultado.archivos_eliminados) as nat
    } else {
        0
    }
}

/// The message of a move of files that ended well.
pub open spec fn spec_mensaje_mover(resultado: ResultadoMover) -> Seq<char> {
    spec_decimal(spec_neto(resultado)) + " movidos, "@ + spec_decimal(
        resultado.archivos_eliminados as nat,
    ) + " eliminados"@
}

/// The message of a reading of documents that ended well.
pub open spec fn spec_mensaje_procesados(archivos: usize) -> Seq<char> {
    spec_decimal(archivos as nat) + " archivos procesados"@
}

/// The message of a report that could not be written.
pub open spec fn spec_mensaje_guardar(error: Seq<char>) -> Seq<char> {
    "Error al guardar Excel: "@ + error
}

/// The number that a field holds, or one where it holds none.
pub open spec fn spec_numero_o_uno(leido: Option<u32>) -> u32 {
    match leido {
        Some(n) => n,
        None => 1,
    }
}

/// The number that a reading of a field gave, or one where it gave none.
pub fn numero_o_uno(leido: Option<u32>) -> (n: u32)
    ensures
        n == spec_numero_o_uno(leido),
{
    match leido {
        Some(n) => n,
        None => 1,
    }
}

/// How a task of the window ended: with a result, with an error and its
/// message, or not at all because there is no configuration.
#[derive(Clone, Debug)]
pub enum Fin<T> {
    Hecho(T),
    Fallo(String),
    SinConfiguracion,
}

impl AutoSadeApp {
    /// The application as it starts: ready if there is a configuration,
    /// else in error. Nothing is typed yet and the buttons can be pressed.
    pub fn new(config: Result<Config, ErrorConfig>) -> (app: AutoSadeApp)
        ensures
            app.usuario@.len() == 0,
            app.comunicacion_inicio@.len() == 0,
            app.comunicacion_final@.len() == 0,
            app.botones_habilitados,
            config matches Ok(c) ==> app.config == Some(c) && app.estado@ is Listo,
            config matches Err(e) ==> app.config is None && app.estado@ == EstadoVista::Error(
                spec_mensaje_config(e),
            ),
    {
        let (config, estado) = match config {
            Ok(c) => (Some(c), EstadoApp::Listo),
            Err(_) => (
                None,
                EstadoApp::Error(
                    String::from_str(
                        "Error de configuración: No se encontraron credenciales de usuario en el archivo .env",
                    ),
                ),
            ),
        };
        AutoSadeApp {
            config,
            usuario: String::new(),
            comunicacion_inicio: String::new(),
            comunicacion_final: String::new(),
            estado,
            botones_habilitados: true,
        }
    }

    /// Puts the application in a new state.
    pub fn actualizar_estado(&mut self, nuevo_estado: EstadoApp)
        ensures
            final(self).estado == nuevo_estado,
            final(self).botones_habilitados == old(self).botones_habilitados,
            final(self).config == old(self).config,
            final(self).usuario == old(self).usuario,
            final(self).comunicacion_inicio == old(self).comunicacion_inicio,
            final(self).comunicacion_final == old(self).comunicacion_final,
    {
        self.estado = nuevo_estado;
    }

    /// Lets the buttons be pressed or not.
    pub fn habilitar_botones(&mut self, habilitado: bool)
        ensures
            final(self).botones_habilitados == habilitado,
            final(self).estado == old(self).estado,
            final(self).config == old(self).config,
            final(self).usuario == old(self).usuario,
            final(self).comunicacion_inicio == old(self).comunicacion_inicio,
            final(self).comunicacion_final == old(self).comunicacion_final,
    {
        self.botones_habilitados = habilitado;
    }

    /// Whether the buttons can be pressed.
    pub fn botones_estan_habilitados(&self) -> (habilitados: bool)
        ensures
            habilitados == self.botones_habilitados,
    {
        self.botones_habilitados
    }

    /// What the application is doing.
    pub fn obtener_estado(&self) -> (estado: EstadoApp)
        ensures
            estado@ == self.estado@,
    {
        match &self.estado {
            EstadoApp::Listo => EstadoApp::Listo,
            EstadoApp::Procesando(m) => EstadoApp::Procesando(m.clone()),
            EstadoApp::Finalizado(m) => EstadoApp::Finalizado(m.clone()),
            EstadoApp::Error(m) => EstadoApp::Error(m.clone()),
        }
    }

    /// Whether a task is under way, so that the window has to be drawn
    /// again and again.
    pub fn esta_procesando(&self) -> (procesando: bool)
        ensures
            procesando == (self.estado@ is Procesando),
    {
        match &self.estado {
            EstadoApp::Procesando(_) => true,
            _ => false,
        }
    }

    /// What the window shows of the state.
    pub fn texto_estado(&self) -> (texto: String)
        ensures
            texto@ == spec_texto(self.estado@),
    {
        match &self.estado {
            EstadoApp::Listo => String::from_str("Listo"),
            EstadoApp::Procesando(m) => m.clone(),
            EstadoApp::Finalizado(m) => m.clone(),
            EstadoApp::Error(m) => m.clone(),
        }
    }

    fn comenzar(&mut self, mensaje: &str)
        ensures
            !final(self).botones_habilitados,
            final(self).estado@ == EstadoVista::Procesando(mensaje@),
            final(self).config == old(self).config,
            final(self).usuario == old(self).usuario,
            final(self).comunicacion_inicio == old(self).comunicacion_inicio,
            final(self).comunicacion_final == old(self).comunicacion_final,
    {
        self.botones_habilitados = false;
        self.estado = EstadoApp::Procesando(String::from_str(mensaje));
    }

    /// The download button was pressed: the buttons are locked, the state
    /// tells of the download, and the range to download is what the two
    /// fields hold, each read as a number, or as one where it holds none.
    pub fn pulsar_descargar(&mut self) -> (rango: (u32, u32))
        ensures
            rango.0 == spec_numero_o_uno(spec_parse_u32(old(self).comunicacion_inicio@)),
            rango.1 == spec_numero_o_uno(spec_parse_u32(old(self).comunicacion_final@)),
            !final(self).botones_habilitados,
            final(self).estado@ == EstadoVista::Procesando("Descargando comunicaciones..."@),
            final(self).config == old(self).config,
            final(self).usuario == old(self).usuario,
    {
        self.comenzar("Descargando comunicaciones...");
        let inicio = numero_o_uno(parse_u32(self.comunicacion_inicio.as_str()));
        let final_ = numero_o_uno(parse_u32(self.comunicacion_final.as_str()));
        (inicio, final_)
    }

    /// The button that moves the files was pressed.
    pub fn pulsar_mover(&mut self)
        ensures
            !final(self).botones_habilitados,
            final(self).estado@ == EstadoVista::Procesando("Moviendo archivos..."@),
            final(self).config == old(self).config,
    {
        self.comenzar("Moviendo archivos...");
    }

    /// The button that reads the documents was pressed.
    pub fn pulsar_procesar(&mut self)
        ensures
            !final(self).botones_habilitados,
            final(self).estado@ == EstadoVista::Procesando("Procesando PDFs..."@),
            final(self).config == old(self).config,
    {
        self.comenzar("Procesando PDFs...");
    }

    /// A download ended: the buttons are free again, and the state tells
    /// how many communications were processed, or the error. Without a
    /// configuration the error says so.
    pub fn terminar_descarga(&mut self, fin: Fin<ResultadoDescarga>)
        ensures
            final(self).botones_habilitados,
            final(self).config == old(self).config,
            final(self).estado@ == (match fin {
                Fin::Hecho(r) => EstadoVista::Finalizado(spec_mensaje_descarga(r)),
                Fin::Fallo(e) => EstadoVista::Error(e@),
                Fin::SinConfiguracion => EstadoVista::Error("Configuración no disponible"@),
            }),
    {
        self.estado = match fin {
            Fin::Hecho(r) => EstadoApp::Finalizado(
                decimal(r.comunicaciones_procesadas as u128).concat(" de ").concat(
                    decimal(r.total_comunicaciones as u128).as_str(),
                ).concat(" comunicaciones procesadas"),
            ),
            Fin::Fallo(e) => EstadoApp::Error(e),
            Fin::SinConfiguracion => EstadoApp::Error(
                String::from_str("Configuración no disponible"),
            ),
        };
        self.botones_habilitados = true;
    }

    /// A move of files ended: the buttons are free again, and the state
    /// tells how many files were moved and kept and how many deleted, or
    /// the error. Without a configuration the state stays as it is.
    pub fn terminar_mover(&mut self, fin: Fin<ResultadoMover>)
        ensures
            final(self).botones_habilitados,
            final(self).config == old(self).config,
            final(self).estado@ == (match fin {
                Fin::Hecho(r) => EstadoVista::Finalizado(spec_mensaje_mover(r)),
                Fin::Fallo(e) => EstadoVista::Error(e@),
                Fin::SinConfiguracion => old(self).estado@,
            }),
    {
        match fin {
            Fin::Hecho(r) => {
                self.estado = EstadoApp::Finalizado(
                    decimal(r.neto() as u128).concat(" movidos, ").concat(
                        decimal(r.archivos_eliminados as u128).as_str(),
                    ).concat(" eliminados"),
                );
            },
            Fin::Fallo(e) => {
                self.estado = EstadoApp::Error(e);
            },
            Fin::SinConfiguracion => {},
        }
        self.botones_habilitados = true;
    }

    /// A reading of the documents ended: the buttons are free again, and
    /// the state tells how many documents were read, or the error. Without
    /// a configuration the state stays as it is.
    pub fn terminar_procesar(&mut self, fin: Fin<usize>)
        ensures
            final(self).botones_habilitados,
            final(self).config == old(self).config,
            final(self).estado@ == (match fin {
                Fin::Hecho(n) => EstadoVista::Finalizado(spec_mensaje_procesados(n)),
                Fin::Fallo(e) => EstadoVista::Error(e@),
                Fin::SinConfiguracion => old(self).estado@,
            }),
    {
        match fin {
            Fin::Hecho(n) => {
                self.estado = EstadoApp::Finalizado(
                    decimal(n as u128).concat(" archivos procesados"),
                );
            },
            Fin::Fallo(e) => {
                self.estado = EstadoApp::Error(e);
            },
            Fin::SinConfiguracion => {},
        }
        self.botones_habilitados = true;
    }
}

/// The message of a report that could not be written.
pub fn mensaje_guardar(error: &str) -> (mensaje: String)
    ensures
        mensaje@ == spec_mensaje_guardar(error@),
{
    String::from_str("Error al guardar Excel: ").concat(error)
}

} // verus!
