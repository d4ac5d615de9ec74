//! The report: one sheet with a heading row and one row per document.

use vstd::prelude::*;
use chrono::NaiveDate;
use crate::pdf_extractor::{DatosPdf, Fecha};

verus! {

/// Days from the first calendar date to the second, each given as year,
/// month and day; nothing if one of them is no date of the calendar.
pub uninterp spec fn spec_dias_entre(
    anio_desde: i32,
    mes_desde: u32,
    dia_desde: u32,
    anio_hasta: i32,
    mes_hasta: u32,
    dia_hasta: u32,
) -> Option<i64>;

/// Makes both dates with `NaiveDate::from_ymd_opt` and counts the days
/// between them with `NaiveDate::signed_duration_since` and
/// `TimeDelta::num_days`. The result depends on the six numbers alone and
/// is given the name `spec_dias_entre`.
#[verifier::external_body]
fn dias_entre(
    anio_desde: i32,
    mes_desde: u32,
    dia_desde: u32,
    anio_hasta: i32,
    mes_hasta: u32,
    dia_hasta: u32,
) -> (dias: Option<i64>)
    ensures
        dias == spec_dias_entre(anio_desde, mes_desde, dia_desde, anio_hasta, mes_hasta, dia_hasta),
{
    let desde = NaiveDate::from_ymd_opt(anio_desde, mes_desde, dia_desde);
    let hasta = NaiveDate::from_ymd_opt(anio_hasta, mes_hasta, dia_hasta);
    match (desde, hasta) {
        (Some(desde), Some(hasta)) => Some(hasta.signed_duration_since(desde).num_days()),
        _ => None,
    }
}

/// The number under which a spreadsheet keeps a date: the days since the
/// thirtieth of December of 1899.
pub open spec fn spec_serial(fecha: Fecha) -> Option<i64> {
    spec_dias_entre(1899, 12, 30, fecha.anio, fecha.mes, fecha.dia)
}

/// The number under which a spreadsheet keeps the date; nothing if the
/// date is none of the calendar.
pub fn fecha_a_excel_serial(fecha: &Fecha) -> (serial: Option<i64>)
    ensures
        serial == spec_serial(*fecha),
{
    dias_entre(1899, 12, 30, fecha.anio, fecha.mes, fecha.dia)
}

/// A cell of the sheet.
#[derive(Clone, Debug)]
pub enum Celda {
    /// A text.
    Texto(String),
    /// A date, as the number under which a spreadsheet keeps it.
    Fecha(i64),
}

/// Columns of the sheet.
pub const COLUMNAS: usize = 5;

/// Name of the sheet.
pub fn nombre_hoja() -> (nombre: &'static str)
    ensures
        nombre@ == "CCOO revisar"@,
{
    "CCOO revisar"
}

/// The format in which the dates of the sheet are shown.
pub fn formato_fecha() -> (formato: &'static str)
    ensures
        formato@ == "dd/mm/yyyy"@,
{
    "dd/mm/yyyy"
}

/// Whether a cell holds the given text.
pub open spec fn spec_es_texto(celda: Celda, texto: Seq<char>) -> bool {
    celda matches Celda::Texto(t) && t@ == texto
}

/// Whether a row is the heading row.
pub open spec fn spec_es_encabezado(fila: Seq<Celda>) -> bool {
    &&& fila.len() == COLUMNAS
    &&& spec_es_texto(fila[0], "CCOO N°"@)
    &&& spec_es_texto(fila[1], "ORGANISMO"@)
    &&& spec_es_texto(fila[2], "Institucional Patrimonial"@)
    &&& spec_es_texto(fila[3], "Fecha"@)
    &&& spec_es_texto(fila[4], "RESULTADO INVENTARIO FISICO"@)
}

/// Whether a cell shows the date of a document: the date's number, or the
/// empty text where the document has no date of the calendar.
pub open spec fn spec_es_fecha(celda: Celda, fecha: Option<Fecha>) -> bool {
    match fecha {
        Some(f) => match spec_serial(f) {
            Some(serial) => celda == Celda::Fecha(serial),
            None => spec_es_texto(celda, Seq::empty()),
        },
        None => spec_es_texto(celda, Seq::empty()),
    }
}

/// Whether a row is the row of the document.
pub open spec fn spec_es_fila(fila: Seq<Celda>, dato: DatosPdf) -> bool {
    &&& fila.len() == COLUMNAS
    &&& spec_es_texto(fila[0], dato.ccoo@)
    &&& spec_es_texto(fila[1], dato.organismo@)
    &&& spec_es_texto(fila[2], dato.patrimonial@)
    &&& spec_es_fecha(fila[3], dato.fecha)
    &&& spec_es_texto(fila[4], dato.resultado@)
}

fn encabezado() -> (fila: Vec<Celda>)
    ensures
        spec_es_encabezado(fila@),
{
    vec![
        Celda::Texto(String::from_str("CCOO N°")),
        Celda::Texto(String::from_str("ORGANISMO")),
        Celda::Texto(String::from_str("Institucional Patrimonial")),
        Celda::Texto(String::from_str("Fecha")),
        Celda::Texto(String::from_str("RESULTADO INVENTARIO FISICO")),
    ]
}

fn fila_de(dato: &DatosPdf) -> (fila: Vec<Celda>)
    ensures
        spec_es_fila(fila@, *dato),
{
    let fecha = match dato.fecha {
        Some(f) => match fecha_a_excel_serial(&f) {
            Some(serial) => Celda::Fecha(serial),
            None => Celda::Texto(String::new()),
        },
        None => Celda::Texto(String::new()),
    };
    vec![
        Celda::Texto(dato.ccoo.clone()),
        Celda::Texto(dato.organismo.clone()),
        Celda::Texto(dato.patrimonial.clone()),
        fecha,
        Celda::Texto(dato.resultado.clone()),
    ]
}

/// The rows of the sheet for the given documents: the heading row, then one
/// row for each document, in their order.
pub fn guardar_excel(datos: &Vec<DatosPdf>) -> (filas: Vec<Vec<Celda>>)
    ensures
        filas@.len() == datos@.len() + 1,
        spec_es_encabezado(filas@[0]@),
        forall|i: int| 0 <= i < datos@.len() ==> spec_es_fila(#[trigger] filas@[i + 1]@, datos@[i]),
{
    let mut filas: Vec<Vec<Celda>> = Vec::new();
    filas.push(encabezado());
    let mut i: usize = 0;
    while i < datos.len()
        invariant
            i <= datos.len(),
            filas@.len() == i + 1,
            spec_es_encabezado(filas@[0]@),
            forall|j: int| 0 <= j < i ==> spec_es_fila(#[trigger] filas@[j + 1]@, datos@[j]),
        decreases datos.len() - i,
    {
        filas.push(fila_de(&datos[i]));
        i += 1;
    }
    filas
}

/// The name under which the report is written when a file of its name is
/// there already: the name's stem, an underscore, the time of writing, a
/// dot and the name's extension.
pub open spec fn spec_nombre_alternativo(
    base: Seq<char>,
    marca_tiempo: Seq<char>,
    extension: Seq<char>,
) -> Seq<char> {
    base + seq!['_'] + marca_tiempo + seq!['.'] + extension
}

/// The name under which the report is written when a file of its name is
/// there already.
pub fn nombre_alternativo(base: &str, marca_tiempo: &str, extension: &str) -> (nombre: String)
    ensures
        nombre@ == spec_nombre_alternativo(base@, marca_tiempo@, extension@),
{
    proof {
        reveal_strlit("_");
        reveal_strlit(".");
        assert("_"@ =~= seq!['_']);
        assert("."@ =~= seq!['.']);
    }
    String::from_str(base).concat("_").concat(marca_tiempo).concat(".").concat(extension)
}

} // verus!
