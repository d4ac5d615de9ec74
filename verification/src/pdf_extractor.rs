//! What is read off a downloaded document: the body that sent it, its
//! patrimonial code, its date and the result of the inventory it reports.

use vstd::prelude::*;
use vstd::utf8::{decode_utf8, encode_utf8, valid_utf8};
use chrono::{Datelike, NaiveDateTime};
use crate::patterns;
use crate::text::{
    ends_with, find, first_line, from_chars, same_text, slice, spec_before, spec_ends_with,
    spec_first_line, spec_starts_with, spec_without, starts_with, to_chars, without,
};

verus! {

/// The characters that stand for `bytes` read as Latin-1: each byte is the
/// character with its number.
pub open spec fn spec_latin1(bytes: Seq<u8>) -> Seq<char> {
    Seq::new(bytes.len(), |i: int| bytes[i] as char)
}

/// The text that `bytes` hold: what they encode in UTF-8 if they are valid
/// UTF-8, else what they stand for in Latin-1.
pub open spec fn spec_decodificar(bytes: Seq<u8>) -> Seq<char> {
    if valid_utf8(bytes) {
        decode_utf8(bytes)
    } else {
        spec_latin1(bytes)
    }
}

/// Reads `bytes` as UTF-8 through `std::str::from_utf8`, which succeeds
/// exactly on valid UTF-8 and then gives the text that the bytes encode.
#[verifier::external_body]
fn from_utf8(bytes: &[u8]) -> (text: Option<String>)
    ensures
        text is Some <==> valid_utf8(bytes@),
        text matches Some(t) ==> encode_utf8(t@) == bytes@,
{
    match std::str::from_utf8(bytes) {
        Ok(text) => Some(text.to_string()),
        Err(_) => None,
    }
}

/// Decodes the bytes of a text from a document: as UTF-8 where they are
/// valid UTF-8, else as Latin-1.
pub fn decodificar_texto_pdf(bytes: &[u8]) -> (texto: String)
    ensures
        texto@ == spec_decodificar(bytes@),
{
    if let Some(texto) = from_utf8(bytes) {
        proof {
            vstd::utf8::encode_utf8_decode_utf8(texto@);
        }
        return texto;
    }
    let mut chars: Vec<char> = Vec::new();
    let mut i: usize = 0;
    while i < bytes.len()
        invariant
            i <= bytes.len(),
            chars@ == spec_latin1(bytes@.subrange(0, i as int)),
        decreases bytes.len() - i,
    {
        chars.push(bytes[i] as char);
        assert(chars@ =~= spec_latin1(bytes@.subrange(0, i + 1)));
        i += 1;
    }
    assert(bytes@.subrange(0, bytes.len() as int) =~= bytes@);
    from_chars(&chars)
}

/// The regular expression of a patrimonial code: digits in groups of one,
/// two, one, one, three to five, one and one, with dots between them.
pub open spec fn spec_patron_patrimonial() -> Seq<char> {
    "\\d\\.\\d{2}\\.\\d\\.\\d\\.\\d{3,5}\\.\\d\\.\\d"@
}

/// The patrimonial code that a search for it gave, if the search was made
/// and found one.
pub open spec fn spec_patrimonial_de(hallazgo: Option<Option<Seq<char>>>) -> Option<Seq<char>> {
    match hallazgo {
        Some(Some(codigo)) => Some(codigo),
        _ => None,
    }
}

/// What a search for the patrimonial code amounts to: the code found, or
/// nothing where none was found or the search could not be made.
pub fn patrimonial_de(hallazgo: Option<Option<String>>) -> (codigo: Option<String>)
    ensures
        codigo is Some <==> (hallazgo matches Some(Some(_))),
        codigo matches Some(c) ==> c == hallazgo->0->0,
{
    match hallazgo {
        Some(Some(codigo)) => Some(codigo),
        _ => None,
    }
}

/// The first patrimonial code in the text, if it holds one.
pub fn extraer_patrimonial(texto: &str) -> (codigo: Option<String>)
    ensures
        codigo is Some <==> spec_patrimonial_de(
            patterns::spec_find(spec_patron_patrimonial(), texto@),
        ) is Some,
        codigo matches Some(c) ==> c@ == spec_patrimonial_de(
            patterns::spec_find(spec_patron_patrimonial(), texto@),
        )->0,
{
    patrimonial_de(patterns::find("\\d\\.\\d{2}\\.\\d\\.\\d\\.\\d{3,5}\\.\\d\\.\\d", texto))
}

/// The phrases, written without spaces and in any case, by which a report
/// says that the inventory brought nothing new.
pub open spec fn spec_patrones_sin_novedad() -> Seq<Seq<char>> {
    seq![
        "(?i)sinnovedad"@,
        "(?i)sinnovedades"@,
        "(?i)encuentransincambio"@,
        "(?i)encuentrasincambio"@,
        "(?i)noexistennovedad"@,
        "(?i)nosurgennovedades"@,
        "(?i)nopresentanovedad"@,
        "(?i)EXCEDENTESNIFALTANTESANOTIFICAR"@,
        "(?i)noexistediferenciaentreloobranteenelSigaf"@,
        "(?i)nohabiéndoseenprincipioverificadodiferencias"@,
        "(?i)nohabiendoseenprincipioverificadodiferencias"@,
        "(?i)seencuentraninventariadoscomobienesmuebles"@,
        "(?i)noposeebienesasignadosporelSIGAFWEB"@,
        "(?i)noseregistrannovedad"@,
        "(?i)noregistra\"excedentes\"ni\"faltantes\""@,
        "(?i)noregistraexcedentesnifaltantes"@,
        "(?i)Sinnovedadesalrespecto"@,
        "(?i)Hasidoverificadayseencuentracorrecta"@,
        "(?i)sinencontrarnovedades"@,
        "(?i)sinvariaciones"@,
        "(?i)SINNOVEDA"@,
        "(?i)noregistranovedad"@,
        "(?i)nohubonovedad"@,
        "(?i)SinExcedentesySinFaltantes"@,
        "(?i)NosehanlocalizadobienesExcedentesy/oFaltantes"@,
        "(?i)S/NOVEDAD"@,
        "(?i)nohaynovedad"@,
        "(?i)nosehanverificadonovedades"@,
        "(?i)novedadalguna"@,
        "(?i)nohahabidonovedades"@,
        "(?i)noposeesaldosenbienesprecarios"@,
        "(?i)sinvariacion"@,
        "(?i)noseregistraronnovedades"@,
        "(?i)sinmodificacion"@,
        "(?i)noregistramovimientos"@,
        "(?i)notienenovedad"@,
        "(?i)nohabiéndoseencontradodiferencias"@,
        "(?i)noarrojanovedad"@,
        "(?i)notuvonovedad"@,
    ]
}

/// The phrases by which a report says that the inventory brought nothing
/// new, as regular expressions.
pub fn patrones_sin_novedad() -> (patrones: Vec<&'static str>)
    ensures
        patrones@.len() == spec_patrones_sin_novedad().len(),
        forall|i: int|
            0 <= i < patrones@.len() ==> (#[trigger] patrones@[i])@
                == spec_patrones_sin_novedad()[i],
{
    vec![
        "(?i)sinnovedad",
        "(?i)sinnovedades",
        "(?i)encuentransincambio",
        "(?i)encuentrasincambio",
        "(?i)noexistennovedad",
        "(?i)nosurgennovedades",
        "(?i)nopresentanovedad",
        "(?i)EXCEDENTESNIFALTANTESANOTIFICAR",
        "(?i)noexistediferenciaentreloobranteenelSigaf",
        "(?i)nohabiéndoseenprincipioverificadodiferencias",
        "(?i)nohabiendoseenprincipioverificadodiferencias",
        "(?i)seencuentraninventariadoscomobienesmuebles",
        "(?i)noposeebienesasignadosporelSIGAFWEB",
        "(?i)noseregistrannovedad",
        "(?i)noregistra\"excedentes\"ni\"faltantes\"",
        "(?i)noregistraexcedentesnifaltantes",
        "(?i)Sinnovedadesalrespecto",
        "(?i)Hasidoverificadayseencuentracorrecta",
        "(?i)sinencontrarnovedades",
        "(?i)sinvariaciones",
        "(?i)SINNOVEDA",
        "(?i)noregistranovedad",
        "(?i)nohubonovedad",
        "(?i)SinExcedentesySinFaltantes",
        "(?i)NosehanlocalizadobienesExcedentesy/oFaltantes",
        "(?i)S/NOVEDAD",
        "(?i)nohaynovedad",
        "(?i)nosehanverificadonovedades",
        "(?i)novedadalguna",
        "(?i)nohahabidonovedades",
        "(?i)noposeesaldosenbienesprecarios",
        "(?i)sinvariacion",
        "(?i)noseregistraronnovedades",
        "(?i)sinmodificacion",
        "(?i)noregistramovimientos",
        "(?i)notienenovedad",
        "(?i)nohabiéndoseencontradodiferencias",
        "(?i)noarrojanovedad",
        "(?i)notuvonovedad",
    ]
}

/// Whether one of the regular expressions matches somewhere in the text.
pub open spec fn spec_alguno_coincide(patrones: Seq<Seq<char>>, texto: Seq<char>) -> bool {
    exists|i: int|
        0 <= i < patrones.len() && patterns::spec_is_match(#[trigger] patrones[i], texto) == Some(
            true,
        )
}

/// The result of the inventory, given whether the report says that it
/// brought nothing new.
pub open spec fn spec_resultado_de(sin_novedad: bool) -> Seq<char> {
    if sin_novedad {
        "Sin novedad"@
    } else {
        "Con novedades (ver)"@
    }
}

/// The result of the inventory, given whether the report says that it
/// brought nothing new.
pub fn resultado_de(sin_novedad: bool) -> (resultado: String)
    ensures
        resultado@ == spec_resultado_de(sin_novedad),
{
    if sin_novedad {
        String::from_str("Sin novedad")
    } else {
        String::from_str("Con novedades (ver)")
    }
}

/// The result of the inventory that the text of a report tells: nothing
/// new if, once its spaces are taken out, one of the known phrases occurs
/// in it; else something new, to be looked at. A phrase that is not
/// accepted as a regular expression is passed over.
pub fn extraer_resultado(texto: &str) -> (resultado: String)
    ensures
        resultado@ == spec_resultado_de(
            spec_alguno_coincide(spec_patrones_sin_novedad(), spec_without(texto@, ' ')),
        ),
{
    let texto_sin_espacios = without(texto, ' ');
    let patrones = patrones_sin_novedad();
    let mut i: usize = 0;
    while i < patrones.len()
        invariant
            i <= patrones.len(),
            texto_sin_espacios@ == spec_without(texto@, ' '),
            patrones@.len() == spec_patrones_sin_novedad().len(),
            forall|j: int|
                0 <= j < patrones@.len() ==> (#[trigger] patrones@[j])@
                    == spec_patrones_sin_novedad()[j],
            forall|j: int|
                0 <= j < i ==> patterns::spec_is_match(
                    #[trigger] spec_patrones_sin_novedad()[j],
                    texto_sin_espacios@,
                ) != Some(true),
        decreases patrones.len() - i,
    {
        let found = patterns::is_match(patrones[i], texto_sin_espacios.as_str());
        assert(patrones@[i as int]@ == spec_patrones_sin_novedad()[i as int]);
        if let Some(true) = found {
            return resultado_de(true);
        }
        i += 1;
    }
    resultado_de(false)
}

/// A calendar date.
#[derive(Clone, Copy, Debug, PartialEq, Eq, Structural)]
pub struct Fecha {
    pub anio: i32,
    pub mes: u32,
    pub dia: u32,
}

/// Year, month and day of the date and time that `texto` spells as
/// fourteen digits or so in the order year, month, day, hour, minute,
/// second, as `chrono` reads them; nothing if it does not read them so.
pub uninterp spec fn spec_fecha_hora(texto: Seq<char>) -> Option<(i32, u32, u32)>;

/// Reads a date and time with `NaiveDateTime::parse_from_str` under the
/// format `%Y%m%d%H%M%S` and hands back the year, month and day of its
/// date. The result depends on the text alone and is given the name
/// `spec_fecha_hora`.
#[verifier::external_body]
fn parse_fecha_hora(texto: &str) -> (fecha: Option<(i32, u32, u32)>)
    ensures
        fecha == spec_fecha_hora(texto@),
{
    match NaiveDateTime::parse_from_str(texto, "%Y%m%d%H%M%S") {
        Ok(leida) => Some((leida.date().year(), leida.date().month(), leida.date().day())),
        Err(_) => None,
    }
}

/// The date of a document without the mark `D:` that may precede it.
pub open spec fn spec_sin_marca(fecha_pdf: Seq<char>) -> Seq<char> {
    if spec_starts_with(fecha_pdf, seq!['D', ':']) {
        fecha_pdf.subrange(2, fecha_pdf.len() as int)
    } else {
        fecha_pdf
    }
}

/// The date and time of a document without mark and without time zone:
/// what stands before the first `-` and before the first `+`.
pub open spec fn spec_fecha_limpia(fecha_pdf: Seq<char>) -> Seq<char> {
    spec_before(spec_before(spec_sin_marca(fecha_pdf), '-'), '+')
}

/// Bytes that a date and time takes at least.
pub const LARGO_FECHA: usize = 14;

/// The date that a reading of a text of `largo` bytes gave, if the text is
/// long enough to hold a date and time.
pub open spec fn spec_fecha_de(largo: usize, leida: Option<(i32, u32, u32)>) -> Option<Fecha> {
    if largo < LARGO_FECHA {
        None
    } else {
        match leida {
            Some((anio, mes, dia)) => Some(Fecha { anio, mes, dia }),
            None => None,
        }
    }
}

/// The length of a text in bytes, as the machine counts the bytes of its
/// UTF-8 encoding.
pub open spec fn spec_largo(texto: Seq<char>) -> usize {
    encode_utf8(texto).len() as usize
}

/// The date that a reading of a text of `largo` bytes gave: nothing if the
/// text is too short to hold a date and time, whatever the reading gave.
pub fn fecha_de(largo: usize, leida: Option<(i32, u32, u32)>) -> (fecha: Option<Fecha>)
    ensures
        fecha == spec_fecha_de(largo, leida),
{
    if largo < LARGO_FECHA {
        return None;
    }
    match leida {
        Some((anio, mes, dia)) => Some(Fecha { anio, mes, dia }),
        None => None,
    }
}

/// The date that the date and time of a document names: the mark `D:` and
/// the time zone are taken off, and what is left is read as year, month,
/// day, hour, minute and second. Nothing if less than fourteen bytes are
/// left or they do not read so.
pub fn convertir_fecha_pdf(fecha_pdf: &str) -> (fecha: Option<Fecha>)
    ensures
        fecha == spec_fecha_de(
            spec_largo(spec_fecha_limpia(fecha_pdf@)),
            spec_fecha_hora(spec_fecha_limpia(fecha_pdf@)),
        ),
{
    let chars = to_chars(fecha_pdf);
    let marca = vec!['D', ':'];
    assert(marca@ =~= seq!['D', ':']);
    let sin_marca = if starts_with(&chars, &marca) {
        slice(&chars, 2, chars.len())
    } else {
        chars
    };
    let hasta_menos = slice(&sin_marca, 0, find(&sin_marca, '-'));
    let hasta_mas = slice(&hasta_menos, 0, find(&hasta_menos, '+'));
    let limpia = from_chars(&hasta_mas);
    let largo = limpia.as_str().len();
    if largo < LARGO_FECHA {
        return fecha_de(largo, None);
    }
    fecha_de(largo, parse_fecha_hora(limpia.as_str()))
}

/// A value of a document's dictionary, as far as it can hold text.
#[derive(Clone, Debug)]
pub enum ValorPdf {
    /// A name.
    Nombre(String),
    /// A string, as the bytes that the document holds.
    Cadena(Vec<u8>),
    /// Anything else.
    Otro,
}

/// An annotation of a document: its title and its value, where it has them.
#[derive(Clone, Debug)]
pub struct Anotacion {
    pub titulo: Option<ValorPdf>,
    pub valor: Option<ValorPdf>,
}

/// The text that a value holds, if it holds text.
pub open spec fn spec_texto_de(valor: Option<ValorPdf>) -> Option<Seq<char>> {
    match valor {
        Some(ValorPdf::Nombre(nombre)) => Some(nombre@),
        Some(ValorPdf::Cadena(bytes)) => Some(spec_decodificar(bytes@)),
        _ => None,
    }
}

/// Title of the annotation that names the sending body.
pub open spec fn spec_titulo_reparticion() -> Seq<char> {
    "reparticion_0"@
}

/// The name of the body that the annotation gives: the first line of its
/// value, if it is titled as the annotation of the sending body, its value
/// holds text and the first line of that text is not empty.
pub open spec fn spec_organismo_de(anotacion: Anotacion) -> Option<Seq<char>> {
    if spec_texto_de(anotacion.titulo) == Some(spec_titulo_reparticion()) {
        match spec_texto_de(anotacion.valor) {
            Some(texto) => if spec_first_line(texto).len() > 0 {
                Some(spec_first_line(texto))
            } else {
                None
            },
            None => None,
        }
    } else {
        None
    }
}

/// The name that the first annotation that gives one gives; the empty text
/// if none does.
pub open spec fn spec_organismo(anotaciones: Seq<Anotacion>) -> Seq<char>
    decreases anotaciones.len(),
{
    if anotaciones.len() == 0 {
        Seq::empty()
    } else {
        match spec_organismo_de(anotaciones[0]) {
            Some(nombre) => nombre,
            None => spec_organismo(anotaciones.drop_first()),
        }
    }
}

fn texto_de(valor: &Option<ValorPdf>) -> (texto: Option<String>)
    ensures
        texto is Some <==> spec_texto_de(*valor) is Some,
        texto matches Some(t) ==> t@ == spec_texto_de(*valor)->0,
{
    match valor {
        Some(ValorPdf::Nombre(nombre)) => Some(nombre.clone()),
        Some(ValorPdf::Cadena(bytes)) => Some(decodificar_texto_pdf(bytes.as_slice())),
        _ => None,
    }
}

fn organismo_de(anotacion: &Anotacion) -> (nombre: Option<String>)
    ensures
        nombre is Some <==> spec_organismo_de(*anotacion) is Some,
        nombre matches Some(n) ==> n@ == spec_organismo_de(*anotacion)->0,
{
    match texto_de(&anotacion.titulo) {
        Some(titulo) => {
            if !same_text(titulo.as_str(), "reparticion_0") {
                return None;
            }
        },
        None => {
            return None;
        },
    }
    match texto_de(&anotacion.valor) {
        Some(texto) => {
            let linea = first_line(texto.as_str());
            if linea.as_str().is_empty() {
                None
            } else {
                Some(linea)
            }
        },
        None => None,
    }
}

/// The body that sent a document, read off its annotations, which come in
/// the order of its pages: the first line of the value of the first
/// annotation that is titled `reparticion_0` and gives a line that is not
/// empty. The empty text if there is no such annotation.
pub fn extraer_organismo(anotaciones: &Vec<Anotacion>) -> (organismo: String)
    ensures
        organismo@ == spec_organismo(anotaciones@),
{
    let mut i: usize = 0;
    assert(anotaciones@.subrange(0, anotaciones.len() as int) =~= anotaciones@);
    while i < anotaciones.len()
        invariant
            i <= anotaciones.len(),
            spec_organismo(anotaciones@) == spec_organismo(
                anotaciones@.subrange(i as int, anotaciones.len() as int),
            ),
        decreases anotaciones.len() - i,
    {
        let ghost resto = anotaciones@.subrange(i as int, anotaciones.len() as int);
        assert(resto[0] == anotaciones@[i as int]);
        assert(resto.drop_first() =~= anotaciones@.subrange(i + 1, anotaciones.len() as int));
        if let Some(nombre) = organismo_de(&anotaciones[i]) {
            return nombre;
        }
        i += 1;
    }
    String::new()
}

/// Whether a character is a control character: one of the first thirty-two
/// characters, or one from the delete character to the last of the second
/// block of controls.
pub open spec fn spec_es_control(c: char) -> bool {
    c as u32 <= 0x1F || 0x7F <= c as u32 <= 0x9F
}

/// The text of a document on one line: each line feed becomes a space, and
/// the other control characters are taken out.
pub open spec fn spec_limpiar(texto: Seq<char>) -> Seq<char>
    decreases texto.len(),
{
    if texto.len() == 0 {
        Seq::empty()
    } else if texto.last() == '\n' {
        spec_limpiar(texto.drop_last()).push(' ')
    } else if spec_es_control(texto.last()) {
        spec_limpiar(texto.drop_last())
    } else {
        spec_limpiar(texto.drop_last()).push(texto.last())
    }
}

/// Tests whether a character is a control character.
pub fn es_control(c: char) -> (control: bool)
    ensures
        control == spec_es_control(c),
{
    let codigo = c as u32;
    codigo <= 0x1F || (0x7F <= codigo && codigo <= 0x9F)
}

/// Puts the text of a document on one line, without control characters.
pub fn limpiar_texto(texto: &str) -> (limpio: String)
    ensures
        limpio@ == spec_limpiar(texto@),
{
    let chars = to_chars(texto);
    let mut limpio: Vec<char> = Vec::new();
    let mut i: usize = 0;
    while i < chars.len()
        invariant
            i <= chars.len(),
            limpio@ == spec_limpiar(chars@.subrange(0, i as int)),
        decreases chars.len() - i,
    {
        assert(chars@.subrange(0, i + 1).drop_last() =~= chars@.subrange(0, i as int));
        if chars[i] == '\n' {
            limpio.push(' ');
        } else if !es_control(chars[i]) {
            limpio.push(chars[i]);
        }
        i += 1;
    }
    assert(chars@.subrange(0, chars.len() as int) =~= chars@);
    from_chars(&limpio)
}

/// What was read off one document.
#[derive(Clone, Debug)]
pub struct DatosPdf {
    pub ccoo: String,
    pub organismo: String,
    pub patrimonial: String,
    pub fecha: Option<Fecha>,
    pub resultado: String,
}

/// Where a document goes once it has been read.
#[derive(Clone, Copy, Debug, PartialEq, Eq, Structural)]
pub enum Destino {
    /// Nothing new: the document is done with.
    Procesados,
    /// Something new: the document is to be looked at.
    Revisar,
}

/// The extension of the documents, with its dot.
pub open spec fn spec_extension_pdf() -> Seq<char> {
    seq!['.', 'p', 'd', 'f']
}

/// A file name is that of a document when it ends with the extension of
/// the documents and something stands before the extension's dot.
pub open spec fn spec_es_pdf(nombre: Seq<char>) -> bool {
    spec_ends_with(nombre, spec_extension_pdf()) && nombre.len() > spec_extension_pdf().len()
}

/// The number of the communication that a document holds: the name of its
/// file without the extension.
pub open spec fn spec_ccoo_de(nombre: Seq<char>) -> Seq<char> {
    if spec_es_pdf(nombre) {
        nombre.subrange(0, nombre.len() - spec_extension_pdf().len())
    } else {
        nombre
    }
}

/// Tests whether a file name is that of a document.
pub fn es_pdf(nombre: &str) -> (es: bool)
    ensures
        es == spec_es_pdf(nombre@),
{
    let chars = to_chars(nombre);
    let extension = vec!['.', 'p', 'd', 'f'];
    assert(extension@ =~= spec_extension_pdf());
    ends_with(&chars, &extension) && chars.len() > extension.len()
}

/// The number of the communication that the document with the given file
/// name holds. A name that is not that of a document is handed back whole.
pub fn ccoo_de(nombre: &str) -> (ccoo: String)
    ensures
        ccoo@ == spec_ccoo_de(nombre@),
{
    let chars = to_chars(nombre);
    let extension = vec!['.', 'p', 'd', 'f'];
    assert(extension@ =~= spec_extension_pdf());
    if ends_with(&chars, &extension) && chars.len() > extension.len() {
        from_chars(&slice(&chars, 0, chars.len() - extension.len()))
    } else {
        from_chars(&chars)
    }
}

/// Where a document with the given result goes.
pub open spec fn spec_destino_de(resultado: Seq<char>) -> Destino {
    if resultado == "Sin novedad"@ {
        Destino::Procesados
    } else {
        Destino::Revisar
    }
}

/// Where a document with the given result goes: among those done with if
/// the inventory brought nothing new, else among those to look at.
pub fn destino_de(resultado: &str) -> (destino: Destino)
    ensures
        destino == spec_destino_de(resultado@),
{
    if same_text(resultado, "Sin novedad") {
        Destino::Procesados
    } else {
        Destino::Revisar
    }
}

/// Name of the directory of a destination.
pub fn carpeta_de(destino: Destino) -> (carpeta: &'static str)
    ensures
        carpeta@ == (match destino {
            Destino::Procesados => "Procesados"@,
            Destino::Revisar => "Revisar"@,
        }),
{
    match destino {
        Destino::Procesados => "Procesados",
        Destino::Revisar => "Revisar",
    }
}

/// The date that the modification date of a document names, if the
/// document has one and it names a date.
pub open spec fn spec_fecha_modificacion(fecha_mod: Option<Vec<u8>>) -> Option<Fecha> {
    match fecha_mod {
        Some(bytes) => {
            let limpia = spec_fecha_limpia(spec_decodificar(bytes@));
            spec_fecha_de(spec_largo(limpia), spec_fecha_hora(limpia))
        },
        None => None,
    }
}

/// The patrimonial code of a text, or the empty text if it holds none.
pub open spec fn spec_patrimonial_o_vacio(texto: Seq<char>) -> Seq<char> {
    match spec_patrimonial_de(patterns::spec_find(spec_patron_patrimonial(), texto)) {
        Some(codigo) => codigo,
        None => Seq::empty(),
    }
}

/// Reads one document: `nombre` is the name of its file, `texto_extraido`
/// the text of its pages, `fecha_mod` its modification date as the
/// document holds it, `anotaciones` its annotations in the order of its
/// pages. Hands back what was read, and where the document goes.
pub fn procesar_pdf(
    nombre: &str,
    texto_extraido: &str,
    fecha_mod: &Option<Vec<u8>>,
    anotaciones: &Vec<Anotacion>,
) -> (leido: (DatosPdf, Destino))
    ensures
        leido.0.ccoo@ == spec_ccoo_de(nombre@),
        leido.0.organismo@ == spec_organismo(anotaciones@),
        leido.0.patrimonial@ == spec_patrimonial_o_vacio(spec_limpiar(texto_extraido@)),
        leido.0.fecha == spec_fecha_modificacion(*fecha_mod),
        leido.0.resultado@ == spec_resultado_de(
            spec_alguno_coincide(
                spec_patrones_sin_novedad(),
                spec_without(spec_limpiar(texto_extraido@), ' '),
            ),
        ),
        leido.1 == spec_destino_de(leido.0.resultado@),
{
    let texto = limpiar_texto(texto_extraido);
    let fecha = match fecha_mod {
        Some(bytes) => {
            let escrita = decodificar_texto_pdf(bytes.as_slice());
            convertir_fecha_pdf(escrita.as_str())
        },
        None => None,
    };
    let organismo = extraer_organismo(anotaciones);
    let patrimonial = match extraer_patrimonial(texto.as_str()) {
        Some(codigo) => codigo,
        None => String::new(),
    };
    let resultado = extraer_resultado(texto.as_str());
    let destino = destino_de(resultado.as_str());
    (DatosPdf { ccoo: ccoo_de(nombre), organismo, patrimonial, fecha, resultado }, destino)
}

} // verus!
