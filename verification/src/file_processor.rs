//! Which downloaded files are documents to keep, and which of those come
//! from bodies whose documents are not wanted.

use vstd::prelude::*;
use crate::patterns;

verus! {

/// How many files were moved and how many were deleted.
#[derive(Clone, Copy, Debug, PartialEq, Eq, Structural)]
pub struct ResultadoMover {
    pub archivos_movidos: usize,
    pub archivos_eliminados: usize,
}

/// Why the files could not be told apart.
#[derive(Clone, Copy, Debug, PartialEq, Eq, Structural)]
pub enum ErrorArchivos {
    /// The pattern of the files to move is not a regular expression.
    PatronMover,
    /// The pattern of the files to delete is not a regular expression.
    PatronEliminar,
}

/// The pattern of the names of documents: the letters NO, a year of four
/// digits, a number, the letters GCABA and the sending body, with hyphens
/// between them, and the extension of the documents.
pub open spec fn spec_patron_mover() -> Seq<char> {
    "^NO-\\d{4}-\\d+-GCABA-[A-Za-z0-9]+\\.pdf$"@
}

/// The pattern of the names of documents that come from one of the bodies
/// whose documents are not wanted.
pub open spec fn spec_patron_eliminar() -> Seq<char> {
    "^NO-\\d{4}-\\d+-GCABA-(DGSOCAI|DGCG|MGEYA|UAIMHF|DGADCYP|EAIT|DGTES|OGEPU|PG|DGAIGA)\\.pdf$"@
}

/// The pattern of the names of documents.
pub fn patron_mover() -> (patron: &'static str)
    ensures
        patron@ == spec_patron_mover(),
{
    "^NO-\\d{4}-\\d+-GCABA-[A-Za-z0-9]+\\.pdf$"
}

/// The pattern of the names of documents that are not wanted.
pub fn patron_eliminar() -> (patron: &'static str)
    ensures
        patron@ == spec_patron_eliminar(),
{
    "^NO-\\d{4}-\\d+-GCABA-(DGSOCAI|DGCG|MGEYA|UAIMHF|DGADCYP|EAIT|DGTES|OGEPU|PG|DGAIGA)\\.pdf$"
}

/// The names, in their order, for which the test of the same place says
/// that the pattern matches.
pub open spec fn spec_elegidos(nombres: Seq<String>, coincide: Seq<Option<bool>>) -> Seq<Seq<char>>
    decreases nombres.len(),
{
    if nombres.len() == 0 || coincide.len() != nombres.len() {
        Seq::empty()
    } else if coincide.last() == Some(true) {
        spec_elegidos(nombres.drop_last(), coincide.drop_last()).push(nombres.last()@)
    } else {
        spec_elegidos(nombres.drop_last(), coincide.drop_last())
    }
}

/// What the pattern says of each name, in the order of the names.
pub open spec fn spec_coincidencias(patron: Seq<char>, nombres: Seq<String>) -> Seq<Option<bool>> {
    Seq::new(nombres.len(), |i: int| patterns::spec_is_match(patron, nombres[i]@))
}

/// The names, in their order, that the pattern matches.
pub open spec fn spec_seleccion(patron: Seq<char>, nombres: Seq<String>) -> Seq<Seq<char>> {
    spec_elegidos(nombres, spec_coincidencias(patron, nombres))
}

/// The texts of a sequence of strings.
pub open spec fn spec_textos(nombres: Seq<String>) -> Seq<Seq<char>> {
    nombres.map_values(|nombre: String| nombre@)
}

/// The names for which the test of the same place says that the pattern
/// matches, in the order given. A test that could not be made counts as no
/// match; if there are not as many tests as names, no name is chosen.
pub fn elegir(nombres: &Vec<String>, coincide: &Vec<Option<bool>>) -> (elegidos: Vec<String>)
    ensures
        spec_textos(elegidos@) == spec_elegidos(nombres@, coincide@),
{
    let mut elegidos: Vec<String> = Vec::new();
    let mut i: usize = 0;
    assert(spec_textos(elegidos@) =~= Seq::<Seq<char>>::empty());
    if nombres.len() != coincide.len() {
        return elegidos;
    }
    while i < nombres.len()
        invariant
            i <= nombres.len(),
            nombres@.len() == coincide@.len(),
            spec_textos(elegidos@) == spec_elegidos(
                nombres@.subrange(0, i as int),
                coincide@.subrange(0, i as int),
            ),
        decreases nombres.len() - i,
    {
        assert(nombres@.subrange(0, i + 1).drop_last() =~= nombres@.subrange(0, i as int));
        assert(coincide@.subrange(0, i + 1).drop_last() =~= coincide@.subrange(0, i as int));
        if let Some(true) = coincide[i] {
            let ghost antes = elegidos@;
            elegidos.push(nombres[i].clone());
            assert(spec_textos(elegidos@) =~= spec_textos(antes).push(nombres@[i as int]@));
        }
        i += 1;
    }
    assert(nombres@.subrange(0, nombres.len() as int) =~= nombres@);
    assert(coincide@.subrange(0, coincide.len() as int) =~= coincide@);
    elegidos
}

fn seleccionar(patron: &str, nombres: &Vec<String>) -> (elegidos: Vec<String>)
    ensures
        spec_textos(elegidos@) == spec_seleccion(patron@, nombres@),
{
    let mut coincide: Vec<Option<bool>> = Vec::new();
    let mut i: usize = 0;
    while i < nombres.len()
        invariant
            i <= nombres.len(),
            coincide@.len() == i,
            forall|j: int|
                0 <= j < i ==> coincide@[j] == patterns::spec_is_match(patron@, nombres@[j]@),
        decreases nombres.len() - i,
    {
        coincide.push(patterns::is_match(patron, nombres[i].as_str()));
        i += 1;
    }
    assert(coincide@ =~= spec_coincidencias(patron@, nombres@));
    elegir(nombres, &coincide)
}

/// The files to move, among those of the download directory: the ones
/// named as documents are, in the order given. Both patterns are tried
/// first, the one of the files to move before the one of the files to
/// delete: nothing is moved unless both are regular expressions.
pub fn mover_archivos(nombres: &Vec<String>) -> (elegidos: Result<Vec<String>, ErrorArchivos>)
    ensures
        elegidos is Ok <==> patterns::spec_accepts(spec_patron_mover()) && patterns::spec_accepts(
            spec_patron_eliminar(),
        ),
        elegidos matches Ok(e) ==> spec_textos(e@) == spec_seleccion(
            spec_patron_mover(),
            nombres@,
        ),
        elegidos matches Err(e) ==> e == (if patterns::spec_accepts(spec_patron_mover()) {
            ErrorArchivos::PatronEliminar
        } else {
            ErrorArchivos::PatronMover
        }),
{
    if !patterns::accepts(patron_mover()) {
        return Err(ErrorArchivos::PatronMover);
    }
    if !patterns::accepts(patron_eliminar()) {
        return Err(ErrorArchivos::PatronEliminar);
    }
    Ok(seleccionar(patron_mover(), nombres))
}

/// The files to delete, among those of the directory of the documents: the
/// ones named as documents of a body that is not wanted, in the order
/// given.
pub fn archivos_a_eliminar(nombres: &Vec<String>) -> (elegidos: Result<Vec<String>, ErrorArchivos>)
    ensures
        elegidos is Ok <==> patterns::spec_accepts(spec_patron_eliminar()),
        elegidos matches Ok(e) ==> spec_textos(e@) == spec_seleccion(
            spec_patron_eliminar(),
            nombres@,
        ),
        elegidos matches Err(e) ==> e == ErrorArchivos::PatronEliminar,
{
    if !patterns::accepts(patron_eliminar()) {
        return Err(ErrorArchivos::PatronEliminar);
    }
    Ok(seleccionar(patron_eliminar(), nombres))
}

/// One more than `n`, as far as the machine can count.
pub open spec fn spec_uno_mas(n: usize) -> usize {
    if n < usize::MAX {
        (n + 1) as usize
    } else {
        n
    }
}

impl ResultadoMover {
    /// Books a file as moved.
    pub fn registrar_movido(&mut self)
        ensures
            final(self).archivos_movidos == spec_uno_mas(old(self).archivos_movidos),
            final(self).archivos_eliminados == old(self).archivos_eliminados,
    {
        if self.archivos_movidos < usize::MAX {
            self.archivos_movidos = self.archivos_movidos + 1;
        }
    }

    /// Books a file as deleted.
    pub fn registrar_eliminado(&mut self)
        ensures
            final(self).archivos_eliminados == spec_uno_mas(old(self).archivos_eliminados),
            final(self).archivos_movidos == old(self).archivos_movidos,
    {
        if self.archivos_eliminados < usize::MAX {
            self.archivos_eliminados = self.archivos_eliminados + 1;
        }
    }

    /// The files that were moved and then kept: those moved less those
    /// deleted, and none if more were deleted than moved.
    pub fn neto(&self) -> (quedan: usize)
        ensures
            quedan == (if self.archivos_movidos >= self.archivos_eliminados {
                self.archivos_movidos - self.archivos_eliminados
            } else {
                0
            }),
    {
        if self.archivos_movidos >= self.archivos_eliminados {
            self.archivos_movidos - self.archivos_eliminados
        } else {
            0
        }
    }
}

impl Default for ResultadoMover {
    fn default() -> (nada: ResultadoMover)
        ensures
            nada == (ResultadoMover { archivos_movidos: 0, archivos_eliminados: 0 }),
    {
        ResultadoMover { archivos_movidos: 0, archivos_eliminados: 0 }
    }
}

} // verus!
