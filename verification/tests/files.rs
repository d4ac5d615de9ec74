use auto_sade::file_processor::{
    archivos_a_eliminar, elegir, mover_archivos, patron_eliminar, patron_mover, ResultadoMover,
};

fn nombres(ns: &[&str]) -> Vec<String> {
    ns.iter().map(|n| n.to_string()).collect()
}

#[test]
fn documents_are_chosen_to_move() {
    let listado = nombres(&[
        "NO-2024-12345-GCABA-DGCG.pdf",
        "informe.pdf",
        "NO-2024-1-GCABA-abc123.pdf",
        "NO-24-1-GCABA-DGCG.pdf",
        "NO-2024-1-GCABA-DGCG.pdf.crdownload",
        "NO-2024--GCABA-DGCG.pdf",
        "xNO-2024-1-GCABA-DGCG.pdf",
        "NO-2024-1-GCABA-DG_CG.pdf",
        "NO-2024-7-GCABA-PG.pdf",
    ]);
    assert_eq!(
        mover_archivos(&listado),
        Ok(nombres(&[
            "NO-2024-12345-GCABA-DGCG.pdf",
            "NO-2024-1-GCABA-abc123.pdf",
            "NO-2024-7-GCABA-PG.pdf",
        ]))
    );
    assert_eq!(mover_archivos(&Vec::new()), Ok(Vec::new()));
}

#[test]
fn documents_of_unwanted_bodies_are_chosen_to_delete() {
    let listado = nombres(&[
        "NO-2024-1-GCABA-DGCG.pdf",
        "NO-2024-2-GCABA-DGCGX.pdf",
        "NO-2024-3-GCABA-PG.pdf",
        "NO-2024-4-GCABA-DGAIGA.pdf",
        "NO-2024-5-GCABA-SSGAE.pdf",
        "NO-2024-6-GCABA-dgcg.pdf",
        "NO-2024-7-GCABA-MGEYA.pdf",
    ]);
    assert_eq!(
        archivos_a_eliminar(&listado),
        Ok(nombres(&[
            "NO-2024-1-GCABA-DGCG.pdf",
            "NO-2024-3-GCABA-PG.pdf",
            "NO-2024-4-GCABA-DGAIGA.pdf",
            "NO-2024-7-GCABA-MGEYA.pdf",
        ]))
    );
}

#[test]
fn patterns_are_anchored() {
    assert!(patron_mover().starts_with('^') && patron_mover().ends_with('$'));
    assert!(patron_eliminar().starts_with('^') && patron_eliminar().ends_with('$'));
}

#[test]
fn counts_are_booked() {
    let mut r = ResultadoMover::default();
    assert_eq!(r, ResultadoMover { archivos_movidos: 0, archivos_eliminados: 0 });
    r.registrar_movido();
    r.registrar_movido();
    r.registrar_movido();
    r.registrar_eliminado();
    assert_eq!(r, ResultadoMover { archivos_movidos: 3, archivos_eliminados: 1 });
    assert_eq!(r.neto(), 2);
}

#[test]
fn net_count_is_never_negative() {
    let r = ResultadoMover { archivos_movidos: 1, archivos_eliminados: 4 };
    assert_eq!(r.neto(), 0);
}

#[test]
fn counts_stop_at_the_largest_number() {
    let mut r = ResultadoMover { archivos_movidos: usize::MAX, archivos_eliminados: usize::MAX };
    r.registrar_movido();
    r.registrar_eliminado();
    assert_eq!(r.archivos_movidos, usize::MAX);
    assert_eq!(r.archivos_eliminados, usize::MAX);
}

#[test]
fn names_are_chosen_by_their_tests() {
    let listado = nombres(&["a", "b", "c", "d"]);
    assert_eq!(
        elegir(&listado, &vec![Some(true), Some(false), None, Some(true)]),
        nombres(&["a", "d"])
    );
    assert_eq!(elegir(&listado, &vec![None, None, None, None]), Vec::<String>::new());
    assert_eq!(elegir(&Vec::new(), &Vec::new()), Vec::<String>::new());
}
