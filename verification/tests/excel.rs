use auto_sade::excel_handler::{
    fecha_a_excel_serial, formato_fecha, guardar_excel, nombre_alternativo, nombre_hoja, Celda,
    COLUMNAS,
};
use auto_sade::pdf_extractor::{DatosPdf, Fecha};

fn texto(c: &Celda) -> &str {
    match c {
        Celda::Texto(t) => t.as_str(),
        Celda::Fecha(_) => panic!("a date where a text was expected"),
    }
}

fn dato(ccoo: &str, fecha: Option<Fecha>) -> DatosPdf {
    DatosPdf {
        ccoo: ccoo.to_string(),
        organismo: "DGCG".to_string(),
        patrimonial: "1.23.4.5.678.9.0".to_string(),
        fecha,
        resultado: "Sin novedad".to_string(),
    }
}

#[test]
fn serial_numbers_of_dates() {
    assert_eq!(fecha_a_excel_serial(&Fecha { anio: 1899, mes: 12, dia: 30 }), Some(0));
    assert_eq!(fecha_a_excel_serial(&Fecha { anio: 1899, mes: 12, dia: 31 }), Some(1));
    assert_eq!(fecha_a_excel_serial(&Fecha { anio: 1900, mes: 3, dia: 1 }), Some(61));
    assert_eq!(fecha_a_excel_serial(&Fecha { anio: 2024, mes: 1, dia: 15 }), Some(45306));
    assert_eq!(fecha_a_excel_serial(&Fecha { anio: 1899, mes: 12, dia: 29 }), Some(-1));
}

#[test]
fn serial_number_of_no_date() {
    assert_eq!(fecha_a_excel_serial(&Fecha { anio: 2023, mes: 2, dia: 29 }), None);
    assert_eq!(fecha_a_excel_serial(&Fecha { anio: 2023, mes: 13, dia: 1 }), None);
    assert_eq!(fecha_a_excel_serial(&Fecha { anio: 2023, mes: 0, dia: 1 }), None);
}

#[test]
fn sheet_has_headings_and_one_row_per_document() {
    let datos = vec![
        dato("NO-1", Some(Fecha { anio: 2024, mes: 1, dia: 15 })),
        dato("NO-2", None),
        dato("NO-3", Some(Fecha { anio: 2024, mes: 2, dia: 30 })),
    ];
    let filas = guardar_excel(&datos);
    assert_eq!(filas.len(), 4);
    assert!(filas.iter().all(|f| f.len() == COLUMNAS));
    let encabezado: Vec<&str> = filas[0].iter().map(texto).collect();
    assert_eq!(
        encabezado,
        vec![
            "CCOO N°",
            "ORGANISMO",
            "Institucional Patrimonial",
            "Fecha",
            "RESULTADO INVENTARIO FISICO"
        ]
    );
    assert_eq!(texto(&filas[1][0]), "NO-1");
    assert_eq!(texto(&filas[1][1]), "DGCG");
    assert_eq!(texto(&filas[1][2]), "1.23.4.5.678.9.0");
    assert!(matches!(filas[1][3], Celda::Fecha(45306)));
    assert_eq!(texto(&filas[1][4]), "Sin novedad");
    assert_eq!(texto(&filas[2][0]), "NO-2");
    assert_eq!(texto(&filas[2][3]), "");
    assert_eq!(texto(&filas[3][0]), "NO-3");
    assert_eq!(texto(&filas[3][3]), "");
}

#[test]
fn empty_report_has_only_headings() {
    let filas = guardar_excel(&Vec::new());
    assert_eq!(filas.len(), 1);
    assert_eq!(texto(&filas[0][0]), "CCOO N°");
}

#[test]
fn alternative_name() {
    assert_eq!(
        nombre_alternativo("Listado RDP a copiar", "20240115_103000", "xlsx"),
        "Listado RDP a copiar_20240115_103000.xlsx"
    );
    assert_eq!(nombre_alternativo("", "", ""), "_.");
}

#[test]
fn sheet_name_and_date_format() {
    assert_eq!(nombre_hoja(), "CCOO revisar");
    assert_eq!(formato_fecha(), "dd/mm/yyyy");
}
