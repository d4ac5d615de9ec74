use auto_sade::config::{nombre_excel, Config, Entorno, ErrorConfig};

fn entorno(
    ue: Option<&str>,
    pe: Option<&str>,
    uc: Option<&str>,
    pc: Option<&str>,
) -> Entorno {
    Entorno {
        usuario_erica: ue.map(str::to_string),
        password_erica: pe.map(str::to_string),
        usuario_cecilia: uc.map(str::to_string),
        password_cecilia: pc.map(str::to_string),
    }
}

#[test]
fn both_accounts_are_registered_under_their_keys() {
    let config = Config::from_env(
        "dir".to_string(),
        "dir/x.xlsx".to_string(),
        entorno(Some("erica"), Some("s1"), Some("cecilia"), Some("s2")),
    )
    .unwrap();
    assert_eq!(config.ruta_archivos, "dir");
    assert_eq!(config.ruta_excel, "dir/x.xlsx");
    assert_eq!(config.usuarios.len(), 2);
    let uno = config.get_credenciales("1").unwrap();
    assert_eq!((uno.usuario.as_str(), uno.password.as_str()), ("erica", "s1"));
    let dos = config.get_credenciales("2").unwrap();
    assert_eq!((dos.usuario.as_str(), dos.password.as_str()), ("cecilia", "s2"));
    assert!(config.get_credenciales("3").is_none());
    assert!(config.get_credenciales("").is_none());
    assert!(config.get_credenciales("11").is_none());
}

#[test]
fn incomplete_account_is_not_registered() {
    let config = Config::from_env(
        String::new(),
        String::new(),
        entorno(Some("erica"), None, Some("cecilia"), Some("s2")),
    )
    .unwrap();
    assert_eq!(config.usuarios.len(), 1);
    assert!(config.get_credenciales("1").is_none());
    assert_eq!(config.get_credenciales("2").unwrap().usuario, "cecilia");
    let config = Config::from_env(
        String::new(),
        String::new(),
        entorno(Some("erica"), Some("s1"), None, Some("s2")),
    )
    .unwrap();
    assert_eq!(config.usuarios.len(), 1);
    assert_eq!(config.get_credenciales("1").unwrap().password, "s1");
    assert!(config.get_credenciales("2").is_none());
}

#[test]
fn no_complete_account_is_an_error() {
    for e in [
        entorno(None, None, None, None),
        entorno(Some("a"), None, None, Some("b")),
        entorno(None, Some("a"), Some("b"), None),
    ] {
        let made = Config::from_env(String::new(), String::new(), e);
        assert!(matches!(made, Err(ErrorConfig::SinCredenciales)));
    }
}

#[test]
fn empty_configuration_has_no_accounts() {
    let config = Config::new("a".to_string(), "b".to_string());
    assert!(config.usuarios.is_empty());
    assert!(config.get_credenciales("1").is_none());
}

#[test]
fn report_name() {
    assert_eq!(nombre_excel(), "Listado RDP a copiar.xlsx");
}
