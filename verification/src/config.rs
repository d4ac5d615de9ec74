//! Configuration: where the documents live, and the portal accounts by the
//! keys under which the users pick them.

use vstd::prelude::*;
use crate::text::same_text;

verus! {

/// An account of the portal.
#[derive(Clone, Debug)]
pub struct Credenciales {
    pub usuario: String,
    pub password: String,
}

/// An account together with the key that selects it.
#[derive(Clone, Debug)]
pub struct Usuario {
    pub clave: String,
    pub credenciales: Credenciales,
}

/// The application's configuration. The accounts are kept in the order in
/// which they were registered.
#[derive(Clone, Debug)]
pub struct Config {
    pub ruta_archivos: String,
    pub ruta_excel: String,
    pub usuarios: Vec<Usuario>,
}

/// What the environment holds of the accounts: for each of the two users a
/// name and a password, each of which may be missing.
#[derive(Clone, Debug)]
pub struct Entorno {
    pub usuario_erica: Option<String>,
    pub password_erica: Option<String>,
    pub usuario_cecilia: Option<String>,
    pub password_cecilia: Option<String>,
}

/// Why no configuration could be made.
#[derive(Clone, Copy, Debug, PartialEq, Eq, Structural)]
pub enum ErrorConfig {
    /// The environment holds no complete account.
    SinCredenciales,
}

/// Name of the workbook that the report is written to, in the directory of
/// the documents.
pub fn nombre_excel() -> (nombre: &'static str)
    ensures
        nombre@ == "Listado RDP a copiar.xlsx"@,
{
    "Listado RDP a copiar.xlsx"
}

/// Key of the first user's account.
pub open spec fn clave_erica() -> Seq<char> {
    "1"@
}

/// Key of the second user's account.
pub open spec fn clave_cecilia() -> Seq<char> {
    "2"@
}

/// Whether the account at `i` is the first under the key `clave`.
pub open spec fn spec_es_primera(usuarios: Seq<Usuario>, clave: Seq<char>, i: int) -> bool {
    &&& 0 <= i < usuarios.len()
    &&& usuarios[i].clave@ == clave
    &&& forall|j: int| 0 <= j < i ==> (#[trigger] usuarios[j]).clave@ != clave
}

/// Whether some account stands under the key `clave`.
pub open spec fn spec_tiene(usuarios: Seq<Usuario>, clave: Seq<char>) -> bool {
    exists|i: int| 0 <= i < usuarios.len() && (#[trigger] usuarios[i]).clave@ == clave
}

/// Whether an account is complete in the environment.
pub open spec fn spec_completa(usuario: Option<String>, password: Option<String>) -> bool {
    usuario is Some && password is Some
}

/// Whether `u` is the account with the given key, name and password.
pub open spec fn spec_es_usuario(u: Usuario, clave: Seq<char>, usuario: String, password: String)
    -> bool {
    u.clave@ == clave && u.credenciales.usuario@ == usuario@ && u.credenciales.password@
        == password@
}

/// The accounts that a configuration made from `entorno` holds: the first
/// user's, if complete, then the second user's, if complete.
pub open spec fn spec_usuarios_de(usuarios: Seq<Usuario>, entorno: Entorno) -> bool {
    let erica = spec_completa(entorno.usuario_erica, entorno.password_erica);
    let cecilia = spec_completa(entorno.usuario_cecilia, entorno.password_cecilia);
    &&& usuarios.len() == (if erica { 1int } else { 0int }) + (if cecilia { 1int } else { 0int })
    &&& erica ==> spec_es_usuario(
        usuarios[0],
        clave_erica(),
        entorno.usuario_erica->0,
        entorno.password_erica->0,
    )
    &&& cecilia ==> spec_es_usuario(
        usuarios[usuarios.len() - 1],
        clave_cecilia(),
        entorno.usuario_cecilia->0,
        entorno.password_cecilia->0,
    )
}

impl Config {
    /// No key selects more than one account.
    pub open spec fn wf(&self) -> bool {
        forall|i: int, j: int|
            0 <= i < j < self.usuarios@.len() ==> (#[trigger] self.usuarios@[i]).clave@ != (
            #[trigger] self.usuarios@[j]).clave@
    }

    /// A configuration without accounts.
    pub fn new(ruta_archivos: String, ruta_excel: String) -> (config: Config)
        ensures
            config.ruta_archivos == ruta_archivos,
            config.ruta_excel == ruta_excel,
            config.usuarios@.len() == 0,
            config.wf(),
    {
        Config { ruta_archivos, ruta_excel, usuarios: Vec::new() }
    }

    /// Makes the configuration from the two paths and from what the
    /// environment holds. An account is registered when both its name and
    /// its password are there. Without any account there is no
    /// configuration.
    pub fn from_env(ruta_archivos: String, ruta_excel: String, entorno: Entorno) -> (made: Result<
        Config,
        ErrorConfig,
    >)
        ensures
            made is Err <==> !spec_completa(entorno.usuario_erica, entorno.password_erica)
                && !spec_completa(entorno.usuario_cecilia, entorno.password_cecilia),
            made matches Ok(config) ==> {
                &&& config.ruta_archivos == ruta_archivos
                &&& config.ruta_excel == ruta_excel
                &&& spec_usuarios_de(config.usuarios@, entorno)
                &&& config.wf()
            },
    {
        let mut usuarios: Vec<Usuario> = Vec::new();
        if let (Some(usuario), Some(password)) = (entorno.usuario_erica, entorno.password_erica) {
            usuarios.push(
                Usuario {
                    clave: String::from_str("1"),
                    credenciales: Credenciales { usuario, password },
                },
            );
        }
        if let (Some(usuario), Some(password)) = (entorno.usuario_cecilia, entorno.password_cecilia) {
            usuarios.push(
                Usuario {
                    clave: String::from_str("2"),
                    credenciales: Credenciales { usuario, password },
                },
            );
        }
        if usuarios.len() == 0 {
            return Err(ErrorConfig::SinCredenciales);
        }
        proof {
            reveal_strlit("1");
            reveal_strlit("2");
            assert("1"@ != "2"@) by {
                assert("1"@[0] != "2"@[0]);
            }
        }
        Ok(Config { ruta_archivos, ruta_excel, usuarios })
    }

    /// The account that the key `usuario_id` selects: the first one
    /// registered under that key, or nothing if there is none.
    pub fn get_credenciales(&self, usuario_id: &str) -> (found: Option<&Credenciales>)
        ensures
            found is Some <==> spec_tiene(self.usuarios@, usuario_id@),
            found matches Some(c) ==> exists|i: int|
                spec_es_primera(self.usuarios@, usuario_id@, i) && *c
                    == self.usuarios@[i].credenciales,
    {
        let mut i: usize = 0;
        while i < self.usuarios.len()
            invariant
                i <= self.usuarios.len(),
                forall|j: int| 0 <= j < i ==> (#[trigger] self.usuarios@[j]).clave@ != usuario_id@,
            decreases self.usuarios.len() - i,
        {
            if same_text(self.usuarios[i].clave.as_str(), usuario_id) {
                assert(spec_es_primera(self.usuarios@, usuario_id@, i as int));
                return Some(&self.usuarios[i].credenciales);
            }
            i += 1;
        }
        None
    }
}

} // verus!
