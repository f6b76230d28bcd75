//! Autenticação por login e senha.

use vstd::prelude::*;

use crate::dominio::Usuario;
use crate::senha::{hash_de, hash_senha};

verus! {

/// O usuário autenticado: o usuário encontrado pelo login, se o hash da
/// senha digitada for o hash guardado.
pub open spec fn spec_autenticar(encontrado: Option<Usuario>, senha: Seq<char>) -> Option<Usuario> {
    match encontrado {
        Some(u) => if u.senha_hash@ == hash_de(senha) {
            Some(u)
        } else {
            None
        },
        None => None,
    }
}

/// Confere a senha digitada contra o usuário que o login encontrou.
pub fn autenticar(encontrado: Option<Usuario>, senha: &str) -> (r: Option<Usuario>)
    ensures
        r == spec_autenticar(encontrado, senha@),
{
    let hash = hash_senha(senha);
    match encontrado {
        Some(u) => {
            if u.senha_hash == hash {
                Some(u)
            } else {
                None
            }
        },
        None => None,
    }
}

/// Um login que não existe nunca autentica; um que existe autentica
/// exatamente quando o hash da senha digitada é o hash guardado.
pub proof fn lei_autenticacao(encontrado: Option<Usuario>, senha: Seq<char>)
    ensures
        encontrado is None ==> spec_autenticar(encontrado, senha) is None,
        encontrado matches Some(u) ==> (spec_autenticar(encontrado, senha) == Some(u)
            <==> u.senha_hash@ == hash_de(senha)),
        spec_autenticar(encontrado, senha) matches Some(u) ==> encontrado == Some(u),
{
}

} // verus!
