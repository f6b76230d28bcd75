//! O que se calcula ao ler e gravar linhas do banco.

use vstd::prelude::*;

use crate::datas::{leitura_chrono, FORMATO_BANCO};
use crate::dominio::{DataHora, Movimentacao, PerfilUsuario, TipoMovimentacao, Usuario};

verus! {

/// Monta uma movimentação lida do banco: o tipo vem do texto gravado e a
/// data do texto no formato do banco (ilegível, vira 1º de janeiro de 1970).
pub fn movimentacao_da_linha(
    id: i64,
    tipo: &str,
    quantidade: i64,
    data_hora: &str,
    motivo: String,
    produto_id: i64,
    produto_nome: String,
    usuario_id: i64,
    usuario_nome: String,
) -> (r: Movimentacao)
    ensures
        r.id == id,
        r.tipo == TipoMovimentacao::de_texto(tipo@),
        r.quantidade == quantidade,
        r.data_hora == match leitura_chrono(data_hora@, FORMATO_BANCO@) {
            Some(d) => d,
            None => DataHora::epoca(),
        },
        r.motivo == motivo,
        r.produto_id == produto_id,
        r.produto_nome == produto_nome,
        r.usuario_id == usuario_id,
        r.usuario_nome == usuario_nome,
{
    Movimentacao {
        id,
        tipo: TipoMovimentacao::from_str(tipo),
        quantidade,
        data_hora: DataHora::do_banco(data_hora),
        motivo,
        produto_id,
        produto_nome,
        usuario_id,
        usuario_nome,
    }
}

/// Monta um usuário lido do banco; o perfil vem do texto gravado.
pub fn usuario_da_linha(id: i64, nome: String, login: String, senha_hash: String, perfil: &str) -> (r:
    Usuario)
    ensures
        r.id == id,
        r.nome == nome,
        r.login == login,
        r.senha_hash == senha_hash,
        r.perfil == PerfilUsuario::de_texto(perfil@),
{
    Usuario { id, nome, login, senha_hash, perfil: PerfilUsuario::from_str(perfil) }
}

} // verus!
