//! Os dados iniciais do banco: o usuário administrador e os códigos de barras
//! dos produtos de exemplo.

use vstd::prelude::*;

use crate::dominio::{PerfilUsuario, Usuario};
use crate::senha::{hash_de, hash_senha};
use crate::texto::{
    com_zeros, digitos, escrever_com_zeros, lema_valor_digitos, valor_algarismos, zeros,
};

verus! {

/// O administrador criado num banco sem nenhuma dona: login `admin`, senha
/// `admin123`, perfil `Dona`.
pub fn administrador_padrao() -> (r: Usuario)
    ensures
        r.id == 0,
        r.nome@ == "Administradora"@,
        r.login@ == "admin"@,
        r.senha_hash@ == hash_de("admin123"@),
        r.perfil == PerfilUsuario::Dona,
{
    Usuario {
        id: 0,
        nome: String::from_str("Administradora"),
        login: String::from_str("admin"),
        senha_hash: hash_senha("admin123"),
        perfil: PerfilUsuario::Dona,
    }
}

/// O administrador só é criado quando não há nenhuma dona cadastrada.
pub fn precisa_administrador(quantidade_de_donas: i64) -> (r: bool)
    ensures
        r == (quantidade_de_donas == 0),
{
    quantidade_de_donas == 0
}

/// Os produtos de exemplo só são cadastrados num banco sem produtos.
pub fn precisa_exemplos(quantidade_de_produtos: i64) -> (r: bool)
    ensures
        r == (quantidade_de_produtos <= 0),
{
    quantidade_de_produtos <= 0
}

/// O código de barras do `i`-ésimo produto de exemplo (contando de 0):
/// `789` seguido de `i + 1` com dez algarismos.
pub open spec fn texto_codigo_exemplo(i: nat) -> Seq<char> {
    "789"@ + com_zeros(i + 1, 10)
}

/// Gera o código de barras do `i`-ésimo produto de exemplo.
pub fn codigo_de_barras_exemplo(i: u32) -> (r: String)
    ensures
        r@ == texto_codigo_exemplo(i as nat),
{
    let mut s = String::from_str("789");
    escrever_com_zeros(&mut s, (i as u64) + 1, 10);
    s
}

/// As categorias dos exemplos, na ordem em que foram inseridas: as doze
/// primeiras, ou nenhuma quando há menos de doze.
pub fn categorias_dos_exemplos(ids: &Vec<i64>) -> (r: Option<Vec<i64>>)
    ensures
        ids@.len() >= 12 ==> (r matches Some(v) && v@ == ids@.subrange(0, 12)),
        ids@.len() < 12 ==> r is None,
{
    if ids.len() < 12 {
        return None;
    }
    let mut v: Vec<i64> = Vec::new();
    let mut i: usize = 0;
    while i < 12
        invariant
            12 <= ids@.len(),
            i <= 12,
            v@ == ids@.subrange(0, i as int),
        decreases 12 - i,
    {
        v.push(ids[i]);
        assert(v@ =~= ids@.subrange(0, i + 1));
        i = i + 1;
    }
    Some(v)
}

/// O valor de uma sequência não muda com zeros à esquerda.
pub proof fn lema_valor_com_zeros(k: nat, d: Seq<char>)
    ensures
        valor_algarismos(zeros(k) + d) == valor_algarismos(d),
    decreases d.len(), k,
{
    if d.len() == 0 {
        assert(zeros(k) + d =~= zeros(k));
        if k > 0 {
            assert(zeros(k).drop_last() =~= zeros((k - 1) as nat));
            lema_valor_com_zeros((k - 1) as nat, d);
            assert(zeros((k - 1) as nat) + d =~= zeros((k - 1) as nat));
        }
    } else {
        assert((zeros(k) + d).drop_last() =~= zeros(k) + d.drop_last());
        lema_valor_com_zeros(k, d.drop_last());
    }
}

/// Um número escrito com zeros à esquerda, lido de volta, dá o número.
pub proof fn lema_valor_com_zeros_a_esquerda(n: nat, largura: nat)
    ensures
        valor_algarismos(com_zeros(n, largura)) == n,
{
    lema_valor_digitos(n);
    if digitos(n).len() < largura {
        lema_valor_com_zeros((largura - digitos(n).len()) as nat, digitos(n));
    }
}

/// Produtos de exemplo diferentes têm códigos de barras diferentes, como o
/// índice único do banco exige.
pub proof fn lei_codigos_exemplo_distintos(i: nat, j: nat)
    requires
        i != j,
    ensures
        texto_codigo_exemplo(i) != texto_codigo_exemplo(j),
{
    reveal_strlit("789");
    if texto_codigo_exemplo(i) == texto_codigo_exemplo(j) {
        let a = com_zeros(i + 1, 10);
        let b = com_zeros(j + 1, 10);
        assert(a =~= texto_codigo_exemplo(i).subrange(3, texto_codigo_exemplo(i).len() as int));
        assert(b =~= texto_codigo_exemplo(j).subrange(3, texto_codigo_exemplo(j).len() as int));
        lema_valor_com_zeros_a_esquerda(i + 1, 10);
        lema_valor_com_zeros_a_esquerda(j + 1, 10);
    }
}

} // verus!
