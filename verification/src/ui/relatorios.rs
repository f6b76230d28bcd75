//! A tela de relatórios: estoque abaixo do mínimo e resumo do mês.

use vstd::prelude::*;
use vstd::utf8::*;

use crate::dominio::{Movimentacao, Produto, TipoMovimentacao};
use crate::estoque::saldo_apos;
use crate::texto::{decimal, escrever_decimal};

verus! {

broadcast use vstd::utf8::encode_utf8_decode_utf8;

/// A aba aberta na tela de relatórios.
#[derive(Clone, Copy, Debug, PartialEq, Eq, Structural)]
pub enum AbaRelatorio {
    EstoqueBaixo,
    Mensal,
}

/// As quantidades de um dia do mês: o dia, as unidades que entraram e as que
/// saíram. O lucro do dia, em ponto flutuante, fica com a aplicação.
#[derive(Debug)]
pub struct ResumoDia {
    pub dia: String,
    pub entradas: i64,
    pub saidas: i64,
}

/// O estado da tela de relatórios.
pub struct RelatoriosState {
    pub estoque_baixo: Vec<Produto>,
    pub movimentacoes_mes: Vec<Movimentacao>,
    pub movimentos_por_dia: Vec<ResumoDia>,
    pub ano: i32,
    pub mes: u32,
    pub aba: AbaRelatorio,
    pub carregado_estoque: bool,
    pub carregado_mensal: bool,
}

impl RelatoriosState {
    /// A tela de relatórios vazia, no mês `mes` do ano `ano`, na aba de
    /// estoque baixo.
    pub fn new(ano: i32, mes: u32) -> (r: Self)
        ensures
            r.estoque_baixo@.len() == 0,
            r.movimentacoes_mes@.len() == 0,
            r.movimentos_por_dia@.len() == 0,
            r.ano == ano,
            r.mes == mes,
            r.aba == AbaRelatorio::EstoqueBaixo,
            !r.carregado_estoque,
            !r.carregado_mensal,
    {
        RelatoriosState {
            estoque_baixo: Vec::new(),
            movimentacoes_mes: Vec::new(),
            movimentos_por_dia: Vec::new(),
            ano,
            mes,
            aba: AbaRelatorio::EstoqueBaixo,
            carregado_estoque: false,
            carregado_mensal: false,
        }
    }
}

/// A soma das quantidades das movimentações do tipo `tipo`.
pub open spec fn soma_por_tipo(movs: Seq<Movimentacao>, tipo: TipoMovimentacao) -> int
    decreases movs.len(),
{
    if movs.len() == 0 {
        0
    } else {
        soma_por_tipo(movs.drop_last(), tipo) + if movs.last().tipo == tipo {
            movs.last().quantidade as int
        } else {
            0
        }
    }
}

/// Todas as somas parciais, na ordem da lista, cabem em `i64`.
pub open spec fn somas_cabem(movs: Seq<Movimentacao>, tipo: TipoMovimentacao) -> bool {
    forall|k: int|
        0 <= k <= movs.len() ==> i64::MIN <= #[trigger] soma_por_tipo(movs.take(k), tipo)
            <= i64::MAX
}

/// Se todas as somas parciais do tipo `tipo` cabem em `i64`.
pub fn somas_cabem_exec(movs: &Vec<Movimentacao>, tipo: TipoMovimentacao) -> (r: bool)
    ensures
        r == somas_cabem(movs@, tipo),
{
    let n = movs.len();
    let mut total: i64 = 0;
    let mut i: usize = 0;
    assert(movs@.take(0) =~= Seq::<Movimentacao>::empty());
    while i < n
        invariant
            n == movs@.len(),
            i <= n,
            total == soma_por_tipo(movs@.take(i as int), tipo),
            forall|k: int|
                0 <= k <= i ==> i64::MIN <= #[trigger] soma_por_tipo(movs@.take(k), tipo)
                    <= i64::MAX,
        decreases n - i,
    {
        assert(movs@.take(i + 1).drop_last() =~= movs@.take(i as int));
        assert(movs@.take(i + 1).last() == movs@[i as int]);
        if movs[i].tipo == tipo {
            match total.checked_add(movs[i].quantidade) {
                Some(t) => {
                    total = t;
                },
                None => {
                    assert(!(i64::MIN <= soma_por_tipo(movs@.take(i + 1), tipo) <= i64::MAX));
                    return false;
                },
            }
        }
        i = i + 1;
    }
    assert(movs@.take(n as int) =~= movs@);
    true
}

/// O total de unidades das movimentações do tipo `tipo` (entradas ou
/// saídas) da lista.
pub fn total_por_tipo(movs: &Vec<Movimentacao>, tipo: TipoMovimentacao) -> (r: i64)
    requires
        somas_cabem(movs@, tipo),
    ensures
        r == soma_por_tipo(movs@, tipo),
{
    let n = movs.len();
    let mut total: i64 = 0;
    let mut i: usize = 0;
    assert(movs@.take(0) =~= Seq::<Movimentacao>::empty());
    while i < n
        invariant
            n == movs@.len(),
            i <= n,
            somas_cabem(movs@, tipo),
            total == soma_por_tipo(movs@.take(i as int), tipo),
        decreases n - i,
    {
        assert(movs@.take(i + 1).drop_last() =~= movs@.take(i as int));
        assert(movs@.take(i + 1).last() == movs@[i as int]);
        let ghost proximo = soma_por_tipo(movs@.take(i + 1), tipo);
        assert(i64::MIN <= proximo <= i64::MAX);
        if movs[i].tipo == tipo {
            total = total + movs[i].quantidade;
        }
        i = i + 1;
    }
    assert(movs@.take(n as int) =~= movs@);
    total
}

/// Quanto falta para o estoque mínimo, nunca menos que zero.
pub open spec fn spec_deficit(p: Produto) -> int {
    if p.estoque_minimo - p.quantidade_atual > 0 {
        p.estoque_minimo - p.quantidade_atual
    } else {
        0
    }
}

/// O déficit de um produto em relação ao estoque mínimo.
pub fn deficit(p: &Produto) -> (r: i64)
    requires
        i64::MIN <= p.estoque_minimo - p.quantidade_atual <= i64::MAX,
    ensures
        r == spec_deficit(*p),
{
    let d = p.estoque_minimo - p.quantidade_atual;
    if d > 0 {
        d
    } else {
        0
    }
}

/// O déficit é zero exatamente quando o produto não está abaixo do mínimo,
/// e nunca é negativo.
pub proof fn lei_deficit(p: Produto)
    ensures
        spec_deficit(p) >= 0,
        spec_deficit(p) == 0 <==> p.quantidade_atual >= p.estoque_minimo,
        spec_deficit(p) > 0 ==> p.spec_estoque_baixo(),
        p.quantidade_atual < p.estoque_minimo ==> p.quantidade_atual + spec_deficit(p)
            == p.estoque_minimo,
{
}

/// O nome de um produto no gráfico: até 16 bytes fica inteiro; maior, são os
/// 14 primeiros bytes seguidos de reticências.
pub open spec fn texto_rotulo_curto(nome: Seq<char>) -> Seq<char> {
    let b = encode_utf8(nome);
    if b.len() > 16 {
        decode_utf8(b.subrange(0, 14)) + "…"@
    } else {
        nome
    }
}

/// O rótulo de um produto no gráfico de déficit.
pub fn rotulo_curto(nome: &str) -> (r: String)
    requires
        encode_utf8(nome@).len() > 16 ==> is_char_boundary(encode_utf8(nome@), 14),
    ensures
        r@ == texto_rotulo_curto(nome@),
{
    let bytes = nome.as_bytes();
    assert(bytes@ == encode_utf8(nome@));
    if bytes.len() > 16 {
        let (inicio, _) = nome.split_at(14);
        assert(encode_utf8(inicio@) =~= encode_utf8(nome@).subrange(0, 14));
        assert(decode_utf8(encode_utf8(inicio@)) == inicio@);
        let mut s = inicio.to_owned();
        s.append("…");
        s
    } else {
        nome.to_owned()
    }
}

/// O ano com quatro algarismos e o mês com dois, como a consulta mensal os
/// compara com as datas gravadas.
pub fn filtro_ano_mes(ano: i32, mes: u32) -> (r: (String, String))
    ensures
        r.0@ == decimal(ano as int, 4),
        r.1@ == decimal(mes as int, 2),
{
    let mut a = String::new();
    escrever_decimal(&mut a, ano as i64, 4);
    let mut m = String::new();
    escrever_decimal(&mut m, mes as i64, 2);
    assert(Seq::<char>::empty() + decimal(ano as int, 4) =~= decimal(ano as int, 4));
    assert(Seq::<char>::empty() + decimal(mes as int, 2) =~= decimal(mes as int, 2));
    (a, m)
}

/// O saldo de um produto depois de cada movimentação da lista, na ordem,
/// aplicada como o estoque a aplica (`saldo_apos`); `None` se alguma seria
/// recusada.
pub open spec fn saldo_por_historico(p: Produto, movs: Seq<Movimentacao>) -> Option<int>
    decreases movs.len(),
{
    if movs.len() == 0 {
        Some(p.quantidade_atual as int)
    } else {
        match saldo_por_historico(p, movs.drop_last()) {
            None => None,
            Some(s) => {
                let m = movs.last();
                match saldo_apos(
                    m.tipo,
                    m.quantidade as int,
                    Some(Produto { quantidade_atual: s as i64, ..p }),
                ) {
                    Ok(n) => Some(n),
                    Err(_) => None,
                }
            },
        }
    }
}

/// Os totais do relatório fecham com o estoque: se uma lista de
/// movimentações de um produto é aceita em ordem, o saldo final é o inicial
/// mais as entradas menos as saídas, e não fica negativo se o inicial não era.
/// Vale enquanto os saldos intermediários cabem em `i64`.
pub proof fn lei_saldo_fecha_com_totais(p: Produto, movs: Seq<Movimentacao>)
    requires
        forall|k: int|
            0 <= k <= movs.len() ==> (#[trigger] saldo_por_historico(p, movs.take(k)) matches Some(
                s,
            ) ==> i64::MIN <= s <= i64::MAX),
    ensures
        saldo_por_historico(p, movs) matches Some(s) ==> s == p.quantidade_atual + soma_por_tipo(
            movs,
            TipoMovimentacao::Entrada,
        ) - soma_por_tipo(movs, TipoMovimentacao::Saida),
        p.quantidade_atual >= 0 ==> (saldo_por_historico(p, movs) matches Some(s) ==> s >= 0),
    decreases movs.len(),
{
    if movs.len() > 0 {
        let anteriores = movs.drop_last();
        assert forall|k: int| 0 <= k <= anteriores.len() implies (#[trigger] saldo_por_historico(
            p,
            anteriores.take(k),
        ) matches Some(s) ==> i64::MIN <= s <= i64::MAX) by {
            assert(anteriores.take(k) =~= movs.take(k));
        }
        lei_saldo_fecha_com_totais(p, anteriores);
        assert(movs.take(anteriores.len() as int) =~= anteriores);
        assert(saldo_por_historico(p, movs.take(anteriores.len() as int)) == saldo_por_historico(
            p,
            anteriores,
        ));
    }
}

} // verus!
