//! Regras do estoque: validação de produtos e registro de entradas e saídas.

use vstd::prelude::*;

use crate::dominio::{DataHora, Movimentacao, Produto, TipoMovimentacao};
use crate::texto::{decimal, escrever_decimal};

verus! {

/// Os motivos pelos quais uma operação de estoque é recusada.
#[derive(Clone, Copy, Debug, PartialEq, Eq, Structural)]
pub enum ErroEstoque {
    PrecoCustoInvalido,
    PrecoVendaMenorQueCusto,
    EstoqueMinimoNegativo,
    BarcodeDuplicado,
    EstoqueInsuficiente { disponivel: i64 },
    QuantidadeZero,
    ProdutoNaoEncontrado,
}

impl ErroEstoque {
    /// A mensagem mostrada ao usuário para cada erro.
    pub open spec fn texto(self) -> Seq<char> {
        match self {
            ErroEstoque::PrecoCustoInvalido => "Preço de custo deve ser maior que zero"@,
            ErroEstoque::PrecoVendaMenorQueCusto => "Preço de venda deve ser maior que o preço de custo"@,
            ErroEstoque::EstoqueMinimoNegativo => "Estoque mínimo não pode ser negativo"@,
            ErroEstoque::BarcodeDuplicado => "Código de barras já cadastrado"@,
            ErroEstoque::EstoqueInsuficiente { disponivel } => "Estoque insuficiente (disponível: "@
                + decimal(disponivel as int, 0) + ")"@,
            ErroEstoque::QuantidadeZero => "Quantidade deve ser maior que zero"@,
            ErroEstoque::ProdutoNaoEncontrado => "Produto não encontrado"@,
        }
    }

    /// A mensagem do erro.
    pub fn to_string(&self) -> (r: String)
        ensures
            r@ == self.texto(),
    {
        match self {
            ErroEstoque::PrecoCustoInvalido => String::from_str(
                "Preço de custo deve ser maior que zero",
            ),
            ErroEstoque::PrecoVendaMenorQueCusto => String::from_str(
                "Preço de venda deve ser maior que o preço de custo",
            ),
            ErroEstoque::EstoqueMinimoNegativo => String::from_str(
                "Estoque mínimo não pode ser negativo",
            ),
            ErroEstoque::BarcodeDuplicado => String::from_str("Código de barras já cadastrado"),
            ErroEstoque::EstoqueInsuficiente { disponivel } => {
                let mut s = String::from_str("Estoque insuficiente (disponível: ");
                escrever_decimal(&mut s, *disponivel, 0);
                s.append(")");
                s
            },
            ErroEstoque::QuantidadeZero => String::from_str("Quantidade deve ser maior que zero"),
            ErroEstoque::ProdutoNaoEncontrado => String::from_str("Produto não encontrado"),
        }
    }
}

/// O resultado das duas comparações de preço de um produto, feitas em ponto
/// flutuante por quem chama: o custo não é maior que zero, e a venda não é
/// maior que o custo.
#[derive(Clone, Copy, Debug, PartialEq, Eq, Structural)]
pub struct ComparacaoPrecos {
    pub custo_nao_positivo: bool,
    pub venda_nao_supera_custo: bool,
}

/// A validação dos campos de um produto, na ordem em que os erros são
/// procurados.
pub open spec fn spec_validar_campos(p: Produto, precos: ComparacaoPrecos) -> Result<(), ErroEstoque> {
    if precos.custo_nao_positivo {
        Err(ErroEstoque::PrecoCustoInvalido)
    } else if precos.venda_nao_supera_custo {
        Err(ErroEstoque::PrecoVendaMenorQueCusto)
    } else if p.estoque_minimo < 0 {
        Err(ErroEstoque::EstoqueMinimoNegativo)
    } else {
        Ok(())
    }
}

/// A validação completa: os campos e, depois, o código de barras. `existente`
/// é o produto já cadastrado com o mesmo código de barras, se houver; ele só
/// é um conflito quando é outro produto.
pub open spec fn spec_validar_produto(
    p: Produto,
    precos: ComparacaoPrecos,
    existente: Option<Produto>,
) -> Result<(), ErroEstoque> {
    match spec_validar_campos(p, precos) {
        Err(e) => Err(e),
        Ok(_) => match existente {
            Some(x) => if x.id != p.id {
                Err(ErroEstoque::BarcodeDuplicado)
            } else {
                Ok(())
            },
            None => Ok(()),
        },
    }
}

/// Valida os campos do produto que não dependem de outros cadastros.
pub fn validar_campos(p: &Produto, precos: ComparacaoPrecos) -> (r: Result<(), ErroEstoque>)
    ensures
        r == spec_validar_campos(*p, precos),
{
    if precos.custo_nao_positivo {
        return Err(ErroEstoque::PrecoCustoInvalido);
    }
    if precos.venda_nao_supera_custo {
        return Err(ErroEstoque::PrecoVendaMenorQueCusto);
    }
    if p.estoque_minimo < 0 {
        return Err(ErroEstoque::EstoqueMinimoNegativo);
    }
    Ok(())
}

/// Valida um produto antes de gravá-lo.
pub fn validar_produto(p: &Produto, precos: ComparacaoPrecos, existente: &Option<Produto>) -> (r:
    Result<(), ErroEstoque>)
    ensures
        r == spec_validar_produto(*p, precos, *existente),
{
    validar_campos(p, precos)?;
    if let Some(x) = existente {
        if x.id != p.id {
            return Err(ErroEstoque::BarcodeDuplicado);
        }
    }
    Ok(())
}

/// O novo saldo de um produto depois de uma movimentação, ou o erro que a
/// recusa. A quantidade é conferida antes de tudo; depois, que o produto
/// existe; numa saída, que o saldo basta.
pub open spec fn saldo_apos(
    tipo: TipoMovimentacao,
    quantidade: int,
    encontrado: Option<Produto>,
) -> Result<int, ErroEstoque> {
    if quantidade <= 0 {
        Err(ErroEstoque::QuantidadeZero)
    } else {
        match encontrado {
            None => Err(ErroEstoque::ProdutoNaoEncontrado),
            Some(p) => match tipo {
                TipoMovimentacao::Entrada => Ok(p.quantidade_atual + quantidade),
                TipoMovimentacao::Saida => if p.quantidade_atual < quantidade {
                    Err(ErroEstoque::EstoqueInsuficiente { disponivel: p.quantidade_atual })
                } else {
                    Ok(p.quantidade_atual - quantidade)
                },
            },
        }
    }
}

/// A primeira conferência de uma movimentação, feita antes de procurar o
/// produto: a quantidade tem de ser positiva.
pub fn conferir_quantidade(quantidade: i64) -> (r: Result<(), ErroEstoque>)
    ensures
        r is Err <==> quantidade <= 0,
        r is Err ==> r == Err::<(), ErroEstoque>(ErroEstoque::QuantidadeZero),
{
    if quantidade <= 0 {
        Err(ErroEstoque::QuantidadeZero)
    } else {
        Ok(())
    }
}

/// O que uma movimentação aceita manda gravar: o novo saldo do produto e a
/// movimentação a registrar.
#[derive(Debug)]
pub struct Lancamento {
    pub produto_id: i64,
    pub nova_quantidade: i64,
    pub movimentacao: Movimentacao,
}

/// A movimentação `m` registra, com identificador ainda não atribuído (0),
/// os dados dados.
pub open spec fn registra(
    m: Movimentacao,
    tipo: TipoMovimentacao,
    quantidade: i64,
    data_hora: DataHora,
    motivo: Seq<char>,
    produto_id: i64,
    produto_nome: Seq<char>,
    usuario_id: i64,
    usuario_nome: Seq<char>,
) -> bool {
    &&& m.id == 0
    &&& m.tipo == tipo
    &&& m.quantidade == quantidade
    &&& m.data_hora == data_hora
    &&& m.motivo@ == motivo
    &&& m.produto_id == produto_id
    &&& m.produto_nome@ == produto_nome
    &&& m.usuario_id == usuario_id
    &&& m.usuario_nome@ == usuario_nome
}

/// O resultado de `registrar_entrada` ou `registrar_saida`: um lançamento
/// com o saldo de `saldo_apos` e a movimentação correspondente, ou o erro de
/// `saldo_apos`.
pub open spec fn lancamento_correto(
    r: Result<Lancamento, ErroEstoque>,
    tipo: TipoMovimentacao,
    produto_id: i64,
    quantidade: i64,
    encontrado: Option<Produto>,
    motivo: Seq<char>,
    usuario_id: i64,
    usuario_nome: Seq<char>,
    data_hora: DataHora,
) -> bool {
    match r {
        Ok(l) => {
            &&& saldo_apos(tipo, quantidade as int, encontrado) == Ok::<int, ErroEstoque>(
                l.nova_quantidade as int,
            )
            &&& l.produto_id == produto_id
            &&& registra(
                l.movimentacao,
                tipo,
                quantidade,
                data_hora,
                motivo,
                produto_id,
                encontrado->0.nome@,
                usuario_id,
                usuario_nome,
            )
        },
        Err(e) => saldo_apos(tipo, quantidade as int, encontrado) == Err::<int, ErroEstoque>(e),
    }
}

/// Registra uma entrada de `quantidade` unidades no produto `encontrado`
/// (o produto de código `produto_id`, se existir).
pub fn registrar_entrada(
    produto_id: i64,
    quantidade: i64,
    encontrado: Option<Produto>,
    motivo: &str,
    usuario_id: i64,
    usuario_nome: &str,
    data_hora: DataHora,
) -> (r: Result<Lancamento, ErroEstoque>)
    requires
        quantidade > 0 && encontrado is Some ==> encontrado->0.quantidade_atual + quantidade
            <= i64::MAX,
    ensures
        lancamento_correto(
            r,
            TipoMovimentacao::Entrada,
            produto_id,
            quantidade,
            encontrado,
            motivo@,
            usuario_id,
            usuario_nome@,
            data_hora,
        ),
{
    if quantidade <= 0 {
        return Err(ErroEstoque::QuantidadeZero);
    }
    let p = match encontrado {
        Some(p) => p,
        None => return Err(ErroEstoque::ProdutoNaoEncontrado),
    };
    let nova_qtd = p.quantidade_atual + quantidade;
    let mov = Movimentacao {
        id: 0,
        tipo: TipoMovimentacao::Entrada,
        quantidade,
        data_hora,
        motivo: String::from_str(motivo),
        produto_id,
        produto_nome: p.nome,
        usuario_id,
        usuario_nome: String::from_str(usuario_nome),
    };
    Ok(Lancamento { produto_id, nova_quantidade: nova_qtd, movimentacao: mov })
}

/// Registra uma saída de `quantidade` unidades do produto `encontrado`
/// (o produto de código `produto_id`, se existir).
pub fn registrar_saida(
    produto_id: i64,
    quantidade: i64,
    encontrado: Option<Produto>,
    motivo: &str,
    usuario_id: i64,
    usuario_nome: &str,
    data_hora: DataHora,
) -> (r: Result<Lancamento, ErroEstoque>)
    ensures
        lancamento_correto(
            r,
            TipoMovimentacao::Saida,
            produto_id,
            quantidade,
            encontrado,
            motivo@,
            usuario_id,
            usuario_nome@,
            data_hora,
        ),
{
    if quantidade <= 0 {
        return Err(ErroEstoque::QuantidadeZero);
    }
    let p = match encontrado {
        Some(p) => p,
        None => return Err(ErroEstoque::ProdutoNaoEncontrado),
    };
    if p.quantidade_atual < quantidade {
        return Err(ErroEstoque::EstoqueInsuficiente { disponivel: p.quantidade_atual });
    }
    let nova_qtd = p.quantidade_atual - quantidade;
    let mov = Movimentacao {
        id: 0,
        tipo: TipoMovimentacao::Saida,
        quantidade,
        data_hora,
        motivo: String::from_str(motivo),
        produto_id,
        produto_nome: p.nome,
        usuario_id,
        usuario_nome: String::from_str(usuario_nome),
    };
    Ok(Lancamento { produto_id, nova_quantidade: nova_qtd, movimentacao: mov })
}

/// Uma saída da mesma quantidade desfaz uma entrada: a entrada leva o saldo
/// de `antes` ao de `depois`, e a saída leva o de `depois` de volta ao de
/// `antes`. Vale para saldos iniciais não negativos.
pub proof fn lei_saida_desfaz_entrada(antes: Produto, depois: Produto, quantidade: int)
    requires
        quantidade > 0,
        antes.quantidade_atual >= 0,
        depois.quantidade_atual == antes.quantidade_atual + quantidade,
    ensures
        saldo_apos(TipoMovimentacao::Entrada, quantidade, Some(antes)) == Ok::<int, ErroEstoque>(
            depois.quantidade_atual as int,
        ),
        saldo_apos(TipoMovimentacao::Saida, quantidade, Some(depois)) == Ok::<int, ErroEstoque>(
            antes.quantidade_atual as int,
        ),
{
}

/// Uma saída aceita nunca deixa o saldo negativo, e tira exatamente a
/// quantidade pedida.
pub proof fn lei_saida_nunca_negativa(p: Produto, quantidade: int)
    ensures
        saldo_apos(TipoMovimentacao::Saida, quantidade, Some(p)) matches Ok(n) ==> n >= 0 && n
            == p.quantidade_atual - quantidade,
{
}

/// Uma saída maior que o saldo é recusada com o saldo disponível, qualquer que
/// seja o saldo.
pub proof fn lei_saida_sem_saldo_recusada(p: Produto, quantidade: int)
    requires
        quantidade > 0,
        p.quantidade_atual < quantidade,
    ensures
        saldo_apos(TipoMovimentacao::Saida, quantidade, Some(p)) == Err::<int, ErroEstoque>(
            ErroEstoque::EstoqueInsuficiente { disponivel: p.quantidade_atual },
        ),
{
}

/// Uma quantidade que não é positiva é recusada antes de qualquer outra
/// conferência, em entradas e saídas, exista ou não o produto.
pub proof fn lei_quantidade_positiva(
    tipo: TipoMovimentacao,
    quantidade: int,
    encontrado: Option<Produto>,
)
    requires
        quantidade <= 0,
    ensures
        saldo_apos(tipo, quantidade, encontrado) == Err::<int, ErroEstoque>(
            ErroEstoque::QuantidadeZero,
        ),
{
}

/// Uma movimentação aceita conserva estoques não negativos: entradas só
/// aumentam o saldo e saídas o deixam em zero ou mais.
pub proof fn lei_saldo_nao_negativo(tipo: TipoMovimentacao, quantidade: int, p: Produto)
    requires
        p.quantidade_atual >= 0,
    ensures
        saldo_apos(tipo, quantidade, Some(p)) matches Ok(n) ==> n >= 0,
        tipo == TipoMovimentacao::Entrada && quantidade > 0 ==> (saldo_apos(
            tipo,
            quantidade,
            Some(p),
        ) matches Ok(n) && n > p.quantidade_atual),
{
}

/// Um produto nunca conflita consigo mesmo: validar um produto contra o seu
/// próprio cadastro não dá código de barras duplicado.
pub proof fn lei_produto_nao_conflita_consigo(p: Produto, precos: ComparacaoPrecos)
    ensures
        spec_validar_produto(p, precos, Some(p)) == spec_validar_campos(p, precos),
        spec_validar_produto(p, precos, Some(p)) != Err::<(), ErroEstoque>(
            ErroEstoque::BarcodeDuplicado,
        ),
{
}

/// O código de barras é único entre produtos diferentes: com os campos
/// válidos, um produto é recusado como duplicado exatamente quando já existe
/// outro produto (de código diferente, maior ou menor) com o seu código de
/// barras, e é aceito quando não existe nenhum ou quando é ele mesmo.
pub proof fn lei_codigo_de_barras_unico(
    p: Produto,
    precos: ComparacaoPrecos,
    existente: Option<Produto>,
)
    requires
        !precos.custo_nao_positivo,
        !precos.venda_nao_supera_custo,
        p.estoque_minimo >= 0,
    ensures
        (existente is Some && existente->0.id != p.id) ==> spec_validar_produto(p, precos, existente)
            == Err::<(), ErroEstoque>(ErroEstoque::BarcodeDuplicado),
        (existente is None || existente->0.id == p.id) ==> spec_validar_produto(p, precos, existente)
            == Ok::<(), ErroEstoque>(()),
{
}

/// Os campos são conferidos antes do código de barras, nesta ordem: custo
/// não positivo, venda que não supera o custo, estoque mínimo negativo;
/// qualquer que seja o produto já cadastrado com o mesmo código.
pub proof fn lei_campos_antes_do_codigo(p: Produto, precos: ComparacaoPrecos, existente: Option<Produto>)
    ensures
        precos.custo_nao_positivo ==> spec_validar_produto(p, precos, existente) == Err::<
            (),
            ErroEstoque,
        >(ErroEstoque::PrecoCustoInvalido),
        !precos.custo_nao_positivo && precos.venda_nao_supera_custo ==> spec_validar_produto(
            p,
            precos,
            existente,
        ) == Err::<(), ErroEstoque>(ErroEstoque::PrecoVendaMenorQueCusto),
        !precos.custo_nao_positivo && !precos.venda_nao_supera_custo && p.estoque_minimo < 0
            ==> spec_validar_produto(p, precos, existente) == Err::<(), ErroEstoque>(
            ErroEstoque::EstoqueMinimoNegativo,
        ),
{
}

} // verus!
