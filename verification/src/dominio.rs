//! Os dados do estoque: categorias, produtos, usuários e movimentações.

use vstd::prelude::*;

use crate::texto::iguais;

verus! {

/// Uma categoria de produtos.
#[derive(Clone, Debug)]
pub struct Categoria {
    pub id: i64,
    pub nome: String,
}

/// Um produto do estoque, com os campos inteiros e textuais que as regras
/// leem. Os preços, em ponto flutuante, ficam com a aplicação.
#[derive(Clone, Debug)]
pub struct Produto {
    pub id: i64,
    pub nome: String,
    pub codigo_de_barras: String,
    pub categoria_id: i64,
    pub categoria_nome: String,
    pub estoque_minimo: i64,
    pub quantidade_atual: i64,
}

impl Produto {
    /// O estoque está baixo quando a quantidade atual não passa do mínimo.
    pub open spec fn spec_estoque_baixo(&self) -> bool {
        self.quantidade_atual <= self.estoque_minimo
    }

    pub fn estoque_baixo(&self) -> (r: bool)
        ensures
            r == self.spec_estoque_baixo(),
    {
        self.quantidade_atual <= self.estoque_minimo
    }
}

/// O perfil de acesso de um usuário.
#[derive(Clone, Copy, Debug, PartialEq, Eq, Structural)]
pub enum PerfilUsuario {
    Dona,
    Funcionario,
}

impl PerfilUsuario {
    /// O texto com que o perfil é gravado e mostrado.
    pub open spec fn texto(self) -> Seq<char> {
        match self {
            PerfilUsuario::Dona => "Dona"@,
            PerfilUsuario::Funcionario => "Funcionário"@,
        }
    }

    /// O perfil lido de um texto: só "Dona" dá `Dona`; qualquer outro texto
    /// dá `Funcionario`.
    pub open spec fn de_texto(s: Seq<char>) -> PerfilUsuario {
        if s == "Dona"@ {
            PerfilUsuario::Dona
        } else {
            PerfilUsuario::Funcionario
        }
    }

    pub fn from_str(s: &str) -> (r: Self)
        ensures
            r == Self::de_texto(s@),
    {
        if iguais(s, "Dona") {
            PerfilUsuario::Dona
        } else {
            PerfilUsuario::Funcionario
        }
    }

    pub fn as_str(&self) -> (r: &'static str)
        ensures
            r@ == self.texto(),
    {
        match self {
            PerfilUsuario::Dona => "Dona",
            PerfilUsuario::Funcionario => "Funcionário",
        }
    }
}

/// O texto de um perfil, lido de volta, dá o mesmo perfil: o que se grava
/// de um usuário é o que se lê dele.
pub proof fn lei_perfil_texto_ida_e_volta(p: PerfilUsuario)
    ensures
        PerfilUsuario::de_texto(p.texto()) == p,
{
    reveal_strlit("Dona");
    reveal_strlit("Funcionário");
    if p == PerfilUsuario::Funcionario {
        assert("Funcionário"@.len() != "Dona"@.len());
    }
}

/// Um usuário do sistema; a senha é guardada só pelo seu hash.
#[derive(Clone, Debug)]
pub struct Usuario {
    pub id: i64,
    pub nome: String,
    pub login: String,
    pub senha_hash: String,
    pub perfil: PerfilUsuario,
}

/// O sentido de uma movimentação de estoque.
#[derive(Clone, Copy, Debug, PartialEq, Eq, Structural)]
pub enum TipoMovimentacao {
    Entrada,
    Saida,
}

impl TipoMovimentacao {
    /// O texto com que o tipo é gravado e mostrado.
    pub open spec fn texto(self) -> Seq<char> {
        match self {
            TipoMovimentacao::Entrada => "Entrada"@,
            TipoMovimentacao::Saida => "Saída"@,
        }
    }

    /// O tipo lido de um texto: só "Entrada" dá `Entrada`; qualquer outro
    /// texto dá `Saida`.
    pub open spec fn de_texto(s: Seq<char>) -> TipoMovimentacao {
        if s == "Entrada"@ {
            TipoMovimentacao::Entrada
        } else {
            TipoMovimentacao::Saida
        }
    }

    pub fn from_str(s: &str) -> (r: Self)
        ensures
            r == Self::de_texto(s@),
    {
        if iguais(s, "Entrada") {
            TipoMovimentacao::Entrada
        } else {
            TipoMovimentacao::Saida
        }
    }

    pub fn as_str(&self) -> (r: &'static str)
        ensures
            r@ == self.texto(),
    {
        match self {
            TipoMovimentacao::Entrada => "Entrada",
            TipoMovimentacao::Saida => "Saída",
        }
    }
}

/// O texto de um tipo de movimentação, lido de volta, dá o mesmo tipo.
pub proof fn lei_tipo_texto_ida_e_volta(t: TipoMovimentacao)
    ensures
        TipoMovimentacao::de_texto(t.texto()) == t,
{
    reveal_strlit("Entrada");
    reveal_strlit("Saída");
    if t == TipoMovimentacao::Saida {
        assert("Saída"@.len() != "Entrada"@.len());
    }
}

/// Uma data com hora, em campos inteiros (ano, mês, dia, hora, minuto e
/// segundo).
#[derive(Clone, Copy, Debug, PartialEq, Eq, Structural)]
pub struct DataHora {
    pub ano: i32,
    pub mes: u32,
    pub dia: u32,
    pub hora: u32,
    pub minuto: u32,
    pub segundo: u32,
}

/// Uma movimentação de estoque registrada.
#[derive(Clone, Debug)]
pub struct Movimentacao {
    pub id: i64,
    pub tipo: TipoMovimentacao,
    pub quantidade: i64,
    pub data_hora: DataHora,
    pub motivo: String,
    pub produto_id: i64,
    pub produto_nome: String,
    pub usuario_id: i64,
    pub usuario_nome: String,
}

/// O alerta de estoque baixo vale assim que a quantidade chega ao mínimo:
/// um produto no mínimo (também 0 de 0) ou abaixo dele está baixo, um acima
/// dele não está; e um produto com menos unidades e o mesmo mínimo que um
/// produto baixo também está baixo.
pub proof fn lei_estoque_baixo(p: Produto, q: Produto)
    ensures
        p.quantidade_atual == p.estoque_minimo ==> p.spec_estoque_baixo(),
        p.quantidade_atual < p.estoque_minimo ==> p.spec_estoque_baixo(),
        p.quantidade_atual > p.estoque_minimo ==> !p.spec_estoque_baixo(),
        p.spec_estoque_baixo() && q.estoque_minimo == p.estoque_minimo && q.quantidade_atual
            <= p.quantidade_atual ==> q.spec_estoque_baixo(),
{
}

} // verus!
