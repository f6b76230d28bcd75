//! O painel inicial: totais, estoque baixo e movimentações recentes.

use vstd::prelude::*;

use crate::dominio::{Movimentacao, Produto};

verus! {

/// O que o painel mostra, carregado do banco.
pub struct DashboardState {
    pub total_produtos: i64,
    pub total_categorias: i64,
    pub estoque_baixo: Vec<Produto>,
    pub movimentacoes_recentes: Vec<Movimentacao>,
    pub movimentacoes_hoje: i64,
    pub carregado: bool,
}

impl DashboardState {
    /// O estado antes de a tela ser aberta.
    pub open spec fn inicial(self) -> bool {
        &&& self.total_produtos == 0
        &&& self.total_categorias == 0
        &&& self.estoque_baixo@.len() == 0
        &&& self.movimentacoes_recentes@.len() == 0
        &&& self.movimentacoes_hoje == 0
        &&& !self.carregado
    }
}

impl Default for DashboardState {
    fn default() -> (r: Self)
        ensures
            r.inicial(),
    {
        DashboardState {
            total_produtos: 0,
            total_categorias: 0,
            estoque_baixo: Vec::new(),
            movimentacoes_recentes: Vec::new(),
            movimentacoes_hoje: 0,
            carregado: false,
        }
    }
}

} // verus!
