//! A tela de movimentações: histórico e registro de entradas e saídas.

use vstd::prelude::*;

use crate::dominio::{Movimentacao, Produto, TipoMovimentacao, Usuario};
use crate::texto::{aparado, aparar, decimal, escrever_decimal, ler_i64, leitura_i64};

use super::{aviso_eh, App};

verus! {

/// O que a tela de movimentações mostra.
#[derive(Clone, Copy, Debug, PartialEq, Eq, Structural)]
pub enum ModoMovimentacao {
    Historico,
    RegistrarEntrada,
    RegistrarSaida,
}

/// O estado da tela de movimentações.
pub struct MovimentacoesState {
    pub movimentacoes: Vec<Movimentacao>,
    pub produtos: Vec<Produto>,
    pub modo: ModoMovimentacao,
    pub produto_id_form: i64,
    pub quantidade_form: String,
    pub motivo_form: String,
    pub erro_form: Option<String>,
    pub carregado: bool,
}

impl MovimentacoesState {
    /// O estado antes de a tela ser aberta.
    pub open spec fn inicial(self) -> bool {
        &&& self.movimentacoes@.len() == 0
        &&& self.produtos@.len() == 0
        &&& self.modo == ModoMovimentacao::Historico
        &&& self.produto_id_form == 0
        &&& self.quantidade_form@ == Seq::<char>::empty()
        &&& self.motivo_form@ == Seq::<char>::empty()
        &&& self.erro_form is None
        &&& !self.carregado
    }
}

impl Default for MovimentacoesState {
    fn default() -> (r: Self)
        ensures
            r.inicial(),
    {
        MovimentacoesState {
            movimentacoes: Vec::new(),
            produtos: Vec::new(),
            modo: ModoMovimentacao::Historico,
            produto_id_form: 0,
            quantidade_form: String::new(),
            motivo_form: String::new(),
            erro_form: None,
            carregado: false,
        }
    }
}

/// Os modos que a tela oferece: histórico e entrada para todos; saída só
/// para a dona.
pub open spec fn spec_modos_disponiveis(dona: bool) -> Seq<ModoMovimentacao> {
    seq![ModoMovimentacao::Historico, ModoMovimentacao::RegistrarEntrada] + if dona {
        seq![ModoMovimentacao::RegistrarSaida]
    } else {
        Seq::<ModoMovimentacao>::empty()
    }
}

/// Os modos da tela para quem é ou não a dona.
pub fn modos_disponiveis(dona: bool) -> (r: Vec<ModoMovimentacao>)
    ensures
        r@ == spec_modos_disponiveis(dona),
{
    let mut v = Vec::new();
    v.push(ModoMovimentacao::Historico);
    v.push(ModoMovimentacao::RegistrarEntrada);
    if dona {
        v.push(ModoMovimentacao::RegistrarSaida);
    }
    assert(v@ =~= spec_modos_disponiveis(dona));
    v
}

/// Quem não é a dona não registra saídas.
pub proof fn lei_saida_so_para_dona()
    ensures
        !spec_modos_disponiveis(false).contains(ModoMovimentacao::RegistrarSaida),
        spec_modos_disponiveis(true).contains(ModoMovimentacao::RegistrarSaida),
{
    let m = spec_modos_disponiveis(false);
    assert(m.len() == 2);
    if m.contains(ModoMovimentacao::RegistrarSaida) {
        let k = choose|k: int| 0 <= k < m.len() && m[k] == ModoMovimentacao::RegistrarSaida;
        assert(k == 0 || k == 1);
    }
    assert(spec_modos_disponiveis(true)[2] == ModoMovimentacao::RegistrarSaida);
}

/// O texto com que um produto aparece na lista de escolha:
/// `nome (quantidade un.)`.
pub open spec fn texto_rotulo_produto(p: Produto) -> Seq<char> {
    p.nome@ + " ("@ + decimal(p.quantidade_atual as int, 0) + " un.)"@
}

/// O rótulo de um produto na lista de escolha.
pub fn rotulo_produto(p: &Produto) -> (r: String)
    ensures
        r@ == texto_rotulo_produto(*p),
{
    let mut s = p.nome.clone();
    s.append(" (");
    escrever_decimal(&mut s, p.quantidade_atual, 0);
    s.append(" un.)");
    s
}

/// Um pedido de movimentação pronto para ser registrado.
#[derive(Debug)]
pub struct PedidoMovimentacao {
    pub tipo: TipoMovimentacao,
    pub produto_id: i64,
    pub quantidade: i64,
    pub motivo: String,
    pub usuario_id: i64,
    pub usuario_nome: String,
}

/// O identificador do usuário conectado, ou 0 sem ninguém.
pub open spec fn id_do_usuario(u: Option<Usuario>) -> i64 {
    match u {
        Some(x) => x.id,
        None => 0,
    }
}

/// O nome do usuário conectado, ou vazio sem ninguém.
pub open spec fn nome_do_usuario(u: Option<Usuario>) -> Seq<char> {
    match u {
        Some(x) => x.nome@,
        None => Seq::<char>::empty(),
    }
}

impl App {
    /// O primeiro passo de registrar uma movimentação do tipo `tipo` com o que
    /// está no formulário: sem produto escolhido, ou com uma quantidade que não
    /// é um inteiro, o formulário mostra o erro; senão sai o pedido, com o
    /// motivo sem espaços nas pontas e o usuário conectado.
    pub fn preparar_registro(&mut self, tipo: TipoMovimentacao) -> (r: Option<PedidoMovimentacao>)
        ensures
            ({
                let s = old(self).movimentacoes_state;
                let lida = leitura_i64(aparado(s.quantidade_form@));
                if s.produto_id_form == 0 || lida is None {
                    &&& r is None
                    &&& final(self).movimentacoes_state.erro_form matches Some(e) && e@ == if s.produto_id_form == 0 {
                        "Selecione um produto."@
                    } else {
                        "Quantidade inválida."@
                    }
                    &&& *final(self) == App {
                        movimentacoes_state: MovimentacoesState {
                            erro_form: final(self).movimentacoes_state.erro_form,
                            ..s
                        },
                        ..*old(self)
                    }
                } else {
                    &&& *final(self) == *old(self)
                    &&& r matches Some(p)
                    &&& p.tipo == tipo
                    &&& p.produto_id == s.produto_id_form
                    &&& p.quantidade == lida->0
                    &&& p.motivo@ == aparado(s.motivo_form@)
                    &&& p.usuario_id == id_do_usuario(old(self).usuario_atual)
                    &&& p.usuario_nome@ == nome_do_usuario(old(self).usuario_atual)
                }
            }),
    {
        let produto_id = self.movimentacoes_state.produto_id_form;
        if produto_id == 0 {
            self.movimentacoes_state.erro_form = Some(String::from_str("Selecione um produto."));
            return None;
        }
        let texto_qtd = aparar(self.movimentacoes_state.quantidade_form.as_str());
        let quantidade = match ler_i64(texto_qtd.as_str()) {
            Some(v) => v,
            None => {
                self.movimentacoes_state.erro_form = Some(String::from_str("Quantidade inválida."));
                return None;
            },
        };
        let motivo = aparar(self.movimentacoes_state.motivo_form.as_str());
        let (usuario_id, usuario_nome) = match &self.usuario_atual {
            Some(u) => (u.id, u.nome.clone()),
            None => (0, String::new()),
        };
        Some(PedidoMovimentacao { tipo, produto_id, quantidade, motivo, usuario_id, usuario_nome })
    }

    /// Aplica o resultado do registro: em caso de sucesso avisa, limpa o
    /// formulário e volta ao histórico (que deve ser carregado de novo); numa
    /// falha mostra a mensagem no formulário.
    pub fn concluir_registro(&mut self, resultado: Result<(), String>)
        ensures
            (match resultado {
                Ok(_) => {
                    &&& aviso_eh(*final(self), "Movimentação registrada com sucesso."@, false)
                    &&& final(self).movimentacoes_state.quantidade_form@ == Seq::<char>::empty()
                    &&& final(self).movimentacoes_state.motivo_form@ == Seq::<char>::empty()
                    &&& *final(self) == App {
                        feedback: final(self).feedback,
                        movimentacoes_state: MovimentacoesState {
                            quantidade_form: final(self).movimentacoes_state.quantidade_form,
                            motivo_form: final(self).movimentacoes_state.motivo_form,
                            produto_id_form: 0,
                            erro_form: None,
                            modo: ModoMovimentacao::Historico,
                            ..old(self).movimentacoes_state
                        },
                        ..*old(self)
                    }
                },
                Err(m) => *final(self) == App {
                    movimentacoes_state: MovimentacoesState {
                        erro_form: Some(m),
                        ..old(self).movimentacoes_state
                    },
                    ..*old(self)
                },
            }),
    {
        match resultado {
            Ok(_) => {
                self.set_feedback("Movimentação registrada com sucesso.", false);
                self.movimentacoes_state.quantidade_form = String::new();
                self.movimentacoes_state.motivo_form = String::new();
                self.movimentacoes_state.produto_id_form = 0;
                self.movimentacoes_state.erro_form = None;
                self.movimentacoes_state.modo = ModoMovimentacao::Historico;
            },
            Err(m) => {
                self.movimentacoes_state.erro_form = Some(m);
            },
        }
    }
}

/// Os modos da tela por perfil: todos veem o histórico (primeiro) e
/// registram entradas; só a dona registra saídas; nenhum modo aparece duas
/// vezes, e não há outros.
pub proof fn lei_modos_por_perfil(dona: bool)
    ensures
        spec_modos_disponiveis(dona)[0] == ModoMovimentacao::Historico,
        spec_modos_disponiveis(dona).contains(ModoMovimentacao::Historico),
        spec_modos_disponiveis(dona).contains(ModoMovimentacao::RegistrarEntrada),
        spec_modos_disponiveis(dona).contains(ModoMovimentacao::RegistrarSaida) <==> dona,
        spec_modos_disponiveis(dona).no_duplicates(),
        spec_modos_disponiveis(dona).len() == if dona {
            3int
        } else {
            2int
        },
{
    let m = spec_modos_disponiveis(dona);
    if dona {
        assert(m =~= seq![
            ModoMovimentacao::Historico,
            ModoMovimentacao::RegistrarEntrada,
            ModoMovimentacao::RegistrarSaida,
        ]);
        assert(m[2] == ModoMovimentacao::RegistrarSaida);
    } else {
        assert(m =~= seq![ModoMovimentacao::Historico, ModoMovimentacao::RegistrarEntrada]);
        if m.contains(ModoMovimentacao::RegistrarSaida) {
            let k = choose|k: int| 0 <= k < m.len() && m[k] == ModoMovimentacao::RegistrarSaida;
            assert(k == 0 || k == 1);
        }
    }
    assert(m[0] == ModoMovimentacao::Historico);
    assert(m[1] == ModoMovimentacao::RegistrarEntrada);
}

} // verus!
