//! O estado das telas da aplicação e as decisões que elas tomam; desenhar as
//! telas e falar com o banco fica com a aplicação.

pub mod categorias;
pub mod dashboard;
pub mod login;
pub mod movimentacoes;
pub mod produtos;
pub mod relatorios;
pub mod usuarios;

use vstd::prelude::*;

use crate::dominio::{PerfilUsuario, Usuario};

use self::categorias::CategoriasState;
use self::dashboard::DashboardState;
use self::login::LoginState;
use self::movimentacoes::MovimentacoesState;
use self::produtos::ProdutosState;
use self::relatorios::RelatoriosState;
use self::usuarios::UsuariosState;

verus! {

/// As telas da aplicação.
#[derive(Clone, Copy, Debug, PartialEq, Eq, Structural)]
pub enum Tela {
    Login,
    Dashboard,
    Produtos,
    Categorias,
    Movimentacoes,
    Relatorios,
    Usuarios,
}

/// O estado da aplicação: a tela atual, quem está conectado, o tema, o estado
/// de cada tela e o aviso do momento (mensagem e se é um erro).
pub struct App {
    pub tela_atual: Tela,
    pub usuario_atual: Option<Usuario>,
    pub dark_mode: bool,
    pub login_state: LoginState,
    pub dashboard_state: DashboardState,
    pub produtos_state: ProdutosState,
    pub categorias_state: CategoriasState,
    pub movimentacoes_state: MovimentacoesState,
    pub relatorios_state: RelatoriosState,
    pub usuarios_state: UsuariosState,
    pub feedback: Option<(String, bool)>,
}

/// O aviso de `a` é a mensagem `msg`, marcada como erro ou não.
pub open spec fn aviso_eh(a: App, msg: Seq<char>, erro: bool) -> bool {
    a.feedback matches Some(f) && f.0@ == msg && f.1 == erro
}

/// O estado depois de ir para a tela `tela`: ela passa a ser a atual e o seu
/// conteúdo é marcado para ser carregado de novo.
pub open spec fn navegado(a: App, tela: Tela) -> App {
    let b = App { tela_atual: tela, ..a };
    match tela {
        Tela::Dashboard => App {
            dashboard_state: DashboardState { carregado: false, ..a.dashboard_state },
            ..b
        },
        Tela::Produtos => App {
            produtos_state: ProdutosState { carregado: false, ..a.produtos_state },
            ..b
        },
        Tela::Categorias => App {
            categorias_state: CategoriasState { carregado: false, ..a.categorias_state },
            ..b
        },
        Tela::Movimentacoes => App {
            movimentacoes_state: MovimentacoesState { carregado: false, ..a.movimentacoes_state },
            ..b
        },
        Tela::Relatorios => App {
            relatorios_state: RelatoriosState {
                carregado_estoque: false,
                carregado_mensal: false,
                ..a.relatorios_state
            },
            ..b
        },
        Tela::Usuarios => App {
            usuarios_state: UsuariosState { carregado: false, ..a.usuarios_state },
            ..b
        },
        Tela::Login => b,
    }
}

/// O usuário conectado tem o perfil `Dona`.
pub open spec fn spec_eh_dona(usuario: Option<Usuario>) -> bool {
    usuario matches Some(u) && u.perfil == PerfilUsuario::Dona
}

/// As telas que o menu lateral oferece: as quatro de todos e, só para a
/// dona, relatórios e usuários.
pub open spec fn spec_itens_navegacao(dona: bool) -> Seq<Tela> {
    seq![Tela::Dashboard, Tela::Produtos, Tela::Categorias, Tela::Movimentacoes] + if dona {
        seq![Tela::Relatorios, Tela::Usuarios]
    } else {
        Seq::<Tela>::empty()
    }
}

impl App {
    /// O estado inicial: a tela de entrada, ninguém conectado, tema claro,
    /// todas as telas no estado inicial (a de relatórios é a dada, que depende
    /// da data de hoje) e nenhum aviso.
    pub fn new(relatorios_state: RelatoriosState) -> (r: Self)
        ensures
            r.tela_atual == Tela::Login,
            r.usuario_atual is None,
            !r.dark_mode,
            r.login_state.em_branco(),
            r.dashboard_state.inicial(),
            r.produtos_state.inicial(),
            r.categorias_state.inicial(),
            r.movimentacoes_state.inicial(),
            r.relatorios_state == relatorios_state,
            r.usuarios_state.inicial(),
            r.feedback is None,
    {
        App {
            tela_atual: Tela::Login,
            usuario_atual: None,
            dark_mode: false,
            login_state: LoginState::default(),
            dashboard_state: DashboardState::default(),
            produtos_state: ProdutosState::default(),
            categorias_state: CategoriasState::default(),
            movimentacoes_state: MovimentacoesState::default(),
            relatorios_state,
            usuarios_state: UsuariosState::default(),
            feedback: None,
        }
    }

    /// Vai para a tela `tela`.
    pub fn on_navigate(&mut self, tela: Tela)
        ensures
            *final(self) == navegado(*old(self), tela),
    {
        self.tela_atual = tela;
        match tela {
            Tela::Dashboard => self.dashboard_state.carregado = false,
            Tela::Produtos => self.produtos_state.carregado = false,
            Tela::Categorias => self.categorias_state.carregado = false,
            Tela::Movimentacoes => self.movimentacoes_state.carregado = false,
            Tela::Relatorios => {
                self.relatorios_state.carregado_estoque = false;
                self.relatorios_state.carregado_mensal = false;
            },
            Tela::Usuarios => self.usuarios_state.carregado = false,
            Tela::Login => {},
        }
    }

    /// Mostra um aviso; o tempo que ele fica na tela é contado pela
    /// aplicação.
    pub fn set_feedback(&mut self, msg: &str, is_error: bool)
        ensures
            aviso_eh(*final(self), msg@, is_error),
            *final(self) == (App { feedback: final(self).feedback, ..*old(self) }),
    {
        self.feedback = Some((String::from_str(msg), is_error));
    }

    /// O usuário conectado é a dona.
    pub fn eh_dona(&self) -> (r: bool)
        ensures
            r == spec_eh_dona(self.usuario_atual),
    {
        match &self.usuario_atual {
            Some(u) => u.perfil == PerfilUsuario::Dona,
            None => false,
        }
    }

    /// As telas do menu lateral para o usuário conectado.
    pub fn itens_navegacao(&self) -> (r: Vec<Tela>)
        ensures
            r@ == spec_itens_navegacao(spec_eh_dona(self.usuario_atual)),
    {
        let mut v = Vec::new();
        v.push(Tela::Dashboard);
        v.push(Tela::Produtos);
        v.push(Tela::Categorias);
        v.push(Tela::Movimentacoes);
        if self.eh_dona() {
            v.push(Tela::Relatorios);
            v.push(Tela::Usuarios);
        }
        assert(v@ =~= spec_itens_navegacao(spec_eh_dona(self.usuario_atual)));
        v
    }

    /// Sai da sessão: ninguém conectado, de volta à tela de entrada.
    pub fn sair(&mut self)
        ensures
            *final(self) == (App { usuario_atual: None, tela_atual: Tela::Login, ..*old(self) }),
    {
        self.usuario_atual = None;
        self.tela_atual = Tela::Login;
    }
}

/// Ir duas vezes para a mesma tela é o mesmo que ir uma vez.
pub proof fn lei_navegacao_idempotente(a: App, tela: Tela)
    ensures
        navegado(navegado(a, tela), tela) == navegado(a, tela),
{
}

/// Ir para uma tela a torna a atual e a marca para recarregar, sem mexer em
/// quem está conectado, no tema nem no aviso.
pub proof fn lei_navegacao_recarrega(a: App, tela: Tela)
    ensures
        navegado(a, tela).tela_atual == tela,
        navegado(a, tela).usuario_atual == a.usuario_atual,
        navegado(a, tela).dark_mode == a.dark_mode,
        navegado(a, tela).feedback == a.feedback,
        tela == Tela::Dashboard ==> !navegado(a, tela).dashboard_state.carregado,
        tela == Tela::Produtos ==> !navegado(a, tela).produtos_state.carregado,
        tela == Tela::Categorias ==> !navegado(a, tela).categorias_state.carregado,
        tela == Tela::Movimentacoes ==> !navegado(a, tela).movimentacoes_state.carregado,
        tela == Tela::Relatorios ==> !navegado(a, tela).relatorios_state.carregado_estoque
            && !navegado(a, tela).relatorios_state.carregado_mensal,
        tela == Tela::Usuarios ==> !navegado(a, tela).usuarios_state.carregado,
{
}

/// Só a dona vê relatórios e usuários no menu; a dona vê todas as telas
/// exceto a de entrada.
pub proof fn lei_menu_por_perfil(usuario: Option<Usuario>)
    ensures
        !spec_eh_dona(usuario) ==> !spec_itens_navegacao(spec_eh_dona(usuario)).contains(
            Tela::Relatorios,
        ) && !spec_itens_navegacao(spec_eh_dona(usuario)).contains(Tela::Usuarios),
        spec_eh_dona(usuario) ==> forall|t: Tela|
            t != Tela::Login ==> #[trigger] spec_itens_navegacao(spec_eh_dona(usuario)).contains(t),
        !spec_itens_navegacao(spec_eh_dona(usuario)).contains(Tela::Login),
{
    let itens = spec_itens_navegacao(spec_eh_dona(usuario));
    if spec_eh_dona(usuario) {
        assert forall|t: Tela| t != Tela::Login implies #[trigger] itens.contains(t) by {
            let k: int = match t {
                Tela::Dashboard => 0,
                Tela::Produtos => 1,
                Tela::Categorias => 2,
                Tela::Movimentacoes => 3,
                Tela::Relatorios => 4,
                Tela::Usuarios => 5,
                Tela::Login => 0,
            };
            assert(itens[k] == t);
        }
    } else {
        assert(itens.len() == 4);
        assert(!itens.contains(Tela::Relatorios) && !itens.contains(Tela::Usuarios)) by {
            if itens.contains(Tela::Relatorios) {
                let k = choose|k: int| 0 <= k < itens.len() && itens[k] == Tela::Relatorios;
                assert(k == 0 || k == 1 || k == 2 || k == 3);
            }
            if itens.contains(Tela::Usuarios) {
                let k = choose|k: int| 0 <= k < itens.len() && itens[k] == Tela::Usuarios;
                assert(k == 0 || k == 1 || k == 2 || k == 3);
            }
        }
    }
    if itens.contains(Tela::Login) {
        let k = choose|k: int| 0 <= k < itens.len() && itens[k] == Tela::Login;
        assert(0 <= k < 6);
    }
}

/// Um passo da janela de confirmação: fechada, nada acontece; aberta,
/// "Confirmar" confirma e fecha, "Cancelar" fecha sem confirmar. Devolve se
/// confirmou e se a janela continua aberta.
pub fn passo_confirmacao(aberto: bool, confirmar: bool, cancelar: bool) -> (r: (bool, bool))
    ensures
        r.0 == (aberto && confirmar),
        r.1 == (aberto && !confirmar && !cancelar),
{
    if !aberto {
        return (false, false);
    }
    (confirmar, !(confirmar || cancelar))
}

} // verus!
