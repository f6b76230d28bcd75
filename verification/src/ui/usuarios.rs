//! A tela de usuários: lista, criação de funcionários e exclusão.

use vstd::prelude::*;
use vstd::utf8::encode_utf8;

use crate::autenticacao::spec_autenticar;
use crate::dominio::{PerfilUsuario, Usuario};
use crate::senha::{hash_de, hash_senha};
use crate::texto::{aparado, aparar};

use super::{aviso_eh, App};

verus! {

/// O que a tela de usuários mostra.
#[derive(Clone, Copy, Debug, PartialEq, Eq, Structural)]
pub enum ModoUsuarios {
    Lista,
    Novo,
}

impl Default for ModoUsuarios {
    fn default() -> (r: Self)
        ensures
            r == ModoUsuarios::Lista,
    {
        ModoUsuarios::Lista
    }
}

/// O formulário de novo usuário.
pub struct UsuarioForm {
    pub nome: String,
    pub login: String,
    pub senha: String,
    pub senha_confirma: String,
}

impl UsuarioForm {
    /// O formulário em branco.
    pub open spec fn em_branco(self) -> bool {
        &&& self.nome@ == Seq::<char>::empty()
        &&& self.login@ == Seq::<char>::empty()
        &&& self.senha@ == Seq::<char>::empty()
        &&& self.senha_confirma@ == Seq::<char>::empty()
    }
}

impl Default for UsuarioForm {
    fn default() -> (r: Self)
        ensures
            r.em_branco(),
    {
        UsuarioForm {
            nome: String::new(),
            login: String::new(),
            senha: String::new(),
            senha_confirma: String::new(),
        }
    }
}

/// O estado da tela de usuários.
pub struct UsuariosState {
    pub usuarios: Vec<Usuario>,
    pub modo: ModoUsuarios,
    pub form: UsuarioForm,
    pub confirmar_delete_id: Option<i64>,
    pub confirmando: bool,
    pub erro_form: Option<String>,
    pub carregado: bool,
}

impl UsuariosState {
    /// O estado antes de a tela ser aberta.
    pub open spec fn inicial(self) -> bool {
        &&& self.usuarios@.len() == 0
        &&& self.modo == ModoUsuarios::Lista
        &&& self.form.em_branco()
        &&& self.confirmar_delete_id is None
        &&& !self.confirmando
        &&& self.erro_form is None
        &&& !self.carregado
    }
}

impl Default for UsuariosState {
    fn default() -> (r: Self)
        ensures
            r.inicial(),
    {
        UsuariosState {
            usuarios: Vec::new(),
            modo: ModoUsuarios::Lista,
            form: UsuarioForm::default(),
            confirmar_delete_id: None,
            confirmando: false,
            erro_form: None,
            carregado: false,
        }
    }
}

/// A validação do formulário, na ordem em que os erros são procurados: nome e
/// login (sem espaços nas pontas) não vazios, senha com ao menos 6 bytes e
/// igual à confirmação. Sem erro, dá o nome e o login aparados.
pub open spec fn spec_validar_usuario(f: UsuarioForm) -> Result<(Seq<char>, Seq<char>), Seq<char>> {
    let nome = aparado(f.nome@);
    let login = aparado(f.login@);
    if nome.len() == 0 {
        Err("Nome é obrigatório."@)
    } else if login.len() == 0 {
        Err("Login é obrigatório."@)
    } else if encode_utf8(f.senha@).len() < 6 {
        Err("Senha deve ter pelo menos 6 caracteres."@)
    } else if f.senha@ != f.senha_confirma@ {
        Err("As senhas não coincidem."@)
    } else {
        Ok((nome, login))
    }
}

impl UsuarioForm {
    /// Valida o formulário de novo usuário.
    pub fn validar(&self) -> (r: Result<(String, String), String>)
        ensures
            (match spec_validar_usuario(*self) {
                Ok(c) => r matches Ok(d) && d.0@ == c.0 && d.1@ == c.1,
                Err(m) => r matches Err(e) && e@ == m,
            }),
    {
        let nome = aparar(self.nome.as_str());
        let login = aparar(self.login.as_str());
        if nome.as_str().is_empty() {
            return Err(String::from_str("Nome é obrigatório."));
        }
        if login.as_str().is_empty() {
            return Err(String::from_str("Login é obrigatório."));
        }
        if self.senha.as_str().as_bytes().len() < 6 {
            return Err(String::from_str("Senha deve ter pelo menos 6 caracteres."));
        }
        if self.senha != self.senha_confirma {
            return Err(String::from_str("As senhas não coincidem."));
        }
        Ok((nome, login))
    }
}

/// O usuário que o formulário cria: ainda sem identificador (0), com o hash
/// da senha e sempre com o perfil de funcionário.
pub fn novo_usuario(nome: String, login: String, senha: &str) -> (r: Usuario)
    ensures
        r.id == 0,
        r.nome == nome,
        r.login == login,
        r.senha_hash@ == hash_de(senha@),
        r.perfil == PerfilUsuario::Funcionario,
{
    Usuario { id: 0, nome, login, senha_hash: hash_senha(senha), perfil: PerfilUsuario::Funcionario }
}

/// Um usuário criado com uma senha entra com essa senha.
pub proof fn lei_novo_usuario_entra_com_sua_senha(u: Usuario, senha: Seq<char>)
    requires
        u.senha_hash@ == hash_de(senha),
    ensures
        spec_autenticar(Some(u), senha) == Some(u),
{
}

/// Na lista só se oferece excluir funcionários, e nunca o próprio usuário
/// conectado.
pub open spec fn spec_pode_excluir(alvo: Usuario, logado_id: i64) -> bool {
    alvo.perfil == PerfilUsuario::Funcionario && alvo.id != logado_id
}

/// Se a lista oferece excluir `alvo`.
pub fn pode_excluir(alvo: &Usuario, logado_id: i64) -> (r: bool)
    ensures
        r == spec_pode_excluir(*alvo, logado_id),
{
    alvo.perfil == PerfilUsuario::Funcionario && alvo.id != logado_id
}

/// A dona nunca é oferecida para exclusão, nem o usuário conectado.
pub proof fn lei_exclusao_protege_dona_e_si_mesmo(alvo: Usuario, logado_id: i64)
    ensures
        alvo.perfil == PerfilUsuario::Dona ==> !spec_pode_excluir(alvo, logado_id),
        alvo.id == logado_id ==> !spec_pode_excluir(alvo, logado_id),
{
}

impl App {
    /// O primeiro passo de criar um usuário: valida o formulário; um erro fica
    /// no formulário.
    pub fn preparar_novo_usuario(&mut self) -> (r: Option<(String, String)>)
        ensures
            (match spec_validar_usuario(old(self).usuarios_state.form) {
                Ok(c) => {
                    &&& r matches Some(d) && d.0@ == c.0 && d.1@ == c.1
                    &&& *final(self) == *old(self)
                },
                Err(m) => {
                    &&& r is None
                    &&& final(self).usuarios_state.erro_form matches Some(e) && e@ == m
                    &&& *final(self) == App {
                        usuarios_state: UsuariosState {
                            erro_form: final(self).usuarios_state.erro_form,
                            ..old(self).usuarios_state
                        },
                        ..*old(self)
                    }
                },
            }),
    {
        match self.usuarios_state.form.validar() {
            Ok(c) => Some(c),
            Err(m) => {
                self.usuarios_state.erro_form = Some(m);
                None
            },
        }
    }

    /// Confere a busca pelo login: se ele já existe, ou se a busca falhou, o
    /// erro fica no formulário e a criação para (resultado `false`).
    pub fn conferir_login_livre(&mut self, busca: Result<bool, String>) -> (r: bool)
        ensures
            r == (busca == Ok::<bool, String>(false)),
            (match busca {
                Ok(true) => final(self).usuarios_state.erro_form matches Some(e) && e@
                    == "Este login já está em uso."@,
                Err(m) => final(self).usuarios_state.erro_form matches Some(e) && e@ == "Erro: "@
                    + m@,
                Ok(false) => final(self).usuarios_state.erro_form == old(
                    self,
                ).usuarios_state.erro_form,
            }),
            *final(self) == (App {
                usuarios_state: UsuariosState {
                    erro_form: final(self).usuarios_state.erro_form,
                    ..old(self).usuarios_state
                },
                ..*old(self)
            }),
    {
        match busca {
            Ok(true) => {
                self.usuarios_state.erro_form = Some(String::from_str("Este login já está em uso."));
                false
            },
            Err(m) => {
                let mut e = String::from_str("Erro: ");
                e.append(m.as_str());
                self.usuarios_state.erro_form = Some(e);
                false
            },
            Ok(false) => true,
        }
    }

    /// Aplica o resultado de gravar o novo usuário: em caso de sucesso avisa,
    /// volta à lista com o formulário em branco (a lista deve ser carregada de
    /// novo); numa falha mostra a mensagem no formulário.
    pub fn concluir_novo_usuario(&mut self, resultado: Result<(), String>)
        ensures
            (match resultado {
                Ok(_) => {
                    &&& aviso_eh(*final(self), "Usuário criado com sucesso!"@, false)
                    &&& final(self).usuarios_state.form.em_branco()
                    &&& *final(self) == App {
                        feedback: final(self).feedback,
                        usuarios_state: UsuariosState {
                            modo: ModoUsuarios::Lista,
                            form: final(self).usuarios_state.form,
                            erro_form: None,
                            carregado: false,
                            ..old(self).usuarios_state
                        },
                        ..*old(self)
                    }
                },
                Err(m) => {
                    &&& final(self).usuarios_state.erro_form matches Some(e) && e@
                        == "Erro ao criar usuário: "@ + m@
                    &&& *final(self) == App {
                        usuarios_state: UsuariosState {
                            erro_form: final(self).usuarios_state.erro_form,
                            ..old(self).usuarios_state
                        },
                        ..*old(self)
                    }
                },
            }),
    {
        match resultado {
            Ok(_) => {
                self.set_feedback("Usuário criado com sucesso!", false);
                self.usuarios_state.modo = ModoUsuarios::Lista;
                self.usuarios_state.form = UsuarioForm::default();
                self.usuarios_state.erro_form = None;
                self.usuarios_state.carregado = false;
            },
            Err(m) => {
                let mut e = String::from_str("Erro ao criar usuário: ");
                e.append(m.as_str());
                self.usuarios_state.erro_form = Some(e);
            },
        }
    }

    /// Aplica o resultado de excluir um usuário confirmado: avisa (a lista
    /// deve ser carregada de novo após o sucesso) e esquece qual era o alvo.
    pub fn concluir_excluir_usuario(&mut self, resultado: Result<(), String>)
        ensures
            (match resultado {
                Ok(_) => aviso_eh(*final(self), "Usuário excluído."@, false)
                    && !final(self).usuarios_state.carregado,
                Err(m) => aviso_eh(*final(self), "Erro: "@ + m@, true)
                    && final(self).usuarios_state.carregado == old(self).usuarios_state.carregado,
            }),
            *final(self) == (App {
                feedback: final(self).feedback,
                usuarios_state: UsuariosState {
                    carregado: final(self).usuarios_state.carregado,
                    confirmar_delete_id: None,
                    ..old(self).usuarios_state
                },
                ..*old(self)
            }),
    {
        match resultado {
            Ok(_) => {
                self.set_feedback("Usuário excluído.", false);
                self.usuarios_state.carregado = false;
            },
            Err(m) => {
                let mut e = String::from_str("Erro: ");
                e.append(m.as_str());
                self.set_feedback(e.as_str(), true);
            },
        }
        self.usuarios_state.confirmar_delete_id = None;
    }
}

/// A senha precisa coincidir com a confirmação: um formulário aceito tem nome
/// e login não vazios (sem espaços nas pontas), senha de ao menos 6 bytes e
/// senha igual à confirmação; com os três primeiros atendidos, uma
/// confirmação diferente da senha, de qualquer tamanho, é recusada com "As
/// senhas não coincidem.".
pub proof fn lei_senhas_devem_coincidir(f: UsuarioForm)
    ensures
        spec_validar_usuario(f) is Ok ==> {
            &&& aparado(f.nome@).len() > 0
            &&& aparado(f.login@).len() > 0
            &&& encode_utf8(f.senha@).len() >= 6
            &&& f.senha@ == f.senha_confirma@
        },
        aparado(f.nome@).len() > 0 && aparado(f.login@).len() > 0 && encode_utf8(f.senha@).len()
            >= 6 && f.senha@ != f.senha_confirma@ ==> spec_validar_usuario(f) == Err::<
            (Seq<char>, Seq<char>),
            Seq<char>,
        >("As senhas não coincidem."@),
        spec_validar_usuario(f) matches Ok(c) ==> c.0 == aparado(f.nome@) && c.1 == aparado(
            f.login@,
        ),
{
}

} // verus!
