//! A tela de entrada: login e senha.

use vstd::prelude::*;

use crate::dominio::Usuario;
use crate::texto::aparar;
use crate::texto::aparado;

use super::{navegado, App, Tela};

verus! {

/// O que foi digitado na tela de entrada e o erro da última tentativa.
pub struct LoginState {
    pub login: String,
    pub senha: String,
    pub erro: Option<String>,
}

impl LoginState {
    /// A tela de entrada em branco.
    pub open spec fn em_branco(self) -> bool {
        &&& self.login@ == Seq::<char>::empty()
        &&& self.senha@ == Seq::<char>::empty()
        &&& self.erro is None
    }
}

impl Default for LoginState {
    fn default() -> (r: Self)
        ensures
            r.em_branco(),
    {
        LoginState { login: String::new(), senha: String::new(), erro: None }
    }
}

impl App {
    /// O login (sem espaços nas pontas) e a senha com que se tenta entrar.
    pub fn credenciais_login(&self) -> (r: (String, String))
        ensures
            r.0@ == aparado(self.login_state.login@),
            r.1@ == self.login_state.senha@,
    {
        (aparar(self.login_state.login.as_str()), self.login_state.senha.clone())
    }

    /// Aplica o resultado de uma tentativa de entrada: com o usuário
    /// autenticado, entra no painel com a tela de entrada em branco; sem ele,
    /// mostra o erro. `Err` traz a mensagem de uma falha de acesso ao banco.
    pub fn concluir_login(&mut self, resultado: Result<Option<Usuario>, String>)
        ensures
            (match resultado {
                Ok(Some(u)) => {
                    &&& final(self).login_state.em_branco()
                    &&& *final(self) == navegado(
                        App {
                            usuario_atual: Some(u),
                            login_state: final(self).login_state,
                            ..*old(self)
                        },
                        Tela::Dashboard,
                    )
                },
                Ok(None) => {
                    &&& final(self).login_state.erro matches Some(e) && e@
                        == "Login ou senha incorretos."@
                    &&& *final(self) == App {
                        login_state: LoginState {
                            erro: final(self).login_state.erro,
                            ..old(self).login_state
                        },
                        ..*old(self)
                    }
                },
                Err(m) => {
                    &&& final(self).login_state.erro matches Some(e) && e@ == "Erro: "@ + m@
                    &&& *final(self) == App {
                        login_state: LoginState {
                            erro: final(self).login_state.erro,
                            ..old(self).login_state
                        },
                        ..*old(self)
                    }
                },
            }),
    {
        match resultado {
            Ok(Some(usuario)) => {
                self.usuario_atual = Some(usuario);
                self.login_state = LoginState::default();
                self.on_navigate(Tela::Dashboard);
            },
            Ok(None) => {
                self.login_state.erro = Some(String::from_str("Login ou senha incorretos."));
            },
            Err(m) => {
                let mut e = String::from_str("Erro: ");
                e.append(m.as_str());
                self.login_state.erro = Some(e);
            },
        }
    }
}

} // verus!
